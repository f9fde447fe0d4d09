//! Comparing two physical devices, and choosing the best of many.

use crate::gfx::device::{
    best_index, is_best, leads_at, lemma_leader_is_best, select, PhysicalDevice, SelectionError,
};
use std::cmp::Ordering;
use vstd::prelude::*;

verus! {

impl PhysicalDevice {
    /// The order of two devices by rank: `Less` where `self` is the better
    /// one, `Equal` where neither is better.
    pub fn cmp(&self, other: &Self) -> (order: Ordering)
        ensures
            order == Ordering::Less <==> self.rank() < other.rank(),
            order == Ordering::Equal <==> self.rank() == other.rank(),
            order == Ordering::Greater <==> self.rank() > other.rank(),
    {
        let mine = self.rank_value();
        let theirs = other.rank_value();
        if mine < theirs {
            Ordering::Less
        } else if mine == theirs {
            Ordering::Equal
        } else {
            Ordering::Greater
        }
    }

    /// The order of two devices by rank; any two devices are comparable.
    pub fn partial_cmp(&self, other: &Self) -> (order: Option<Ordering>)
        ensures
            order == Some(Ordering::Less) <==> self.rank() < other.rank(),
            order == Some(Ordering::Equal) <==> self.rank() == other.rank(),
            order == Some(Ordering::Greater) <==> self.rank() > other.rank(),
    {
        Some(self.cmp(other))
    }
}

/// Chooses among the enumerated devices. The best device is returned: the
/// first, in the order of enumeration, among those of the best rank. The
/// choice fails where nothing was enumerated, and where the best device, and
/// so every device, lacks a queue family that takes graphics work.
pub fn select_physical_device(devs: Vec<PhysicalDevice>) -> (chosen: Result<
    PhysicalDevice,
    SelectionError,
>)
    ensures
        chosen == select(devs@),
        devs@.len() > 0 ==> is_best(devs@, best_index(devs@)),
{
    let mut devs = devs;
    let ghost all = devs@;
    if devs.len() == 0 {
        return Err(SelectionError::NoDevices);
    }
    let mut best: usize = 0;
    let mut next: usize = 1;
    while next < devs.len()
        invariant
            devs@ == all,
            leads_at(all, best, next),
        decreases devs.len() - next,
    {
        match devs[next].cmp(&devs[best]) {
            Ordering::Less => {
                best = next;
            },
            _ => {},
        }
        next += 1;
    }
    proof {
        lemma_leader_is_best(all, best);
    }
    let leader = devs.swap_remove(best);
    if leader.gfx_queue_idx.is_none() {
        Err(SelectionError::NoGraphicsDevice)
    } else {
        Ok(leader)
    }
}

} // verus!
