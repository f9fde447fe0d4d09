//! Physical graphics devices: what is recorded of each, how they are ranked,
//! and which one is chosen.

use crate::logger::IdioError;
use vstd::prelude::*;
use vulkanalia::vk;

verus! {

/// The outside type `vulkanalia::vk::PhysicalDeviceFeatures`: the feature set
/// that a physical device reports. The library carries it and never looks
/// inside.
#[verifier::external_type_specification]
#[verifier::external_body]
pub struct ExPhysicalDeviceFeatures(vulkanalia::vk::PhysicalDeviceFeatures);

/// The kind of hardware behind a physical device.
#[derive(Clone, Copy, Debug, PartialEq, Eq, Structural)]
pub enum DeviceCategory {
    Other,
    Integrated,
    Discrete,
    Virtual,
    Cpu,
}

impl DeviceCategory {
    /// The category that the graphics API's device-type number stands for:
    /// 1 integrated, 2 discrete, 3 virtual, 4 CPU, anything else other.
    pub open spec fn of_raw(raw: i32) -> DeviceCategory {
        if raw == 1 {
            DeviceCategory::Integrated
        } else if raw == 2 {
            DeviceCategory::Discrete
        } else if raw == 3 {
            DeviceCategory::Virtual
        } else if raw == 4 {
            DeviceCategory::Cpu
        } else {
            DeviceCategory::Other
        }
    }

    /// The category that the graphics API's device-type number stands for.
    pub fn from_raw(raw: i32) -> (category: DeviceCategory)
        ensures
            category == DeviceCategory::of_raw(raw),
    {
        if raw == 1 {
            DeviceCategory::Integrated
        } else if raw == 2 {
            DeviceCategory::Discrete
        } else if raw == 3 {
            DeviceCategory::Virtual
        } else if raw == 4 {
            DeviceCategory::Cpu
        } else {
            DeviceCategory::Other
        }
    }
}

/// Whether a queue family with these capability flags takes graphics work:
/// the lowest bit of the flags is the graphics bit.
pub open spec fn has_graphics(flags: u32) -> bool {
    flags & 1 == 1
}

/// `vulkanalia::vk::QueueFlags::contains`, asked for `QueueFlags::GRAPHICS`, on
/// the flags that `QueueFlags::from_bits_truncate` makes of the number: true
/// exactly when the graphics bit, the lowest one, is set. Truncation drops
/// only bits above the five that the crate defines.
#[verifier::external_body]
fn supports_graphics(flags: u32) -> (yes: bool)
    ensures
        yes == has_graphics(flags),
{
    vk::QueueFlags::from_bits_truncate(flags).contains(vk::QueueFlags::GRAPHICS)
}

/// Whether `at` is the first queue family that takes graphics work.
pub open spec fn is_first_graphics(families: Seq<u32>, at: int) -> bool {
    &&& 0 <= at < families.len()
    &&& has_graphics(families[at])
    &&& forall|j: int| 0 <= j < at ==> !has_graphics(#[trigger] families[j])
}

/// Whether no queue family takes graphics work.
pub open spec fn no_graphics(families: Seq<u32>) -> bool {
    forall|j: int| 0 <= j < families.len() ==> !has_graphics(#[trigger] families[j])
}

/// The index of the first queue family that takes graphics work, given each
/// family's capability flags in the order the device lists them. The
/// graphics API counts queue families in 32 bits, and so must the caller.
pub fn find_graphics_queue(families: &Vec<u32>) -> (found: Option<u32>)
    requires
        families.len() <= u32::MAX,
    ensures
        match found {
            Some(at) => is_first_graphics(families@, at as int),
            None => no_graphics(families@),
        },
{
    let mut at: usize = 0;
    while at < families.len()
        invariant
            at <= families.len() <= u32::MAX,
            forall|j: int| 0 <= j < at ==> !has_graphics(#[trigger] families@[j]),
        decreases families.len() - at,
    {
        if supports_graphics(families[at]) {
            return Some(at as u32);
        }
        at += 1;
    }
    None
}

/// What is recorded of a physical device when the devices are enumerated.
#[derive(Debug)]
pub struct PhysicalDevice {
    /// The graphics API's handle to the device, as a number.
    pub handle: usize,
    pub features: vk::PhysicalDeviceFeatures,
    /// The name the device reports of itself.
    pub name: String,
    pub device_type: DeviceCategory,
    /// The first queue family that takes graphics work, if there is one.
    pub gfx_queue_idx: Option<u32>,
}

impl PhysicalDevice {
    /// Whether the device has a queue family that takes graphics work.
    pub open spec fn graphics_capable(self) -> bool {
        self.gfx_queue_idx is Some
    }

    /// The device's place in the ranking, 0 being best. A device without a
    /// graphics queue is worst, whatever its category. Among those with one,
    /// a CPU device is worst and a discrete device best.
    pub open spec fn rank(self) -> int {
        if self.gfx_queue_idx is None {
            3
        } else if self.device_type == DeviceCategory::Cpu {
            2
        } else if self.device_type == DeviceCategory::Discrete {
            0
        } else {
            1
        }
    }

    /// The record of a device from what was probed of it: its handle, its
    /// feature set, its name, the number of its device type, and the
    /// capability flags of its queue families in the order it lists them,
    /// which the graphics API counts in 32 bits.
    pub fn from(
        handle: usize,
        features: vk::PhysicalDeviceFeatures,
        name: String,
        device_type: i32,
        queue_families: &Vec<u32>,
    ) -> (device: PhysicalDevice)
        requires
            queue_families.len() <= u32::MAX,
        ensures
            device.handle == handle,
            device.features == features,
            device.name == name,
            device.device_type == DeviceCategory::of_raw(device_type),
            match device.gfx_queue_idx {
                Some(at) => is_first_graphics(queue_families@, at as int),
                None => no_graphics(queue_families@),
            },
    {
        PhysicalDevice {
            handle,
            features,
            name,
            device_type: DeviceCategory::from_raw(device_type),
            gfx_queue_idx: find_graphics_queue(queue_families),
        }
    }

    /// The device's place in the ranking, 0 being best.
    pub fn rank_value(&self) -> (rank: u8)
        ensures
            rank == self.rank(),
    {
        if self.gfx_queue_idx.is_none() {
            3
        } else {
            match self.device_type {
                DeviceCategory::Cpu => 2,
                DeviceCategory::Discrete => 0,
                _ => 1,
            }
        }
    }
}

/// Why no device was chosen.
#[derive(Clone, Copy, Debug, PartialEq, Eq, Structural)]
pub enum SelectionError {
    /// No device was enumerated at all.
    NoDevices,
    /// Devices were enumerated, and none has a queue family that takes
    /// graphics work.
    NoGraphicsDevice,
}

impl SelectionError {
    /// The words in which the failure is reported.
    pub open spec fn reason(self) -> Seq<char> {
        match self {
            SelectionError::NoDevices => "No supported GPUs found"@,
            SelectionError::NoGraphicsDevice => "No GPU with graphics support found"@,
        }
    }

    /// The failure as one of the library's errors: a critical one, with
    /// `reason` for its words.
    pub fn into_error(self) -> (error: IdioError)
        ensures
            error matches IdioError::Critical(words) && words@ == self.reason(),
    {
        match self {
            SelectionError::NoDevices => IdioError::Critical("No supported GPUs found"),
            SelectionError::NoGraphicsDevice => IdioError::Critical(
                "No GPU with graphics support found",
            ),
        }
    }
}

/// Whether the device at `best` leads the first `upto` devices: none of them
/// ranks better, and every one before it ranks strictly worse.
pub open spec fn leads(devs: Seq<PhysicalDevice>, best: int, upto: int) -> bool {
    &&& 0 <= best < upto <= devs.len()
    &&& forall|j: int| 0 <= j < upto ==> devs[best].rank() <= (#[trigger] devs[j]).rank()
    &&& forall|j: int| 0 <= j < best ==> devs[best].rank() < (#[trigger] devs[j]).rank()
}

/// Whether the device at `at` is the best of all: the first among those of the
/// best rank that occurs.
pub open spec fn is_best(devs: Seq<PhysicalDevice>, at: int) -> bool {
    leads(devs, at, devs.len() as int)
}

/// The index of the best device. It is meaningful where there is a device.
pub open spec fn best_index(devs: Seq<PhysicalDevice>) -> int {
    choose|at: int| is_best(devs, at)
}

/// The outcome of choosing among the enumerated devices: the best device,
/// unless there is none or the best cannot do graphics work. As a device
/// without a graphics queue ranks below every device with one, the best lacks
/// one only where all do.
pub open spec fn select(devs: Seq<PhysicalDevice>) -> Result<PhysicalDevice, SelectionError> {
    if devs.len() == 0 {
        Err(SelectionError::NoDevices)
    } else if !devs[best_index(devs)].graphics_capable() {
        Err(SelectionError::NoGraphicsDevice)
    } else {
        Ok(devs[best_index(devs)])
    }
}

/// `leads` over machine-sized indices.
pub open spec fn leads_at(devs: Seq<PhysicalDevice>, best: usize, upto: usize) -> bool {
    leads(devs, best as int, upto as int)
}

/// At most one device is the best.
pub proof fn lemma_best_unique(devs: Seq<PhysicalDevice>, a: int, b: int)
    requires
        is_best(devs, a),
        is_best(devs, b),
    ensures
        a == b,
{
    if a < b {
        assert(devs[b].rank() < devs[a].rank());
        assert(devs[a].rank() <= devs[b].rank());
    } else if b < a {
        assert(devs[a].rank() < devs[b].rank());
        assert(devs[b].rank() <= devs[a].rank());
    }
}

/// Among the first `upto` devices, one leads.
proof fn lemma_leader_exists(devs: Seq<PhysicalDevice>, upto: int) -> (best: int)
    requires
        0 < upto <= devs.len(),
    ensures
        leads(devs, best, upto),
    decreases upto,
{
    if upto == 1 {
        0
    } else {
        let before = lemma_leader_exists(devs, upto - 1);
        if devs[upto - 1].rank() < devs[before].rank() {
            upto - 1
        } else {
            before
        }
    }
}

/// Where there is a device, `best_index` is the best one.
pub proof fn lemma_best_exists(devs: Seq<PhysicalDevice>)
    requires
        devs.len() > 0,
    ensures
        is_best(devs, best_index(devs)),
{
    let best = lemma_leader_exists(devs, devs.len() as int);
    assert(is_best(devs, best));
}

/// The device that leads all devices is the one `best_index` names.
pub(crate) proof fn lemma_leader_is_best(devs: Seq<PhysicalDevice>, best: usize)
    requires
        leads_at(devs, best, devs.len() as usize),
        devs.len() <= usize::MAX,
    ensures
        best_index(devs) == best,
{
    assert(is_best(devs, best as int));
    lemma_best_unique(devs, best as int, best_index(devs));
}

/// The choice fails for want of devices exactly where nothing was enumerated,
/// fails for want of a graphics queue exactly where something was and no
/// device has one, and succeeds exactly where some device has one. The chosen
/// device then has one.
pub proof fn law_choice_outcomes(devs: Seq<PhysicalDevice>)
    ensures
        select(devs) == Err::<PhysicalDevice, SelectionError>(SelectionError::NoDevices)
            <==> devs.len() == 0,
        select(devs) == Err::<PhysicalDevice, SelectionError>(SelectionError::NoGraphicsDevice)
            <==> devs.len() > 0 && forall|k: int|
            0 <= k < devs.len() ==> !(#[trigger] devs[k]).graphics_capable(),
        select(devs) is Ok <==> exists|k: int|
            0 <= k < devs.len() && (#[trigger] devs[k]).graphics_capable(),
        select(devs) is Ok ==> select(devs)->Ok_0.graphics_capable(),
{
    if devs.len() > 0 {
        lemma_best_exists(devs);
        let best = best_index(devs);
        if devs[best].graphics_capable() {
            assert(0 <= best < devs.len() && devs[best].graphics_capable());
        } else {
            assert forall|k: int| 0 <= k < devs.len() implies !(#[trigger] devs[k]).graphics_capable() by {
                assert(devs[best].rank() <= devs[k].rank());
            }
        }
    }
}

/// Where some enumerated device is discrete and can do graphics work, the
/// choice succeeds, and the chosen device is discrete and can do graphics
/// work.
pub proof fn law_discrete_device_is_chosen(devs: Seq<PhysicalDevice>)
    requires
        exists|k: int|
            0 <= k < devs.len() && (#[trigger] devs[k]).graphics_capable() && devs[k].device_type
                == DeviceCategory::Discrete,
    ensures
        select(devs) is Ok,
        select(devs)->Ok_0.graphics_capable(),
        select(devs)->Ok_0.device_type == DeviceCategory::Discrete,
{
    let k = choose|k: int|
        0 <= k < devs.len() && (#[trigger] devs[k]).graphics_capable() && devs[k].device_type
            == DeviceCategory::Discrete;
    lemma_best_exists(devs);
    assert(devs[best_index(devs)].rank() <= devs[k].rank());
}

/// Whether the choice succeeds, why it fails, and the rank of the device it
/// gives depend on which devices were enumerated and not on their order.
pub proof fn law_choice_ignores_order(a: Seq<PhysicalDevice>, b: Seq<PhysicalDevice>)
    requires
        a.to_multiset() == b.to_multiset(),
    ensures
        select(a) is Ok <==> select(b) is Ok,
        select(a) is Ok ==> select(a)->Ok_0.rank() == select(b)->Ok_0.rank(),
        select(a) is Err ==> select(a)->Err_0 == select(b)->Err_0,
{
    a.to_multiset_ensures();
    b.to_multiset_ensures();
    if a.len() > 0 {
        lemma_best_exists(a);
        lemma_best_exists(b);
        let x = a[best_index(a)];
        let y = b[best_index(b)];
        assert(a.contains(x) && a.to_multiset().count(x) > 0);
        assert(b.contains(y) && b.to_multiset().count(y) > 0);
        assert(b.contains(x));
        assert(a.contains(y));
        let i = choose|i: int| 0 <= i < b.len() && b[i] == x;
        let j = choose|j: int| 0 <= j < a.len() && a[j] == y;
        assert(y.rank() <= b[i].rank());
        assert(x.rank() <= a[j].rank());
    }
}

} // verus!
