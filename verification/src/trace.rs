//! Whole runs of the run loop: what is handed out over a sequence of inputs,
//! and what holds of it however the inputs fall.

use crate::app::{
    dispatched, fallback_dir, falls_back, forwarded, lemma_forwarded_exactly, InputModel,
    LoopAction, LoopModel, LoopState, LoopStep,
};
use vstd::prelude::*;

verus! {

/// The run loop after a sequence of inputs, and all the actions it handed out
/// on the way, in order.
pub open spec fn run(m: LoopModel, inputs: Seq<InputModel>) -> LoopStep
    decreases inputs.len(),
{
    if inputs.len() == 0 {
        m.stay()
    } else {
        let before = run(m, inputs.drop_last());
        let last = before.next.step(inputs.last());
        LoopStep { next: last.next, actions: before.actions + last.actions }
    }
}

/// Whether the action is a call of the application.
pub open spec fn calls_application(action: LoopAction) -> bool {
    action == LoopAction::Init || action == LoopAction::Tick || action == LoopAction::Deinit
        || action is Forward
}

/// Whether the application's `deinit` is called at `at`, and nowhere else,
/// and the application is neither called nor polled for after it.
pub open spec fn deinit_closes(trace: Seq<LoopAction>, at: int) -> bool {
    &&& 0 <= at < trace.len()
    &&& trace[at] == LoopAction::Deinit
    &&& forall|i: int| 0 <= i < trace.len() && i != at ==> #[trigger] trace[i] != LoopAction::Deinit
    &&& forall|i: int|
        at < i < trace.len() ==> !calls_application(#[trigger] trace[i]) && trace[i]
            != LoopAction::Poll
}

/// Whether the application's `init` is called at `at`, and nowhere else, and
/// the application is neither called nor polled for before it.
pub open spec fn init_opens(trace: Seq<LoopAction>, at: int) -> bool {
    &&& 0 <= at < trace.len()
    &&& trace[at] == LoopAction::Init
    &&& forall|i: int| 0 <= i < trace.len() && i != at ==> #[trigger] trace[i] != LoopAction::Init
    &&& forall|i: int|
        0 <= i < at ==> !calls_application(#[trigger] trace[i]) && trace[i] != LoopAction::Poll
}

/// Whether the application was never called, nor polled for.
pub open spec fn never_called(trace: Seq<LoopAction>) -> bool {
    forall|i: int|
        0 <= i < trace.len() ==> !calls_application(#[trigger] trace[i]) && trace[i]
            != LoopAction::Poll
}

/// Whether every tick is followed at once by a poll, and every poll comes at
/// once after a tick.
pub open spec fn ticks_then_polls(trace: Seq<LoopAction>) -> bool {
    &&& forall|j: int|
        0 <= j < trace.len() && #[trigger] trace[j] == LoopAction::Tick ==> j + 1 < trace.len()
            && trace[j + 1] == LoopAction::Poll
    &&& forall|j: int|
        0 <= j < trace.len() && #[trigger] trace[j] == LoopAction::Poll ==> j >= 1 && trace[j - 1]
            == LoopAction::Tick
}

/// What ties the state of a run to the actions handed out so far.
spec fn traced(m: LoopModel, trace: Seq<LoopAction>) -> bool {
    &&& ticks_then_polls(trace)
    &&& match m.state {
        LoopState::Bootstrapping => m.failure is None && never_called(trace),
        LoopState::Running => m.failure is None && (exists|at: int| init_opens(trace, at))
            && forall|i: int| 0 <= i < trace.len() ==> #[trigger] trace[i] != LoopAction::Deinit,
        LoopState::Draining => m.failure is None && (exists|at: int| init_opens(trace, at))
            && deinit_closes(trace, trace.len() - 1),
        LoopState::Terminated => if m.failure is Some {
            never_called(trace)
        } else {
            (exists|at: int| init_opens(trace, at)) && (exists|at: int| deinit_closes(trace, at))
        },
    }
}

/// Actions that hold no `init`, handed out later, leave `init` where it was.
proof fn lemma_init_stays(trace: Seq<LoopAction>, more: Seq<LoopAction>, at: int)
    requires
        init_opens(trace, at),
        forall|i: int| 0 <= i < more.len() ==> #[trigger] more[i] != LoopAction::Init,
    ensures
        init_opens(trace + more, at),
{
    let longer = trace + more;
    assert forall|i: int| 0 <= i < longer.len() && i != at implies #[trigger] longer[i]
        != LoopAction::Init by {
        if i < trace.len() {
            assert(longer[i] == trace[i]);
        } else {
            assert(longer[i] == more[i - trace.len()]);
        }
    }
    assert forall|i: int| 0 <= i < at implies !calls_application(#[trigger] longer[i]) && longer[i]
        != LoopAction::Poll by {
        assert(longer[i] == trace[i]);
    }
}

/// Two stretches of actions in which ticks and polls pair up still do so
/// when one follows the other.
proof fn lemma_pairs_join(trace: Seq<LoopAction>, more: Seq<LoopAction>)
    requires
        ticks_then_polls(trace),
        ticks_then_polls(more),
    ensures
        ticks_then_polls(trace + more),
{
    let longer = trace + more;
    assert forall|j: int|
        0 <= j < longer.len() && #[trigger] longer[j] == LoopAction::Tick implies j + 1
        < longer.len() && longer[j + 1] == LoopAction::Poll by {
        if j < trace.len() {
            assert(trace[j] == LoopAction::Tick);
            assert(longer[j + 1] == trace[j + 1]);
        } else {
            assert(more[j - trace.len()] == LoopAction::Tick);
            assert(longer[j + 1] == more[j + 1 - trace.len()]);
        }
    }
    assert forall|j: int|
        0 <= j < longer.len() && #[trigger] longer[j] == LoopAction::Poll implies j >= 1 && longer[j
        - 1] == LoopAction::Tick by {
        if j < trace.len() {
            assert(trace[j] == LoopAction::Poll);
            assert(longer[j - 1] == trace[j - 1]);
        } else {
            assert(more[j - trace.len()] == LoopAction::Poll);
            assert(longer[j - 1] == more[j - 1 - trace.len()]);
        }
    }
}

/// In the actions of a single step, ticks and polls pair up, and `init`
/// occurs only in the step that ends the bootstrap.
proof fn lemma_step_actions(m: LoopModel, input: InputModel)
    ensures
        ticks_then_polls(m.step(input).actions),
        !(m.state == LoopState::Bootstrapping && m.step(input).next.state == LoopState::Running)
            ==> forall|i: int|
            0 <= i < m.step(input).actions.len() ==> #[trigger] m.step(input).actions[i]
                != LoopAction::Init,
{
    let actions = m.step(input).actions;
    match input {
        InputModel::Polled(events) => {
            if m.state == LoopState::Running {
                let upto = dispatched(m.main_window, events);
                let seen = forwarded(events.take(upto));
                lemma_forwarded_exactly(events.take(upto));
                assert forall|i: int| 0 <= i < seen.len() implies (#[trigger] seen[i]) is Forward by {}
                assert forall|i: int| 0 <= i < seen.len() implies actions[i] == seen[i] by {}
                if upto < events.len() {
                    assert(actions == seen + seq![LoopAction::Deinit]);
                } else {
                    assert(actions == seen + seq![LoopAction::Tick, LoopAction::Poll]);
                    let tick = seen.len() as int;
                    assert(actions[tick] == LoopAction::Tick);
                    assert(actions[tick + 1] == LoopAction::Poll);
                }
            }
        },
        _ => {},
    }
}

/// A step keeps the tie between state and trace.
proof fn lemma_step_keeps_trace(m: LoopModel, trace: Seq<LoopAction>, input: InputModel)
    requires
        traced(m, trace),
    ensures
        traced(m.step(input).next, trace + m.step(input).actions),
{
    let step = m.step(input);
    let longer = trace + step.actions;
    lemma_step_actions(m, input);
    lemma_pairs_join(trace, step.actions);
    assert forall|i: int| 0 <= i < trace.len() implies longer[i] == trace[i] by {}
    assert forall|i: int| trace.len() <= i < longer.len() implies longer[i] == step.actions[i
        - trace.len()] by {}
    if m.state == LoopState::Bootstrapping && step.next.state == LoopState::Running {
        assert(init_opens(longer, trace.len() as int));
    } else if m.state != LoopState::Bootstrapping && m.failure is None {
        let at = choose|at: int| init_opens(trace, at);
        lemma_init_stays(trace, step.actions, at);
    }
    match input {
        InputModel::Polled(events) => {
            if m.state == LoopState::Running {
                let upto = dispatched(m.main_window, events);
                let seen = forwarded(events.take(upto));
                lemma_forwarded_exactly(events.take(upto));
                assert forall|i: int| 0 <= i < seen.len() implies (#[trigger] seen[i]) is Forward by {}
                if upto < events.len() {
                    assert(step.actions == seen + seq![LoopAction::Deinit]);
                    assert(deinit_closes(longer, longer.len() - 1)) by {
                        assert forall|i: int|
                            0 <= i < longer.len() && i != longer.len()
                                - 1 implies #[trigger] longer[i] != LoopAction::Deinit by {
                            if i >= trace.len() {
                                assert(longer[i] == seen[i - trace.len()]);
                            }
                        }
                    }
                } else {
                    assert(step.actions == seen + seq![LoopAction::Tick, LoopAction::Poll]);
                    assert forall|i: int| 0 <= i < longer.len() implies #[trigger] longer[i]
                        != LoopAction::Deinit by {
                        if i >= trace.len() + seen.len() {
                        } else if i >= trace.len() {
                            assert(longer[i] == seen[i - trace.len()]);
                        }
                    }
                }
            } else {
                assert(longer =~= trace);
            }
        },
        InputModel::Drained => {
            if m.state == LoopState::Draining {
                assert(deinit_closes(longer, trace.len() - 1));
            } else {
                assert(longer =~= trace);
            }
        },
        InputModel::WindowBuilt(built) => {
            if m.state == LoopState::Bootstrapping && m.main_window is None {
            } else {
                assert(longer =~= trace);
            }
        },
        InputModel::ContextBuilt(built) => {
            if m.state == LoopState::Bootstrapping && m.main_window is Some {
            } else {
                assert(longer =~= trace);
            }
        },
    }
}

/// The tie between state and trace holds all along a run from the start.
proof fn lemma_run_is_traced(m: LoopModel, inputs: Seq<InputModel>)
    requires
        m.state == LoopState::Bootstrapping,
        m.failure is None,
    ensures
        traced(run(m, inputs).next, run(m, inputs).actions),
    decreases inputs.len(),
{
    if inputs.len() > 0 {
        let before = run(m, inputs.drop_last());
        lemma_run_is_traced(m, inputs.drop_last());
        lemma_step_keeps_trace(before.next, before.actions, inputs.last());
    }
}

/// In every run from the start, whatever comes in and in whatever order: the
/// application's `deinit` is called at most once; once it is called, the
/// application is not called again, neither ticked nor handed an event, and
/// the window system is not polled again. A run that is draining has `deinit`
/// as its last action. A run that ended without an error called `deinit`
/// exactly once; a run that ended with one never called the application at
/// all.
pub proof fn law_deinit_once_after_last_tick(start: LoopModel, inputs: Seq<InputModel>)
    requires
        start.state == LoopState::Bootstrapping,
        start.failure is None,
    ensures
        forall|i: int, j: int|
            #![trigger run(start, inputs).actions[i], run(start, inputs).actions[j]]
            0 <= i < j < run(start, inputs).actions.len() && run(start, inputs).actions[i]
                == LoopAction::Deinit ==> !calls_application(run(start, inputs).actions[j]) && run(
                start,
                inputs,
            ).actions[j] != LoopAction::Poll,
        run(start, inputs).next.state == LoopState::Draining ==> run(start, inputs).actions.last()
            == LoopAction::Deinit,
        run(start, inputs).next.state == LoopState::Terminated && run(
            start,
            inputs,
        ).next.failure is None ==> exists|at: int| deinit_closes(run(start, inputs).actions, at),
        run(start, inputs).next.failure is Some ==> never_called(run(start, inputs).actions) && run(
            start,
            inputs,
        ).next.state == LoopState::Terminated,
{
    let end = run(start, inputs);
    let trace = end.actions;
    lemma_run_is_traced(start, inputs);
    assert forall|i: int, j: int|
        #![trigger trace[i], trace[j]]
        0 <= i < j < trace.len() && trace[i] == LoopAction::Deinit implies !calls_application(
        trace[j],
    ) && trace[j] != LoopAction::Poll by {
        match end.next.state {
            LoopState::Draining => {},
            LoopState::Terminated => {
                if end.next.failure is None {
                    let at = choose|at: int| deinit_closes(trace, at);
                    assert(i == at);
                }
            },
            _ => {},
        }
    }
}

/// In every run from the start: the application's `init` is called at most
/// once, and before it the application is neither called nor polled for. A
/// run that has left the bootstrap without an error has called `init`
/// exactly once; a run that has not left it has not called the application.
pub proof fn law_init_once_before_first_tick(start: LoopModel, inputs: Seq<InputModel>)
    requires
        start.state == LoopState::Bootstrapping,
        start.failure is None,
    ensures
        forall|i: int, j: int|
            #![trigger run(start, inputs).actions[i], run(start, inputs).actions[j]]
            0 <= i < j < run(start, inputs).actions.len() && run(start, inputs).actions[j]
                == LoopAction::Init ==> !calls_application(run(start, inputs).actions[i]) && run(
                start,
                inputs,
            ).actions[i] != LoopAction::Poll,
        run(start, inputs).next.state != LoopState::Bootstrapping && run(
            start,
            inputs,
        ).next.failure is None ==> exists|at: int| init_opens(run(start, inputs).actions, at),
        run(start, inputs).next.state == LoopState::Bootstrapping ==> never_called(
            run(start, inputs).actions,
        ),
{
    let end = run(start, inputs);
    let trace = end.actions;
    lemma_run_is_traced(start, inputs);
    assert forall|i: int, j: int|
        #![trigger trace[i], trace[j]]
        0 <= i < j < trace.len() && trace[j] == LoopAction::Init implies !calls_application(
        trace[i],
    ) && trace[i] != LoopAction::Poll by {
        if end.next.state != LoopState::Bootstrapping && end.next.failure is None {
            let at = choose|at: int| init_opens(trace, at);
            assert(j == at);
        }
    }
}

/// In every run from the start, each iteration keeps its order: every tick
/// is followed at once by a poll of the window system, and the window system
/// is polled only right after a tick. What a poll makes the application see
/// therefore reaches it after that poll and before the next tick.
pub proof fn law_tick_then_poll(start: LoopModel, inputs: Seq<InputModel>)
    requires
        start.state == LoopState::Bootstrapping,
        start.failure is None,
    ensures
        ticks_then_polls(run(start, inputs).actions),
{
    lemma_run_is_traced(start, inputs);
}

/// Whether two run loops differ in nothing but the preference path.
spec fn alike(a: LoopModel, b: LoopModel) -> bool {
    &&& a.state == b.state
    &&& a.name == b.name
    &&& a.ver == b.ver
    &&& a.main_window == b.main_window
    &&& a.failure == b.failure
}

/// Runs that start alike hand out the same actions and stay alike, and
/// neither changes its preference path.
proof fn lemma_runs_alike(a: LoopModel, b: LoopModel, inputs: Seq<InputModel>)
    requires
        alike(a, b),
    ensures
        alike(run(a, inputs).next, run(b, inputs).next),
        run(a, inputs).actions == run(b, inputs).actions,
        run(a, inputs).next.pref_path == a.pref_path,
        run(b, inputs).next.pref_path == b.pref_path,
    decreases inputs.len(),
{
    if inputs.len() > 0 {
        lemma_runs_alike(a, b, inputs.drop_last());
    }
}

/// Where the preference directory is unavailable or could not be made, the
/// current directory takes its place for the whole run, and nothing else
/// changes: the run opens with a warning and then, for the same inputs,
/// hands out the same actions, passes through the same states and ends with
/// the same result as a run that got a directory. The lack of a preference
/// directory is never the error of a run.
pub proof fn law_pref_failure_is_not_fatal(
    name: Seq<char>,
    ver: (u32, u32, u32),
    wanted: Option<Seq<char>>,
    created: bool,
    got: Seq<char>,
    inputs: Seq<InputModel>,
)
    requires
        falls_back(wanted, created),
    ensures
        LoopModel::initial(name, ver, wanted, created).failure is None,
        LoopModel::initial(name, ver, wanted, created).state == LoopState::Bootstrapping,
        LoopModel::opening(true) == seq![LoopAction::WarnPrefPath] + LoopModel::opening(false),
        run(LoopModel::initial(name, ver, wanted, created), inputs).next.pref_path
            == fallback_dir(),
        run(LoopModel::initial(name, ver, wanted, created), inputs).actions == run(
            LoopModel::initial(name, ver, Some(got), true),
            inputs,
        ).actions,
        run(LoopModel::initial(name, ver, wanted, created), inputs).next.state == run(
            LoopModel::initial(name, ver, Some(got), true),
            inputs,
        ).next.state,
        run(LoopModel::initial(name, ver, wanted, created), inputs).next.failure == run(
            LoopModel::initial(name, ver, Some(got), true),
            inputs,
        ).next.failure,
{
    lemma_runs_alike(
        LoopModel::initial(name, ver, wanted, created),
        LoopModel::initial(name, ver, Some(got), true),
        inputs,
    );
}

} // verus!
