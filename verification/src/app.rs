//! The application's description, the events it is handed, and the run loop
//! that takes it from start-up to shutdown.
//!
//! The run loop here is the sequence of decisions. The program that owns it
//! performs each action it names (creating the window, calling the
//! application, polling the window system) and reports back what came of it.

use crate::logger::{ErrorModel, IdioError};
use crate::window::{Window, WindowId};
use vstd::prelude::*;
use vstd::string::*;

verus! {

/// The texts of a list of strings.
pub open spec fn texts(names: Seq<String>) -> Seq<Seq<char>> {
    Seq::new(names.len(), |i: int| names[i]@)
}

/// What the driver knows of the running application. It is made once, before
/// the application's `init`, and only read afterwards.
#[derive(Debug)]
pub struct ApplicationInfo {
    pub name: &'static str,
    /// Major, minor and patch number of the application's version.
    pub ver: (u32, u32, u32),
    /// The directory where the application keeps its preferences and its log.
    pub pref_path: String,
    pub main_window: Option<Window>,
}

impl Default for ApplicationInfo {
    /// An application without a name, at version 0.0.0, with an empty
    /// preference path and no window.
    fn default() -> (info: Self)
        ensures
            info.name@ == ""@,
            info.ver == (0u32, 0u32, 0u32),
            info.pref_path@ == Seq::<char>::empty(),
            info.main_window is None,
    {
        ApplicationInfo { name: "", ver: (0, 0, 0), pref_path: String::new(), main_window: None }
    }
}

/// What the window system reported and the application is told of.
#[derive(Clone, Copy, Debug, PartialEq, Eq, Structural)]
pub enum Event {
    /// A window other than the main window was asked to close.
    WindowClosed(WindowId),
}

/// The lower-case form of a text, as the standard library gives it.
pub uninterp spec fn lowercase(text: Seq<char>) -> Seq<char>;

/// `str::to_lowercase` of the standard library: the text with every character
/// replaced by its lower-case form.
#[verifier::external_body]
fn to_lowercase(text: &str) -> (lower: String)
    ensures
        lower@ == lowercase(text@),
{
    text.to_lowercase()
}

/// The directory under which every application of the engine keeps its own.
pub open spec fn engine_namespace() -> Seq<char> {
    "idio"@
}

/// The directory that stands in where no preference directory can be had.
pub open spec fn fallback_dir() -> Seq<char> {
    "./"@
}

/// The words that tell that the fallback directory is used.
pub open spec fn fallback_warning() -> Seq<char> {
    "Preinit warning: Using ./ as prefpath"@
}

/// The preference directory of an application, relative to the platform's
/// directory for local application data, as path components: the engine's
/// namespace, then the application's name as given here, which is its name
/// in lower case.
pub fn pref_subdir_of(lowered: String) -> (parts: Vec<String>)
    ensures
        texts(parts@) == seq![engine_namespace(), lowered@],
{
    let parts = vec![String::from_str("idio"), lowered];
    assert(texts(parts@) =~= seq![engine_namespace(), lowered@]);
    parts
}

/// The preference directory of the application of this name, relative to the
/// platform's directory for local application data, as path components: the
/// engine's namespace, then the name in lower case.
pub fn pref_subdir(name: &str) -> (parts: Vec<String>)
    ensures
        texts(parts@) == seq![engine_namespace(), lowercase(name@)],
{
    pref_subdir_of(to_lowercase(name))
}

/// The text of a directory that may be missing.
pub open spec fn text_of(dir: Option<String>) -> Option<Seq<char>> {
    match dir {
        Some(dir) => Some(dir@),
        None => None,
    }
}

/// Whether the current directory has to stand in as preference directory:
/// where the platform names no directory to keep preferences under, so that
/// none could be wanted, and where the wanted directory could not be made.
pub open spec fn falls_back(wanted: Option<Seq<char>>, created: bool) -> bool {
    wanted is None || !created
}

/// The preference path of a run: the wanted directory where there is one and
/// it could be made, the current directory in every other case.
pub open spec fn resolved_pref_path(wanted: Option<Seq<char>>, created: bool) -> Seq<char> {
    match wanted {
        Some(dir) => if created {
            dir
        } else {
            fallback_dir()
        },
        None => fallback_dir(),
    }
}

/// Where a run keeps its preferences.
#[derive(Debug)]
pub struct PrefPath {
    pub path: String,
    /// Whether the current directory stands in for the directory that was
    /// to be had, and a warning is due.
    pub fallback: bool,
}

/// Settles the preference directory of a run. `wanted` is the application's
/// directory under the platform's directory for local application data, or
/// `None` where the platform names no such directory; `created` tells
/// whether the wanted directory could be made. Where the directory is
/// unavailable or could not be made, the current directory takes its place
/// and a warning is due. There is no failure: the run goes on either way.
pub fn resolve_pref_path(wanted: Option<String>, created: bool) -> (resolved: PrefPath)
    ensures
        resolved.path@ == resolved_pref_path(text_of(wanted), created),
        resolved.fallback == falls_back(text_of(wanted), created),
{
    match wanted {
        Some(dir) => {
            if created {
                PrefPath { path: dir, fallback: false }
            } else {
                PrefPath { path: String::from_str("./"), fallback: true }
            }
        },
        None => PrefPath { path: String::from_str("./"), fallback: true },
    }
}

/// The phase of the run loop.
#[derive(Clone, Copy, Debug, PartialEq, Eq, Structural)]
pub enum LoopState {
    /// Window and graphics context are being set up; the application has not
    /// been called yet.
    Bootstrapping,
    /// The application is ticked and handed events.
    Running,
    /// The main window was asked to close; the application's `deinit` is due.
    Draining,
    /// The run is over.
    Terminated,
}

/// What the window system reported.
#[derive(Clone, Copy, Debug, PartialEq, Eq, Structural)]
pub enum SystemEvent {
    /// The window of this identity was asked to close.
    CloseRequested(WindowId),
    /// Anything else.
    Other,
}

/// What the owner of the run loop is to do.
#[derive(Clone, Copy, Debug, PartialEq, Eq, Structural)]
pub enum LoopAction {
    /// Print the warning that the current directory serves as preference
    /// directory; see `RunLoop::pref_warning`.
    WarnPrefPath,
    /// Open the log file in the preference directory.
    InitLogger,
    /// Create the main window.
    CreateWindow,
    /// Create the graphics context for the main window.
    CreateContext,
    /// Call the application's `init`.
    Init,
    /// Call the application's `tick`.
    Tick,
    /// Collect the events that are pending in the window system.
    Poll,
    /// Call the application's `event_handler` with this event.
    Forward(Event),
    /// Call the application's `deinit`.
    Deinit,
    DestroyContext,
    DestroyWindow,
    /// Return from the run with `RunLoop::result`.
    Finish,
}

/// What came of the last actions.
#[derive(Debug)]
pub enum LoopInput {
    /// The main window, or why it could not be created.
    WindowBuilt(Result<Window, IdioError>),
    /// Whether the graphics context could be created.
    ContextBuilt(Result<(), IdioError>),
    /// The events of one poll, in the order they arrived.
    Polled(Vec<SystemEvent>),
    /// The application's `deinit` has returned.
    Drained,
}

/// An input of the run loop as plain values.
pub enum InputModel {
    WindowBuilt(Result<Window, ErrorModel>),
    ContextBuilt(Result<(), ErrorModel>),
    Polled(Seq<SystemEvent>),
    Drained,
}

impl View for LoopInput {
    type V = InputModel;

    open spec fn view(&self) -> InputModel {
        match self {
            LoopInput::WindowBuilt(Ok(window)) => InputModel::WindowBuilt(Ok(*window)),
            LoopInput::WindowBuilt(Err(error)) => InputModel::WindowBuilt(Err(error@)),
            LoopInput::ContextBuilt(Ok(_)) => InputModel::ContextBuilt(Ok(())),
            LoopInput::ContextBuilt(Err(error)) => InputModel::ContextBuilt(Err(error@)),
            LoopInput::Polled(events) => InputModel::Polled(events@),
            LoopInput::Drained => InputModel::Drained,
        }
    }
}

/// The run loop as plain values.
pub struct LoopModel {
    pub state: LoopState,
    pub name: Seq<char>,
    pub ver: (u32, u32, u32),
    pub pref_path: Seq<char>,
    pub main_window: Option<Window>,
    /// The error that ended the run, if one did.
    pub failure: Option<ErrorModel>,
}

/// One step of the run loop: the state that follows and the actions that are
/// handed out, to be performed in this order.
pub struct LoopStep {
    pub next: LoopModel,
    pub actions: Seq<LoopAction>,
}

/// Whether the event asks the main window to close.
pub open spec fn closes_main(main: Option<Window>, event: SystemEvent) -> bool {
    event matches SystemEvent::CloseRequested(id) && main == Some(Window { id })
}

/// How many events of a poll are dispatched: all that come before the first
/// request to close the main window, and all of them where there is none.
pub open spec fn dispatched(main: Option<Window>, events: Seq<SystemEvent>) -> int
    decreases events.len(),
{
    if events.len() == 0 {
        0
    } else if closes_main(main, events[0]) {
        0
    } else {
        1 + dispatched(main, events.drop_first())
    }
}

/// What an event that is dispatched makes the application see: a request to
/// close a window is forwarded with the window's identity, anything else is
/// passed over.
pub open spec fn forward_of(event: SystemEvent) -> Seq<LoopAction> {
    match event {
        SystemEvent::CloseRequested(id) => seq![LoopAction::Forward(Event::WindowClosed(id))],
        SystemEvent::Other => Seq::empty(),
    }
}

/// What a run of dispatched events makes the application see, in their order.
pub open spec fn forwarded(events: Seq<SystemEvent>) -> Seq<LoopAction>
    decreases events.len(),
{
    if events.len() == 0 {
        Seq::empty()
    } else {
        forwarded(events.drop_last()) + forward_of(events.last())
    }
}

impl LoopModel {
    /// The run loop of an application before anything is set up, given the
    /// preference directory that was wanted, if the platform allowed for
    /// one, and whether it could be made.
    pub open spec fn initial(
        name: Seq<char>,
        ver: (u32, u32, u32),
        wanted: Option<Seq<char>>,
        created: bool,
    ) -> LoopModel {
        LoopModel {
            state: LoopState::Bootstrapping,
            name,
            ver,
            pref_path: resolved_pref_path(wanted, created),
            main_window: None,
            failure: None,
        }
    }

    /// The actions with which a run begins: a warning where the current
    /// directory stands in as preference directory, then the logger, then
    /// the window.
    pub open spec fn opening(fallback: bool) -> Seq<LoopAction> {
        if fallback {
            seq![LoopAction::WarnPrefPath, LoopAction::InitLogger, LoopAction::CreateWindow]
        } else {
            seq![LoopAction::InitLogger, LoopAction::CreateWindow]
        }
    }

    /// What holds of every run loop that was made by `RunLoop::new` and moved
    /// by `advance`: a window exists from the moment it was built until the
    /// run ends, and an error is recorded only where the run has ended.
    pub open spec fn wf(self) -> bool {
        &&& (self.state == LoopState::Running || self.state == LoopState::Draining)
            ==> self.main_window is Some
        &&& self.failure is Some ==> self.state == LoopState::Terminated
    }

    /// The step that moves on to `state` and hands out `actions`.
    pub open spec fn go(self, state: LoopState, actions: Seq<LoopAction>) -> LoopStep {
        LoopStep { next: LoopModel { state, ..self }, actions }
    }

    /// The step that ends the run with `error`, after `actions`.
    pub open spec fn fail(self, error: ErrorModel, actions: Seq<LoopAction>) -> LoopStep {
        LoopStep {
            next: LoopModel { state: LoopState::Terminated, failure: Some(error), ..self },
            actions,
        }
    }

    /// The step on an input that the run loop does not wait for: nothing
    /// changes and nothing is handed out.
    pub open spec fn stay(self) -> LoopStep {
        LoopStep { next: self, actions: Seq::empty() }
    }

    /// The step of a running loop on the events of one poll. The events are
    /// dispatched in order up to the first request to close the main window.
    /// With such a request the loop drains: the application's `deinit` is
    /// due, and what follows the request in the poll is dropped. Without
    /// one the next iteration begins: a tick, then the next poll.
    pub open spec fn on_poll(self, events: Seq<SystemEvent>) -> LoopStep {
        let upto = dispatched(self.main_window, events);
        if upto < events.len() {
            self.go(LoopState::Draining, forwarded(events.take(upto)) + seq![LoopAction::Deinit])
        } else {
            self.go(
                LoopState::Running,
                forwarded(events.take(upto)) + seq![LoopAction::Tick, LoopAction::Poll],
            )
        }
    }

    /// The step of the run loop on an input.
    ///
    /// While bootstrapping, the window is built first and the graphics
    /// context second; a failure of either ends the run with its error
    /// before the application is ever called, and a window that exists by
    /// then is destroyed. With both in place the application is initialised
    /// and the first iteration begins. While running, every poll is
    /// dispatched as `on_poll` says. While draining, the return of `deinit`
    /// ends the run: the context is destroyed, then the window.
    pub open spec fn step(self, input: InputModel) -> LoopStep {
        match input {
            InputModel::WindowBuilt(built) => if self.state == LoopState::Bootstrapping
                && self.main_window is None {
                match built {
                    Ok(window) => LoopModel { main_window: Some(window), ..self }.go(
                        LoopState::Bootstrapping,
                        seq![LoopAction::CreateContext],
                    ),
                    Err(error) => self.fail(error, seq![LoopAction::Finish]),
                }
            } else {
                self.stay()
            },
            InputModel::ContextBuilt(built) => if self.state == LoopState::Bootstrapping
                && self.main_window is Some {
                match built {
                    Ok(_) => self.go(
                        LoopState::Running,
                        seq![LoopAction::Init, LoopAction::Tick, LoopAction::Poll],
                    ),
                    Err(error) => self.fail(
                        error,
                        seq![LoopAction::DestroyWindow, LoopAction::Finish],
                    ),
                }
            } else {
                self.stay()
            },
            InputModel::Polled(events) => if self.state == LoopState::Running {
                self.on_poll(events)
            } else {
                self.stay()
            },
            InputModel::Drained => if self.state == LoopState::Draining {
                self.go(
                    LoopState::Terminated,
                    seq![LoopAction::DestroyContext, LoopAction::DestroyWindow, LoopAction::Finish],
                )
            } else {
                self.stay()
            },
        }
    }
}

/// Where nothing before `upto` asks the main window to close, and `upto` is
/// the end of the poll or such a request, the events before `upto` are the
/// ones dispatched.
pub proof fn lemma_dispatched_upto(main: Option<Window>, events: Seq<SystemEvent>, upto: int)
    requires
        0 <= upto <= events.len(),
        forall|j: int| 0 <= j < upto ==> !closes_main(main, #[trigger] events[j]),
        upto < events.len() ==> closes_main(main, events[upto]),
    ensures
        dispatched(main, events) == upto,
    decreases events.len(),
{
    if events.len() > 0 && upto > 0 {
        let rest = events.drop_first();
        assert forall|j: int| 0 <= j < upto - 1 implies !closes_main(main, #[trigger] rest[j]) by {
            assert(rest[j] == events[j + 1]);
        }
        lemma_dispatched_upto(main, rest, upto - 1);
    }
}

/// The events that are dispatched end at the first request to close the main
/// window.
pub proof fn lemma_dispatched_is_first(main: Option<Window>, events: Seq<SystemEvent>)
    ensures
        0 <= dispatched(main, events) <= events.len(),
        forall|j: int|
            0 <= j < dispatched(main, events) ==> !closes_main(main, #[trigger] events[j]),
        dispatched(main, events) < events.len() ==> closes_main(
            main,
            events[dispatched(main, events)],
        ),
    decreases events.len(),
{
    if events.len() > 0 && !closes_main(main, events[0]) {
        let rest = events.drop_first();
        lemma_dispatched_is_first(main, rest);
        assert forall|j: int| 0 <= j < dispatched(main, events) implies !closes_main(
            main,
            #[trigger] events[j],
        ) by {
            if j > 0 {
                assert(events[j] == rest[j - 1]);
            }
        }
        if dispatched(main, events) < events.len() {
            assert(events[dispatched(main, events)] == rest[dispatched(main, rest)]);
        }
    }
}

/// The action by which the application is told that the window of this
/// identity was asked to close.
pub open spec fn notice(id: WindowId) -> LoopAction {
    LoopAction::Forward(Event::WindowClosed(id))
}

/// Whatever the application sees of a run of dispatched events is a window
/// that some event of the run asked to close, and every such window is seen.
pub proof fn lemma_forwarded_exactly(events: Seq<SystemEvent>)
    ensures
        forall|i: int|
            #![trigger forwarded(events)[i]]
            0 <= i < forwarded(events).len() ==> exists|j: int|
                0 <= j < events.len() && (#[trigger] events[j]) is CloseRequested
                    && forwarded(events)[i] == notice(events[j]->0),
        forall|j: int|
            0 <= j < events.len() && (#[trigger] events[j]) is CloseRequested ==> forwarded(
                events,
            ).contains(notice(events[j]->0)),
    decreases events.len(),
{
    if events.len() > 0 {
        let front = events.drop_last();
        let seen = forwarded(events);
        lemma_forwarded_exactly(front);
        assert(seen == forwarded(front) + forward_of(events.last()));
        assert forall|i: int| #![trigger seen[i]] 0 <= i < seen.len() implies exists|j: int|
            0 <= j < events.len() && (#[trigger] events[j]) is CloseRequested && seen[i] == notice(
                events[j]->0,
            ) by {
            if i < forwarded(front).len() {
                assert(seen[i] == forwarded(front)[i]);
                let j = choose|j: int|
                    0 <= j < front.len() && (#[trigger] front[j]) is CloseRequested && forwarded(
                        front,
                    )[i] == notice(front[j]->0);
                assert(events[j] == front[j]);
            } else {
                let last = events.len() - 1;
                assert(events[last] is CloseRequested);
                assert(seen[i] == notice(events[last]->0));
            }
        }
        assert forall|j: int|
            0 <= j < events.len() && (#[trigger] events[j]) is CloseRequested implies seen.contains(
            notice(events[j]->0),
        ) by {
            let wanted = notice(events[j]->0);
            if j < front.len() {
                assert(front[j] == events[j]);
                let at = choose|at: int|
                    0 <= at < forwarded(front).len() && forwarded(front)[at] == wanted;
                assert(seen[at] == wanted);
            } else {
                assert(seen[forwarded(front).len() as int] == wanted);
            }
        }
    }
}

/// A poll that holds a request to close the main window makes a running loop
/// drain, and calls for the application's `deinit` once, as the last action
/// of the step. What follows the request in the poll has no effect, however
/// much it is: neither the state nor the actions depend on it. The poll
/// after that is not dispatched any more.
pub proof fn law_main_close_drains_once(
    m: LoopModel,
    events: Seq<SystemEvent>,
    further: Seq<SystemEvent>,
)
    requires
        m.state == LoopState::Running,
        exists|k: int| 0 <= k < events.len() && closes_main(m.main_window, #[trigger] events[k]),
    ensures
        m.step(InputModel::Polled(events)).next.state == LoopState::Draining,
        m.step(InputModel::Polled(events)).actions.len() > 0,
        m.step(InputModel::Polled(events)).actions.last() == LoopAction::Deinit,
        forall|i: int|
            0 <= i < m.step(InputModel::Polled(events)).actions.len() - 1 ==> (#[trigger] m.step(
                InputModel::Polled(events),
            ).actions[i]) is Forward,
        m.step(InputModel::Polled(events + further)) == m.step(InputModel::Polled(events)),
        m.step(InputModel::Polled(events)).next.step(InputModel::Polled(further)).actions.len()
            == 0,
        m.step(InputModel::Polled(events)).next.step(InputModel::Polled(further)).next.state
            == LoopState::Draining,
{
    let main = m.main_window;
    lemma_dispatched_is_first(main, events);
    let upto = dispatched(main, events);
    let seen = forwarded(events.take(upto));
    lemma_forwarded_exactly(events.take(upto));
    let actions = m.step(InputModel::Polled(events)).actions;
    assert(actions == seen + seq![LoopAction::Deinit]);
    assert forall|i: int| 0 <= i < actions.len() - 1 implies (#[trigger] actions[i]) is Forward by {
        assert(actions[i] == seen[i]);
    }
    let longer = events + further;
    assert forall|j: int| 0 <= j < upto implies !closes_main(main, #[trigger] longer[j]) by {
        assert(longer[j] == events[j]);
    }
    assert(longer[upto] == events[upto]);
    lemma_dispatched_upto(main, longer, upto);
    assert(longer.take(upto) =~= events.take(upto));
}

/// A request to close a window other than the main one never ends the run: a
/// poll without a request to close the main window leaves a running loop
/// running, and no poll takes it further than draining. Such a request
/// reaches the application as `WindowClosed` with the identity of the window
/// it names, provided the main window was not asked to close earlier in the
/// same poll; and the application is told of no window of which the poll did
/// not say so.
pub proof fn law_other_close_is_forwarded(m: LoopModel, events: Seq<SystemEvent>)
    requires
        m.state == LoopState::Running,
    ensures
        (forall|j: int| 0 <= j < events.len() ==> !closes_main(m.main_window, #[trigger] events[j]))
            ==> m.step(InputModel::Polled(events)).next.state == LoopState::Running,
        m.step(InputModel::Polled(events)).next.state != LoopState::Terminated,
        forall|k: int|
            0 <= k < events.len() && (#[trigger] events[k]) is CloseRequested && (forall|j: int|
                0 <= j <= k ==> !closes_main(m.main_window, #[trigger] events[j])) ==> m.step(
                InputModel::Polled(events),
            ).actions.contains(notice(events[k]->0)),
        forall|i: int|
            0 <= i < m.step(InputModel::Polled(events)).actions.len() && (#[trigger] m.step(
                InputModel::Polled(events),
            ).actions[i]) is Forward ==> exists|k: int|
                0 <= k < events.len() && (#[trigger] events[k]) is CloseRequested && !closes_main(
                    m.main_window,
                    events[k],
                ) && m.step(InputModel::Polled(events)).actions[i] == notice(events[k]->0),
{
    let main = m.main_window;
    lemma_dispatched_is_first(main, events);
    let upto = dispatched(main, events);
    let taken = events.take(upto);
    let seen = forwarded(taken);
    lemma_forwarded_exactly(taken);
    let actions = m.step(InputModel::Polled(events)).actions;
    assert forall|k: int|
        0 <= k < events.len() && (#[trigger] events[k]) is CloseRequested && (forall|j: int|
            0 <= j <= k ==> !closes_main(main, #[trigger] events[j])) implies actions.contains(
        notice(events[k]->0),
    ) by {
        if upto <= k {
            assert(closes_main(main, events[upto]));
        }
        assert(taken[k] == events[k]);
        let wanted = notice(events[k]->0);
        let at = choose|at: int| 0 <= at < seen.len() && seen[at] == wanted;
        assert(actions[at] == wanted);
    }
    assert forall|i: int| 0 <= i < actions.len() && (#[trigger] actions[i]) is Forward implies exists|
        k: int,
    |
        0 <= k < events.len() && (#[trigger] events[k]) is CloseRequested && !closes_main(
            main,
            events[k],
        ) && actions[i] == notice(events[k]->0) by {
        assert(i < seen.len());
        assert(actions[i] == seen[i]);
        let j = choose|j: int|
            0 <= j < taken.len() && (#[trigger] taken[j]) is CloseRequested && seen[i] == notice(
                taken[j]->0,
            );
        assert(taken[j] == events[j]);
        assert(!closes_main(main, events[j]));
    }
}

/// Every step keeps a well-formed run loop well-formed.
pub proof fn law_step_keeps_wf(m: LoopModel, input: InputModel)
    requires
        m.wf(),
    ensures
        m.step(input).next.wf(),
{
}

/// The run loop of one run.
#[derive(Debug)]
pub struct RunLoop {
    state: LoopState,
    info: ApplicationInfo,
    failure: Option<IdioError>,
}

impl View for RunLoop {
    type V = LoopModel;

    closed spec fn view(&self) -> LoopModel {
        LoopModel {
            state: self.state,
            name: self.info.name@,
            ver: self.info.ver,
            pref_path: self.info.pref_path@,
            main_window: self.info.main_window,
            failure: match self.failure {
                Some(error) => Some(error@),
                None => None,
            },
        }
    }
}

/// Dispatches the events of one poll: what the application is to see of
/// them, and whether the main window was asked to close.
fn dispatch(main: Option<Window>, events: &Vec<SystemEvent>) -> (out: (Vec<LoopAction>, bool))
    ensures
        out.0@ == forwarded(events@.take(dispatched(main, events@))),
        out.1 == (dispatched(main, events@) < events@.len()),
{
    let mut actions: Vec<LoopAction> = Vec::new();
    let mut at: usize = 0;
    assert(events@.take(0) =~= Seq::<SystemEvent>::empty());
    while at < events.len()
        invariant
            at <= events.len(),
            forall|j: int| 0 <= j < at ==> !closes_main(main, #[trigger] events@[j]),
            actions@ == forwarded(events@.take(at as int)),
        decreases events.len() - at,
    {
        let ghost before = events@.take(at as int);
        let ghost with = events@.take(at + 1);
        assert(with.drop_last() =~= before);
        assert(with.last() == events@[at as int]);
        match events[at] {
            SystemEvent::CloseRequested(id) => {
                let closes = match main {
                    Some(window) => window.id == id,
                    None => false,
                };
                if closes {
                    proof {
                        lemma_dispatched_upto(main, events@, at as int);
                    }
                    return (actions, true);
                }
                actions.push(LoopAction::Forward(Event::WindowClosed(id)));
            },
            SystemEvent::Other => {},
        }
        assert(actions@ =~= forwarded(before) + forward_of(events@[at as int]));
        at += 1;
    }
    proof {
        lemma_dispatched_upto(main, events@, at as int);
    }
    (actions, false)
}

impl RunLoop {
    /// The run loop of the application of this name and version. `wanted` is
    /// the application's directory under the platform's directory for local
    /// application data, or `None` where the platform names no such
    /// directory; `created` tells whether the wanted directory could be
    /// made. Where the directory is unavailable or could not be made, the
    /// current directory is the preference path and the run opens with a
    /// warning; the run goes on either way.
    pub fn new(
        name: &'static str,
        ver: (u32, u32, u32),
        wanted: Option<String>,
        created: bool,
    ) -> (started: (RunLoop, Vec<LoopAction>))
        ensures
            started.0@ == LoopModel::initial(name@, ver, text_of(wanted), created),
            started.0@.wf(),
            started.1@ == LoopModel::opening(falls_back(text_of(wanted), created)),
    {
        let resolved = resolve_pref_path(wanted, created);
        let actions = if resolved.fallback {
            vec![LoopAction::WarnPrefPath, LoopAction::InitLogger, LoopAction::CreateWindow]
        } else {
            vec![LoopAction::InitLogger, LoopAction::CreateWindow]
        };
        let info = ApplicationInfo { name, ver, pref_path: resolved.path, main_window: None };
        (RunLoop { state: LoopState::Bootstrapping, info, failure: None }, actions)
    }

    /// Takes in what came of the last actions, and says what to do next, in
    /// order. An input that the run loop does not wait for changes nothing
    /// and asks for nothing.
    pub fn advance(&mut self, input: LoopInput) -> (actions: Vec<LoopAction>)
        ensures
            final(self)@ == old(self)@.step(input@).next,
            actions@ == old(self)@.step(input@).actions,
            old(self)@.wf() ==> final(self)@.wf(),
    {
        let bootstrapping = self.state == LoopState::Bootstrapping;
        match input {
            LoopInput::WindowBuilt(built) => {
                if bootstrapping && self.info.main_window.is_none() {
                    match built {
                        Ok(window) => {
                            self.info.main_window = Some(window);
                            vec![LoopAction::CreateContext]
                        },
                        Err(error) => {
                            self.failure = Some(error);
                            self.state = LoopState::Terminated;
                            vec![LoopAction::Finish]
                        },
                    }
                } else {
                    Vec::new()
                }
            },
            LoopInput::ContextBuilt(built) => {
                if bootstrapping && self.info.main_window.is_some() {
                    match built {
                        Ok(_) => {
                            self.state = LoopState::Running;
                            vec![LoopAction::Init, LoopAction::Tick, LoopAction::Poll]
                        },
                        Err(error) => {
                            self.failure = Some(error);
                            self.state = LoopState::Terminated;
                            vec![LoopAction::DestroyWindow, LoopAction::Finish]
                        },
                    }
                } else {
                    Vec::new()
                }
            },
            LoopInput::Polled(events) => {
                if self.state == LoopState::Running {
                    let (mut actions, drains) = dispatch(self.info.main_window, &events);
                    if drains {
                        self.state = LoopState::Draining;
                        actions.push(LoopAction::Deinit);
                    } else {
                        actions.push(LoopAction::Tick);
                        actions.push(LoopAction::Poll);
                    }
                    actions
                } else {
                    Vec::new()
                }
            },
            LoopInput::Drained => {
                if self.state == LoopState::Draining {
                    self.state = LoopState::Terminated;
                    vec![LoopAction::DestroyContext, LoopAction::DestroyWindow, LoopAction::Finish]
                } else {
                    Vec::new()
                }
            },
        }
    }

    /// The phase of the run loop.
    pub fn state(&self) -> (state: LoopState)
        ensures
            state == self@.state,
    {
        self.state
    }

    /// What the application is told of itself.
    pub fn info(&self) -> (info: &ApplicationInfo)
        ensures
            info.name@ == self@.name,
            info.ver == self@.ver,
            info.pref_path@ == self@.pref_path,
            info.main_window == self@.main_window,
    {
        &self.info
    }

    /// The warning that is due where the preference directory could not be
    /// created.
    pub fn pref_warning() -> (warning: &'static str)
        ensures
            warning@ == fallback_warning(),
    {
        "Preinit warning: Using ./ as prefpath"
    }

    /// What the run returns: the error that ended it, or success.
    pub fn result(self) -> (result: Result<(), IdioError>)
        ensures
            match result {
                Ok(_) => self@.failure is None,
                Err(error) => self@.failure == Some(error@),
            },
    {
        match self.failure {
            Some(error) => Err(error),
            None => Ok(()),
        }
    }
}

} // verus!
