//! The graphics context: what is acquired from the graphics API, in which
//! order, and how it is given back.
//!
//! The context here is the bookkeeping of that work. The calls into the
//! graphics API are made by the program that owns the context: it performs
//! the actions the context names and reports how each went.

use crate::app::{texts, ApplicationInfo};
use crate::gfx::device::{law_choice_outcomes, select, PhysicalDevice};
use crate::gfx::ranking::select_physical_device;
use crate::gfx::vulkan::{
    debug_utils_extension, debug_utils_name, make_version, version_number,
};
use crate::logger::{
    engine_sink, log_engine, records, ErrorModel, IdioError, LogLevel, LogRecord,
};
use vstd::prelude::*;
use vstd::string::*;

verus! {

/// The validation layer that a diagnostics build asks for.
pub open spec fn validation_layer() -> Seq<char> {
    "VK_LAYER_KHRONOS_validation"@
}

/// The name under which the engine presents itself to the graphics API.
pub open spec fn engine_name() -> Seq<char> {
    "Idio"@
}

/// Who asks for the instance: the application and the engine, each with its
/// version as one number, and the version of the graphics API that is wanted.
#[derive(Debug)]
pub struct AppIdentity {
    pub application_name: String,
    pub application_version: u32,
    pub engine_name: &'static str,
    pub engine_version: u32,
    pub api_version: u32,
}

impl AppIdentity {
    /// The identity of an application of this name and version: run by the
    /// engine "Idio" 0.0.1, asking for version 1.3.0 of the graphics API.
    pub fn new(name: &str, ver: (u32, u32, u32)) -> (identity: AppIdentity)
        ensures
            identity.application_name@ == name@,
            identity.application_version == version_number(ver.0, ver.1, ver.2),
            identity.engine_name@ == engine_name(),
            identity.engine_version == version_number(0, 0, 1),
            identity.api_version == version_number(1, 3, 0),
    {
        AppIdentity {
            application_name: String::from_str(name),
            application_version: make_version(ver.0, ver.1, ver.2),
            engine_name: "Idio",
            engine_version: make_version(0, 0, 1),
            api_version: make_version(1, 3, 0),
        }
    }
}

/// How far the context has come. Each stage but the last three waits for the
/// report named in its description.
#[derive(Clone, Copy, Debug, PartialEq, Eq, Structural)]
pub enum Stage {
    /// Waiting for the entry point: nothing is acquired yet.
    Entry,
    /// Waiting for the list of available layers. Only with diagnostics.
    Layers,
    /// Waiting for the instance.
    Instance,
    /// Waiting for the debug messenger. Only with diagnostics.
    Messenger,
    /// Waiting for the enumerated physical devices.
    Devices,
    /// Waiting for the logical device.
    Device,
    /// Waiting for the submission queue.
    Queue,
    /// Complete: instance, messenger (with diagnostics), device and queue exist.
    Ready,
    /// A step failed; what had been acquired was handed back for destruction.
    Failed,
    /// Torn down.
    Destroyed,
}

/// What the owner of the context is to do.
#[derive(Clone, Copy, Debug, PartialEq, Eq, Structural)]
pub enum ContextAction {
    /// Load the graphics library and create the entry point.
    LoadEntry,
    /// Enumerate the instance layers that are available.
    EnumerateLayers,
    /// Log that the validation layer is missing; see `validation_warning`.
    WarnNoValidation,
    /// Create the instance with the context's identity, extensions and
    /// layers. With diagnostics, the debug callback is registered in the
    /// same call, so that instance creation itself is observed.
    CreateInstance,
    /// Create the debug messenger.
    CreateDebugMessenger,
    /// Enumerate the physical devices and probe each.
    EnumerateDevices,
    /// Create the logical device; see `device_request`.
    CreateDevice,
    /// Retrieve the submission queue; see `device_request`.
    GetQueue,
    /// Log which device was selected; see `announcement`.
    AnnounceDevice,
    DestroyDevice,
    DestroyDebugMessenger,
    DestroyInstance,
}

/// How an action went.
#[derive(Debug)]
pub enum ContextEvent {
    EntryLoaded(Result<(), IdioError>),
    /// The names of the available layers.
    LayersEnumerated(Result<Vec<String>, IdioError>),
    InstanceCreated(Result<(), IdioError>),
    MessengerCreated(Result<(), IdioError>),
    /// The physical devices, in the order the graphics API lists them.
    DevicesEnumerated(Result<Vec<PhysicalDevice>, IdioError>),
    DeviceCreated(Result<(), IdioError>),
    QueueRetrieved,
}

/// A fatal failure of the bootstrap: the error, the stage at which it struck,
/// and what is to be destroyed, in this order, of what had been acquired.
#[derive(Debug)]
pub struct Abort {
    pub error: IdioError,
    /// The stage whose report was the failure: `Entry` for the entry point,
    /// `Instance` for the instance, `Devices` for the enumeration and the
    /// selection, `Device` for the logical device, and so on.
    pub at: Stage,
    pub unwind: Vec<ContextAction>,
}

/// What is asked of the graphics API for the logical device: one queue, the
/// first, of the selected device's graphics queue family, at full priority.
#[derive(Clone, Copy, Debug, PartialEq, Eq, Structural)]
pub struct DeviceRequest {
    /// The handle of the selected physical device.
    pub physical_device: usize,
    pub queue_family: u32,
    pub queue_count: u32,
    pub queue_index: u32,
}

/// The context as plain values.
pub struct ContextModel {
    /// Whether the debug channel of the graphics API is set up.
    pub diagnostics: bool,
    pub stage: Stage,
    pub application: Seq<char>,
    pub application_version: u32,
    /// The instance extensions that are asked for.
    pub extensions: Seq<Seq<char>>,
    /// The layers that are asked for, of the instance and of the device.
    pub layers: Seq<Seq<char>>,
    /// The physical device that was selected.
    pub selected: Option<PhysicalDevice>,
}

/// One step of the context: the state that follows, the actions that are
/// handed out, and the error, if the step was fatal. After a fatal step the
/// actions are those that destroy what had been acquired.
pub struct Transition {
    pub next: ContextModel,
    pub actions: Seq<ContextAction>,
    pub failure: Option<ErrorModel>,
}

impl ContextModel {
    /// Whether an instance exists.
    pub open spec fn instance_live(self) -> bool {
        self.stage == Stage::Messenger || self.stage == Stage::Devices || self.stage
            == Stage::Device || self.stage == Stage::Queue || self.stage == Stage::Ready
    }

    /// Whether a debug messenger exists.
    pub open spec fn messenger_live(self) -> bool {
        self.diagnostics && (self.stage == Stage::Devices || self.stage == Stage::Device
            || self.stage == Stage::Queue || self.stage == Stage::Ready)
    }

    /// Whether a logical device exists.
    pub open spec fn device_live(self) -> bool {
        self.stage == Stage::Queue || self.stage == Stage::Ready
    }

    /// What is to be destroyed, in this order, to give back what exists: the
    /// device, then the debug messenger, then the instance.
    pub open spec fn teardown_plan(self) -> Seq<ContextAction> {
        (if self.device_live() {
            seq![ContextAction::DestroyDevice]
        } else {
            Seq::empty()
        }) + (if self.messenger_live() {
            seq![ContextAction::DestroyDebugMessenger]
        } else {
            Seq::empty()
        }) + (if self.instance_live() {
            seq![ContextAction::DestroyInstance]
        } else {
            Seq::empty()
        })
    }

    /// What holds of every context that was made by `Context::new` and moved
    /// by `advance` and `teardown`: the stages of the debug channel occur
    /// only with diagnostics, and so do its extension and layer; from the
    /// creation of the logical device on, a device is selected that can do
    /// graphics work.
    pub open spec fn wf(self) -> bool {
        &&& (self.stage == Stage::Layers || self.stage == Stage::Messenger) ==> self.diagnostics
        &&& (self.stage == Stage::Device || self.stage == Stage::Queue || self.stage
            == Stage::Ready) ==> self.selected is Some && self.selected->0.graphics_capable()
        &&& self.layers.len() == 0 || (self.diagnostics && self.layers == seq![
            validation_layer(),
        ])
        &&& self.diagnostics ==> self.extensions.len() > 0 && self.extensions.last()
            == debug_utils_name()
    }

    /// The step that moves on to `stage` and hands out `actions`.
    pub open spec fn go(self, stage: Stage, actions: Seq<ContextAction>) -> Transition {
        Transition { next: ContextModel { stage, ..self }, actions, failure: None }
    }

    /// The step that ends the bootstrap with `error`.
    pub open spec fn fail(self, error: ErrorModel) -> Transition {
        Transition {
            next: ContextModel { stage: Stage::Failed, ..self },
            actions: self.teardown_plan(),
            failure: Some(error),
        }
    }

    /// The step of a report that the context does not wait for: nothing
    /// changes and nothing is handed out.
    pub open spec fn stay(self) -> Transition {
        Transition { next: self, actions: Seq::empty(), failure: None }
    }

    /// The step on a report that carries nothing but success or an error.
    pub open spec fn on_result(
        self,
        awaited: Stage,
        result: Result<(), IdioError>,
        stage: Stage,
        actions: Seq<ContextAction>,
    ) -> Transition {
        if self.stage != awaited {
            self.stay()
        } else {
            match result {
                Ok(_) => self.go(stage, actions),
                Err(error) => self.fail(error@),
            }
        }
    }

    /// The step of the context on a report.
    ///
    /// The entry point comes first. With diagnostics the available layers are
    /// asked for next, and the validation layer is taken where it is among
    /// them; where it is not, a warning is logged and the bootstrap goes on
    /// without it. Then the instance is created, with diagnostics the debug
    /// messenger, then the devices are enumerated and one is selected, the
    /// logical device is created and its queue retrieved. Any error, and a
    /// failed selection, is fatal.
    pub open spec fn step(self, event: ContextEvent) -> Transition {
        match event {
            ContextEvent::EntryLoaded(result) => if self.diagnostics {
                self.on_result(
                    Stage::Entry,
                    result,
                    Stage::Layers,
                    seq![ContextAction::EnumerateLayers],
                )
            } else {
                self.on_result(
                    Stage::Entry,
                    result,
                    Stage::Instance,
                    seq![ContextAction::CreateInstance],
                )
            },
            ContextEvent::LayersEnumerated(result) => if self.stage != Stage::Layers {
                self.stay()
            } else {
                match result {
                    Ok(available) => if texts(available@).contains(validation_layer()) {
                        ContextModel { layers: seq![validation_layer()], ..self }.go(
                            Stage::Instance,
                            seq![ContextAction::CreateInstance],
                        )
                    } else {
                        self.go(
                            Stage::Instance,
                            seq![ContextAction::WarnNoValidation, ContextAction::CreateInstance],
                        )
                    },
                    Err(error) => self.fail(error@),
                }
            },
            ContextEvent::InstanceCreated(result) => if self.diagnostics {
                self.on_result(
                    Stage::Instance,
                    result,
                    Stage::Messenger,
                    seq![ContextAction::CreateDebugMessenger],
                )
            } else {
                self.on_result(
                    Stage::Instance,
                    result,
                    Stage::Devices,
                    seq![ContextAction::EnumerateDevices],
                )
            },
            ContextEvent::MessengerCreated(result) => self.on_result(
                Stage::Messenger,
                result,
                Stage::Devices,
                seq![ContextAction::EnumerateDevices],
            ),
            ContextEvent::DevicesEnumerated(result) => if self.stage != Stage::Devices {
                self.stay()
            } else {
                match result {
                    Ok(devices) => match select(devices@) {
                        Ok(device) => ContextModel { selected: Some(device), ..self }.go(
                            Stage::Device,
                            seq![ContextAction::CreateDevice],
                        ),
                        Err(why) => self.fail(ErrorModel::Critical(why.reason())),
                    },
                    Err(error) => self.fail(error@),
                }
            },
            ContextEvent::DeviceCreated(result) => self.on_result(
                Stage::Device,
                result,
                Stage::Queue,
                seq![ContextAction::GetQueue],
            ),
            ContextEvent::QueueRetrieved => if self.stage != Stage::Queue {
                self.stay()
            } else {
                self.go(Stage::Ready, seq![ContextAction::AnnounceDevice])
            },
        }
    }

    /// The context after it was torn down.
    pub open spec fn torn_down(self) -> ContextModel {
        ContextModel { stage: Stage::Destroyed, ..self }
    }
}

/// The bookkeeping of a graphics context.
#[derive(Debug)]
pub struct Context {
    diagnostics: bool,
    stage: Stage,
    application: String,
    application_version: u32,
    extensions: Vec<String>,
    layers: Vec<String>,
    pdev: Option<PhysicalDevice>,
}

impl View for Context {
    type V = ContextModel;

    closed spec fn view(&self) -> ContextModel {
        ContextModel {
            diagnostics: self.diagnostics,
            stage: self.stage,
            application: self.application@,
            application_version: self.application_version,
            extensions: texts(self.extensions@),
            layers: texts(self.layers@),
            selected: self.pdev,
        }
    }
}

/// Whether one of the names is the wanted one.
fn contains_name(names: &Vec<String>, wanted: &String) -> (found: bool)
    ensures
        found == texts(names@).contains(wanted@),
{
    let mut at: usize = 0;
    while at < names.len()
        invariant
            at <= names.len(),
            forall|j: int| 0 <= j < at ==> texts(names@)[j] != wanted@,
        decreases names.len() - at,
    {
        if names[at] == *wanted {
            assert(texts(names@)[at as int] == wanted@);
            return true;
        }
        at += 1;
    }
    false
}

impl Context {
    /// A context for the application, before anything is acquired. The
    /// instance will be asked for the extensions that the window system
    /// requires, and with diagnostics for the debug extension after them.
    /// The first thing to do is to load the entry point.
    pub fn new(ai: &ApplicationInfo, required_extensions: Vec<String>, diagnostics: bool) -> (started:
        (Context, Vec<ContextAction>))
        ensures
            started.0@ == (ContextModel {
                diagnostics,
                stage: Stage::Entry,
                application: ai.name@,
                application_version: version_number(ai.ver.0, ai.ver.1, ai.ver.2),
                extensions: if diagnostics {
                    texts(required_extensions@).push(debug_utils_name())
                } else {
                    texts(required_extensions@)
                },
                layers: Seq::empty(),
                selected: None,
            }),
            started.0@.wf(),
            started.1@ == seq![ContextAction::LoadEntry],
    {
        let mut extensions = required_extensions;
        if diagnostics {
            extensions.push(debug_utils_extension());
            assert(texts(extensions@) =~= texts(required_extensions@).push(debug_utils_name()));
        }
        let layers: Vec<String> = Vec::new();
        assert(texts(layers@) =~= Seq::<Seq<char>>::empty());
        let context = Context {
            diagnostics,
            stage: Stage::Entry,
            application: String::from_str(ai.name),
            application_version: make_version(ai.ver.0, ai.ver.1, ai.ver.2),
            extensions,
            layers,
            pdev: None,
        };
        (context, vec![ContextAction::LoadEntry])
    }

    /// What is to be destroyed, in this order, to give back what exists.
    fn plan(&self) -> (plan: Vec<ContextAction>)
        ensures
            plan@ == self@.teardown_plan(),
    {
        let mut plan: Vec<ContextAction> = Vec::new();
        let past_instance = self.stage == Stage::Devices || self.stage == Stage::Device
            || self.stage == Stage::Queue || self.stage == Stage::Ready;
        if self.stage == Stage::Queue || self.stage == Stage::Ready {
            plan.push(ContextAction::DestroyDevice);
        }
        if self.diagnostics && past_instance {
            plan.push(ContextAction::DestroyDebugMessenger);
        }
        if self.stage == Stage::Messenger || past_instance {
            plan.push(ContextAction::DestroyInstance);
        }
        assert(plan@ =~= self@.teardown_plan());
        plan
    }

    /// Ends the bootstrap with `error`.
    fn fail(&mut self, error: IdioError) -> (outcome: Result<Vec<ContextAction>, Abort>)
        ensures
            final(self)@ == old(self)@.fail(error@).next,
            outcome matches Err(abort) && abort.error@ == error@ && abort.at == old(self)@.stage
                && abort.unwind@ == old(self)@.teardown_plan(),
    {
        let unwind = self.plan();
        let at = self.stage;
        self.stage = Stage::Failed;
        Err(Abort { error, at, unwind })
    }

    /// The step on a report that carries nothing but success or an error.
    fn on_result(
        &mut self,
        awaited: Stage,
        result: Result<(), IdioError>,
        stage: Stage,
        action: ContextAction,
    ) -> (outcome: Result<Vec<ContextAction>, Abort>)
        ensures
            final(self)@ == old(self)@.on_result(awaited, result, stage, seq![action]).next,
            step_outcome(old(self)@.on_result(awaited, result, stage, seq![action]), outcome),
            outcome matches Err(abort) ==> abort.at == old(self)@.stage,
    {
        if self.stage != awaited {
            Ok(Vec::new())
        } else {
            match result {
                Ok(_) => {
                    self.stage = stage;
                    Ok(vec![action])
                },
                Err(error) => self.fail(error),
            }
        }
    }

    /// Takes in how the last action went, and says what to do next. A report
    /// that the context does not wait for changes nothing and asks for
    /// nothing. An error ends the bootstrap: it is handed back together with
    /// the actions that destroy what had been acquired, and those only.
    pub fn advance(&mut self, event: ContextEvent) -> (outcome: Result<Vec<ContextAction>, Abort>)
        ensures
            final(self)@ == old(self)@.step(event).next,
            step_outcome(old(self)@.step(event), outcome),
            outcome matches Err(abort) ==> abort.at == old(self)@.stage,
            old(self)@.wf() ==> final(self)@.wf(),
    {
        proof {
            if self@.wf() {
                law_step_keeps_wf(self@, event);
            }
        }
        match event {
            ContextEvent::EntryLoaded(result) => {
                if self.diagnostics {
                    self.on_result(
                        Stage::Entry,
                        result,
                        Stage::Layers,
                        ContextAction::EnumerateLayers,
                    )
                } else {
                    self.on_result(
                        Stage::Entry,
                        result,
                        Stage::Instance,
                        ContextAction::CreateInstance,
                    )
                }
            },
            ContextEvent::LayersEnumerated(result) => {
                if self.stage != Stage::Layers {
                    Ok(Vec::new())
                } else {
                    match result {
                        Ok(available) => {
                            let wanted = String::from_str("VK_LAYER_KHRONOS_validation");
                            self.stage = Stage::Instance;
                            if contains_name(&available, &wanted) {
                                self.layers = vec![wanted];
                                assert(texts(self.layers@) =~= seq![validation_layer()]);
                                Ok(vec![ContextAction::CreateInstance])
                            } else {
                                Ok(
                                    vec![
                                        ContextAction::WarnNoValidation,
                                        ContextAction::CreateInstance,
                                    ],
                                )
                            }
                        },
                        Err(error) => self.fail(error),
                    }
                }
            },
            ContextEvent::InstanceCreated(result) => {
                if self.diagnostics {
                    self.on_result(
                        Stage::Instance,
                        result,
                        Stage::Messenger,
                        ContextAction::CreateDebugMessenger,
                    )
                } else {
                    self.on_result(
                        Stage::Instance,
                        result,
                        Stage::Devices,
                        ContextAction::EnumerateDevices,
                    )
                }
            },
            ContextEvent::MessengerCreated(result) => self.on_result(
                Stage::Messenger,
                result,
                Stage::Devices,
                ContextAction::EnumerateDevices,
            ),
            ContextEvent::DevicesEnumerated(result) => {
                if self.stage != Stage::Devices {
                    Ok(Vec::new())
                } else {
                    match result {
                        Ok(devices) => match select_physical_device(devices) {
                            Ok(device) => {
                                self.pdev = Some(device);
                                self.stage = Stage::Device;
                                Ok(vec![ContextAction::CreateDevice])
                            },
                            Err(why) => self.fail(why.into_error()),
                        },
                        Err(error) => self.fail(error),
                    }
                }
            },
            ContextEvent::DeviceCreated(result) => self.on_result(
                Stage::Device,
                result,
                Stage::Queue,
                ContextAction::GetQueue,
            ),
            ContextEvent::QueueRetrieved => {
                if self.stage != Stage::Queue {
                    Ok(Vec::new())
                } else {
                    self.stage = Stage::Ready;
                    Ok(vec![ContextAction::AnnounceDevice])
                }
            },
        }
    }

    /// Whether the debug channel of the graphics API is set up.
    pub fn diagnostics(&self) -> (on: bool)
        ensures
            on == self@.diagnostics,
    {
        self.diagnostics
    }

    /// How far the context has come.
    pub fn stage(&self) -> (stage: Stage)
        ensures
            stage == self@.stage,
    {
        self.stage
    }

    /// Whether instance, device and queue exist, and with diagnostics the
    /// debug messenger.
    pub fn is_ready(&self) -> (ready: bool)
        ensures
            ready == (self@.stage == Stage::Ready),
    {
        self.stage == Stage::Ready
    }

    /// Who asks for the instance.
    pub fn identity(&self) -> (identity: AppIdentity)
        ensures
            identity.application_name@ == self@.application,
            identity.application_version == self@.application_version,
            identity.engine_name@ == engine_name(),
            identity.engine_version == version_number(0, 0, 1),
            identity.api_version == version_number(1, 3, 0),
    {
        AppIdentity {
            application_name: self.application.clone(),
            application_version: self.application_version,
            engine_name: "Idio",
            engine_version: make_version(0, 0, 1),
            api_version: make_version(1, 3, 0),
        }
    }

    /// The instance extensions to ask for.
    pub fn extensions(&self) -> (names: &Vec<String>)
        ensures
            texts(names@) == self@.extensions,
    {
        &self.extensions
    }

    /// The layers to ask for, of the instance and of the device.
    pub fn layers(&self) -> (names: &Vec<String>)
        ensures
            texts(names@) == self@.layers,
    {
        &self.layers
    }

    /// The physical device that was selected.
    pub fn selected(&self) -> (device: &Option<PhysicalDevice>)
        ensures
            *device == self@.selected,
    {
        &self.pdev
    }

    /// What to ask of the graphics API for the logical device and its queue:
    /// one queue, the first, of the selected device's graphics queue family.
    /// It is known once a device that can do graphics work is selected.
    pub fn device_request(&self) -> (request: Option<DeviceRequest>)
        ensures
            request == device_request_of(self@.selected),
    {
        match &self.pdev {
            Some(device) => match device.gfx_queue_idx {
                Some(family) => Some(
                    DeviceRequest {
                        physical_device: device.handle,
                        queue_family: family,
                        queue_count: 1,
                        queue_index: 0,
                    },
                ),
                None => None,
            },
            None => None,
        }
    }

    /// The record that tells which device was selected, at level `Info`.
    pub fn announcement(&self) -> (record: Option<LogRecord>)
        ensures
            match self@.selected {
                Some(device) => record matches Some(r) && records(
                    r,
                    engine_sink(),
                    LogLevel::Info,
                    announcement_text(device.name@),
                ),
                None => record is None,
            },
    {
        match &self.pdev {
            Some(device) => {
                let text = String::from_str("Selected GPU ").concat(device.name.as_str());
                Some(log_engine(LogLevel::Info, text))
            },
            None => None,
        }
    }

    /// Gives back what exists: the actions that destroy it, the device before
    /// the debug messenger and the instance last. A debug messenger is
    /// destroyed only where one was created. Afterwards nothing exists, and
    /// a second call asks for nothing.
    pub fn teardown(&mut self) -> (plan: Vec<ContextAction>)
        ensures
            plan@ == old(self)@.teardown_plan(),
            final(self)@ == old(self)@.torn_down(),
            old(self)@.wf() ==> final(self)@.wf(),
    {
        let plan = self.plan();
        self.stage = Stage::Destroyed;
        plan
    }
}

/// What is asked of the graphics API for the logical device, given the
/// selected physical device.
pub open spec fn device_request_of(selected: Option<PhysicalDevice>) -> Option<DeviceRequest> {
    match selected {
        Some(device) => match device.gfx_queue_idx {
            Some(family) => Some(
                DeviceRequest {
                    physical_device: device.handle,
                    queue_family: family,
                    queue_count: 1,
                    queue_index: 0,
                },
            ),
            None => None,
        },
        None => None,
    }
}

/// The words that tell which device was selected.
pub open spec fn announcement_text(name: Seq<char>) -> Seq<char> {
    "Selected GPU "@ + name
}

/// The words that tell that the validation layer is missing.
pub open spec fn validation_warning_text() -> Seq<char> {
    "Validation layer not supported, vulkan errors won't be reported"@
}

/// The record that tells that the validation layer is missing, at level
/// `Warning`. The bootstrap goes on without the layer.
pub fn validation_warning() -> (record: LogRecord)
    ensures
        records(record, engine_sink(), LogLevel::Warning, validation_warning_text()),
{
    log_engine(
        LogLevel::Warning,
        String::from_str("Validation layer not supported, vulkan errors won't be reported"),
    )
}

/// Whether what `advance` hands back is what the step says: the next actions
/// where the step went well, the error and the unwinding where it was fatal.
pub open spec fn step_outcome(step: Transition, outcome: Result<Vec<ContextAction>, Abort>) -> bool {
    match outcome {
        Ok(actions) => step.failure is None && actions@ =~= step.actions,
        Err(abort) => step.failure == Some(abort.error@) && abort.unwind@ =~= step.actions,
    }
}

/// Whatever exists is destroyed in one order: the device first, the debug
/// messenger after it and before the instance, the instance last, each at
/// most once. The debug messenger is destroyed exactly where one exists,
/// which is never without diagnostics; and it never exists without an
/// instance, nor does a device. A complete context has a debug messenger
/// exactly where diagnostics are on.
pub proof fn law_teardown_order(m: ContextModel)
    ensures
        m.teardown_plan().contains(ContextAction::DestroyDevice) <==> m.device_live(),
        m.teardown_plan().contains(ContextAction::DestroyDebugMessenger) <==> m.messenger_live(),
        m.teardown_plan().contains(ContextAction::DestroyInstance) <==> m.instance_live(),
        !m.diagnostics ==> !m.teardown_plan().contains(ContextAction::DestroyDebugMessenger),
        m.messenger_live() ==> m.instance_live(),
        m.device_live() ==> m.instance_live(),
        m.stage == Stage::Ready ==> (m.messenger_live() <==> m.diagnostics),
        forall|i: int, j: int|
            0 <= i < m.teardown_plan().len() && 0 <= j < m.teardown_plan().len()
                && m.teardown_plan()[i] == ContextAction::DestroyDebugMessenger
                && m.teardown_plan()[j] == ContextAction::DestroyInstance ==> i < j,
        forall|i: int, j: int|
            0 <= i < m.teardown_plan().len() && 0 <= j < m.teardown_plan().len()
                && m.teardown_plan()[i] == ContextAction::DestroyDevice && m.teardown_plan()[j]
                != ContextAction::DestroyDevice ==> i < j,
        forall|i: int, j: int|
            0 <= i < j < m.teardown_plan().len() ==> m.teardown_plan()[i] != m.teardown_plan()[j],
        forall|i: int|
            0 <= i < m.teardown_plan().len() ==> m.teardown_plan()[i]
                == ContextAction::DestroyDevice || m.teardown_plan()[i]
                == ContextAction::DestroyDebugMessenger || m.teardown_plan()[i]
                == ContextAction::DestroyInstance,
{
    let plan = m.teardown_plan();
    let device = ContextAction::DestroyDevice;
    let messenger = ContextAction::DestroyDebugMessenger;
    let instance = ContextAction::DestroyInstance;
    if m.device_live() {
        if m.messenger_live() {
            assert(plan =~= seq![device, messenger, instance]);
            assert(plan[0] == device && plan[1] == messenger && plan[2] == instance);
        } else {
            assert(plan =~= seq![device, instance]);
            assert(plan[0] == device && plan[1] == instance);
        }
    } else {
        if m.messenger_live() {
            assert(plan =~= seq![messenger, instance]);
            assert(plan[0] == messenger && plan[1] == instance);
        } else if m.instance_live() {
            assert(plan =~= seq![instance]);
            assert(plan[0] == instance);
        } else {
            assert(plan =~= Seq::<ContextAction>::empty());
        }
    }
}

/// A fatal step hands out exactly the actions that destroy what existed
/// before it, and leaves nothing to destroy. A step that is not fatal hands
/// out no destruction. After `teardown` nothing is left to destroy either.
pub proof fn law_failure_unwinds_what_exists(m: ContextModel, event: ContextEvent)
    ensures
        m.step(event).failure is Some ==> m.step(event).actions == m.teardown_plan()
            && m.step(event).next.stage == Stage::Failed
            && m.step(event).next.teardown_plan().len() == 0,
        m.step(event).failure is None ==> forall|i: int|
            0 <= i < m.step(event).actions.len() ==> m.step(event).actions[i]
                != ContextAction::DestroyDevice && m.step(event).actions[i]
                != ContextAction::DestroyDebugMessenger && m.step(event).actions[i]
                != ContextAction::DestroyInstance,
        m.torn_down().teardown_plan().len() == 0,
{
}

/// Every step keeps a well-formed context well-formed, and so does
/// `teardown`.
pub proof fn law_step_keeps_wf(m: ContextModel, event: ContextEvent)
    requires
        m.wf(),
    ensures
        m.step(event).next.wf(),
        m.torn_down().wf(),
{
    match event {
        ContextEvent::DevicesEnumerated(Ok(devices)) => {
            law_choice_outcomes(devices@);
        },
        _ => {},
    }
}

} // verus!
