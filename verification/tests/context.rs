use idio::gfx::context::{
    validation_warning, Abort, AppIdentity, Context, ContextAction, ContextEvent, DeviceRequest,
    Stage,
};
use idio::gfx::device::{DeviceCategory, PhysicalDevice};
use idio::{ApplicationInfo, IdioError};
use vulkanalia::vk;

fn info() -> ApplicationInfo {
    ApplicationInfo {
        name: "TestApp",
        ver: (1, 2, 3),
        pref_path: "./".to_string(),
        main_window: None,
    }
}

fn surface_extensions() -> Vec<String> {
    vec!["VK_KHR_surface".to_string(), "VK_KHR_xcb_surface".to_string()]
}

fn device(handle: usize, device_type: DeviceCategory, gfx_queue_idx: Option<u32>) -> PhysicalDevice {
    PhysicalDevice {
        handle,
        features: vk::PhysicalDeviceFeatures::default(),
        name: format!("GPU {}", handle),
        device_type,
        gfx_queue_idx,
    }
}

fn step(context: &mut Context, event: ContextEvent) -> Vec<ContextAction> {
    context.advance(event).expect("the step was fatal")
}

fn abort(context: &mut Context, event: ContextEvent) -> Abort {
    context.advance(event).expect_err("the step was not fatal")
}

/// A context with diagnostics that has come as far as `stage`.
fn diagnostic_context_at(stage: Stage) -> Context {
    let (mut context, _) = Context::new(&info(), surface_extensions(), true);
    let script: Vec<(Stage, ContextEvent)> = vec![
        (Stage::Entry, ContextEvent::EntryLoaded(Ok(()))),
        (
            Stage::Layers,
            ContextEvent::LayersEnumerated(Ok(vec!["VK_LAYER_KHRONOS_validation".to_string()])),
        ),
        (Stage::Instance, ContextEvent::InstanceCreated(Ok(()))),
        (Stage::Messenger, ContextEvent::MessengerCreated(Ok(()))),
        (
            Stage::Devices,
            ContextEvent::DevicesEnumerated(Ok(vec![device(
                9,
                DeviceCategory::Discrete,
                Some(2),
            )])),
        ),
        (Stage::Device, ContextEvent::DeviceCreated(Ok(()))),
        (Stage::Queue, ContextEvent::QueueRetrieved),
    ];
    for (at, event) in script {
        if context.stage() == stage {
            break;
        }
        assert_eq!(context.stage(), at);
        step(&mut context, event);
    }
    assert_eq!(context.stage(), stage);
    context
}

/// A context without diagnostics that has come as far as `stage`.
fn plain_context_at(stage: Stage) -> Context {
    let (mut context, _) = Context::new(&info(), surface_extensions(), false);
    let script: Vec<(Stage, ContextEvent)> = vec![
        (Stage::Entry, ContextEvent::EntryLoaded(Ok(()))),
        (Stage::Instance, ContextEvent::InstanceCreated(Ok(()))),
        (
            Stage::Devices,
            ContextEvent::DevicesEnumerated(Ok(vec![device(
                9,
                DeviceCategory::Discrete,
                Some(2),
            )])),
        ),
        (Stage::Device, ContextEvent::DeviceCreated(Ok(()))),
        (Stage::Queue, ContextEvent::QueueRetrieved),
    ];
    for (at, event) in script {
        if context.stage() == stage {
            break;
        }
        assert_eq!(context.stage(), at);
        step(&mut context, event);
    }
    assert_eq!(context.stage(), stage);
    context
}

#[test]
fn identity_of_the_application_and_the_engine() {
    let identity = AppIdentity::new("TestApp", (1, 2, 3));
    assert_eq!(identity.application_name, "TestApp");
    assert_eq!(identity.application_version, 4202499);
    assert_eq!(identity.application_version, vk::make_version(1, 2, 3));
    assert_eq!(identity.engine_name, "Idio");
    assert_eq!(identity.engine_version, 1);
    assert_eq!(identity.api_version, 4206592);
    assert_eq!(identity.api_version, vk::make_version(1, 3, 0));
}

#[test]
fn version_parts_that_do_not_fit_spill_over() {
    let identity = AppIdentity::new("x", (1024, 1024, 4096));
    assert_eq!(identity.application_version, (1024u32 << 22) | (1024 << 12) | 4096);
    assert_eq!(identity.application_version, 4198400);
}

#[test]
fn a_new_context_asks_for_the_entry_point() {
    let (context, actions) = Context::new(&info(), surface_extensions(), false);
    assert_eq!(actions, vec![ContextAction::LoadEntry]);
    assert_eq!(context.stage(), Stage::Entry);
    assert!(!context.diagnostics());
    assert!(!context.is_ready());
    assert_eq!(context.extensions(), &surface_extensions());
    assert!(context.layers().is_empty());
    assert!(context.selected().is_none());
    assert_eq!(context.device_request(), None);
    assert!(context.announcement().is_none());
    let identity = context.identity();
    assert_eq!(identity.application_name, "TestApp");
    assert_eq!(identity.application_version, 4202499);
    assert_eq!(identity.api_version, 4206592);
}

#[test]
fn diagnostics_add_the_debug_extension_after_the_required_ones() {
    let (context, _) = Context::new(&info(), surface_extensions(), true);
    assert!(context.diagnostics());
    assert_eq!(
        context.extensions(),
        &vec![
            "VK_KHR_surface".to_string(),
            "VK_KHR_xcb_surface".to_string(),
            "VK_EXT_debug_utils".to_string()
        ]
    );
    assert_eq!(
        context.extensions().last().unwrap(),
        &vk::EXT_DEBUG_UTILS_EXTENSION.name.to_string_lossy()
    );
}

#[test]
fn bootstrap_with_diagnostics() {
    let (mut context, _) = Context::new(&info(), surface_extensions(), true);
    assert_eq!(
        step(&mut context, ContextEvent::EntryLoaded(Ok(()))),
        vec![ContextAction::EnumerateLayers]
    );
    assert_eq!(context.stage(), Stage::Layers);
    let available = vec![
        "VK_LAYER_MESA_overlay".to_string(),
        "VK_LAYER_KHRONOS_validation".to_string(),
    ];
    assert_eq!(
        step(&mut context, ContextEvent::LayersEnumerated(Ok(available))),
        vec![ContextAction::CreateInstance]
    );
    assert_eq!(context.layers(), &vec!["VK_LAYER_KHRONOS_validation".to_string()]);
    assert_eq!(
        step(&mut context, ContextEvent::InstanceCreated(Ok(()))),
        vec![ContextAction::CreateDebugMessenger]
    );
    assert_eq!(
        step(&mut context, ContextEvent::MessengerCreated(Ok(()))),
        vec![ContextAction::EnumerateDevices]
    );
    let devices = vec![
        device(1, DeviceCategory::Cpu, Some(0)),
        device(2, DeviceCategory::Integrated, Some(1)),
    ];
    assert_eq!(
        step(&mut context, ContextEvent::DevicesEnumerated(Ok(devices))),
        vec![ContextAction::CreateDevice]
    );
    assert_eq!(context.selected().as_ref().unwrap().handle, 2);
    assert_eq!(
        context.device_request(),
        Some(DeviceRequest { physical_device: 2, queue_family: 1, queue_count: 1, queue_index: 0 })
    );
    assert_eq!(
        step(&mut context, ContextEvent::DeviceCreated(Ok(()))),
        vec![ContextAction::GetQueue]
    );
    assert!(!context.is_ready());
    assert_eq!(
        step(&mut context, ContextEvent::QueueRetrieved),
        vec![ContextAction::AnnounceDevice]
    );
    assert!(context.is_ready());
    assert_eq!(context.stage(), Stage::Ready);
    let record = context.announcement().unwrap();
    assert_eq!(record.file, "[Idio, Info] Selected GPU GPU 2");
    assert_eq!(record.console.unwrap().text, "[Idio]: Selected GPU GPU 2");
}

#[test]
fn bootstrap_without_diagnostics_skips_layers_and_messenger() {
    let (mut context, _) = Context::new(&info(), surface_extensions(), false);
    assert_eq!(
        step(&mut context, ContextEvent::EntryLoaded(Ok(()))),
        vec![ContextAction::CreateInstance]
    );
    assert_eq!(
        step(&mut context, ContextEvent::InstanceCreated(Ok(()))),
        vec![ContextAction::EnumerateDevices]
    );
    let devices = vec![device(4, DeviceCategory::Discrete, Some(0))];
    assert_eq!(
        step(&mut context, ContextEvent::DevicesEnumerated(Ok(devices))),
        vec![ContextAction::CreateDevice]
    );
    assert_eq!(
        step(&mut context, ContextEvent::DeviceCreated(Ok(()))),
        vec![ContextAction::GetQueue]
    );
    assert_eq!(
        step(&mut context, ContextEvent::QueueRetrieved),
        vec![ContextAction::AnnounceDevice]
    );
    assert!(context.is_ready());
    assert!(context.layers().is_empty());
    assert_eq!(context.extensions(), &surface_extensions());
}

#[test]
fn a_missing_validation_layer_is_a_warning_and_no_failure() {
    let mut context = diagnostic_context_at(Stage::Layers);
    let available = vec!["VK_LAYER_MESA_overlay".to_string()];
    assert_eq!(
        step(&mut context, ContextEvent::LayersEnumerated(Ok(available))),
        vec![ContextAction::WarnNoValidation, ContextAction::CreateInstance]
    );
    assert_eq!(context.stage(), Stage::Instance);
    assert!(context.layers().is_empty());

    let mut context = diagnostic_context_at(Stage::Layers);
    assert_eq!(
        step(&mut context, ContextEvent::LayersEnumerated(Ok(vec![]))),
        vec![ContextAction::WarnNoValidation, ContextAction::CreateInstance]
    );

    let record = validation_warning();
    assert_eq!(
        record.file,
        "[Idio, Warning] Validation layer not supported, vulkan errors won't be reported"
    );
    assert_eq!(
        record.console.unwrap().text,
        "[Idio]: Validation layer not supported, vulkan errors won't be reported"
    );
}

#[test]
fn a_failed_entry_point_unwinds_nothing() {
    let (mut context, _) = Context::new(&info(), surface_extensions(), true);
    let failure = abort(
        &mut context,
        ContextEvent::EntryLoaded(Err(IdioError::VulkanError("libvulkan.so.1 not found".to_string()))),
    );
    assert_eq!(failure.error.to_string(), "Vulkan error: libvulkan.so.1 not found");
    assert_eq!(failure.at, Stage::Entry);
    assert!(failure.unwind.is_empty());
    assert_eq!(context.stage(), Stage::Failed);
}

#[test]
fn a_failed_layer_enumeration_unwinds_nothing() {
    let mut context = diagnostic_context_at(Stage::Layers);
    let failure =
        abort(&mut context, ContextEvent::LayersEnumerated(Err(IdioError::from_vulkan(-1))));
    assert_eq!(failure.error.to_string(), "Vulkan error: A host memory allocation has failed.");
    assert!(failure.unwind.is_empty());
    assert_eq!(context.stage(), Stage::Failed);
}

#[test]
fn a_failed_instance_unwinds_nothing() {
    let mut context = diagnostic_context_at(Stage::Instance);
    let failure =
        abort(&mut context, ContextEvent::InstanceCreated(Err(IdioError::from_vulkan(-9))));
    assert!(matches!(failure.error, IdioError::VulkanError(_)));
    assert_eq!(failure.at, Stage::Instance);
    assert!(failure.unwind.is_empty());
}

#[test]
fn a_failed_messenger_unwinds_the_instance() {
    let mut context = diagnostic_context_at(Stage::Messenger);
    let failure =
        abort(&mut context, ContextEvent::MessengerCreated(Err(IdioError::from_vulkan(-1))));
    assert_eq!(failure.unwind, vec![ContextAction::DestroyInstance]);
    assert_eq!(context.stage(), Stage::Failed);
    assert!(context.teardown().is_empty());
}

#[test]
fn failed_device_enumeration_unwinds_messenger_then_instance() {
    let mut context = diagnostic_context_at(Stage::Devices);
    let failure =
        abort(&mut context, ContextEvent::DevicesEnumerated(Err(IdioError::from_vulkan(-3))));
    assert_eq!(
        failure.unwind,
        vec![ContextAction::DestroyDebugMessenger, ContextAction::DestroyInstance]
    );

    let mut context = plain_context_at(Stage::Devices);
    let failure =
        abort(&mut context, ContextEvent::DevicesEnumerated(Err(IdioError::from_vulkan(-3))));
    assert_eq!(failure.unwind, vec![ContextAction::DestroyInstance]);
}

#[test]
fn no_devices_is_fatal() {
    let mut context = diagnostic_context_at(Stage::Devices);
    let failure = abort(&mut context, ContextEvent::DevicesEnumerated(Ok(vec![])));
    assert_eq!(failure.error.to_string(), "Critical error: No supported GPUs found");
    assert_eq!(failure.at, Stage::Devices);
    assert_eq!(
        failure.unwind,
        vec![ContextAction::DestroyDebugMessenger, ContextAction::DestroyInstance]
    );
    assert_eq!(context.stage(), Stage::Failed);
    assert!(context.selected().is_none());
}

#[test]
fn no_device_with_graphics_is_fatal() {
    let mut context = plain_context_at(Stage::Devices);
    let devices = vec![
        device(1, DeviceCategory::Discrete, None),
        device(2, DeviceCategory::Integrated, None),
    ];
    let failure = abort(&mut context, ContextEvent::DevicesEnumerated(Ok(devices)));
    assert_eq!(failure.error.to_string(), "Critical error: No GPU with graphics support found");
    assert_eq!(failure.unwind, vec![ContextAction::DestroyInstance]);
    assert!(context.selected().is_none());
}

#[test]
fn a_failed_device_unwinds_messenger_then_instance() {
    let mut context = diagnostic_context_at(Stage::Device);
    let failure =
        abort(&mut context, ContextEvent::DeviceCreated(Err(IdioError::from_vulkan(-8))));
    assert_eq!(failure.error.to_string(), "Vulkan error: A requested feature is not supported.");
    assert_eq!(failure.at, Stage::Device);
    assert_eq!(
        failure.unwind,
        vec![ContextAction::DestroyDebugMessenger, ContextAction::DestroyInstance]
    );
}

#[test]
fn teardown_of_a_complete_context_with_diagnostics() {
    let mut context = diagnostic_context_at(Stage::Ready);
    assert_eq!(
        context.teardown(),
        vec![
            ContextAction::DestroyDevice,
            ContextAction::DestroyDebugMessenger,
            ContextAction::DestroyInstance
        ]
    );
    assert_eq!(context.stage(), Stage::Destroyed);
    assert!(context.teardown().is_empty());
}

#[test]
fn teardown_without_diagnostics_never_names_a_messenger() {
    for stage in [Stage::Entry, Stage::Instance, Stage::Devices, Stage::Device, Stage::Queue, Stage::Ready] {
        let mut context = plain_context_at(stage);
        let plan = context.teardown();
        assert!(!plan.contains(&ContextAction::DestroyDebugMessenger));
    }
    let mut context = plain_context_at(Stage::Ready);
    assert_eq!(
        context.teardown(),
        vec![ContextAction::DestroyDevice, ContextAction::DestroyInstance]
    );
}

#[test]
fn teardown_gives_back_only_what_exists() {
    assert!(diagnostic_context_at(Stage::Entry).teardown().is_empty());
    assert!(diagnostic_context_at(Stage::Layers).teardown().is_empty());
    assert!(diagnostic_context_at(Stage::Instance).teardown().is_empty());
    assert_eq!(
        diagnostic_context_at(Stage::Messenger).teardown(),
        vec![ContextAction::DestroyInstance]
    );
    assert_eq!(
        diagnostic_context_at(Stage::Devices).teardown(),
        vec![ContextAction::DestroyDebugMessenger, ContextAction::DestroyInstance]
    );
    assert_eq!(
        diagnostic_context_at(Stage::Device).teardown(),
        vec![ContextAction::DestroyDebugMessenger, ContextAction::DestroyInstance]
    );
    assert_eq!(
        diagnostic_context_at(Stage::Queue).teardown(),
        vec![
            ContextAction::DestroyDevice,
            ContextAction::DestroyDebugMessenger,
            ContextAction::DestroyInstance
        ]
    );
}

#[test]
fn a_report_that_is_not_awaited_changes_nothing() {
    let mut context = diagnostic_context_at(Stage::Instance);
    assert!(step(&mut context, ContextEvent::QueueRetrieved).is_empty());
    assert!(step(&mut context, ContextEvent::EntryLoaded(Ok(()))).is_empty());
    assert!(step(&mut context, ContextEvent::DeviceCreated(Err(IdioError::from_vulkan(-4))))
        .is_empty());
    assert!(step(&mut context, ContextEvent::DevicesEnumerated(Ok(vec![]))).is_empty());
    assert!(step(&mut context, ContextEvent::LayersEnumerated(Ok(vec![]))).is_empty());
    assert!(step(&mut context, ContextEvent::MessengerCreated(Ok(()))).is_empty());
    assert_eq!(context.stage(), Stage::Instance);

    let mut ready = plain_context_at(Stage::Ready);
    assert!(step(&mut ready, ContextEvent::QueueRetrieved).is_empty());
    assert!(ready.is_ready());

    let mut failed = plain_context_at(Stage::Entry);
    abort(&mut failed, ContextEvent::EntryLoaded(Err(IdioError::from_vulkan(-3))));
    assert!(step(&mut failed, ContextEvent::EntryLoaded(Ok(()))).is_empty());
    assert_eq!(failed.stage(), Stage::Failed);
}
