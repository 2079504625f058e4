use gpu_bootstrap::context::{Action, Bootstrap, Event, Phase, Teardown};
use gpu_bootstrap::debug::{
    debug_callback, level_for_severity, LogLevel, SEVERITY_ERROR, SEVERITY_INFO, SEVERITY_VERBOSE,
    SEVERITY_WARNING,
};
use gpu_bootstrap::device::{check_physical_device, pick_physical_device, QueueFamilyIndices, SuitabilityError};
use gpu_bootstrap::error::BootstrapError;
use gpu_bootstrap::instance::{check_layers, plan_instance, ApplicationMetadata};
use gpu_bootstrap::names::contains_name;
use gpu_bootstrap::run_loop::{LoopAction, LoopEvent, RunLoop};
use gpu_bootstrap::version::{packed_version, portability_required, Version};

const GRAPHICS: u32 = 1;
const COMPUTE: u32 = 2;
const TRANSFER: u32 = 4;

fn strings(v: &[&str]) -> Vec<String> {
    v.iter().map(|s| s.to_string()).collect()
}

fn window_extensions() -> Vec<String> {
    strings(&["VK_KHR_surface", "VK_KHR_xlib_surface"])
}

/// Drives a context through start-up, answering each call from the given
/// layers, version and devices; returns the context and every action taken.
fn run_startup(
    validation: bool,
    on_macos: bool,
    layers: Vec<String>,
    version: Version,
    devices: Vec<Vec<u32>>,
) -> (Bootstrap, Vec<Action>) {
    let mut b = Bootstrap::begin(validation, on_macos, window_extensions());
    let mut actions = Vec::new();
    let mut next = Some(Event::LayersListed(layers));
    let mut devices = Some(devices);
    while let Some(e) = next.take() {
        assert!(b.can_take(&e));
        let a = b.step(e);
        next = match &a {
            Action::ReadVersion => Some(Event::VersionRead(version)),
            Action::CreateInstance(_) => Some(Event::InstanceCreated),
            Action::InstallMessenger => Some(Event::MessengerInstalled),
            Action::ListDevices => Some(Event::DevicesListed(devices.take().unwrap())),
            Action::Conclude(_) | Action::Abort(_) => None,
        };
        actions.push(a);
    }
    (b, actions)
}

#[test]
fn startup_without_validation_selects_the_only_device() {
    let device = vec![COMPUTE, TRANSFER, GRAPHICS | COMPUTE];
    let (b, actions) = run_startup(false, false, Vec::new(), Version::new(1, 3, 0), vec![device.clone()]);
    assert_eq!(b.phase, Phase::Ready);
    assert_eq!(b.selected, Some(0));
    assert!(!b.messenger_live);
    assert!(actions.iter().all(|a| !matches!(a, Action::InstallMessenger)));
    match actions.last() {
        Some(Action::Conclude(sel)) => {
            assert_eq!(sel.outcome(), Ok(0));
            assert!(sel.skipped.is_empty());
        }
        _ => panic!("start-up did not conclude"),
    }
    assert_eq!(QueueFamilyIndices::get(&device), Ok(QueueFamilyIndices { graphics: 2 }));
}

#[test]
fn startup_with_validation_and_no_layers_fails() {
    let (b, actions) = run_startup(true, false, Vec::new(), Version::new(1, 3, 0), vec![vec![GRAPHICS]]);
    assert_eq!(b.phase, Phase::Failed);
    assert!(!b.instance_live);
    assert_eq!(actions.len(), 1);
    assert!(matches!(actions[0], Action::Abort(BootstrapError::MissingValidationLayer)));
    assert!(!b.can_take(&Event::InstanceCreated));
}

#[test]
fn startup_with_validation_installs_messenger_after_instance() {
    let layers = strings(&["VK_LAYER_KHRONOS_validation"]);
    let (b, actions) = run_startup(true, false, layers, Version::new(1, 3, 0), vec![vec![GRAPHICS]]);
    assert_eq!(b.phase, Phase::Ready);
    assert!(b.messenger_live);
    assert!(matches!(actions[0], Action::CreateInstance(_)));
    assert!(matches!(actions[1], Action::InstallMessenger));
    assert!(matches!(actions[2], Action::ListDevices));
    if let Action::CreateInstance(plan) = &actions[0] {
        assert_eq!(plan.layers, strings(&["VK_LAYER_KHRONOS_validation"]));
        assert_eq!(
            plan.extensions,
            strings(&["VK_KHR_surface", "VK_KHR_xlib_surface", "VK_EXT_debug_utils"])
        );
        assert!(plan.chain_debug_info);
        assert!(!plan.portability);
    }
}

#[test]
fn validation_disabled_ignores_reported_layers() {
    let layers = strings(&["VK_LAYER_KHRONOS_validation", "VK_LAYER_other"]);
    let (_, actions) = run_startup(false, false, layers, Version::new(1, 3, 0), vec![vec![GRAPHICS]]);
    if let Action::CreateInstance(plan) = &actions[0] {
        assert!(plan.layers.is_empty());
        assert!(!plan.chain_debug_info);
        assert_eq!(plan.extensions, window_extensions());
    } else {
        panic!("instance was not planned first");
    }
    assert!(actions.iter().all(|a| !matches!(a, Action::InstallMessenger)));
}

#[test]
fn macos_from_minimum_version_enables_portability() {
    let (_, actions) = run_startup(false, true, Vec::new(), Version::new(1, 3, 216), vec![vec![GRAPHICS]]);
    assert!(matches!(actions[0], Action::ReadVersion));
    if let Action::CreateInstance(plan) = &actions[1] {
        assert!(plan.portability);
        assert_eq!(
            plan.extensions,
            strings(&[
                "VK_KHR_surface",
                "VK_KHR_xlib_surface",
                "VK_KHR_get_physical_device_properties2",
                "VK_KHR_portability_enumeration",
            ])
        );
    } else {
        panic!("instance was not planned after the version");
    }
}

#[test]
fn macos_before_minimum_version_skips_portability() {
    let (_, actions) = run_startup(false, true, Vec::new(), Version::new(1, 3, 215), vec![vec![GRAPHICS]]);
    if let Action::CreateInstance(plan) = &actions[1] {
        assert!(!plan.portability);
        assert_eq!(plan.extensions, window_extensions());
    } else {
        panic!("instance was not planned after the version");
    }
}

#[test]
fn failed_calls_map_to_their_errors() {
    let mut b = Bootstrap::begin(false, false, Vec::new());
    assert!(matches!(b.step(Event::CallFailed(-7)), Action::Abort(BootstrapError::RuntimeQuery(-7))));

    let mut b = Bootstrap::begin(false, false, Vec::new());
    b.step(Event::LayersListed(Vec::new()));
    assert!(matches!(b.step(Event::CallFailed(-6)), Action::Abort(BootstrapError::InstanceCreation(-6))));

    let mut b = Bootstrap::begin(true, false, Vec::new());
    b.step(Event::LayersListed(strings(&["VK_LAYER_KHRONOS_validation"])));
    b.step(Event::InstanceCreated);
    assert!(matches!(
        b.step(Event::CallFailed(-1)),
        Action::Abort(BootstrapError::DebugMessengerCreation(-1))
    ));
    assert!(b.instance_live);
    assert_eq!(b.destroy(), vec![Teardown::DestroyInstance]);
}

#[test]
fn no_suitable_device_skips_each_in_order() {
    let devices = vec![vec![COMPUTE], vec![], vec![TRANSFER, COMPUTE]];
    let (b, actions) = run_startup(false, false, Vec::new(), Version::new(1, 0, 0), devices);
    assert_eq!(b.phase, Phase::Failed);
    match actions.last() {
        Some(Action::Conclude(sel)) => {
            assert_eq!(sel.outcome(), Err(BootstrapError::NoSuitableDevice));
            let positions: Vec<usize> = sel.skipped.iter().map(|s| s.0).collect();
            assert_eq!(positions, vec![0, 1, 2]);
            assert!(sel.skipped.iter().all(|s| s.1 == SuitabilityError("required queue families")));
        }
        _ => panic!("start-up did not conclude"),
    }
}

#[test]
fn first_suitable_device_wins() {
    let devices = vec![vec![TRANSFER], vec![COMPUTE, GRAPHICS], vec![GRAPHICS]];
    let sel = pick_physical_device(&devices);
    assert_eq!(sel.selected, Some(1));
    assert_eq!(sel.skipped.len(), 1);
    assert_eq!(sel.skipped[0].0, 0);
}

#[test]
fn empty_device_list_has_no_selection() {
    let sel = pick_physical_device(&Vec::new());
    assert_eq!(sel.selected, None);
    assert!(sel.skipped.is_empty());
    assert_eq!(sel.outcome(), Err(BootstrapError::NoSuitableDevice));
}

#[test]
fn queue_family_lookup_takes_first_graphics_family() {
    assert_eq!(QueueFamilyIndices::get(&vec![GRAPHICS, GRAPHICS]), Ok(QueueFamilyIndices { graphics: 0 }));
    assert_eq!(
        QueueFamilyIndices::get(&vec![COMPUTE | TRANSFER]),
        Err(SuitabilityError("required queue families"))
    );
    assert!(QueueFamilyIndices::get(&Vec::new()).is_err());
    assert_eq!(check_physical_device(&vec![TRANSFER, GRAPHICS | TRANSFER]), Ok(()));
}

#[test]
fn teardown_releases_messenger_before_instance() {
    let layers = strings(&["VK_LAYER_KHRONOS_validation"]);
    let (mut b, _) = run_startup(true, false, layers, Version::new(1, 3, 0), vec![vec![GRAPHICS]]);
    assert!(b.render().is_ok());
    assert_eq!(b.destroy(), vec![Teardown::DestroyMessenger, Teardown::DestroyInstance]);
    assert_eq!(b.phase, Phase::Destroyed);
    assert!(!b.instance_live && !b.messenger_live);
}

#[test]
fn teardown_without_validation_releases_instance_only() {
    let (mut b, _) = run_startup(false, false, Vec::new(), Version::new(1, 3, 0), vec![vec![GRAPHICS]]);
    assert_eq!(b.destroy(), vec![Teardown::DestroyInstance]);
}

#[test]
fn severities_map_to_levels() {
    assert_eq!(level_for_severity(SEVERITY_VERBOSE), LogLevel::Trace);
    assert_eq!(level_for_severity(SEVERITY_INFO), LogLevel::Debug);
    assert_eq!(level_for_severity(SEVERITY_WARNING), LogLevel::Warn);
    assert_eq!(level_for_severity(SEVERITY_ERROR), LogLevel::Error);
    assert_eq!(level_for_severity(0), LogLevel::Trace);
    assert_eq!(level_for_severity(u32::MAX), LogLevel::Error);
    assert_eq!(level_for_severity(SEVERITY_WARNING | SEVERITY_INFO), LogLevel::Warn);
    let r = debug_callback(SEVERITY_ERROR);
    assert_eq!(r.level, LogLevel::Error);
    assert!(!r.abort_call);
}

#[test]
fn severity_mapping_is_monotonic() {
    let rank = |l: LogLevel| match l {
        LogLevel::Trace => 0,
        LogLevel::Debug => 1,
        LogLevel::Warn => 2,
        LogLevel::Error => 3,
    };
    let mut last = 0;
    for s in 0u32..0x2000 {
        let r = rank(level_for_severity(s));
        assert!(r >= last);
        last = r;
    }
}

#[test]
fn layer_check_and_plan_without_repeats() {
    let layers = strings(&["VK_LAYER_a", "VK_LAYER_KHRONOS_validation"]);
    assert_eq!(check_layers(true, &layers), Ok(()));
    assert_eq!(check_layers(true, &strings(&["VK_LAYER_a"])), Err(BootstrapError::MissingValidationLayer));
    assert_eq!(check_layers(false, &Vec::new()), Ok(()));
    let window = strings(&["VK_KHR_surface", "VK_EXT_debug_utils", "VK_KHR_surface"]);
    let plan = plan_instance(true, &window, false);
    assert_eq!(plan.extensions, strings(&["VK_KHR_surface", "VK_EXT_debug_utils"]));
    assert!(contains_name(&layers, &"VK_LAYER_a".to_string()));
    assert!(!contains_name(&layers, &"VK_LAYER_b".to_string()));
}

#[test]
fn versions_compare_and_pack() {
    assert!(portability_required(true, &Version::new(1, 4, 0)));
    assert!(portability_required(true, &Version::new(2, 0, 0)));
    assert!(!portability_required(true, &Version::new(1, 2, 300)));
    assert!(!portability_required(false, &Version::new(1, 3, 216)));
    assert_eq!(packed_version(&Version::new(1, 0, 0)), 4194304);
    assert_eq!(packed_version(&Version::new(1, 3, 216)), (1 << 22) | (3 << 12) | 216);
    let m = ApplicationMetadata::for_application();
    assert_eq!(m.name, "Vulkan Tutorial");
    assert_eq!(m.engine_name, "No Engine");
    assert_eq!(m.api_version, 4194304);
}

#[test]
fn run_loop_stops_rendering_after_close() {
    let mut l = RunLoop::new();
    assert_eq!(l.on_event(LoopEvent::Idle), LoopAction::Render);
    assert_eq!(l.on_event(LoopEvent::Other), LoopAction::Nothing);
    assert_eq!(l.on_event(LoopEvent::CloseRequested), LoopAction::DestroyAndExit);
    assert!(l.destroying);
    assert_eq!(l.on_event(LoopEvent::Idle), LoopAction::Nothing);
    assert_eq!(l.on_event(LoopEvent::CloseRequested), LoopAction::Nothing);
}

#[test]
fn error_descriptions() {
    assert_eq!(
        BootstrapError::MissingValidationLayer.description(),
        "Validation layer requested but not supported."
    );
    assert_eq!(BootstrapError::NoSuitableDevice.description(), "Failed to find suitable physical device.");
}
