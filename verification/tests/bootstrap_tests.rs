use sidereal::bootstrap::{
    compose_extension_list, DriverEvents, LayerProbe, VulkanApp, API_VERSION_1_3,
};
use sidereal::error::VkError;
use sidereal::layers::{check_availabilities_validation_layers, required_validation_layers};
use sidereal::support::VulkanSupport;

struct TestPlatformWindow {}

impl VulkanSupport for TestPlatformWindow {}

struct DesktopWindow {}

impl VulkanSupport for DesktopWindow {
    fn get_required_extensions_list(&self) -> Vec<&'static str> {
        vec!["VK_KHR_surface", "VK_KHR_win32_surface"]
    }
}

fn available_layers() -> LayerProbe {
    LayerProbe::Available(vec!["VK_LAYER_KHRONOS_validation".to_owned()])
}

fn no_layers() -> LayerProbe {
    LayerProbe::Available(Vec::new())
}

#[test]
fn init_vulkan() -> Result<(), VkError> {
    let window = TestPlatformWindow {};

    let mut app = VulkanApp::new(true, true)?;

    let driver = DriverEvents {
        layer_probe: available_layers(),
        accept_instance: true,
        accept_messenger: true,
    };
    app.init_with_window(&window, &driver)?;

    Ok(())
}

#[test]
fn debug_init_with_layers_creates_instance_and_messenger() {
    let window = TestPlatformWindow {};
    let mut app = VulkanApp::new(true, true).unwrap();
    let driver = DriverEvents {
        layer_probe: available_layers(),
        accept_instance: true,
        accept_messenger: true,
    };
    let result = app.init_with_window(&window, &driver);
    assert!(result.is_ok());
    assert!(app.instance_exists());
    assert!(app.messenger_exists());

    let request = app
        .prepare_instance_request(
            &vec!["VK_KHR_surface".to_owned()],
            &available_layers(),
        )
        .unwrap();
    assert_eq!(
        request.extensions,
        vec![
            "VK_KHR_surface".to_owned(),
            "VK_EXT_debug_utils".to_owned()
        ]
    );
}

#[test]
fn debug_init_without_layers_fails_before_creation() {
    let window = TestPlatformWindow {};
    let mut app = VulkanApp::new(true, true).unwrap();
    // The driver would accept both calls, but the layer check must fail
    // first: neither creation call may be reached.
    let driver = DriverEvents {
        layer_probe: no_layers(),
        accept_instance: true,
        accept_messenger: true,
    };
    let result = app.init_with_window(&window, &driver);
    assert_eq!(result, Err(VkError::ValidationLayersUnavailable));
    assert!(!app.instance_exists());
    assert!(!app.messenger_exists());
}

#[test]
fn plain_init_skips_layers_and_messenger() {
    let window = TestPlatformWindow {};
    let mut app = VulkanApp::new(false, true).unwrap();
    let driver = DriverEvents {
        layer_probe: LayerProbe::NotRequested,
        accept_instance: true,
        accept_messenger: false,
    };
    let result = app.init_with_window(&window, &driver);
    assert!(result.is_ok());
    assert!(app.instance_exists());
    assert!(!app.messenger_exists());

    let request = app
        .prepare_instance_request(
            &vec!["VK_KHR_surface".to_owned()],
            &LayerProbe::NotRequested,
        )
        .unwrap();
    assert_eq!(request.extensions, vec!["VK_KHR_surface".to_owned()]);
    assert!(request.layers.is_empty());
    assert!(request.chain_debug_messenger.is_none());
}

#[test]
fn failed_layer_probe_is_reported() {
    let window = TestPlatformWindow {};
    let mut app = VulkanApp::new(true, true).unwrap();
    let driver = DriverEvents {
        layer_probe: LayerProbe::Failed,
        accept_instance: true,
        accept_messenger: true,
    };
    let result = app.init_with_window(&window, &driver);
    assert_eq!(result, Err(VkError::FailedToCreateValidationLayer));
    assert!(!app.instance_exists());
}

#[test]
fn rejected_instance_is_reported_and_not_retained() {
    let window = TestPlatformWindow {};
    let mut app = VulkanApp::new(true, true).unwrap();
    let driver = DriverEvents {
        layer_probe: available_layers(),
        accept_instance: false,
        accept_messenger: true,
    };
    let result = app.init_with_window(&window, &driver);
    assert_eq!(result, Err(VkError::FailedToCreateInstance));
    assert!(!app.instance_exists());
    assert!(!app.messenger_exists());
}

#[test]
fn rejected_messenger_leaves_instance_for_caller() {
    let window = TestPlatformWindow {};
    let mut app = VulkanApp::new(true, true).unwrap();
    let driver = DriverEvents {
        layer_probe: available_layers(),
        accept_instance: true,
        accept_messenger: false,
    };
    let result = app.init_with_window(&window, &driver);
    assert_eq!(result, Err(VkError::FailedToCreateDebugUtils));
    assert!(app.instance_exists());
    assert!(!app.messenger_exists());
    // The documented cleanup path after a failed messenger attach.
    let plan = app.destroy();
    assert!(plan.release_instance);
    assert!(!plan.release_messenger);
}

#[test]
fn loader_failure_produces_no_bootstrap() {
    let result = VulkanApp::new(true, false);
    assert!(matches!(result, Err(VkError::FailedToInitVulkan)));
}

#[test]
fn messenger_needs_an_instance() {
    let mut app = VulkanApp::new(true, true).unwrap();
    let result = app.create_debugutils(true);
    assert_eq!(result, Err(VkError::InstanceNotInitialized));
    assert!(!app.messenger_exists());
}

#[test]
fn destroy_without_instance_is_noop() {
    let mut app = VulkanApp::new(false, true).unwrap();
    let plan = app.destroy();
    assert!(!plan.release_messenger);
    assert!(!plan.release_instance);
    assert!(app.is_destroyed());
}

#[test]
fn destroy_twice_releases_nothing_twice() {
    let window = TestPlatformWindow {};
    let mut app = VulkanApp::new(true, true).unwrap();
    let driver = DriverEvents {
        layer_probe: available_layers(),
        accept_instance: true,
        accept_messenger: true,
    };
    app.init_with_window(&window, &driver).unwrap();

    let first = app.destroy();
    assert!(first.release_messenger);
    assert!(first.release_instance);

    let second = app.destroy();
    assert!(!second.release_messenger);
    assert!(!second.release_instance);
}

#[test]
fn extension_list_appends_debug_utils_only_in_debug_mode() {
    let provider = vec!["VK_KHR_surface".to_owned()];

    let with_debug = compose_extension_list(&provider, true);
    assert_eq!(
        with_debug,
        vec![
            "VK_KHR_surface".to_owned(),
            "VK_EXT_debug_utils".to_owned()
        ]
    );
    assert_eq!(
        with_debug
            .iter()
            .filter(|e| e.as_str() == "VK_EXT_debug_utils")
            .count(),
        1
    );

    let without_debug = compose_extension_list(&provider, false);
    assert_eq!(without_debug, vec!["VK_KHR_surface".to_owned()]);
}

#[test]
fn platform_variant_extends_the_extension_list() {
    let window = DesktopWindow {};
    let provider = window.get_required_extensions_list();
    assert_eq!(provider, vec!["VK_KHR_surface", "VK_KHR_win32_surface"]);

    let default_window = TestPlatformWindow {};
    assert_eq!(
        default_window.get_required_extensions_list(),
        vec!["VK_KHR_surface"]
    );
}

#[test]
fn application_record_is_fixed() {
    let app = VulkanApp::new(true, true).unwrap();
    let request = app
        .prepare_instance_request(&vec!["VK_KHR_surface".to_owned()], &available_layers())
        .unwrap();
    assert_eq!(request.app_info.application_name, "s");
    assert_eq!(request.app_info.application_version, 0);
    assert_eq!(request.app_info.engine_version, 0);
    assert_eq!(request.app_info.api_version, API_VERSION_1_3);
    assert_eq!(request.app_info.api_version, (1 << 22) | (3 << 12));
    assert_eq!(request.layers, vec!["VK_LAYER_KHRONOS_validation".to_owned()]);

    let config = request.chain_debug_messenger.expect("debug mode chains the messenger config");
    assert!(config.severity_verbose);
    assert!(!config.severity_info);
    assert!(config.severity_warning);
    assert!(config.severity_error);
    assert!(config.type_general);
    assert!(config.type_validation);
    assert!(config.type_performance);
}

#[test]
fn layer_check_finds_required_layers() {
    let required = required_validation_layers();
    assert_eq!(required, vec!["VK_LAYER_KHRONOS_validation".to_owned()]);

    let available = vec![
        "VK_LAYER_NV_optimus".to_owned(),
        "VK_LAYER_KHRONOS_validation".to_owned(),
    ];
    assert!(check_availabilities_validation_layers(&required, &available));

    let missing = vec!["VK_LAYER_NV_optimus".to_owned()];
    assert!(!check_availabilities_validation_layers(&required, &missing));

    let empty: Vec<String> = Vec::new();
    assert!(!check_availabilities_validation_layers(&required, &empty));
    assert!(check_availabilities_validation_layers(&empty, &empty));
}
