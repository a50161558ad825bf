use goop_backend::context::{Context, DestroyAction, QueueHandles};
use goop_backend::device::QueueFamilyIndices;
use goop_backend::error::BackendError;
use goop_backend::instance::{
    handle_debug_message, instance_extensions, instance_layers, make_api_version,
    requested_api_version, LogLevel, SEVERITY_ERROR, SEVERITY_INFO, SEVERITY_VERBOSE,
    SEVERITY_WARNING,
};
use goop_backend::swapchain::{
    derive_swapchain_config, Extent2D, SurfaceCapabilities, SurfaceFormat, UNDEFINED_EXTENT,
};

fn populated_context() -> Context {
    let mut ctx = Context::new();
    ctx.install_instance(11, Some(22));
    ctx.install_surface(33);
    ctx.install_device(
        44,
        55,
        QueueFamilyIndices { graphics: 0, transfer: 1, presentation: 0 },
        QueueHandles { graphics: 91, transfer: 92, presentation: 91 },
    );
    let caps = SurfaceCapabilities {
        min_image_count: 2,
        max_image_count: 0,
        current_extent: Extent2D { width: 800, height: 600 },
        min_image_extent: Extent2D { width: 1, height: 1 },
        max_image_extent: Extent2D { width: 4096, height: 4096 },
        current_transform: 1,
    };
    let formats = vec![SurfaceFormat { format: 50, color_space: 0 }];
    let modes = vec![2];
    let q = QueueFamilyIndices { graphics: 0, transfer: 1, presentation: 0 };
    let config = derive_swapchain_config(Extent2D { width: 800, height: 600 }, &caps, &formats, &modes, &q);
    ctx.install_swapchain(66, &config);
    ctx.install_image_views(vec![70, 71, 72], vec![80, 81, 82]);
    ctx
}

#[test]
fn bootstrap_steps_fill_the_context() {
    let ctx = populated_context();
    assert_eq!(ctx.instance, Some(11));
    assert_eq!(ctx.messenger, Some(22));
    assert_eq!(ctx.surface, Some(33));
    assert_eq!(ctx.physical_device, Some(44));
    assert_eq!(ctx.device, Some(55));
    assert_eq!(
        ctx.queues,
        Some(QueueHandles { graphics: 91, transfer: 92, presentation: 91 })
    );
    assert_eq!(ctx.swapchain, Some(66));
    assert_eq!(ctx.swapchain_format, Some(SurfaceFormat { format: 50, color_space: 0 }));
    assert_eq!(ctx.swapchain_extent, Some(Extent2D { width: 800, height: 600 }));
    assert_eq!(ctx.swapchain_images, vec![70, 71, 72]);
    assert_eq!(ctx.swapchain_image_views, vec![80, 81, 82]);
    assert!(!ctx.destroyed);
}

#[test]
fn teardown_reverses_creation_order() {
    let mut ctx = populated_context();
    let actions = ctx.teardown();
    assert_eq!(
        actions,
        vec![
            DestroyAction::ImageView(80),
            DestroyAction::ImageView(81),
            DestroyAction::ImageView(82),
            DestroyAction::Swapchain(66),
            DestroyAction::Device(55),
            DestroyAction::Surface(33),
            DestroyAction::DebugMessenger(22),
            DestroyAction::Instance(11),
        ]
    );
    assert!(ctx.destroyed);
    assert_eq!(ctx.instance, None);
    assert_eq!(ctx.swapchain, None);
    assert!(ctx.swapchain_image_views.is_empty());
}

#[test]
fn teardown_skips_what_was_never_created() {
    let mut ctx = Context::new();
    ctx.install_instance(11, None);
    ctx.install_surface(33);
    let actions = ctx.teardown();
    assert_eq!(
        actions,
        vec![DestroyAction::Surface(33), DestroyAction::Instance(11)]
    );
    assert!(ctx.destroyed);
}

#[test]
fn second_teardown_is_a_no_op() {
    let mut ctx = populated_context();
    let first = ctx.teardown();
    assert_eq!(first.len(), 8);
    let second = ctx.teardown();
    assert!(second.is_empty());
    assert!(ctx.destroyed);
}

#[test]
fn recreation_rebuilds_at_the_new_size() {
    let mut ctx = populated_context();
    assert_eq!(ctx.swapchain_extent, Some(Extent2D { width: 800, height: 600 }));

    // The window was resized; the driver now reports the sentinel extent
    // and fresh capabilities, so the window size decides.
    let actions = ctx.begin_swapchain_recreation();
    assert_eq!(
        actions,
        vec![
            DestroyAction::ImageView(80),
            DestroyAction::ImageView(81),
            DestroyAction::ImageView(82),
            DestroyAction::Swapchain(66),
        ]
    );
    assert_eq!(ctx.swapchain, None);
    assert!(ctx.swapchain_image_views.is_empty());
    assert!(!ctx.destroyed);

    let caps = SurfaceCapabilities {
        min_image_count: 3,
        max_image_count: 0,
        current_extent: Extent2D { width: UNDEFINED_EXTENT, height: UNDEFINED_EXTENT },
        min_image_extent: Extent2D { width: 1, height: 1 },
        max_image_extent: Extent2D { width: 4096, height: 4096 },
        current_transform: 1,
    };
    let formats = vec![SurfaceFormat { format: 50, color_space: 0 }];
    let modes = vec![2];
    let q = QueueFamilyIndices { graphics: 0, transfer: 1, presentation: 0 };
    let config =
        derive_swapchain_config(Extent2D { width: 1920, height: 1080 }, &caps, &formats, &modes, &q);
    assert_eq!(config.extent, Extent2D { width: 1920, height: 1080 });

    // A clean rebuild: a fresh handle, not the old one.
    let new_swapchain = 166;
    assert_ne!(new_swapchain, 66);
    ctx.install_swapchain(new_swapchain, &config);

    // The freshly queried image count decides how many views exist now:
    // four, where the first chain had three.
    assert_eq!(config.image_count, 4);
    ctx.install_image_views(vec![170, 171, 172, 173], vec![180, 181, 182, 183]);

    assert_eq!(ctx.swapchain, Some(166));
    assert_eq!(ctx.swapchain_extent, Some(Extent2D { width: 1920, height: 1080 }));
    assert_eq!(ctx.swapchain_image_views.len(), config.image_count as usize);
}

#[test]
fn retriability_follows_the_taxonomy() {
    assert!(!BackendError::Bootstrap.is_retriable());
    assert!(!BackendError::NoSuitableDevice.is_retriable());
    assert!(!BackendError::QueueResolution.is_retriable());
    assert!(!BackendError::DeviceCreation.is_retriable());
    assert!(BackendError::Swapchain.is_retriable());
    assert!(!BackendError::SurfaceLost.is_retriable());
}

#[test]
fn error_descriptions_are_distinct() {
    let all = [
        BackendError::Bootstrap,
        BackendError::NoSuitableDevice,
        BackendError::QueueResolution,
        BackendError::DeviceCreation,
        BackendError::Swapchain,
        BackendError::SurfaceLost,
    ];
    for (i, a) in all.iter().enumerate() {
        assert!(!a.describe().is_empty());
        for b in all.iter().skip(i + 1) {
            assert_ne!(a.describe(), b.describe());
        }
    }
}

#[test]
fn validation_toggles_layers_and_extensions() {
    assert_eq!(instance_layers(true), vec!["VK_LAYER_KHRONOS_validation".to_string()]);
    assert!(instance_layers(false).is_empty());

    let platform = vec!["VK_KHR_surface".to_string(), "VK_KHR_xlib_surface".to_string()];
    let with = instance_extensions(platform.clone(), true);
    assert_eq!(
        with,
        vec![
            "VK_KHR_surface".to_string(),
            "VK_KHR_xlib_surface".to_string(),
            "VK_EXT_debug_utils".to_string(),
        ]
    );
    let without = instance_extensions(platform.clone(), false);
    assert_eq!(without, platform);
}

#[test]
fn api_version_packs_the_fields() {
    assert_eq!(make_api_version(0, 1, 0, 106), (1 << 22) | 106);
    assert_eq!(make_api_version(1, 2, 3, 4), (1 << 29) | (2 << 22) | (3 << 12) | 4);
    assert_eq!(requested_api_version(), (1 << 22) | 106);
}

#[test]
fn debug_messages_classify_by_severity_and_never_suppress() {
    let cases = [
        (SEVERITY_ERROR, LogLevel::Error),
        (SEVERITY_ERROR | SEVERITY_WARNING, LogLevel::Error),
        (SEVERITY_WARNING, LogLevel::Warn),
        (SEVERITY_INFO, LogLevel::Info),
        (SEVERITY_VERBOSE, LogLevel::Trace),
        (0, LogLevel::Trace),
    ];
    for (severity, level) in cases {
        let action = handle_debug_message(severity);
        assert_eq!(action.level, level);
        assert!(!action.suppress);
    }
}
