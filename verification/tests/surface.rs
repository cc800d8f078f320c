use gromaq::renderer::surface::{SurfaceAlphaKind, SurfaceFormatKind, SurfacePresentKind};
use gromaq::renderer::{
    SurfaceBackend, SurfaceCapabilitySet, SurfaceConfigChoice, SurfaceConfigError, SurfaceConfigPlanner,
    SurfaceConfigurationController, SurfaceFrameError, SurfaceLifecycle, SurfaceLifecycleAction,
};

fn capabilities() -> SurfaceCapabilitySet {
    SurfaceCapabilitySet {
        formats: vec![
            SurfaceFormatKind::Other { srgb: false },
            SurfaceFormatKind::Rgba8UnormSrgb,
            SurfaceFormatKind::Bgra8UnormSrgb,
        ],
        present_modes: vec![SurfacePresentKind::Other, SurfacePresentKind::Fifo],
        alpha_modes: vec![SurfaceAlphaKind::Other],
        render_attachment: true,
    }
}

#[test]
fn surface_planner_prefers_srgb_fifo_and_opaque() {
    let choice = SurfaceConfigPlanner::new().plan(&capabilities(), 800, 600).unwrap();
    assert_eq!(
        choice,
        SurfaceConfigChoice {
            format: 2,
            present_mode: 1,
            alpha_mode: 0,
            width: 800,
            height: 600,
            desired_maximum_frame_latency: 1,
        }
    );
    let mut other = capabilities();
    other.formats = vec![SurfaceFormatKind::Other { srgb: false }, SurfaceFormatKind::Other { srgb: true }];
    other.alpha_modes = vec![SurfaceAlphaKind::Other, SurfaceAlphaKind::Opaque];
    let choice = SurfaceConfigPlanner::new().plan(&other, 1, 1).unwrap();
    assert_eq!((choice.format, choice.alpha_mode), (1, 1));
    other.formats = vec![SurfaceFormatKind::Other { srgb: false }, SurfaceFormatKind::Other { srgb: false }];
    assert_eq!(SurfaceConfigPlanner::new().plan(&other, 1, 1).unwrap().format, 0);
}

#[test]
fn surface_planner_reports_each_missing_capability() {
    let planner = SurfaceConfigPlanner::new();
    assert_eq!(planner.plan(&capabilities(), 0, 600).unwrap_err(), SurfaceConfigError::InvalidSize { width: 0, height: 600 });
    let mut caps = capabilities();
    caps.render_attachment = false;
    assert_eq!(planner.plan(&caps, 1, 1).unwrap_err(), SurfaceConfigError::MissingRenderAttachmentUsage);
    caps.alpha_modes.clear();
    assert_eq!(planner.plan(&caps, 1, 1).unwrap_err(), SurfaceConfigError::NoSupportedAlphaModes);
    caps.present_modes.clear();
    assert_eq!(planner.plan(&caps, 1, 1).unwrap_err(), SurfaceConfigError::NoSupportedPresentModes);
    caps.formats.clear();
    assert_eq!(planner.plan(&caps, 1, 1).unwrap_err(), SurfaceConfigError::NoSupportedFormats);
    assert_eq!(
        SurfaceConfigError::InvalidSize { width: 0, height: 600 }.message(),
        "surface dimensions must be non-zero, got 0x600"
    );
}

#[test]
fn surface_lifecycle_counts_configuration_transitions() {
    let caps = capabilities();
    let mut lifecycle = SurfaceLifecycle::new(SurfaceConfigPlanner::new());
    assert!(!lifecycle.is_configured());
    assert_eq!(lifecycle.configure(&caps, 800, 600).unwrap(), SurfaceLifecycleAction::Configure);
    assert_eq!(lifecycle.on_resized(&caps, 800, 600).unwrap(), SurfaceLifecycleAction::Unchanged);
    assert_eq!(lifecycle.configure_count(), 1);
    assert_eq!(lifecycle.on_resized(&caps, 0, 600).unwrap(), SurfaceLifecycleAction::DeferZeroSize);
    assert!(lifecycle.is_suspended());
    assert_eq!(lifecycle.size(), Some((800, 600)));
    assert_eq!(lifecycle.on_resized(&caps, 800, 600).unwrap(), SurfaceLifecycleAction::Reconfigure);
    assert!(!lifecycle.is_suspended());
    assert_eq!(lifecycle.on_resized(&caps, 1024, 768).unwrap(), SurfaceLifecycleAction::Reconfigure);
    assert_eq!(lifecycle.configure_count(), 3);
    assert_eq!(lifecycle.current_config().unwrap().width, 1024);
    let mut empty = caps.clone();
    empty.formats.clear();
    assert_eq!(lifecycle.on_resized(&empty, 640, 480).unwrap_err(), SurfaceConfigError::NoSupportedFormats);
    assert_eq!(lifecycle.size(), Some((1024, 768)));
    assert_eq!(lifecycle.configure_count(), 3);
}

#[derive(Default)]
struct RecordingSurface {
    applied: Vec<SurfaceConfigChoice>,
}

impl SurfaceBackend for RecordingSurface {
    fn configure(&mut self, config: &SurfaceConfigChoice) {
        self.applied.push(*config);
    }
}

#[test]
fn surface_controller_applies_only_needed_configurations() {
    let caps = capabilities();
    let mut controller = SurfaceConfigurationController::new(SurfaceConfigPlanner::new());
    let mut surface = RecordingSurface::default();
    controller.configure(&mut surface, &caps, 800, 600).unwrap();
    controller.resize(&mut surface, &caps, 800, 600).unwrap();
    controller.resize(&mut surface, &caps, 0, 0).unwrap();
    controller.resize(&mut surface, &caps, 640, 480).unwrap();
    let sizes: Vec<(u32, u32)> = surface.applied.iter().map(|c| (c.width, c.height)).collect();
    assert_eq!(sizes, vec![(800, 600), (640, 480)]);
    assert_eq!(controller.lifecycle().configure_count(), 2);
}

#[test]
fn surface_frame_errors_describe_themselves() {
    assert_eq!(SurfaceFrameError::Lost.message(), "surface was lost");
    assert_eq!(
        SurfaceFrameError::InvalidFrame("no glyphs".to_owned()).message(),
        "invalid surface frame: no glyphs"
    );
}
