use bevy::window::WindowId;
use camera_layers::camera::{priority_label, role_name, Camera, CameraRole};
use camera_layers::control::{
    active_status, command_for_key, frame_commands, layer_status, priority_status, Command,
};
use camera_layers::order::{composite_order, format_order, report_order};
use camera_layers::registry::{CameraError, CameraRegistry};
use camera_layers::rig::{CameraRig, SurfaceAction, WindowMode};
use camera_layers::surface::SurfaceTarget;

fn camera_of(rig: &CameraRig, role: CameraRole) -> Camera {
    rig.camera(role).unwrap()
}

#[test]
fn startup_state() {
    let rig = CameraRig::startup();
    assert_eq!(rig.selection(), None);
    assert_eq!(rig.mode(), WindowMode::Single);
    assert!(rig.surfaces().is_empty());
    let cams = rig.cameras();
    let roles: Vec<CameraRole> = cams.iter().map(|c| c.role).collect();
    assert_eq!(roles, vec![CameraRole::Scene, CameraRole::Background, CameraRole::Foreground]);
    let priorities: Vec<u32> = cams.iter().map(|c| c.priority).collect();
    assert_eq!(priorities, vec![2, 1, 3]);
    let layers: Vec<u8> = cams.iter().map(|c| c.layer).collect();
    assert_eq!(layers, vec![2, 3, 1]);
    assert!(cams.iter().all(|c| c.is_active && matches!(c.target, SurfaceTarget::Primary)));
    assert_eq!(rig.report_order(), "Background(3) -> Scene(2) -> Foreground(1)");
}

#[test]
fn scene_priority_cycle_reorders() {
    let mut rig = CameraRig::startup();
    rig.select(CameraRole::Scene);
    assert_eq!(rig.cycle_priority(), Ok(Some(5)));
    assert_eq!(priority_label(5), "mid");
    assert_eq!(camera_of(&rig, CameraRole::Scene).priority, 5);
    assert_eq!(camera_of(&rig, CameraRole::Background).priority, 1);
    assert_eq!(camera_of(&rig, CameraRole::Foreground).priority, 3);
    assert_eq!(rig.report_order(), "Background(3) -> Foreground(1) -> Scene(2)");
}

#[test]
fn inactive_foreground_left_out_until_toggled_back() {
    let mut rig = CameraRig::startup();
    rig.select(CameraRole::Foreground);
    assert_eq!(rig.toggle_active(), Ok(Some(false)));
    assert_eq!(rig.report_order(), "Background(3) -> Scene(2)");
    rig.select(CameraRole::Scene);
    assert_eq!(rig.cycle_layer(), Ok(Some(3)));
    assert_eq!(rig.report_order(), "Background(3) -> Scene(3)");
    rig.select(CameraRole::Foreground);
    assert_eq!(rig.toggle_active(), Ok(Some(true)));
    assert_eq!(rig.report_order(), "Background(3) -> Scene(3) -> Foreground(1)");
}

#[test]
fn all_inactive_gives_empty_order() {
    let mut rig = CameraRig::startup();
    for role in [CameraRole::Foreground, CameraRole::Background, CameraRole::Scene] {
        rig.select(role);
        assert_eq!(rig.toggle_active(), Ok(Some(false)));
    }
    assert_eq!(rig.report_order(), "");
    assert!(rig.composite_order().is_empty());
}

#[test]
fn entering_multi_window_mode_opens_three_windows() {
    let mut rig = CameraRig::startup();
    let actions = rig.toggle_window_mode().unwrap();
    assert_eq!(rig.mode(), WindowMode::Multi);
    assert_eq!(actions.len(), 3);
    let cams = rig.cameras();
    let surfaces = rig.surfaces();
    assert_eq!(surfaces.len(), 3);
    let expected = [CameraRole::Scene, CameraRole::Background, CameraRole::Foreground];
    for (i, action) in actions.iter().enumerate() {
        match *action {
            SurfaceAction::Open { role, slot, window } => {
                assert_eq!(role, expected[i]);
                assert_eq!(slot, i);
                assert_eq!(surfaces[i], (role, window));
                assert!(!window.is_primary());
                match cams[i].target {
                    SurfaceTarget::Dedicated(w) => assert_eq!(w, window),
                    SurfaceTarget::Primary => panic!("camera left on the primary window"),
                }
            }
            SurfaceAction::Close { .. } => panic!("nothing to close"),
        }
    }
    let titles: Vec<&str> = expected.iter().map(|r| role_name(*r)).collect();
    assert_eq!(titles, vec!["Scene", "Background", "Foreground"]);
}

#[test]
fn multi_mode_surface_map_has_one_distinct_window_per_role() {
    let mut rig = CameraRig::startup();
    rig.toggle_window_mode().unwrap();
    rig.select(CameraRole::Background);
    rig.cycle_layer().unwrap();
    let surfaces = rig.surfaces();
    assert_eq!(surfaces.len(), 3);
    for role in [CameraRole::Foreground, CameraRole::Background, CameraRole::Scene] {
        assert_eq!(surfaces.iter().filter(|(r, _)| *r == role).count(), 1);
    }
    assert_ne!(surfaces[0].1, surfaces[1].1);
    assert_ne!(surfaces[0].1, surfaces[2].1);
    assert_ne!(surfaces[1].1, surfaces[2].1);
}

#[test]
fn toggling_twice_restores_primary_window() {
    let mut rig = CameraRig::startup();
    let opened = rig.toggle_window_mode().unwrap();
    rig.select(CameraRole::Scene);
    rig.cycle_priority().unwrap();
    rig.cycle_layer().unwrap();
    rig.select(CameraRole::Foreground);
    rig.toggle_active().unwrap();
    let closed = rig.toggle_window_mode().unwrap();
    assert_eq!(rig.mode(), WindowMode::Single);
    assert!(rig.surfaces().is_empty());
    assert!(rig.cameras().iter().all(|c| matches!(c.target, SurfaceTarget::Primary)));
    assert_eq!(closed.len(), 3);
    for (o, c) in opened.iter().zip(closed.iter()) {
        match (*o, *c) {
            (SurfaceAction::Open { window: a, .. }, SurfaceAction::Close { window: b }) => assert_eq!(a, b),
            _ => panic!("unexpected actions"),
        }
    }
    let scene = camera_of(&rig, CameraRole::Scene);
    assert_eq!((scene.priority, scene.layer), (5, 3));
    assert!(!camera_of(&rig, CameraRole::Foreground).is_active);
}

#[test]
fn toggling_twice_without_commands_gives_back_the_start() {
    let mut rig = CameraRig::startup();
    let before = rig.cameras();
    rig.toggle_window_mode().unwrap();
    rig.toggle_window_mode().unwrap();
    let after = rig.cameras();
    for (b, a) in before.iter().zip(after.iter()) {
        assert_eq!((b.role, b.priority, b.is_active, b.layer), (a.role, a.priority, a.is_active, a.layer));
        assert!(matches!(a.target, SurfaceTarget::Primary));
    }
}

#[test]
fn priority_three_cycle() {
    let mut cam = Camera::new(CameraRole::Background, 0, 0);
    assert_eq!(cam.cycle_priority(), 3);
    assert_eq!(cam.cycle_priority(), 6);
    assert_eq!(cam.cycle_priority(), 0);
    let mut cam = Camera::new(CameraRole::Scene, 2, 0);
    let seen: Vec<u32> = (0..3).map(|_| cam.cycle_priority()).collect();
    assert_eq!(seen, vec![5, 8, 2]);
    assert_eq!(priority_label(0), "high");
    assert_eq!(priority_label(3), "mid");
    assert_eq!(priority_label(6), "low");
    assert_eq!(priority_label(8), "low");
}

#[test]
fn layer_six_cycle() {
    let mut cam = Camera::new(CameraRole::Foreground, 3, 1);
    let seen: Vec<u8> = (0..6).map(|_| cam.cycle_layer()).collect();
    assert_eq!(seen, vec![2, 3, 4, 5, 0, 1]);
    assert_eq!(cam.layer, 1);
}

#[test]
fn toggle_active_flips() {
    let mut cam = Camera::new(CameraRole::Scene, 2, 2);
    assert!(!cam.toggle_active());
    assert!(cam.toggle_active());
    assert_eq!(cam.priority, 2);
}

#[test]
fn order_is_stable_on_equal_priorities() {
    let mut registry = CameraRegistry::startup();
    registry.set_priority(CameraRole::Scene, 3).unwrap();
    registry.set_priority(CameraRole::Background, 3).unwrap();
    registry.set_priority(CameraRole::Foreground, 0).unwrap();
    let cams = registry.snapshot();
    assert_eq!(composite_order(&cams), vec![2, 0, 1]);
    assert_eq!(report_order(&cams), "Foreground(1) -> Scene(2) -> Background(3)");
    registry.set_active(CameraRole::Scene, false).unwrap();
    let cams = registry.snapshot();
    assert_eq!(composite_order(&cams), vec![2, 1]);
    assert_eq!(format_order(&cams, &vec![1, 2]), "Background(3) -> Foreground(1)");
}

#[test]
fn nothing_selected_is_a_no_op() {
    let mut rig = CameraRig::startup();
    assert_eq!(rig.toggle_active(), Ok(None));
    assert_eq!(rig.cycle_priority(), Ok(None));
    assert_eq!(rig.cycle_layer(), Ok(None));
    assert_eq!(rig.report_order(), "Background(3) -> Scene(2) -> Foreground(1)");
}

#[test]
fn missing_camera_is_not_found() {
    let mut rig = CameraRig::new(CameraRegistry::new());
    rig.select(CameraRole::Scene);
    assert_eq!(rig.toggle_active(), Err(CameraError::NotFound));
    assert_eq!(rig.cycle_priority(), Err(CameraError::NotFound));
    assert_eq!(rig.cycle_layer(), Err(CameraError::NotFound));
    assert_eq!(rig.camera(CameraRole::Scene).err(), Some(CameraError::NotFound));
    let registry = CameraRegistry::new();
    assert_eq!(registry.find(CameraRole::Foreground), Err(CameraError::NotFound));
}

#[test]
fn registry_setters_touch_one_camera() {
    let mut registry = CameraRegistry::startup();
    registry.set_layer(CameraRole::Background, 5).unwrap();
    registry.set_target(CameraRole::Scene, SurfaceTarget::Dedicated(WindowId::new())).unwrap();
    assert_eq!(registry.get(CameraRole::Background).unwrap().layer, 5);
    assert_eq!(registry.get(CameraRole::Foreground).unwrap().layer, 1);
    assert!(matches!(registry.get(CameraRole::Scene).unwrap().target, SurfaceTarget::Dedicated(_)));
    assert_eq!(registry.find(CameraRole::Foreground), Ok(2));
    let mut empty = CameraRegistry::new();
    assert_eq!(empty.set_active(CameraRole::Scene, false), Err(CameraError::NotFound));
    assert_eq!(empty.len(), 0);
}

#[test]
fn rig_over_registry_rebinds_to_primary() {
    let mut registry = CameraRegistry::startup();
    registry.set_target(CameraRole::Scene, SurfaceTarget::Dedicated(WindowId::new())).unwrap();
    let rig = CameraRig::new(registry);
    assert!(rig.cameras().iter().all(|c| matches!(c.target, SurfaceTarget::Primary)));
}

#[test]
fn keys_map_to_commands() {
    assert_eq!(command_for_key('F'), Some(Command::Select(CameraRole::Foreground)));
    assert_eq!(command_for_key('1'), Some(Command::Select(CameraRole::Foreground)));
    assert_eq!(command_for_key('2'), Some(Command::Select(CameraRole::Scene)));
    assert_eq!(command_for_key('B'), Some(Command::Select(CameraRole::Background)));
    assert_eq!(command_for_key('4'), Some(Command::ToggleActive));
    assert_eq!(command_for_key('P'), Some(Command::CyclePriority));
    assert_eq!(command_for_key('6'), Some(Command::CycleLayer));
    assert_eq!(command_for_key('M'), Some(Command::ToggleWindowMode));
    assert_eq!(command_for_key('7'), Some(Command::ToggleWindowMode));
    assert_eq!(command_for_key('X'), None);
}

#[test]
fn frame_applies_selection_before_changes() {
    let keys = vec!['M', 'P', 'X', 'B', 'F', '5'];
    assert_eq!(
        frame_commands(&keys),
        vec![
            Command::Select(CameraRole::Foreground),
            Command::Select(CameraRole::Background),
            Command::CyclePriority,
            Command::ToggleWindowMode,
        ]
    );
    assert!(frame_commands(&vec!['Q']).is_empty());
}

#[test]
fn status_lines() {
    assert_eq!(active_status(CameraRole::Foreground, false), "Foreground: is_active changed to false");
    assert_eq!(priority_status(CameraRole::Scene, 5), "Scene: priority changed to mid");
    assert_eq!(layer_status(CameraRole::Background, 4), "Background: layer changed to 4");
}
