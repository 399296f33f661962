use camera_simulator::{initial_props, CameraProps, CameraSimulator, Msg};

fn fresh() -> CameraSimulator {
    CameraSimulator::create(&CameraProps { initial_zoom_tenths: 12, initial_brightness_tenths: 10 })
}

#[test]
fn construction_uses_props() {
    let s = fresh();
    assert_eq!(s.zoom_tenths, 12);
    assert_eq!(s.brightness_tenths, 10);
    assert_eq!(s.focus_mode, false);
    assert_eq!(s.cam_value, 0);
}

#[test]
fn construction_does_not_clamp() {
    let s = CameraSimulator::create(&CameraProps {
        initial_zoom_tenths: 50,
        initial_brightness_tenths: 30,
    });
    assert_eq!(s.zoom_tenths, 50);
    assert_eq!(s.brightness_tenths, 30);
    let mut s = s;
    s.update(Msg::ZoomIn);
    assert_eq!(s.zoom_tenths, 30);
}

#[test]
fn initial_props_are_fixed() {
    let p = initial_props();
    assert_eq!(p.initial_zoom_tenths, 12);
    assert_eq!(p.initial_brightness_tenths, 10);
}

#[test]
fn zoom_in_saturates_at_max() {
    let mut s = fresh();
    for _ in 0..18 {
        s.update(Msg::ZoomIn);
    }
    assert_eq!(s.zoom_tenths, 30);
    s.update(Msg::ZoomIn);
    assert_eq!(s.zoom_tenths, 30);
}

#[test]
fn zoom_out_saturates_at_min() {
    let mut s = fresh();
    s.update(Msg::ZoomOut);
    s.update(Msg::ZoomOut);
    assert_eq!(s.zoom_tenths, 10);
    s.update(Msg::ZoomOut);
    assert_eq!(s.zoom_tenths, 10);
}

#[test]
fn brightness_saturates_at_max() {
    let mut s = fresh();
    for _ in 0..10 {
        s.update(Msg::IncreaseBrightness);
    }
    assert_eq!(s.brightness_tenths, 20);
    s.update(Msg::IncreaseBrightness);
    assert_eq!(s.brightness_tenths, 20);
}

#[test]
fn brightness_saturates_at_min() {
    let mut s = fresh();
    for _ in 0..5 {
        s.update(Msg::DecreaseBrightness);
    }
    assert_eq!(s.brightness_tenths, 5);
    s.update(Msg::DecreaseBrightness);
    assert_eq!(s.brightness_tenths, 5);
}

#[test]
fn toggle_twice_restores_state_and_display() {
    let mut s = fresh();
    let before = s;
    let label_before = s.view().mode_label;
    let class_before = s.view().toggle_class;
    s.update(Msg::ChangeFocusMode);
    assert_eq!(s.focus_mode, true);
    assert_eq!(s.view().mode_label, "Automatic");
    assert_eq!(s.view().toggle_class, "toggle-on");
    s.update(Msg::ChangeFocusMode);
    assert_eq!(s, before);
    assert_eq!(s.view().mode_label, label_before);
    assert_eq!(s.view().toggle_class, class_before);
}

#[test]
fn set_value_is_unclamped() {
    let mut s = fresh();
    s.update(Msg::SetValue(3));
    assert_eq!(s.cam_value, 3);
    s.update(Msg::SetValue(-1));
    assert_eq!(s.cam_value, -1);
    let vm = s.view();
    assert_eq!(vm.cam_value_text, "-1");
    assert_eq!(vm.status_cam_value, "Cam Value: -1");
}

#[test]
fn every_update_requests_render() {
    let mut s = fresh();
    assert!(s.update(Msg::ZoomIn));
    assert!(s.update(Msg::ZoomOut));
    assert!(s.update(Msg::IncreaseBrightness));
    assert!(s.update(Msg::DecreaseBrightness));
    assert!(s.update(Msg::ChangeFocusMode));
    assert!(s.update(Msg::SetValue(7)));
    for _ in 0..30 {
        s.update(Msg::ZoomIn);
    }
    assert!(s.update(Msg::ZoomIn), "render even at saturation");
}

#[test]
fn end_to_end_scenario() {
    let mut s = CameraSimulator::create(&initial_props());
    for _ in 0..3 {
        s.update(Msg::ZoomIn);
    }
    assert_eq!(s.zoom_tenths, 15);
    for _ in 0..6 {
        s.update(Msg::DecreaseBrightness);
    }
    assert_eq!(s.brightness_tenths, 5);
    s.update(Msg::ChangeFocusMode);
    s.update(Msg::SetValue(4));
    let vm = s.view();
    assert_eq!(vm.status_zoom, "Current Zoom: 1.5x");
    assert_eq!(vm.status_brightness, "Current Brightness: 0.5");
    assert_eq!(vm.status_mode, "Current Mode: Automatic");
    assert_eq!(vm.status_cam_value, "Cam Value: 4");
}

#[test]
fn malformed_input_keeps_state() {
    let mut s = fresh();
    s.update(Msg::SetValue(3));
    let before = s;
    assert!(s.apply_input_text(""));
    assert_eq!(s, before);
    assert!(s.apply_input_text("abc"));
    assert_eq!(s, before);
    assert!(s.apply_input_text("1.5"));
    assert_eq!(s, before);
    assert!(s.apply_input_text("99999999999999999999"));
    assert_eq!(s, before);
}

#[test]
fn well_formed_input_sets_value() {
    let mut s = fresh();
    assert!(s.apply_input_text("4"));
    assert_eq!(s.cam_value, 4);
    assert!(s.apply_input_text("-12"));
    assert_eq!(s.cam_value, -12);
    assert_eq!(s.zoom_tenths, 12);
    assert_eq!(s.brightness_tenths, 10);
    assert_eq!(s.focus_mode, false);
}
