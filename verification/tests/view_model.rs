use camera_simulator::view_model::{
    camera_style, mode_label, status_brightness, status_cam_value, status_mode, status_zoom,
    toggle_class,
};
use camera_simulator::{CameraProps, CameraSimulator, Msg};

#[test]
fn labels_follow_focus_mode() {
    assert_eq!(mode_label(false), "Manual");
    assert_eq!(mode_label(true), "Automatic");
    assert_eq!(toggle_class(false), "toggle-off");
    assert_eq!(toggle_class(true), "toggle-on");
}

#[test]
fn camera_style_encodes_zoom_and_brightness() {
    assert_eq!(camera_style(12, 10), "transform: scale(1.2); filter: brightness(1.0);");
    assert_eq!(camera_style(30, 5), "transform: scale(3.0); filter: brightness(0.5);");
}

#[test]
fn status_lines_format_one_decimal() {
    assert_eq!(status_zoom(12), "Current Zoom: 1.2x");
    assert_eq!(status_brightness(20), "Current Brightness: 2.0");
    assert_eq!(status_mode(false), "Current Mode: Manual");
    assert_eq!(status_mode(true), "Current Mode: Automatic");
    assert_eq!(status_cam_value(0), "Cam Value: 0");
    assert_eq!(status_cam_value(-3), "Cam Value: -3");
}

#[test]
fn view_renders_the_initial_state() {
    let s = CameraSimulator::create(&CameraProps {
        initial_zoom_tenths: 12,
        initial_brightness_tenths: 10,
    });
    let vm = s.view();
    assert_eq!(vm.mode_label, "Manual");
    assert_eq!(vm.toggle_class, "toggle-off");
    assert_eq!(vm.cam_value_text, "0");
    assert_eq!(vm.camera_style, "transform: scale(1.2); filter: brightness(1.0);");
    assert_eq!(vm.status_zoom, "Current Zoom: 1.2x");
    assert_eq!(vm.status_brightness, "Current Brightness: 1.0");
    assert_eq!(vm.status_mode, "Current Mode: Manual");
    assert_eq!(vm.status_cam_value, "Cam Value: 0");
}

#[test]
fn view_tracks_every_transition() {
    let mut s = CameraSimulator::create(&CameraProps {
        initial_zoom_tenths: 10,
        initial_brightness_tenths: 5,
    });
    s.update(Msg::ZoomIn);
    s.update(Msg::IncreaseBrightness);
    s.update(Msg::ChangeFocusMode);
    s.update(Msg::SetValue(5));
    let vm = s.view();
    assert_eq!(vm.camera_style, "transform: scale(1.1); filter: brightness(0.6);");
    assert_eq!(vm.status_zoom, "Current Zoom: 1.1x");
    assert_eq!(vm.status_brightness, "Current Brightness: 0.6");
    assert_eq!(vm.status_mode, "Current Mode: Automatic");
    assert_eq!(vm.cam_value_text, "5");
    assert_eq!(vm.status_cam_value, "Cam Value: 5");
}
