//! Rendering the simulator state: a pure function from state to the
//! display strings the widget shows, so the UI-binding layer only has to
//! place them in its markup.

use vstd::prelude::*;
use vstd::string::StringExecFns;

use crate::numtext::i32_to_string;
use crate::numtext::spec_int_str;
use crate::numtext::spec_tenths_str;
use crate::numtext::tenths_to_string;
use crate::simulator::CameraSimulator;

verus! {

/// The focus-mode toggle's label.
pub open spec fn spec_mode_label(focus_mode: bool) -> Seq<char> {
    if focus_mode {
        "Automatic"@
    } else {
        "Manual"@
    }
}

/// The focus-mode toggle's visual class.
pub open spec fn spec_toggle_class(focus_mode: bool) -> Seq<char> {
    if focus_mode {
        "toggle-on"@
    } else {
        "toggle-off"@
    }
}

/// The preview panel's inline style for a given zoom and brightness.
pub open spec fn spec_camera_style(zoom_tenths: int, brightness_tenths: int) -> Seq<char> {
    "transform: scale("@ + spec_tenths_str(zoom_tenths) + "); filter: brightness("@
        + spec_tenths_str(brightness_tenths) + ");"@
}

/// The status panel's zoom line.
pub open spec fn spec_status_zoom(zoom_tenths: int) -> Seq<char> {
    "Current Zoom: "@ + spec_tenths_str(zoom_tenths) + "x"@
}

/// The status panel's brightness line.
pub open spec fn spec_status_brightness(brightness_tenths: int) -> Seq<char> {
    "Current Brightness: "@ + spec_tenths_str(brightness_tenths)
}

/// The status panel's mode line.
pub open spec fn spec_status_mode(focus_mode: bool) -> Seq<char> {
    "Current Mode: "@ + spec_mode_label(focus_mode)
}

/// The status panel's cam-value line.
pub open spec fn spec_status_cam_value(cam_value: int) -> Seq<char> {
    "Cam Value: "@ + spec_int_str(cam_value)
}

/// Everything the widget displays that depends on the state: the toggle's
/// label and class, the input field's current text, the preview style, and
/// the four status lines.
pub struct ViewModel {
    pub mode_label: String,
    pub toggle_class: String,
    pub cam_value_text: String,
    pub camera_style: String,
    pub status_zoom: String,
    pub status_brightness: String,
    pub status_mode: String,
    pub status_cam_value: String,
}

/// The focus-mode label: "Automatic" when on, "Manual" when off.
pub fn mode_label(focus_mode: bool) -> (r: &'static str)
    ensures
        r@ == spec_mode_label(focus_mode),
{
    if focus_mode {
        "Automatic"
    } else {
        "Manual"
    }
}

/// The focus-mode visual class: "toggle-on" when on, "toggle-off" when off.
pub fn toggle_class(focus_mode: bool) -> (r: &'static str)
    ensures
        r@ == spec_toggle_class(focus_mode),
{
    if focus_mode {
        "toggle-on"
    } else {
        "toggle-off"
    }
}

/// The preview panel's inline style, e.g.
/// `transform: scale(1.2); filter: brightness(1.0);`.
pub fn camera_style(zoom_tenths: i32, brightness_tenths: i32) -> (r: String)
    ensures
        r@ == spec_camera_style(zoom_tenths as int, brightness_tenths as int),
{
    let mut s = String::from_str("transform: scale(");
    let zoom = tenths_to_string(zoom_tenths);
    s.append(zoom.as_str());
    s.append("); filter: brightness(");
    let brightness = tenths_to_string(brightness_tenths);
    s.append(brightness.as_str());
    s.append(");");
    s
}

/// The status panel's zoom line, e.g. `Current Zoom: 1.2x`.
pub fn status_zoom(zoom_tenths: i32) -> (r: String)
    ensures
        r@ == spec_status_zoom(zoom_tenths as int),
{
    let mut s = String::from_str("Current Zoom: ");
    let zoom = tenths_to_string(zoom_tenths);
    s.append(zoom.as_str());
    s.append("x");
    s
}

/// The status panel's brightness line, e.g. `Current Brightness: 1.0`.
pub fn status_brightness(brightness_tenths: i32) -> (r: String)
    ensures
        r@ == spec_status_brightness(brightness_tenths as int),
{
    let mut s = String::from_str("Current Brightness: ");
    let brightness = tenths_to_string(brightness_tenths);
    s.append(brightness.as_str());
    s
}

/// The status panel's mode line, e.g. `Current Mode: Manual`.
pub fn status_mode(focus_mode: bool) -> (r: String)
    ensures
        r@ == spec_status_mode(focus_mode),
{
    let mut s = String::from_str("Current Mode: ");
    s.append(mode_label(focus_mode));
    s
}

/// The status panel's cam-value line, e.g. `Cam Value: 0`.
pub fn status_cam_value(cam_value: i32) -> (r: String)
    ensures
        r@ == spec_status_cam_value(cam_value as int),
{
    let mut s = String::from_str("Cam Value: ");
    let value = i32_to_string(cam_value);
    s.append(value.as_str());
    s
}

impl CameraSimulator {
    /// Render the state: every displayed string as a pure function of the
    /// current fields.
    pub fn view(&self) -> (vm: ViewModel)
        ensures
            vm.mode_label@ == spec_mode_label(self.focus_mode),
            vm.toggle_class@ == spec_toggle_class(self.focus_mode),
            vm.cam_value_text@ == spec_int_str(self.cam_value as int),
            vm.camera_style@ == spec_camera_style(
                self.zoom_tenths as int,
                self.brightness_tenths as int,
            ),
            vm.status_zoom@ == spec_status_zoom(self.zoom_tenths as int),
            vm.status_brightness@ == spec_status_brightness(self.brightness_tenths as int),
            vm.status_mode@ == spec_status_mode(self.focus_mode),
            vm.status_cam_value@ == spec_status_cam_value(self.cam_value as int),
    {
        ViewModel {
            mode_label: String::from_str(mode_label(self.focus_mode)),
            toggle_class: String::from_str(toggle_class(self.focus_mode)),
            cam_value_text: i32_to_string(self.cam_value),
            camera_style: camera_style(self.zoom_tenths, self.brightness_tenths),
            status_zoom: status_zoom(self.zoom_tenths),
            status_brightness: status_brightness(self.brightness_tenths),
            status_mode: status_mode(self.focus_mode),
            status_cam_value: status_cam_value(self.cam_value),
        }
    }
}

/// Toggling the focus mode twice restores the displayed label and class
/// along with the state itself.
pub proof fn lemma_toggle_twice_display(s: CameraSimulator)
    ensures
        spec_mode_label(
            crate::simulator::spec_step(
                crate::simulator::spec_step(s, crate::simulator::Msg::ChangeFocusMode),
                crate::simulator::Msg::ChangeFocusMode,
            ).focus_mode,
        ) == spec_mode_label(s.focus_mode),
        spec_toggle_class(
            crate::simulator::spec_step(
                crate::simulator::spec_step(s, crate::simulator::Msg::ChangeFocusMode),
                crate::simulator::Msg::ChangeFocusMode,
            ).focus_mode,
        ) == spec_toggle_class(s.focus_mode),
{
    crate::simulator::lemma_toggle_twice(s);
}

} // verus!
