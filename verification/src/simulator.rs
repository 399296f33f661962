//! The simulator state and its transition function.
//!
//! Zoom and brightness are stored in tenths: zoom ranges over 10..=30
//! (1.0x to 3.0x), brightness over 5..=20 (0.5 to 2.0), each moving by one
//! tenth per event and saturating at its bound. The cam value is an
//! unrestricted integer. Construction takes the initial zoom and brightness
//! as given, without clamping; the saturating events re-establish their
//! bounds over time.

use vstd::prelude::*;

use crate::numtext::parse_i32;
use crate::numtext::spec_parse_i32;

verus! {

/// Lowest zoom, in tenths (1.0x).
pub const MIN_ZOOM_TENTHS: i32 = 10;

/// Highest zoom, in tenths (3.0x).
pub const MAX_ZOOM_TENTHS: i32 = 30;

/// Lowest brightness, in tenths (0.5).
pub const MIN_BRIGHTNESS_TENTHS: i32 = 5;

/// Highest brightness, in tenths (2.0).
pub const MAX_BRIGHTNESS_TENTHS: i32 = 20;

/// The widget's whole input surface: one message per user interaction.
#[derive(Clone, Copy, Debug, PartialEq, Eq, Structural)]
pub enum Msg {
    ZoomIn,
    ZoomOut,
    IncreaseBrightness,
    DecreaseBrightness,
    ChangeFocusMode,
    SetValue(i32),
}

/// Construction-time configuration, in tenths.
#[derive(Clone, Copy, Debug, PartialEq, Eq, Structural)]
pub struct CameraProps {
    pub initial_zoom_tenths: i32,
    pub initial_brightness_tenths: i32,
}

/// The simulator's entire mutable state.
#[derive(Clone, Copy, Debug, PartialEq, Eq, Structural)]
pub struct CameraSimulator {
    /// Zoom factor in tenths; 10..=30 once established.
    pub zoom_tenths: i32,
    /// Brightness factor in tenths; 5..=20 once established.
    pub brightness_tenths: i32,
    /// true displays as "Automatic", false as "Manual".
    pub focus_mode: bool,
    /// User-entered value; deliberately unclamped.
    pub cam_value: i32,
}

/// The transition function: what each message does to the state.
pub open spec fn spec_step(s: CameraSimulator, msg: Msg) -> CameraSimulator {
    match msg {
        Msg::ZoomIn => CameraSimulator {
            zoom_tenths: if s.zoom_tenths >= MAX_ZOOM_TENTHS {
                MAX_ZOOM_TENTHS
            } else {
                (s.zoom_tenths + 1) as i32
            },
            ..s
        },
        Msg::ZoomOut => CameraSimulator {
            zoom_tenths: if s.zoom_tenths <= MIN_ZOOM_TENTHS {
                MIN_ZOOM_TENTHS
            } else {
                (s.zoom_tenths - 1) as i32
            },
            ..s
        },
        Msg::IncreaseBrightness => CameraSimulator {
            brightness_tenths: if s.brightness_tenths >= MAX_BRIGHTNESS_TENTHS {
                MAX_BRIGHTNESS_TENTHS
            } else {
                (s.brightness_tenths + 1) as i32
            },
            ..s
        },
        Msg::DecreaseBrightness => CameraSimulator {
            brightness_tenths: if s.brightness_tenths <= MIN_BRIGHTNESS_TENTHS {
                MIN_BRIGHTNESS_TENTHS
            } else {
                (s.brightness_tenths - 1) as i32
            },
            ..s
        },
        Msg::ChangeFocusMode => CameraSimulator { focus_mode: !s.focus_mode, ..s },
        Msg::SetValue(v) => CameraSimulator { cam_value: v, ..s },
    }
}

/// `n` transitions under the same message.
pub open spec fn spec_steps(s: CameraSimulator, msg: Msg, n: nat) -> CameraSimulator
    decreases n,
{
    if n == 0 {
        s
    } else {
        spec_step(spec_steps(s, msg, (n - 1) as nat), msg)
    }
}

impl CameraSimulator {
    /// Zoom and brightness within their saturation bounds.
    pub open spec fn valid(self) -> bool {
        &&& MIN_ZOOM_TENTHS <= self.zoom_tenths <= MAX_ZOOM_TENTHS
        &&& MIN_BRIGHTNESS_TENTHS <= self.brightness_tenths <= MAX_BRIGHTNESS_TENTHS
    }

    /// Construction: zoom and brightness exactly as configured (no
    /// clamping), focus mode off, cam value zero.
    pub fn create(props: &CameraProps) -> (s: Self)
        ensures
            s.zoom_tenths == props.initial_zoom_tenths,
            s.brightness_tenths == props.initial_brightness_tenths,
            s.focus_mode == false,
            s.cam_value == 0,
    {
        CameraSimulator {
            zoom_tenths: props.initial_zoom_tenths,
            brightness_tenths: props.initial_brightness_tenths,
            focus_mode: false,
            cam_value: 0,
        }
    }

    /// Apply one message. Always requests a re-render, even when the state
    /// did not move (e.g. a zoom event at saturation).
    pub fn update(&mut self, msg: Msg) -> (render: bool)
        ensures
            *final(self) == spec_step(*old(self), msg),
            render == true,
    {
        match msg {
            Msg::ZoomIn => {
                self.zoom_tenths = if self.zoom_tenths >= MAX_ZOOM_TENTHS {
                    MAX_ZOOM_TENTHS
                } else {
                    self.zoom_tenths + 1
                };
            },
            Msg::ZoomOut => {
                self.zoom_tenths = if self.zoom_tenths <= MIN_ZOOM_TENTHS {
                    MIN_ZOOM_TENTHS
                } else {
                    self.zoom_tenths - 1
                };
            },
            Msg::IncreaseBrightness => {
                self.brightness_tenths = if self.brightness_tenths >= MAX_BRIGHTNESS_TENTHS {
                    MAX_BRIGHTNESS_TENTHS
                } else {
                    self.brightness_tenths + 1
                };
            },
            Msg::DecreaseBrightness => {
                self.brightness_tenths = if self.brightness_tenths <= MIN_BRIGHTNESS_TENTHS {
                    MIN_BRIGHTNESS_TENTHS
                } else {
                    self.brightness_tenths - 1
                };
            },
            Msg::ChangeFocusMode => {
                self.focus_mode = !self.focus_mode;
            },
            Msg::SetValue(v) => {
                self.cam_value = v;
            },
        }
        true
    }

    /// Numeric-input handler with explicit recovery: read the text as an
    /// integer and behave as `SetValue` on success; on malformed text keep
    /// the whole state unchanged. A re-render is requested either way.
    pub fn apply_input_text(&mut self, text: &str) -> (render: bool)
        ensures
            render == true,
            spec_parse_i32(text@) is Some ==> *final(self) == spec_step(
                *old(self),
                Msg::SetValue(spec_parse_i32(text@).unwrap()),
            ),
            spec_parse_i32(text@) is None ==> *final(self) == *old(self),
    {
        match parse_i32(text) {
            Some(v) => self.update(Msg::SetValue(v)),
            None => true,
        }
    }
}

/// The root container's fixed configuration: zoom 1.2x, brightness 1.0.
pub fn initial_props() -> (p: CameraProps)
    ensures
        p.initial_zoom_tenths == 12,
        p.initial_brightness_tenths == 10,
{
    CameraProps { initial_zoom_tenths: 12, initial_brightness_tenths: 10 }
}

/// Every transition keeps a valid state valid.
pub proof fn lemma_step_preserves_valid(s: CameraSimulator, msg: Msg)
    requires
        s.valid(),
    ensures
        spec_step(s, msg).valid(),
{
}

/// Exact effect of `n` zoom-in events: the zoom climbs by one tenth per
/// event until it reaches the bound, and nothing else moves.
pub proof fn lemma_zoom_in_progress(s: CameraSimulator, n: nat)
    requires
        s.zoom_tenths <= MAX_ZOOM_TENTHS,
    ensures
        s.zoom_tenths + n <= MAX_ZOOM_TENTHS ==> spec_steps(s, Msg::ZoomIn, n).zoom_tenths
            == s.zoom_tenths + n,
        s.zoom_tenths + n >= MAX_ZOOM_TENTHS ==> spec_steps(s, Msg::ZoomIn, n).zoom_tenths
            == MAX_ZOOM_TENTHS,
        spec_steps(s, Msg::ZoomIn, n).brightness_tenths == s.brightness_tenths,
        spec_steps(s, Msg::ZoomIn, n).focus_mode == s.focus_mode,
        spec_steps(s, Msg::ZoomIn, n).cam_value == s.cam_value,
    decreases n,
{
    if n > 0 {
        lemma_zoom_in_progress(s, (n - 1) as nat);
    }
}

/// Monotonic saturation: from any valid zoom, enough zoom-in events reach
/// exactly the 3.0x bound, and any further ones keep it there.
pub proof fn lemma_zoom_in_saturates(s: CameraSimulator, n: nat)
    requires
        MIN_ZOOM_TENTHS <= s.zoom_tenths <= MAX_ZOOM_TENTHS,
        n >= MAX_ZOOM_TENTHS - s.zoom_tenths,
    ensures
        spec_steps(s, Msg::ZoomIn, n).zoom_tenths == MAX_ZOOM_TENTHS,
{
    lemma_zoom_in_progress(s, n);
}

/// Exact effect of `n` zoom-out events, symmetric to zooming in.
pub proof fn lemma_zoom_out_progress(s: CameraSimulator, n: nat)
    requires
        s.zoom_tenths >= MIN_ZOOM_TENTHS,
    ensures
        s.zoom_tenths - n >= MIN_ZOOM_TENTHS ==> spec_steps(s, Msg::ZoomOut, n).zoom_tenths
            == s.zoom_tenths - n,
        s.zoom_tenths - n <= MIN_ZOOM_TENTHS ==> spec_steps(s, Msg::ZoomOut, n).zoom_tenths
            == MIN_ZOOM_TENTHS,
        spec_steps(s, Msg::ZoomOut, n).brightness_tenths == s.brightness_tenths,
        spec_steps(s, Msg::ZoomOut, n).focus_mode == s.focus_mode,
        spec_steps(s, Msg::ZoomOut, n).cam_value == s.cam_value,
    decreases n,
{
    if n > 0 {
        lemma_zoom_out_progress(s, (n - 1) as nat);
    }
}

/// Monotonic saturation: from any valid zoom, enough zoom-out events reach
/// exactly the 1.0x bound, and any further ones keep it there.
pub proof fn lemma_zoom_out_saturates(s: CameraSimulator, n: nat)
    requires
        MIN_ZOOM_TENTHS <= s.zoom_tenths <= MAX_ZOOM_TENTHS,
        n >= s.zoom_tenths - MIN_ZOOM_TENTHS,
    ensures
        spec_steps(s, Msg::ZoomOut, n).zoom_tenths == MIN_ZOOM_TENTHS,
{
    lemma_zoom_out_progress(s, n);
}

/// Exact effect of `n` brightness-up events.
pub proof fn lemma_brightness_up_progress(s: CameraSimulator, n: nat)
    requires
        s.brightness_tenths <= MAX_BRIGHTNESS_TENTHS,
    ensures
        s.brightness_tenths + n <= MAX_BRIGHTNESS_TENTHS ==> spec_steps(
            s,
            Msg::IncreaseBrightness,
            n,
        ).brightness_tenths == s.brightness_tenths + n,
        s.brightness_tenths + n >= MAX_BRIGHTNESS_TENTHS ==> spec_steps(
            s,
            Msg::IncreaseBrightness,
            n,
        ).brightness_tenths == MAX_BRIGHTNESS_TENTHS,
        spec_steps(s, Msg::IncreaseBrightness, n).zoom_tenths == s.zoom_tenths,
        spec_steps(s, Msg::IncreaseBrightness, n).focus_mode == s.focus_mode,
        spec_steps(s, Msg::IncreaseBrightness, n).cam_value == s.cam_value,
    decreases n,
{
    if n > 0 {
        lemma_brightness_up_progress(s, (n - 1) as nat);
    }
}

/// Monotonic saturation: enough brightness-up events from a valid state
/// reach exactly the 2.0 bound, and any further ones keep it there.
pub proof fn lemma_brightness_up_saturates(s: CameraSimulator, n: nat)
    requires
        MIN_BRIGHTNESS_TENTHS <= s.brightness_tenths <= MAX_BRIGHTNESS_TENTHS,
        n >= MAX_BRIGHTNESS_TENTHS - s.brightness_tenths,
    ensures
        spec_steps(s, Msg::IncreaseBrightness, n).brightness_tenths == MAX_BRIGHTNESS_TENTHS,
{
    lemma_brightness_up_progress(s, n);
}

/// Exact effect of `n` brightness-down events.
pub proof fn lemma_brightness_down_progress(s: CameraSimulator, n: nat)
    requires
        s.brightness_tenths >= MIN_BRIGHTNESS_TENTHS,
    ensures
        s.brightness_tenths - n >= MIN_BRIGHTNESS_TENTHS ==> spec_steps(
            s,
            Msg::DecreaseBrightness,
            n,
        ).brightness_tenths == s.brightness_tenths - n,
        s.brightness_tenths - n <= MIN_BRIGHTNESS_TENTHS ==> spec_steps(
            s,
            Msg::DecreaseBrightness,
            n,
        ).brightness_tenths == MIN_BRIGHTNESS_TENTHS,
        spec_steps(s, Msg::DecreaseBrightness, n).zoom_tenths == s.zoom_tenths,
        spec_steps(s, Msg::DecreaseBrightness, n).focus_mode == s.focus_mode,
        spec_steps(s, Msg::DecreaseBrightness, n).cam_value == s.cam_value,
    decreases n,
{
    if n > 0 {
        lemma_brightness_down_progress(s, (n - 1) as nat);
    }
}

/// Monotonic saturation: enough brightness-down events from a valid state
/// reach exactly the 0.5 bound, and any further ones keep it there.
pub proof fn lemma_brightness_down_saturates(s: CameraSimulator, n: nat)
    requires
        MIN_BRIGHTNESS_TENTHS <= s.brightness_tenths <= MAX_BRIGHTNESS_TENTHS,
        n >= s.brightness_tenths - MIN_BRIGHTNESS_TENTHS,
    ensures
        spec_steps(s, Msg::DecreaseBrightness, n).brightness_tenths == MIN_BRIGHTNESS_TENTHS,
{
    lemma_brightness_down_progress(s, n);
}

/// Toggling the focus mode twice restores the whole state.
pub proof fn lemma_toggle_twice(s: CameraSimulator)
    ensures
        spec_step(spec_step(s, Msg::ChangeFocusMode), Msg::ChangeFocusMode) == s,
{
}

} // verus!
