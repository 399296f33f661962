//! Core of a camera-simulator widget: a small state struct (zoom, brightness,
//! a focus-mode toggle, and a free numeric "cam value"), a pure transition
//! function over a fixed set of user-interaction events, and a view model that
//! renders the state into display strings.
//!
//! Zoom and brightness move in steps of one tenth and saturate at fixed
//! bounds, so both are held as integers counting tenths: a zoom of `12`
//! tenths displays as `1.2x`. The UI-binding layer owns the event loop and
//! the DOM; everything that decides or formats lives here.

pub mod numtext;
pub mod simulator;
pub mod view_model;

pub use numtext::parse_i32;
pub use simulator::{initial_props, CameraProps, CameraSimulator, Msg};
pub use view_model::ViewModel;
