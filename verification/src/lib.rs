//! Lighting control for a Sinowealth SH68F90A keyboard (`258A:010C`) and a
//! Razer DeathAdder Elite mouse (`1532:005C`), both driven over HID feature
//! reports.
//!
//! The library holds the protocol logic: how each packet is laid out, what a
//! reply means, in what order reads and writes happen, and the scenes that
//! pair a keyboard state with a mouse state. The device transport itself
//! (sending and fetching feature reports, waiting between them) is done by the
//! caller, which runs a driver session step by step: the session names the next
//! transfer, the caller performs it and hands back what happened.
use vstd::prelude::*;

pub mod brightness;
pub mod text;
pub mod hid;
pub mod razer;
pub mod sinowealth;
pub mod scenes;
pub mod control;

pub use brightness::{kb_brightness, mouse_brightness};
pub use control::autostart_enabled;
pub use scenes::{default_scenes, Light, Scene, Scenes, Store};
pub use razer::{Mouse, MouseStatus};
pub use sinowealth::{Keyboard, KeyboardStatus};

verus! {

} // verus!
