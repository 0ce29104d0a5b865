//! Decision logic of a desktop pet: which sprites it wears, how it reacts to the
//! pointer, where it heads for, which animation frame it shows, and when its
//! side panels refresh. Everything that touches the screen, the windowing
//! toolkit or floating-point kinematics lives outside this crate.

pub mod util;
pub mod imaging;
pub mod skin;
pub mod pointer;
pub mod motion;
pub mod animation;
pub mod stats;
pub mod instances;
pub mod input;
pub mod tray;
pub mod hit_mask;
pub mod laws;
