//! Lighting configuration for a 61-key USB-HID keyboard: the configuration
//! model, its encoding into the feature reports the controller expects, and
//! the order in which the reports are transferred.

pub mod color;
pub mod key;
pub mod message;
pub mod mode;
pub mod preset;
pub mod random;
pub mod report;
pub mod transfer;

pub use crate::color::{rgb, RGB};
pub use crate::key::{key, Key};
pub use crate::message::{mode_presets_default_hashmap, LightingUpdateMessage, LightingUpdateView};
pub use crate::mode::{Direction, Mode};
pub use crate::preset::{mode_preset, ModePreset, PresetView};
pub use crate::transfer::{matching_devices, needs_read_back, poll_report, transmission_plan, Step};
