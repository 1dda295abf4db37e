//! Sampling-mode control for a blocky material.
//!
//! A material samples its colour texture in one of three modes. The number
//! keys `1`, `2` and `3` each ask for one of them, and a request is applied to
//! every material that a list of handles names.

pub mod keyboard;
pub mod keys;
pub mod material;
pub mod mode;
pub mod update;

pub use keyboard::{just_pressed_keys, requested_mode};
pub use keys::{binding, on_key_event, requested, select_mode, selected, Key};
pub use material::BlockyMaterial;
pub use mode::SamplingMode;
pub use update::{applied, apply_mode, update_sampling_mode, updated};
