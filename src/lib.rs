//! Capture core of a push-to-talk dictation tool: microphone samples with gain,
//! the recording slot and trigger rules, the key-listener registry, and the plan
//! of synthetic keystrokes that types text into the focused application.

pub mod listener;
pub mod platform;
pub mod recorder;
pub mod sample;
pub mod settings;
pub mod strings;
pub mod text;
pub mod trigger;
