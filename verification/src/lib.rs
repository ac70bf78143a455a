//! Core of a gain audio plugin: a normalized amplitude parameter, a bounded
//! queue carrying MIDI records from the audio thread to the UI surface, the
//! per-batch event forwarding of the audio engine, and the lifecycle state
//! machine of the on-screen editor.

pub mod bridge;
pub mod editor;
pub mod engine;
pub mod midi;
pub mod params;
pub mod plugin;
pub mod surface;

pub use bridge::EventBridge;
pub use editor::EditorLifecycle;
pub use midi::MidiRecord;
pub use params::ParamStore;
pub use plugin::GainPlugin;
