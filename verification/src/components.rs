//! The widgets of the tracker, each a state machine driven by keys and actions.
pub mod audiotest;
pub mod files;
pub mod sampler;
pub mod sequencer;
pub mod tab;
