//! The decision logic of a terminal music tracker: tab focus, the sequencer's
//! cursor and editing modes, the sampler's scrolling signal windows, the
//! layout of the sequencer screen and the interleaving of stereo frames into
//! an output buffer. Terminal input, rendering and audio devices stay outside.
pub mod action;
pub mod audio;
pub mod components;
pub mod key;
pub mod layout;
