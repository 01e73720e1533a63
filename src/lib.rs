//! A sample-based piano: a short bite of any audio file, decoded to a mono
//! clip of exact length, played back at the pitch of each key.

pub mod clip;
pub mod instrument;
pub mod keyboard;
pub mod notes;
pub mod playback;
pub mod source;
