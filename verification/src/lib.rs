//! Audio session logic for a push-to-talk transcription app: mixing of the
//! microphone and system-audio streams, the recording manager's state
//! machine, the meeting transcript format and the loopback capture session.

pub mod mixer;
pub mod text;
pub mod clock;
pub mod transcript;
pub mod devices;
pub mod manager;
pub mod mute;
pub mod loopback;
