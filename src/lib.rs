//! Media playback pipeline: bounded frame buffers, stream selection, the
//! decode task's control loop, and the audio and video playback tasks with
//! their synchronisation rules.

pub mod buffer;
pub mod context;
pub mod decoder;
pub mod entity;
pub mod error;
pub mod frame;
pub mod player;
pub mod summary;
pub mod volume;
