//! Messages between the playback core and the rest of the application.

use crate::frame::{AudioFrame, SubtitleFrame, VideoFrame};
use vstd::prelude::*;

verus! {

/// Commands the control layer sends and events the core emits.
#[derive(Clone, Debug, PartialEq, Eq)]
pub enum EventMessage {
    /// Exit the application
    Quit,
    /// Leave the video window for the start window
    ExitVideoWindow,
    /// Show an error dialog
    ShowError(String),
    /// Play the media file at this path
    Play(String),
    Pause,
    Resume,
    Stop,
    Forward,
    Rewind,
    /// Seek to this position, in milliseconds
    SeekTo(i64),
    /// A seek has been carried out
    SeekFinished,
    FileOpened(String),
    DirOpened(Vec<String>),
    RenderVideo(VideoFrame),
    RenderAudio(AudioFrame),
    RenderSubtitle(SubtitleFrame),
    /// The native size of the video, sent when a new video starts
    Resize(u32, u32),
    SetPosition(Option<i32>, Option<i32>),
    ToggleFullScreen,
    UpVolume,
    DownVolume,
}

/// A media file chosen in the play list.
#[derive(Clone, Debug, PartialEq, Eq)]
pub struct MediaSelectedData {
    pub path: String,
}

/// A play list item that was double-clicked.
#[derive(Clone, Debug, PartialEq, Eq)]
pub struct MediaItemDoubleClickedData {
    pub path: String,
}

impl EventMessage {
    /// The messages the playback core acts on itself.
    pub open spec fn is_playback_command(self) -> bool {
        ||| self is Pause
        ||| self is Resume
        ||| self is Stop
        ||| self is Forward
        ||| self is Rewind
        ||| self is SeekTo
        ||| self is SeekFinished
        ||| self is UpVolume
        ||| self is DownVolume
    }
}

} // verus!
