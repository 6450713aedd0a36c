//! Stream selection and the per-kind media summaries.
//!
//! The container is enumerated outside; each of its streams arrives here as
//! a `StreamDescriptor`. The first stream of each kind that has frames is
//! selected, and its summary is computed from the descriptor.

use crate::frame::{clamp_i64, millis_of, pts_to_millis};
use vstd::prelude::*;

verus! {

/// The media type of a stream in a container.
#[derive(Clone, Copy, Debug, PartialEq, Eq, Structural)]
pub enum StreamKind {
    Audio,
    Video,
    Subtitle,
    Data,
    Attachment,
    Other,
}

/// What the container reports of one elementary stream. `decoder` is the
/// name of the decoder found for its codec, `None` when there is none.
#[derive(Clone, Debug, PartialEq, Eq)]
pub struct StreamDescriptor {
    pub index: i32,
    pub kind: StreamKind,
    pub nb_frames: i64,
    pub duration: i64,
    pub time_base_num: u32,
    pub time_base_den: u32,
    pub decoder: Option<String>,
    pub width: u32,
    pub height: u32,
    pub sample_rate: u32,
    pub channels: u8,
    pub channel_layout: u8,
}

/// Summary of the selected video stream.
#[derive(Clone, Debug, PartialEq, Eq)]
pub struct VideoSummary {
    /// The name of the decoder, empty when there is none
    pub decoder_name: String,
    /// Duration in timebase units
    pub duration: u64,
    /// Number of frames in the stream
    pub frames: u64,
    pub time_base_num: u64,
    pub time_base_den: u64,
    pub width: u32,
    pub height: u32,
    /// Duration in milliseconds
    pub duration_millis: u64,
    /// Time one frame stays on screen, in milliseconds
    pub play_interval: u64,
}

/// Summary of the selected audio stream.
#[derive(Clone, Debug, PartialEq, Eq)]
pub struct AudioSummary {
    pub decoder_name: String,
    pub duration: u64,
    pub frames: u64,
    pub time_base_num: u64,
    pub time_base_den: u64,
    pub sample_rate: u32,
    pub channels: u8,
    pub channel_layout: u8,
    pub duration_millis: u64,
}

/// Summary of the selected subtitle stream.
#[derive(Clone, Debug, PartialEq, Eq)]
pub struct SubtitleSummary {
    pub decoder_name: String,
    pub duration: u64,
    pub frames: u64,
    pub time_base_num: u64,
    pub time_base_den: u64,
    pub duration_millis: u64,
}

/// The summaries of the selected streams, one per kind.
#[derive(Clone, Debug, PartialEq, Eq)]
pub struct MediaSummary {
    pub audio: Option<AudioSummary>,
    pub video: Option<VideoSummary>,
    pub subtitle: Option<SubtitleSummary>,
}

/// A selected stream: its index in the container and whether a decoder
/// exists for it.
#[derive(Clone, Copy, Debug, PartialEq, Eq, Structural)]
pub struct SelectedStream {
    pub index: i32,
    pub decodable: bool,
}

/// The streams chosen for playback, one per kind at most.
#[derive(Clone, Copy, Debug, PartialEq, Eq, Structural)]
pub struct StreamSelection {
    pub audio: Option<SelectedStream>,
    pub video: Option<SelectedStream>,
    pub subtitle: Option<SelectedStream>,
}

/// A stream of kind `k` that holds at least one frame.
pub open spec fn eligible(d: StreamDescriptor, k: StreamKind) -> bool {
    d.kind == k && d.nb_frames > 0
}

/// The first stream of kind `k` with at least one frame.
pub open spec fn first_eligible(s: Seq<StreamDescriptor>, k: StreamKind) -> Option<StreamDescriptor>
    decreases s.len(),
{
    if s.len() == 0 {
        None
    } else {
        match first_eligible(s.drop_last(), k) {
            Some(d) => Some(d),
            None => if eligible(s.last(), k) {
                Some(s.last())
            } else {
                None
            },
        }
    }
}

pub open spec fn selected_of(d: Option<StreamDescriptor>) -> Option<SelectedStream> {
    match d {
        Some(d) => Some(SelectedStream { index: d.index, decodable: d.decoder is Some }),
        None => None,
    }
}

/// A duration in timebase units, in milliseconds; zero when unknown.
pub open spec fn duration_millis_of(duration: int, num: int, den: int) -> int {
    if den == 0 || duration < 0 {
        0
    } else {
        clamp_i64(millis_of(duration, num, den))
    }
}

/// The time one frame is shown: the duration spread evenly over the frames.
pub open spec fn interval_of(duration_millis: int, frames: int) -> int {
    if frames <= 0 {
        0
    } else {
        duration_millis / frames
    }
}

pub open spec fn decoder_name_of(d: StreamDescriptor) -> Seq<char> {
    match d.decoder {
        Some(n) => n@,
        None => Seq::empty(),
    }
}

pub open spec fn common_fields(
    name: String,
    duration: u64,
    frames: u64,
    num: u64,
    den: u64,
    millis: u64,
    d: StreamDescriptor,
) -> bool {
    &&& name@ == decoder_name_of(d)
    &&& duration == (if d.duration < 0 { 0 } else { d.duration as int })
    &&& frames == (if d.nb_frames < 0 { 0 } else { d.nb_frames as int })
    &&& num == d.time_base_num
    &&& den == d.time_base_den
    &&& millis == duration_millis_of(d.duration as int, d.time_base_num as int, d.time_base_den as int)
}

impl VideoSummary {
    pub open spec fn describes(self, d: StreamDescriptor) -> bool {
        &&& common_fields(
            self.decoder_name,
            self.duration,
            self.frames,
            self.time_base_num,
            self.time_base_den,
            self.duration_millis,
            d,
        )
        &&& self.width == d.width
        &&& self.height == d.height
        &&& self.play_interval == interval_of(self.duration_millis as int, self.frames as int)
    }
}

impl AudioSummary {
    pub open spec fn describes(self, d: StreamDescriptor) -> bool {
        &&& common_fields(
            self.decoder_name,
            self.duration,
            self.frames,
            self.time_base_num,
            self.time_base_den,
            self.duration_millis,
            d,
        )
        &&& self.sample_rate == d.sample_rate
        &&& self.channels == d.channels
        &&& self.channel_layout == d.channel_layout
    }
}

impl SubtitleSummary {
    pub open spec fn describes(self, d: StreamDescriptor) -> bool {
        common_fields(
            self.decoder_name,
            self.duration,
            self.frames,
            self.time_base_num,
            self.time_base_den,
            self.duration_millis,
            d,
        )
    }
}

/// Duration of a stream in milliseconds, zero when unknown.
pub fn duration_millis(duration: i64, num: u32, den: u32) -> (r: u64)
    ensures
        r == duration_millis_of(duration as int, num as int, den as int),
{
    if den == 0 || duration < 0 {
        0
    } else {
        let m = pts_to_millis(duration, num, den);
        assert(m >= 0) by (nonlinear_arith)
            requires
                m == clamp_i64(millis_of(duration as int, num as int, den as int)),
                duration >= 0,
                den > 0,
        {
            assert(duration as int * 1000 * num as int >= 0);
        }
        m as u64
    }
}

/// Milliseconds per frame for a stream of `frames` frames lasting
/// `duration_millis`; zero when the frame count is zero.
pub fn play_interval(duration_millis: u64, frames: u64) -> (r: u64)
    ensures
        r == interval_of(duration_millis as int, frames as int),
{
    if frames == 0 {
        0
    } else {
        duration_millis / frames
    }
}

fn decoder_name(d: &StreamDescriptor) -> (r: String)
    ensures
        r@ == decoder_name_of(*d),
{
    match &d.decoder {
        Some(n) => n.clone(),
        None => String::new(),
    }
}

fn non_negative(x: i64) -> (r: u64)
    ensures
        r == (if x < 0 { 0 } else { x as int }),
{
    if x < 0 {
        0
    } else {
        x as u64
    }
}

impl VideoSummary {
    /// The summary of a video stream.
    pub fn from_stream(d: &StreamDescriptor) -> (r: VideoSummary)
        ensures
            r.describes(*d),
    {
        let millis = duration_millis(d.duration, d.time_base_num, d.time_base_den);
        let frames = non_negative(d.nb_frames);
        VideoSummary {
            decoder_name: decoder_name(d),
            duration: non_negative(d.duration),
            frames,
            time_base_num: d.time_base_num as u64,
            time_base_den: d.time_base_den as u64,
            width: d.width,
            height: d.height,
            duration_millis: millis,
            play_interval: play_interval(millis, frames),
        }
    }
}

impl AudioSummary {
    /// The summary of an audio stream.
    pub fn from_stream(d: &StreamDescriptor) -> (r: AudioSummary)
        ensures
            r.describes(*d),
    {
        AudioSummary {
            decoder_name: decoder_name(d),
            duration: non_negative(d.duration),
            frames: non_negative(d.nb_frames),
            time_base_num: d.time_base_num as u64,
            time_base_den: d.time_base_den as u64,
            sample_rate: d.sample_rate,
            channels: d.channels,
            channel_layout: d.channel_layout,
            duration_millis: duration_millis(d.duration, d.time_base_num, d.time_base_den),
        }
    }
}

impl SubtitleSummary {
    /// The summary of a subtitle stream.
    pub fn from_stream(d: &StreamDescriptor) -> (r: SubtitleSummary)
        ensures
            r.describes(*d),
    {
        SubtitleSummary {
            decoder_name: decoder_name(d),
            duration: non_negative(d.duration),
            frames: non_negative(d.nb_frames),
            time_base_num: d.time_base_num as u64,
            time_base_den: d.time_base_den as u64,
            duration_millis: duration_millis(d.duration, d.time_base_num, d.time_base_den),
        }
    }
}

} // verus!
