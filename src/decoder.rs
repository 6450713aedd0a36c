//! The decode task's control state: which streams are decoded, the stop
//! signal and the pending seek request, and where each packet goes.

use crate::error::PlayerError;
use crate::summary::{
    eligible, first_eligible, selected_of, AudioSummary, MediaSummary, SelectedStream,
    StreamDescriptor, StreamKind, StreamSelection, SubtitleSummary, VideoSummary,
};
use vstd::prelude::*;

verus! {

/// How long the decode task sleeps when a frame buffer is full.
pub const BUFFER_FULL_SLEEP_MILLIS: u64 = 200;

/// Where a packet read from the container goes.
#[derive(Clone, Copy, Debug, PartialEq, Eq, Structural)]
pub enum PacketRoute {
    Audio,
    Video,
    Subtitle,
    /// A stream that is not selected, or has no decoder: the packet is dropped
    Ignore,
}

/// The decode task's control state and the summary of the open media.
pub struct MediaDecoder {
    stop_flag: bool,
    seek_target: Option<i64>,
    streams: StreamSelection,
    media_summary: MediaSummary,
}

/// The stream whose decoder decides whether playback can start: the video
/// stream when there is one, else the audio stream.
pub open spec fn primary_of(sel: StreamSelection) -> Option<SelectedStream> {
    if sel.video is Some {
        sel.video
    } else {
        sel.audio
    }
}

/// Why a selection cannot be played, if it cannot.
pub open spec fn open_error_of(sel: StreamSelection) -> Option<PlayerError> {
    match primary_of(sel) {
        None => Some(PlayerError::NoPlayableStream),
        Some(p) => if p.decodable {
            None
        } else {
            Some(PlayerError::NoDecoder)
        },
    }
}

/// The selection made from a container's streams.
pub open spec fn selection_of(s: Seq<StreamDescriptor>) -> StreamSelection {
    StreamSelection {
        audio: selected_of(first_eligible(s, StreamKind::Audio)),
        video: selected_of(first_eligible(s, StreamKind::Video)),
        subtitle: selected_of(first_eligible(s, StreamKind::Subtitle)),
    }
}

/// `m` holds a summary exactly for the selected stream of each kind.
pub open spec fn summarises(m: MediaSummary, s: Seq<StreamDescriptor>) -> bool {
    &&& match first_eligible(s, StreamKind::Audio) {
        Some(d) => m.audio matches Some(a) && a.describes(d),
        None => m.audio is None,
    }
    &&& match first_eligible(s, StreamKind::Video) {
        Some(d) => m.video matches Some(v) && v.describes(d),
        None => m.video is None,
    }
    &&& match first_eligible(s, StreamKind::Subtitle) {
        Some(d) => m.subtitle matches Some(t) && t.describes(d),
        None => m.subtitle is None,
    }
}

/// The route of a packet of stream `index`.
pub open spec fn route_of(sel: StreamSelection, index: i32) -> PacketRoute {
    if sel.audio matches Some(a) && a.index == index && a.decodable {
        PacketRoute::Audio
    } else if sel.video matches Some(v) && v.index == index && v.decodable {
        PacketRoute::Video
    } else if sel.subtitle matches Some(t) && t.index == index && t.decodable {
        PacketRoute::Subtitle
    } else {
        PacketRoute::Ignore
    }
}

/// The pending seek after a request for `position` when `prev` was
/// pending: the latest request replaces any earlier one, and a position
/// before the start means the start.
pub open spec fn seek_requested(prev: Option<i64>, position: i64) -> Option<i64> {
    Some(if position < 0 { 0 } else { position })
}

proof fn lemma_first_eligible_step(s: Seq<StreamDescriptor>, i: int, k: StreamKind)
    requires
        0 <= i < s.len(),
    ensures
        first_eligible(s.take(i + 1), k) == (match first_eligible(s.take(i), k) {
            Some(d) => Some(d),
            None => if eligible(s[i], k) {
                Some(s[i])
            } else {
                None
            },
        }),
{
    assert(s.take(i + 1).drop_last() =~= s.take(i));
}

/// Position of the first stream of kind `k`, kept while scanning.
fn note_first(
    s: &Vec<StreamDescriptor>,
    i: usize,
    found: Option<usize>,
    k: StreamKind,
) -> (r: Option<usize>)
    requires
        i < s@.len(),
        match found {
            Some(j) => j < i && first_eligible(s@.take(i as int), k) == Some(s@[j as int]),
            None => first_eligible(s@.take(i as int), k) is None,
        },
    ensures
        match r {
            Some(j) => j < i + 1 && first_eligible(s@.take(i + 1), k) == Some(s@[j as int]),
            None => first_eligible(s@.take(i + 1), k) is None,
        },
{
    proof {
        lemma_first_eligible_step(s@, i as int, k);
    }
    match found {
        Some(j) => Some(j),
        None => if s[i].kind == k && s[i].nb_frames > 0 {
            Some(i)
        } else {
            None
        },
    }
}

fn selected_at(s: &Vec<StreamDescriptor>, at: Option<usize>) -> (r: Option<SelectedStream>)
    requires
        at matches Some(j) ==> j < s@.len(),
    ensures
        r == selected_of(
            match at {
                Some(j) => Some(s@[j as int]),
                None => None,
            },
        ),
{
    match at {
        Some(j) => Some(SelectedStream { index: s[j].index, decodable: s[j].decoder.is_some() }),
        None => None,
    }
}

impl MediaDecoder {
    pub closed spec fn stop_requested(&self) -> bool {
        self.stop_flag
    }

    pub closed spec fn pending_seek(&self) -> Option<i64> {
        self.seek_target
    }

    pub closed spec fn selection(&self) -> StreamSelection {
        self.streams
    }

    pub closed spec fn summary(&self) -> MediaSummary {
        self.media_summary
    }

    /// The summary of the open media.
    pub fn media_summary(&self) -> (r: &MediaSummary)
        ensures
            *r == self.summary(),
    {
        &self.media_summary
    }

    /// Selects the first stream of each kind that has frames and summarises
    /// it. Streams without a decoder are selected all the same, marked as
    /// not decodable.
    pub fn get_streams(streams: &Vec<StreamDescriptor>) -> (r: (StreamSelection, MediaSummary))
        ensures
            r.0 == selection_of(streams@),
            summarises(r.1, streams@),
    {
        let mut audio: Option<usize> = None;
        let mut video: Option<usize> = None;
        let mut subtitle: Option<usize> = None;
        let mut i: usize = 0;
        assert(streams@.take(0) =~= Seq::<StreamDescriptor>::empty());
        while i < streams.len()
            invariant
                i <= streams@.len(),
                match audio {
                    Some(j) => j < i && first_eligible(streams@.take(i as int), StreamKind::Audio)
                        == Some(streams@[j as int]),
                    None => first_eligible(streams@.take(i as int), StreamKind::Audio) is None,
                },
                match video {
                    Some(j) => j < i && first_eligible(streams@.take(i as int), StreamKind::Video)
                        == Some(streams@[j as int]),
                    None => first_eligible(streams@.take(i as int), StreamKind::Video) is None,
                },
                match subtitle {
                    Some(j) => j < i && first_eligible(
                        streams@.take(i as int),
                        StreamKind::Subtitle,
                    ) == Some(streams@[j as int]),
                    None => first_eligible(streams@.take(i as int), StreamKind::Subtitle) is None,
                },
            decreases streams@.len() - i,
        {
            audio = note_first(streams, i, audio, StreamKind::Audio);
            video = note_first(streams, i, video, StreamKind::Video);
            subtitle = note_first(streams, i, subtitle, StreamKind::Subtitle);
            i = i + 1;
        }
        assert(streams@.take(i as int) =~= streams@);
        let selection = StreamSelection {
            audio: selected_at(streams, audio),
            video: selected_at(streams, video),
            subtitle: selected_at(streams, subtitle),
        };
        let summary = MediaSummary {
            audio: match audio {
                Some(j) => Some(AudioSummary::from_stream(&streams[j])),
                None => None,
            },
            video: match video {
                Some(j) => Some(VideoSummary::from_stream(&streams[j])),
                None => None,
            },
            subtitle: match subtitle {
                Some(j) => Some(SubtitleSummary::from_stream(&streams[j])),
                None => None,
            },
        };
        (selection, summary)
    }

    /// Prepares decoding of a container whose streams are `streams`. Fails
    /// when there is no audio or video stream with frames, or when the
    /// primary stream has no decoder.
    pub fn new(streams: &Vec<StreamDescriptor>) -> (r: Result<MediaDecoder, PlayerError>)
        ensures
            match open_error_of(selection_of(streams@)) {
                Some(e) => r == Err::<MediaDecoder, PlayerError>(e),
                None => r matches Ok(d) && d.selection() == selection_of(streams@)
                    && summarises(d.summary(), streams@) && !d.stop_requested()
                    && d.pending_seek() is None,
            },
    {
        let (streams, media_summary) = Self::get_streams(streams);
        let primary = if streams.video.is_some() {
            streams.video
        } else {
            streams.audio
        };
        match primary {
            None => Err(PlayerError::NoPlayableStream),
            Some(p) => if !p.decodable {
                Err(PlayerError::NoDecoder)
            } else {
                Ok(MediaDecoder { stop_flag: false, seek_target: None, streams, media_summary })
            },
        }
    }

    /// Requests a seek to `position` milliseconds. Only the latest request
    /// is kept; a position before the start seeks to the start.
    pub fn seek_to(&mut self, position: i64)
        ensures
            final(self).pending_seek() == seek_requested(old(self).pending_seek(), position),
            final(self).stop_requested() == old(self).stop_requested(),
            final(self).selection() == old(self).selection(),
            final(self).summary() == old(self).summary(),
    {
        self.seek_target = Some(if position < 0 { 0 } else { position });
    }

    /// Signals the decode task to terminate.
    pub fn stop(&mut self)
        ensures
            final(self).stop_requested(),
            final(self).pending_seek() == old(self).pending_seek(),
            final(self).selection() == old(self).selection(),
            final(self).summary() == old(self).summary(),
    {
        self.stop_flag = true;
    }

    pub fn is_stopped(&self) -> (r: bool)
        ensures
            r == self.stop_requested(),
    {
        self.stop_flag
    }

    pub fn pending(&self) -> (r: Option<i64>)
        ensures
            r == self.pending_seek(),
    {
        self.seek_target
    }

    /// Takes the pending seek request, leaving none.
    pub fn take_seek(&mut self) -> (r: Option<i64>)
        ensures
            r == old(self).pending_seek(),
            final(self).pending_seek() is None,
            final(self).stop_requested() == old(self).stop_requested(),
            final(self).selection() == old(self).selection(),
            final(self).summary() == old(self).summary(),
    {
        let r = self.seek_target;
        self.seek_target = None;
        r
    }

    /// Which decoder a packet of stream `stream_index` goes to.
    pub fn route(&self, stream_index: i32) -> (r: PacketRoute)
        ensures
            r == route_of(self.selection(), stream_index),
    {
        if let Some(a) = self.streams.audio {
            if a.index == stream_index && a.decodable {
                return PacketRoute::Audio;
            }
        }
        if let Some(v) = self.streams.video {
            if v.index == stream_index && v.decodable {
                return PacketRoute::Video;
            }
        }
        if let Some(t) = self.streams.subtitle {
            if t.index == stream_index && t.decodable {
                return PacketRoute::Subtitle;
            }
        }
        PacketRoute::Ignore
    }

    /// The selected streams.
    pub fn selected_streams(&self) -> (r: StreamSelection)
        ensures
            r == self.selection(),
    {
        self.streams
    }
}

} // verus!
