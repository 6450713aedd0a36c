//! The state one playback shares among its tasks: the decoder's control
//! state, the three frame buffers, the playback clock, the volume and the
//! two playback tasks. It is built once per played file and handed to the
//! decode task, the audio task and the video task, which each call their own
//! `*_tick` in a loop; the control layer calls the command methods.

use crate::buffer::{head_of, rest_of, AudioBuffer, SubtitleBuffer, VideoBuffer};
use crate::decoder::{
    route_of, seek_requested, MediaDecoder, PacketRoute, BUFFER_FULL_SLEEP_MILLIS,
};
use crate::entity::EventMessage;
use crate::frame::{AudioFrame, SubtitleFrame, VideoFrame};
use crate::player::{
    audio_frame_millis, next_intent, resolved, video_outcome, AudioAction, Intent, MediaPlayer,
    Player, TaskState, VideoAction, IDLE_SLEEP_MILLIS, UNDERRUN_SLEEP_MILLIS, UNKNOWN_CLOCK,
};
use crate::summary::MediaSummary;
use crate::volume::{
    clamp_volume, valid_volume, volume_applied, volume_down, volume_up, DEFAULT_VOLUME, MAX_VOLUME,
    VOLUME_STEP,
};
use vstd::prelude::*;

verus! {

/// Capacity of the audio buffer; gaps in sound are noticed more than lost
/// pictures, so audio gets the most room.
pub const AUDIO_BUFFER_CAPACITY: usize = 50;

/// Capacity of the video buffer.
pub const VIDEO_BUFFER_CAPACITY: usize = 10;

/// Capacity of the subtitle buffer.
pub const SUBTITLE_BUFFER_CAPACITY: usize = 5;

/// How far one forward or rewind step moves, in milliseconds.
pub const FR_STEP: i64 = 10000;

/// What the decode task does next.
#[derive(Clone, Copy, Debug, PartialEq, Eq, Structural)]
pub enum DecodeAction {
    /// Stop was requested: leave the loop
    Exit,
    /// The buffers were flushed: reposition the container to this position
    /// in milliseconds, then call `finish_seek`
    Reposition(i64),
    /// A buffer is full: sleep this many milliseconds, then tick again
    Backoff(u64),
    /// Read one packet and decode it
    ReadPacket,
}

/// What the subtitle task does next.
#[derive(Clone, Debug, PartialEq, Eq)]
pub enum SubtitleAction {
    /// Stop was requested: leave the loop
    Exit,
    /// No subtitle is buffered: sleep this many milliseconds, then tick again
    Idle(u64),
    /// Hand this subtitle to the display, which shows it at its timestamp
    Render(SubtitleFrame),
}

/// What became of a decoded frame offered to its buffer.
#[derive(Clone, Debug, PartialEq, Eq)]
pub enum PushOutcome<F> {
    Pushed,
    /// The buffer is full: sleep, then offer the frame again
    Full(F),
    /// Stop or a seek is pending: the frame is not wanted any more
    Discarded,
}

/// The decode task's choice, in order: stop, then a pending seek, then
/// backpressure, then reading.
pub open spec fn decode_step_of(stop: bool, seek: Option<i64>, any_full: bool) -> DecodeAction {
    if stop {
        DecodeAction::Exit
    } else if seek is Some {
        DecodeAction::Reposition(seek->0)
    } else if any_full {
        DecodeAction::Backoff(BUFFER_FULL_SLEEP_MILLIS)
    } else {
        DecodeAction::ReadPacket
    }
}

/// The position playback is at or is heading to: the pending seek target,
/// else the clock; while the clock is unknown, the position playback last
/// resumed from (the last serviced seek target, or the start).
pub open spec fn position_of(seek: Option<i64>, clock: i64, resume_from: i64) -> i64 {
    match seek {
        Some(t) => t,
        None => if clock < 0 {
            resume_from
        } else {
            clock
        },
    }
}

/// The length of the media in milliseconds, from the video stream when
/// there is one, else from the audio stream.
pub open spec fn media_length_of(m: MediaSummary) -> Option<u64> {
    match m.video {
        Some(v) => Some(v.duration_millis),
        None => match m.audio {
            Some(a) => Some(a.duration_millis),
            None => None,
        },
    }
}

/// `pos + step`, saturated to `i64`.
pub open spec fn step_forward(pos: i64) -> i64 {
    if pos > i64::MAX - FR_STEP {
        i64::MAX
    } else {
        (pos + FR_STEP) as i64
    }
}

/// `pos - step`, saturated to `i64`.
pub open spec fn step_back(pos: i64) -> i64 {
    if pos < i64::MIN + FR_STEP {
        i64::MIN
    } else {
        (pos - FR_STEP) as i64
    }
}

/// Everything one playback shares among its tasks.
pub struct SharedPlaybackContext {
    decoder: MediaDecoder,
    player: MediaPlayer,
    audio_buffer: AudioBuffer,
    video_buffer: VideoBuffer,
    subtitle_buffer: SubtitleBuffer,
    clock: i64,
    volume: i16,
    resume_from: i64,
}

impl SharedPlaybackContext {
    pub closed spec fn decoder_of(&self) -> MediaDecoder {
        self.decoder
    }

    pub closed spec fn player_of(&self) -> MediaPlayer {
        self.player
    }

    pub closed spec fn audio_of(&self) -> AudioBuffer {
        self.audio_buffer
    }

    pub closed spec fn video_of(&self) -> VideoBuffer {
        self.video_buffer
    }

    pub closed spec fn subtitle_of(&self) -> SubtitleBuffer {
        self.subtitle_buffer
    }

    pub closed spec fn clock_of(&self) -> i64 {
        self.clock
    }

    pub closed spec fn volume_of(&self) -> i16 {
        self.volume
    }

    pub closed spec fn resume_from_of(&self) -> i64 {
        self.resume_from
    }

    pub open spec fn wf(&self) -> bool {
        &&& self.audio_of().wf()
        &&& self.video_of().wf()
        &&& self.subtitle_of().wf()
        &&& self.player_of().in_step()
        &&& valid_volume(self.volume_of() as int)
    }

    pub open spec fn any_full(&self) -> bool {
        ||| self.audio_of()@.len() == self.audio_of().capacity()
        ||| self.video_of()@.len() == self.video_of().capacity()
        ||| self.subtitle_of()@.len() == self.subtitle_of().capacity()
    }

    /// Whether a decoded frame is still wanted.
    pub open spec fn accepting(&self) -> bool {
        !self.decoder_of().stop_requested() && self.decoder_of().pending_seek() is None
    }

    /// A playback of the media `decoder` has opened: empty buffers, the
    /// clock at zero, the default volume, and both tasks playing.
    pub fn new(decoder: MediaDecoder) -> (r: SharedPlaybackContext)
        ensures
            r.wf(),
            r.decoder_of() == decoder,
            r.audio_of()@.len() == 0 && r.audio_of().capacity() == AUDIO_BUFFER_CAPACITY,
            r.video_of()@.len() == 0 && r.video_of().capacity() == VIDEO_BUFFER_CAPACITY,
            r.subtitle_of()@.len() == 0 && r.subtitle_of().capacity() == SUBTITLE_BUFFER_CAPACITY,
            r.clock_of() == 0,
            r.resume_from_of() == 0,
            r.volume_of() == DEFAULT_VOLUME,
            r.player_of().common_intent() == Intent::Keep,
            r.player_of().audio_player.control().state_of() == TaskState::Playing,
            r.player_of().video_player.control().state_of() == TaskState::Playing,
            r.player_of().video_player.held_of() is None,
            r.player_of().video_player.interval_of() == (match decoder.summary().video {
                Some(v) => v.play_interval,
                None => 0,
            }),
    {
        let interval = match &decoder.media_summary().video {
            Some(v) => v.play_interval,
            None => 0,
        };
        let mut player = MediaPlayer::new();
        player.start(interval);
        SharedPlaybackContext {
            decoder,
            player,
            audio_buffer: AudioBuffer::new(AUDIO_BUFFER_CAPACITY),
            video_buffer: VideoBuffer::new(VIDEO_BUFFER_CAPACITY),
            subtitle_buffer: SubtitleBuffer::new(SUBTITLE_BUFFER_CAPACITY),
            clock: 0,
            volume: DEFAULT_VOLUME,
            resume_from: 0,
        }
    }

    /// The event that tells the display the native size of the video, when
    /// there is a video stream.
    pub fn resize_event(&self) -> (r: Option<EventMessage>)
        ensures
            match self.decoder_of().summary().video {
                Some(v) => r == Some(EventMessage::Resize(v.width, v.height)),
                None => r is None,
            },
    {
        match &self.decoder.media_summary().video {
            Some(v) => Some(EventMessage::Resize(v.width, v.height)),
            None => None,
        }
    }

    pub fn clock(&self) -> (r: i64)
        ensures
            r == self.clock_of(),
    {
        self.clock
    }

    pub fn volume(&self) -> (r: i16)
        ensures
            r == self.volume_of(),
    {
        self.volume
    }

    pub fn decoder(&self) -> (r: &MediaDecoder)
        ensures
            *r == self.decoder_of(),
    {
        &self.decoder
    }

    pub fn player(&self) -> (r: &MediaPlayer)
        ensures
            *r == self.player_of(),
    {
        &self.player
    }

    /// One iteration of the decode loop. On a pending seek the three buffers
    /// are emptied, the frame the video task holds is discarded, the clock
    /// becomes unknown and the request is cleared, all before any packet of
    /// the new position is read.
    pub fn decode_tick(&mut self) -> (r: DecodeAction)
        requires
            old(self).wf(),
        ensures
            final(self).wf(),
            r == decode_step_of(
                old(self).decoder_of().stop_requested(),
                old(self).decoder_of().pending_seek(),
                old(self).any_full(),
            ),
            r is Reposition ==> {
                &&& final(self).audio_of()@.len() == 0
                &&& final(self).video_of()@.len() == 0
                &&& final(self).subtitle_of()@.len() == 0
                &&& final(self).player_of().video_player.held_of() is None
                &&& final(self).clock_of() == UNKNOWN_CLOCK
                &&& final(self).resume_from_of() == old(self).decoder_of().pending_seek()->0
                &&& final(self).decoder_of().pending_seek() is None
                &&& final(self).decoder_of().stop_requested() == old(self).decoder_of().stop_requested()
                &&& final(self).audio_of().capacity() == old(self).audio_of().capacity()
                &&& final(self).video_of().capacity() == old(self).video_of().capacity()
                &&& final(self).subtitle_of().capacity() == old(self).subtitle_of().capacity()
                &&& final(self).player_of().common_intent() == old(self).player_of().common_intent()
                &&& final(self).volume_of() == old(self).volume_of()
            },
            !(r is Reposition) ==> *final(self) == *old(self),
    {
        if self.decoder.is_stopped() {
            return DecodeAction::Exit;
        }
        if let Some(target) = self.decoder.pending() {
            self.decoder.take_seek();
            self.audio_buffer.clear();
            self.video_buffer.clear();
            self.subtitle_buffer.clear();
            self.player.video_player.discard_held();
            self.clock = UNKNOWN_CLOCK;
            self.resume_from = target;
            return DecodeAction::Reposition(target);
        }
        if self.audio_buffer.is_full() || self.video_buffer.is_full()
            || self.subtitle_buffer.is_full() {
            DecodeAction::Backoff(BUFFER_FULL_SLEEP_MILLIS)
        } else {
            DecodeAction::ReadPacket
        }
    }

    /// Called by the decode task once the container is repositioned: both
    /// playback tasks leave the seek, unless another seek is already pending.
    pub fn finish_seek(&mut self)
        requires
            old(self).wf(),
        ensures
            final(self).wf(),
            final(self).resume_from_of() == old(self).resume_from_of(),
            final(self).player_of().tasks_as(old(self).player_of()),
            final(self).player_of().common_intent() == (if old(self).decoder_of().pending_seek() is None {
                next_intent(old(self).player_of().common_intent(), Intent::SeekFinished)
            } else {
                old(self).player_of().common_intent()
            }),
            final(self).decoder_of() == old(self).decoder_of(),
            final(self).audio_of() == old(self).audio_of(),
            final(self).video_of() == old(self).video_of(),
            final(self).subtitle_of() == old(self).subtitle_of(),
            final(self).clock_of() == old(self).clock_of(),
            final(self).volume_of() == old(self).volume_of(),
    {
        if self.decoder.pending().is_none() {
            self.player.seek_finished();
        }
    }

    /// Which decoder a packet of stream `stream_index` goes to.
    pub fn route(&self, stream_index: i32) -> (r: PacketRoute)
        ensures
            r == route_of(self.decoder_of().selection(), stream_index),
    {
        self.decoder.route(stream_index)
    }

    /// Offers a decoded audio frame to its buffer.
    pub fn push_audio(&mut self, frame: AudioFrame) -> (r: PushOutcome<AudioFrame>)
        requires
            old(self).wf(),
        ensures
            final(self).wf(),
            final(self).resume_from_of() == old(self).resume_from_of(),
            final(self).decoder_of() == old(self).decoder_of(),
            final(self).player_of() == old(self).player_of(),
            final(self).video_of() == old(self).video_of(),
            final(self).subtitle_of() == old(self).subtitle_of(),
            final(self).clock_of() == old(self).clock_of(),
            final(self).volume_of() == old(self).volume_of(),
            final(self).audio_of().capacity() == old(self).audio_of().capacity(),
            !old(self).accepting() ==> r == PushOutcome::<AudioFrame>::Discarded
                && final(self).audio_of()@ == old(self).audio_of()@,
            old(self).accepting() && old(self).audio_of()@.len() < old(self).audio_of().capacity()
                ==> r == PushOutcome::<AudioFrame>::Pushed && final(self).audio_of()@ == old(self).audio_of()@.push(frame),
            old(self).accepting() && old(self).audio_of()@.len() == old(self).audio_of().capacity()
                ==> r == PushOutcome::Full(frame) && final(self).audio_of()@ == old(self).audio_of()@,
    {
        proof {
            self.audio_buffer.lemma_bounds();
        }
        if self.decoder.is_stopped() || self.decoder.pending().is_some() {
            return PushOutcome::Discarded;
        }
        match self.audio_buffer.push(frame) {
            Ok(()) => PushOutcome::Pushed,
            Err(f) => PushOutcome::Full(f),
        }
    }

    /// Offers a decoded video frame to its buffer.
    pub fn push_video(&mut self, frame: VideoFrame) -> (r: PushOutcome<VideoFrame>)
        requires
            old(self).wf(),
        ensures
            final(self).wf(),
            final(self).resume_from_of() == old(self).resume_from_of(),
            final(self).decoder_of() == old(self).decoder_of(),
            final(self).player_of() == old(self).player_of(),
            final(self).audio_of() == old(self).audio_of(),
            final(self).subtitle_of() == old(self).subtitle_of(),
            final(self).clock_of() == old(self).clock_of(),
            final(self).volume_of() == old(self).volume_of(),
            final(self).video_of().capacity() == old(self).video_of().capacity(),
            !old(self).accepting() ==> r == PushOutcome::<VideoFrame>::Discarded
                && final(self).video_of()@ == old(self).video_of()@,
            old(self).accepting() && old(self).video_of()@.len() < old(self).video_of().capacity()
                ==> r == PushOutcome::<VideoFrame>::Pushed && final(self).video_of()@ == old(self).video_of()@.push(frame),
            old(self).accepting() && old(self).video_of()@.len() == old(self).video_of().capacity()
                ==> r == PushOutcome::Full(frame) && final(self).video_of()@ == old(self).video_of()@,
    {
        proof {
            self.video_buffer.lemma_bounds();
        }
        if self.decoder.is_stopped() || self.decoder.pending().is_some() {
            return PushOutcome::Discarded;
        }
        match self.video_buffer.push(frame) {
            Ok(()) => PushOutcome::Pushed,
            Err(f) => PushOutcome::Full(f),
        }
    }

    /// Offers a decoded subtitle to its buffer.
    pub fn push_subtitle(&mut self, frame: SubtitleFrame) -> (r: PushOutcome<SubtitleFrame>)
        requires
            old(self).wf(),
        ensures
            final(self).wf(),
            final(self).resume_from_of() == old(self).resume_from_of(),
            final(self).decoder_of() == old(self).decoder_of(),
            final(self).player_of() == old(self).player_of(),
            final(self).audio_of() == old(self).audio_of(),
            final(self).video_of() == old(self).video_of(),
            final(self).clock_of() == old(self).clock_of(),
            final(self).volume_of() == old(self).volume_of(),
            final(self).subtitle_of().capacity() == old(self).subtitle_of().capacity(),
            !old(self).accepting() ==> r == PushOutcome::<SubtitleFrame>::Discarded
                && final(self).subtitle_of()@ == old(self).subtitle_of()@,
            old(self).accepting() && old(self).subtitle_of()@.len() < old(self).subtitle_of().capacity() ==> r == PushOutcome::<SubtitleFrame>::Pushed && final(self).subtitle_of()@ == old(self).subtitle_of()@.push(frame),
            old(self).accepting() && old(self).subtitle_of()@.len() == old(self).subtitle_of().capacity() ==> r == PushOutcome::Full(frame) && final(self).subtitle_of()@ == old(self).subtitle_of()@,
    {
        proof {
            self.subtitle_buffer.lemma_bounds();
        }
        if self.decoder.is_stopped() || self.decoder.pending().is_some() {
            return PushOutcome::Discarded;
        }
        match self.subtitle_buffer.push(frame) {
            Ok(()) => PushOutcome::Pushed,
            Err(f) => PushOutcome::Full(f),
        }
    }

    /// One iteration of the audio task over the shared audio buffer and
    /// clock, at the current volume.
    pub fn audio_tick(&mut self) -> (r: AudioAction)
        requires
            old(self).wf(),
        ensures
            final(self).wf(),
            final(self).resume_from_of() == old(self).resume_from_of(),
            final(self).decoder_of() == old(self).decoder_of(),
            final(self).video_of() == old(self).video_of(),
            final(self).subtitle_of() == old(self).subtitle_of(),
            final(self).volume_of() == old(self).volume_of(),
            final(self).player_of().video_player == old(self).player_of().video_player,
            final(self).audio_of().capacity() == old(self).audio_of().capacity(),
            final(self).player_of().audio_player.control().state_of() == resolved(
                old(self).player_of().audio_player.control().state_of(),
                old(self).player_of().audio_player.control().intent_of(),
            ),
            final(self).player_of().audio_player.control().intent_of() == old(self).player_of().audio_player.control().intent_of(),
            final(self).player_of().audio_player.control().state_of() != TaskState::Playing ==> final(self).audio_of() == old(self).audio_of() && final(self).clock_of() == old(self).clock_of(),
            final(self).player_of().audio_player.control().state_of() == TaskState::Stopped ==> r == AudioAction::Exit,
            final(self).player_of().audio_player.control().state_of() == TaskState::Paused ==> r == AudioAction::Idle(IDLE_SLEEP_MILLIS),
            final(self).player_of().audio_player.control().state_of() == TaskState::Seeking ==> r == AudioAction::Idle(IDLE_SLEEP_MILLIS),
            final(self).player_of().audio_player.control().state_of() == TaskState::Playing ==> final(self).audio_of()@ == rest_of(old(self).audio_of()@) && match head_of(old(self).audio_of()@) {
                None => r == AudioAction::Idle(UNDERRUN_SLEEP_MILLIS) && final(self).clock_of() == old(self).clock_of(),
                Some(f) => r matches AudioAction::Render(g, ms) && volume_applied(f, g, old(self).volume_of() as int) && final(self).clock_of() == f.pts_millis && ms == audio_frame_millis(f),
            },
    {
        self.player.audio_player.tick(&mut self.audio_buffer, &mut self.clock, self.volume)
    }

    /// One iteration of the video task over the shared video buffer and
    /// clock. The audio stream, when there is one, is the master clock.
    pub fn video_tick(&mut self) -> (r: VideoAction)
        requires
            old(self).wf(),
        ensures
            final(self).wf(),
            final(self).resume_from_of() == old(self).resume_from_of(),
            final(self).decoder_of() == old(self).decoder_of(),
            final(self).audio_of() == old(self).audio_of(),
            final(self).subtitle_of() == old(self).subtitle_of(),
            final(self).volume_of() == old(self).volume_of(),
            final(self).player_of().audio_player == old(self).player_of().audio_player,
            final(self).video_of().capacity() == old(self).video_of().capacity(),
            final(self).player_of().video_player.interval_of() == old(self).player_of().video_player.interval_of(),
            final(self).player_of().video_player.control().intent_of() == old(self).player_of().video_player.control().intent_of(),
            final(self).player_of().video_player.control().state_of() == resolved(
                old(self).player_of().video_player.control().state_of(),
                old(self).player_of().video_player.control().intent_of(),
            ),
            final(self).player_of().video_player.control().state_of() != TaskState::Playing ==> final(self).video_of() == old(self).video_of() && final(self).clock_of() == old(self).clock_of(),
            final(self).player_of().video_player.control().state_of() == TaskState::Stopped ==> r == VideoAction::Exit,
            final(self).player_of().video_player.control().state_of() == TaskState::Paused ==> r == VideoAction::Idle(IDLE_SLEEP_MILLIS),
            final(self).player_of().video_player.control().state_of() == TaskState::Seeking ==> r == VideoAction::Idle(IDLE_SLEEP_MILLIS),
            final(self).player_of().video_player.control().state_of() == TaskState::Playing ==> ({
                let held = old(self).player_of().video_player.held_of();
                let cand = match held {
                    Some(h) => Some(h),
                    None => head_of(old(self).video_of()@),
                };
                let audio_master = old(self).decoder_of().summary().audio is Some;
                let out = video_outcome(cand, old(self).clock_of(), audio_master, old(self).player_of().video_player.interval_of());
                &&& final(self).video_of()@ == (if held is Some { old(self).video_of()@ } else { rest_of(old(self).video_of()@) })
                &&& r == out.0
                &&& final(self).player_of().video_player.held_of() == out.1
                &&& final(self).clock_of() == (if !audio_master && cand is Some { cand->0.pts_millis } else { old(self).clock_of() })
            }),
    {
        let audio_master = self.decoder.media_summary().audio.is_some();
        self.player.video_player.tick(&mut self.video_buffer, &mut self.clock, audio_master)
    }

    /// One iteration of the subtitle task: the oldest buffered subtitle goes
    /// to the display, so the subtitle buffer drains as the others do.
    pub fn subtitle_tick(&mut self) -> (r: SubtitleAction)
        requires
            old(self).wf(),
        ensures
            final(self).wf(),
            final(self).decoder_of() == old(self).decoder_of(),
            final(self).player_of() == old(self).player_of(),
            final(self).audio_of() == old(self).audio_of(),
            final(self).video_of() == old(self).video_of(),
            final(self).clock_of() == old(self).clock_of(),
            final(self).volume_of() == old(self).volume_of(),
            final(self).resume_from_of() == old(self).resume_from_of(),
            final(self).subtitle_of().capacity() == old(self).subtitle_of().capacity(),
            old(self).decoder_of().stop_requested() ==> r == SubtitleAction::Exit
                && final(self).subtitle_of() == old(self).subtitle_of(),
            !old(self).decoder_of().stop_requested() ==> final(self).subtitle_of()@ == rest_of(old(self).subtitle_of()@)
                && match head_of(old(self).subtitle_of()@) {
                    None => r == SubtitleAction::Idle(IDLE_SLEEP_MILLIS),
                    Some(f) => r == SubtitleAction::Render(f),
                },
    {
        if self.decoder.is_stopped() {
            return SubtitleAction::Exit;
        }
        match self.subtitle_buffer.pop() {
            None => SubtitleAction::Idle(IDLE_SLEEP_MILLIS),
            Some(f) => SubtitleAction::Render(f),
        }
    }

    /// The position playback is at or heading to, in milliseconds.
    pub fn position(&self) -> (r: i64)
        ensures
            r == position_of(self.decoder_of().pending_seek(), self.clock_of(), self.resume_from_of()),
    {
        match self.decoder.pending() {
            Some(t) => t,
            None => if self.clock < 0 {
                self.resume_from
            } else {
                self.clock
            },
        }
    }

    /// Both tasks pause.
    pub fn pause(&mut self)
        requires
            old(self).wf(),
        ensures
            final(self).wf(),
            final(self).player_of().tasks_as(old(self).player_of()),
            final(self).player_of().common_intent() == next_intent(old(self).player_of().common_intent(), Intent::Pause),
            final(self).decoder_of() == old(self).decoder_of(),
            final(self).unchanged_but_player(*old(self)),
    {
        self.player.pause();
    }

    /// Both tasks resume.
    pub fn resume(&mut self)
        requires
            old(self).wf(),
        ensures
            final(self).wf(),
            final(self).player_of().tasks_as(old(self).player_of()),
            final(self).player_of().common_intent() == next_intent(old(self).player_of().common_intent(), Intent::Resume),
            final(self).decoder_of() == old(self).decoder_of(),
            final(self).unchanged_but_player(*old(self)),
    {
        self.player.resume();
    }

    /// The decode task and both playback tasks stop.
    pub fn stop(&mut self)
        requires
            old(self).wf(),
        ensures
            final(self).wf(),
            final(self).player_of().tasks_as(old(self).player_of()),
            final(self).player_of().common_intent() == Intent::Stop,
            final(self).decoder_of().stop_requested(),
            final(self).decoder_of().pending_seek() == old(self).decoder_of().pending_seek(),
            final(self).decoder_of().summary() == old(self).decoder_of().summary(),
            final(self).decoder_of().selection() == old(self).decoder_of().selection(),
            final(self).unchanged_but_player(*old(self)),
    {
        self.decoder.stop();
        self.player.stop();
    }

    /// Seeks to `millis`: both tasks wait while the decode task flushes the
    /// buffers and repositions. A later request replaces a pending one.
    pub fn seek_to(&mut self, millis: i64)
        requires
            old(self).wf(),
        ensures
            final(self).wf(),
            final(self).player_of().tasks_as(old(self).player_of()),
            final(self).player_of().common_intent() == next_intent(old(self).player_of().common_intent(), Intent::Seek),
            final(self).decoder_of().pending_seek() == seek_requested(old(self).decoder_of().pending_seek(), millis),
            final(self).decoder_of().stop_requested() == old(self).decoder_of().stop_requested(),
            final(self).decoder_of().summary() == old(self).decoder_of().summary(),
            final(self).decoder_of().selection() == old(self).decoder_of().selection(),
            final(self).unchanged_but_player(*old(self)),
    {
        self.player.seeking();
        self.decoder.seek_to(millis);
    }

    /// Seeks one step ahead of the current position; past the end of the
    /// media, playback stops instead.
    pub fn forward(&mut self)
        requires
            old(self).wf(),
        ensures
            final(self).wf(),
            final(self).player_of().tasks_as(old(self).player_of()),
            final(self).unchanged_but_player(*old(self)),
            final(self).decoder_of().summary() == old(self).decoder_of().summary(),
            final(self).decoder_of().selection() == old(self).decoder_of().selection(),
            ({
                let target = step_forward(position_of(old(self).decoder_of().pending_seek(), old(self).clock_of(), old(self).resume_from_of()));
                if media_length_of(old(self).decoder_of().summary()) matches Some(len) && target > len {
                    &&& final(self).decoder_of().stop_requested()
                    &&& final(self).decoder_of().pending_seek() == old(self).decoder_of().pending_seek()
                    &&& final(self).player_of().common_intent() == Intent::Stop
                } else {
                    &&& final(self).decoder_of().stop_requested() == old(self).decoder_of().stop_requested()
                    &&& final(self).decoder_of().pending_seek() == seek_requested(old(self).decoder_of().pending_seek(), target)
                    &&& final(self).player_of().common_intent() == next_intent(old(self).player_of().common_intent(), Intent::Seek)
                }
            }),
    {
        let pos = self.position();
        let target = if pos > i64::MAX - FR_STEP {
            i64::MAX
        } else {
            pos + FR_STEP
        };
        let length: Option<u64> = match &self.decoder.media_summary().video {
            Some(v) => Some(v.duration_millis),
            None => match &self.decoder.media_summary().audio {
                Some(a) => Some(a.duration_millis),
                None => None,
            },
        };
        let past_end = match length {
            Some(len) => target >= 0 && target as u64 > len,
            None => false,
        };
        if past_end {
            self.stop();
        } else {
            self.player.fast_forward();
            self.decoder.seek_to(target);
        }
    }

    /// Seeks one step behind the current position, and to the start when
    /// that lies before it.
    pub fn rewind(&mut self)
        requires
            old(self).wf(),
        ensures
            final(self).wf(),
            final(self).player_of().tasks_as(old(self).player_of()),
            final(self).unchanged_but_player(*old(self)),
            final(self).decoder_of().summary() == old(self).decoder_of().summary(),
            final(self).decoder_of().selection() == old(self).decoder_of().selection(),
            final(self).decoder_of().stop_requested() == old(self).decoder_of().stop_requested(),
            final(self).decoder_of().pending_seek() == seek_requested(
                old(self).decoder_of().pending_seek(),
                step_back(position_of(old(self).decoder_of().pending_seek(), old(self).clock_of(), old(self).resume_from_of())),
            ),
            final(self).player_of().common_intent() == next_intent(old(self).player_of().common_intent(), Intent::Seek),
    {
        let pos = self.position();
        let target = if pos < i64::MIN + FR_STEP {
            i64::MIN
        } else {
            pos - FR_STEP
        };
        self.player.fast_rewind();
        self.decoder.seek_to(target);
    }

    /// The volume one step up, capped at the maximum.
    pub fn up_volume(&mut self)
        requires
            old(self).wf(),
        ensures
            final(self).wf(),
            final(self).volume_of() == (if old(self).volume_of() + VOLUME_STEP > MAX_VOLUME { MAX_VOLUME as int } else { old(self).volume_of() + VOLUME_STEP }),
            final(self).same_but_volume(*old(self)),
    {
        self.volume = volume_up(self.volume);
    }

    /// The volume one step down, floored at zero.
    pub fn down_volume(&mut self)
        requires
            old(self).wf(),
        ensures
            final(self).wf(),
            final(self).volume_of() == (if old(self).volume_of() < VOLUME_STEP { 0 } else { old(self).volume_of() - VOLUME_STEP }),
            final(self).same_but_volume(*old(self)),
    {
        self.volume = volume_down(self.volume);
    }

    /// Sets the volume, clamped to `[0, MAX_VOLUME]`.
    pub fn set_volume(&mut self, volume: i64)
        requires
            old(self).wf(),
        ensures
            final(self).wf(),
            final(self).volume_of() == (if volume < 0 { 0 } else if volume > MAX_VOLUME { MAX_VOLUME as int } else { volume as int }),
            final(self).same_but_volume(*old(self)),
    {
        self.volume = clamp_volume(volume);
    }

    /// The buffers, the clock and the volume are as in `o`.
    pub open spec fn unchanged_but_player(&self, o: SharedPlaybackContext) -> bool {
        &&& self.audio_of() == o.audio_of()
        &&& self.video_of() == o.video_of()
        &&& self.subtitle_of() == o.subtitle_of()
        &&& self.clock_of() == o.clock_of()
        &&& self.volume_of() == o.volume_of()
        &&& self.resume_from_of() == o.resume_from_of()
    }

    /// Everything but the volume is as in `o`.
    pub open spec fn same_but_volume(&self, o: SharedPlaybackContext) -> bool {
        &&& self.decoder_of() == o.decoder_of()
        &&& self.player_of() == o.player_of()
        &&& self.audio_of() == o.audio_of()
        &&& self.video_of() == o.video_of()
        &&& self.subtitle_of() == o.subtitle_of()
        &&& self.clock_of() == o.clock_of()
        &&& self.resume_from_of() == o.resume_from_of()
    }


    /// Acts on a playback command and hands back `None`; any other message
    /// is handed back for the application, and nothing changes.
    pub fn dispatch(&mut self, msg: EventMessage) -> (r: Option<EventMessage>)
        requires
            old(self).wf(),
        ensures
            final(self).wf(),
            msg.is_playback_command() ==> r is None,
            final(self).player_of().tasks_as(old(self).player_of()),
            !msg.is_playback_command() ==> r == Some(msg) && *final(self) == *old(self),
            msg is Pause ==> final(self).player_of().common_intent() == next_intent(old(self).player_of().common_intent(), Intent::Pause) && final(self).decoder_of() == old(self).decoder_of() && final(self).unchanged_but_player(*old(self)),
            msg is Resume ==> final(self).player_of().common_intent() == next_intent(old(self).player_of().common_intent(), Intent::Resume) && final(self).decoder_of() == old(self).decoder_of() && final(self).unchanged_but_player(*old(self)),
            msg is Stop ==> final(self).player_of().common_intent() == Intent::Stop && final(self).decoder_of().stop_requested() && final(self).unchanged_but_player(*old(self)),
            msg matches EventMessage::SeekTo(ms) ==> final(self).player_of().common_intent() == next_intent(old(self).player_of().common_intent(), Intent::Seek) && final(self).decoder_of().pending_seek() == seek_requested(old(self).decoder_of().pending_seek(), ms) && final(self).decoder_of().stop_requested() == old(self).decoder_of().stop_requested() && final(self).unchanged_but_player(*old(self)),
            msg is Rewind || msg is Forward ==> final(self).unchanged_but_player(*old(self)) && final(self).decoder_of().summary() == old(self).decoder_of().summary() && final(self).decoder_of().selection() == old(self).decoder_of().selection(),
            msg is Rewind ==> final(self).decoder_of().stop_requested() == old(self).decoder_of().stop_requested(),
            msg is Rewind ==> final(self).decoder_of().pending_seek() == seek_requested(old(self).decoder_of().pending_seek(), step_back(position_of(old(self).decoder_of().pending_seek(), old(self).clock_of(), old(self).resume_from_of()))) && final(self).player_of().common_intent() == next_intent(old(self).player_of().common_intent(), Intent::Seek),
            msg is Forward ==> ({
                let target = step_forward(position_of(old(self).decoder_of().pending_seek(), old(self).clock_of(), old(self).resume_from_of()));
                if media_length_of(old(self).decoder_of().summary()) matches Some(len) && target > len {
                    final(self).decoder_of().stop_requested() && final(self).player_of().common_intent() == Intent::Stop
                } else {
                    final(self).decoder_of().pending_seek() == seek_requested(old(self).decoder_of().pending_seek(), target) && final(self).player_of().common_intent() == next_intent(old(self).player_of().common_intent(), Intent::Seek)
                }
            }),
            msg is SeekFinished ==> final(self).player_of().common_intent() == (if old(self).decoder_of().pending_seek() is None {
                next_intent(old(self).player_of().common_intent(), Intent::SeekFinished)
            } else {
                old(self).player_of().common_intent()
            }) && final(self).decoder_of() == old(self).decoder_of() && final(self).unchanged_but_player(*old(self)),
            msg is UpVolume ==> final(self).volume_of() == (if old(self).volume_of() + VOLUME_STEP > MAX_VOLUME { MAX_VOLUME as int } else { old(self).volume_of() + VOLUME_STEP }) && final(self).same_but_volume(*old(self)),
            msg is DownVolume ==> final(self).volume_of() == (if old(self).volume_of() < VOLUME_STEP { 0 } else { old(self).volume_of() - VOLUME_STEP }) && final(self).same_but_volume(*old(self)),
    {
        match msg {
            EventMessage::Pause => {
                self.pause();
                None
            },
            EventMessage::Resume => {
                self.resume();
                None
            },
            EventMessage::Stop => {
                self.stop();
                None
            },
            EventMessage::Forward => {
                self.forward();
                None
            },
            EventMessage::Rewind => {
                self.rewind();
                None
            },
            EventMessage::SeekTo(ms) => {
                self.seek_to(ms);
                None
            },
            EventMessage::SeekFinished => {
                self.finish_seek();
                None
            },
            EventMessage::UpVolume => {
                self.up_volume();
                None
            },
            EventMessage::DownVolume => {
                self.down_volume();
                None
            },
            other => Some(other),
        }
    }

}

/// Two seek requests made before the decode task services either leave a
/// single pending seek, to the later position, whatever the earlier one was.
/// The decode task's next iteration flushes and repositions there, and the
/// iteration after it, with no new request, does not flush again.
pub proof fn lemma_last_seek_wins(
    pending: Option<i64>,
    first: i64,
    second: i64,
    full_before: bool,
    full_after: bool,
)
    ensures
        seek_requested(seek_requested(pending, first), second) == seek_requested(pending, second),
        decode_step_of(false, seek_requested(seek_requested(pending, first), second), full_before)
            == DecodeAction::Reposition(if second < 0 { 0 } else { second }),
        !(decode_step_of(false, None, full_after) is Reposition),
{
}

/// Once stop is requested, the decode task's next iteration leaves its
/// loop, whatever seek is pending and however full the buffers are; the
/// only sleep that can precede it is one backpressure interval.
pub proof fn lemma_stop_ends_decoding(seek: Option<i64>, any_full: bool)
    ensures
        decode_step_of(true, seek, any_full) == DecodeAction::Exit,
        decode_step_of(false, seek, any_full) matches DecodeAction::Backoff(ms) ==> ms
            == BUFFER_FULL_SLEEP_MILLIS,
{
}

} // verus!
