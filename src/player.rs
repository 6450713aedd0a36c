//! The audio and video playback tasks.
//!
//! Each task keeps two cells: the intent, written only by the control
//! layer, and the committed state, written only by the task when it
//! resolves the intent at the head of each loop iteration. A loop iteration
//! is one call of `tick`, which says what the task does next; the caller
//! performs it (renders a frame, sleeps) and calls `tick` again.

use crate::buffer::{head_of, rest_of, AudioBuffer, VideoBuffer};
use crate::frame::{AudioFrame, VideoFrame};
use crate::volume::{apply_volume, valid_volume, volume_applied};
use vstd::prelude::*;

verus! {

/// How far video may drift from the audio clock, in milliseconds.
pub const SYNC_TOLERANCE_MILLIS: i64 = 200;

/// The clock's value while it is unknown, during a seek.
pub const UNKNOWN_CLOCK: i64 = -1;

/// How long a paused or seeking task sleeps between checks.
pub const IDLE_SLEEP_MILLIS: u64 = 10;

/// How long a playing task sleeps when its buffer is drained.
pub const UNDERRUN_SLEEP_MILLIS: u64 = 1;

/// The committed state of a playback task.
#[derive(Clone, Copy, Debug, PartialEq, Eq, Structural)]
pub enum TaskState {
    Stopped,
    Paused,
    Playing,
    Seeking,
}

/// The latest request the control layer made of a task.
#[derive(Clone, Copy, Debug, PartialEq, Eq, Structural)]
pub enum Intent {
    /// Nothing requested since the task started
    Keep,
    Play,
    Pause,
    Resume,
    Stop,
    Seek,
    SeekFinished,
}

/// The intent after `req` is made when `cur` stands. A stop is final, and
/// the end of a seek only answers a seek.
pub open spec fn next_intent(cur: Intent, req: Intent) -> Intent {
    if cur == Intent::Stop {
        Intent::Stop
    } else if req == Intent::SeekFinished {
        if cur == Intent::Seek {
            Intent::SeekFinished
        } else {
            cur
        }
    } else {
        req
    }
}

/// The committed state a task moves to when it reads `intent` in `state`.
pub open spec fn resolved(state: TaskState, intent: Intent) -> TaskState {
    if state == TaskState::Stopped {
        TaskState::Stopped
    } else {
        match intent {
            Intent::Keep => state,
            Intent::Stop => TaskState::Stopped,
            Intent::Pause => TaskState::Paused,
            Intent::Play | Intent::Resume | Intent::SeekFinished => TaskState::Playing,
            Intent::Seek => TaskState::Seeking,
        }
    }
}

/// The intent and committed state of one playback task.
pub struct TaskControl {
    state: TaskState,
    intent: Intent,
}

impl TaskControl {
    pub closed spec fn state_of(&self) -> TaskState {
        self.state
    }

    pub closed spec fn intent_of(&self) -> Intent {
        self.intent
    }

    /// A task that has not started.
    pub fn new() -> (r: TaskControl)
        ensures
            r.state_of() == TaskState::Stopped,
            r.intent_of() == Intent::Keep,
    {
        TaskControl { state: TaskState::Stopped, intent: Intent::Keep }
    }

    /// A freshly started task, playing with nothing requested.
    pub fn started() -> (r: TaskControl)
        ensures
            r.state_of() == TaskState::Playing,
            r.intent_of() == Intent::Keep,
    {
        TaskControl { state: TaskState::Playing, intent: Intent::Keep }
    }

    /// Records a request of the control layer.
    pub fn request(&mut self, req: Intent)
        ensures
            final(self).intent_of() == next_intent(old(self).intent_of(), req),
            final(self).state_of() == old(self).state_of(),
    {
        if self.intent == Intent::Stop {
        } else if req == Intent::SeekFinished {
            if self.intent == Intent::Seek {
                self.intent = Intent::SeekFinished;
            }
        } else {
            self.intent = req;
        }
    }

    /// Commits the state the current intent asks for.
    pub fn resolve(&mut self) -> (r: TaskState)
        ensures
            r == resolved(old(self).state_of(), old(self).intent_of()),
            final(self).state_of() == r,
            final(self).intent_of() == old(self).intent_of(),
    {
        if self.state != TaskState::Stopped {
            self.state = match self.intent {
                Intent::Keep => self.state,
                Intent::Stop => TaskState::Stopped,
                Intent::Pause => TaskState::Paused,
                Intent::Play | Intent::Resume | Intent::SeekFinished => TaskState::Playing,
                Intent::Seek => TaskState::Seeking,
            };
        }
        self.state
    }

    pub fn state(&self) -> (r: TaskState)
        ensures
            r == self.state_of(),
    {
        self.state
    }

    pub fn intent(&self) -> (r: Intent)
        ensures
            r == self.intent_of(),
    {
        self.intent
    }
}

/// Asking a task to pause twice in a row leaves the same intent as asking
/// once, and the task then commits to `Paused` unless it was stopped.
pub proof fn lemma_pause_idempotent(intent: Intent, state: TaskState)
    ensures
        next_intent(next_intent(intent, Intent::Pause), Intent::Pause) == next_intent(
            intent,
            Intent::Pause,
        ),
        resolved(state, next_intent(next_intent(intent, Intent::Pause), Intent::Pause)) == (if state
            == TaskState::Stopped || intent == Intent::Stop {
            TaskState::Stopped
        } else {
            TaskState::Paused
        }),
        resolved(
            resolved(state, next_intent(intent, Intent::Pause)),
            next_intent(intent, Intent::Pause),
        ) == resolved(state, next_intent(intent, Intent::Pause)),
{
}

/// How a video frame stands against the clock.
#[derive(Clone, Copy, Debug, PartialEq, Eq, Structural)]
pub enum SyncDecision {
    /// Behind the clock by more than the tolerance: dropped unseen
    Drop,
    /// Ahead of the clock by more than the tolerance: held back
    Hold,
    /// Within the tolerance: shown
    Show,
}

pub open spec fn sync_of(clock: int, pts: int) -> SyncDecision {
    if clock - pts > SYNC_TOLERANCE_MILLIS {
        SyncDecision::Drop
    } else if clock - pts < -SYNC_TOLERANCE_MILLIS {
        SyncDecision::Hold
    } else {
        SyncDecision::Show
    }
}

/// Compares a frame's timestamp with the clock.
pub fn sync_decision(clock: i64, pts: i64) -> (r: SyncDecision)
    ensures
        r == sync_of(clock as int, pts as int),
{
    let diff: i128 = clock as i128 - pts as i128;
    if diff > SYNC_TOLERANCE_MILLIS as i128 {
        SyncDecision::Drop
    } else if diff < -(SYNC_TOLERANCE_MILLIS as i128) {
        SyncDecision::Hold
    } else {
        SyncDecision::Show
    }
}

/// A frame is shown only within the tolerance of the clock, and a frame
/// that is dropped lies behind it by more than the tolerance.
pub proof fn lemma_sync_bound(clock: int, pts: int)
    ensures
        sync_of(clock, pts) == SyncDecision::Show ==> -SYNC_TOLERANCE_MILLIS <= clock - pts
            <= SYNC_TOLERANCE_MILLIS,
        sync_of(clock, pts) == SyncDecision::Drop ==> clock - pts > SYNC_TOLERANCE_MILLIS,
        sync_of(clock, pts) == SyncDecision::Hold ==> clock - pts < -SYNC_TOLERANCE_MILLIS,
{
}

/// How long an audio frame plays, in milliseconds; zero when its rate or
/// channel count is unknown, and saturated to `u64`.
pub open spec fn audio_frame_millis(f: AudioFrame) -> int {
    if f.sample_rate == 0 || f.channels == 0 {
        0
    } else {
        let ms = ((f.samples@.len() as int) / (f.channels as int)) * 1000 / (f.sample_rate as int);
        if ms > u64::MAX {
            u64::MAX as int
        } else {
            ms
        }
    }
}

/// Playing time of an audio frame in milliseconds.
pub fn frame_millis(f: &AudioFrame) -> (r: u64)
    ensures
        r == audio_frame_millis(*f),
{
    if f.sample_rate == 0 || f.channels == 0 {
        0
    } else {
        let per_channel: u64 = (f.samples.len() / (f.channels as usize)) as u64;
        assert(per_channel * 1000 <= 0xffff_ffff_ffff_ffff * 1000) by (nonlinear_arith)
            requires
                per_channel <= 0xffff_ffff_ffff_ffff,
        ;
        let total: u128 = per_channel as u128 * 1000;
        let ms: u128 = total / (f.sample_rate as u128);
        if ms > u64::MAX as u128 {
            u64::MAX
        } else {
            ms as u64
        }
    }
}

/// What the audio task does next.
#[derive(Clone, Debug, PartialEq, Eq)]
pub enum AudioAction {
    /// The task is stopped: leave the loop
    Exit,
    /// Sleep this many milliseconds, then tick again
    Idle(u64),
    /// Output the frame, then sleep this many milliseconds
    Render(AudioFrame, u64),
}

/// The audio playback task. Audio is the master clock: each frame it plays
/// sets the clock to its timestamp.
pub struct AudioPlayer {
    control: TaskControl,
}

impl AudioPlayer {
    pub closed spec fn control(&self) -> TaskControl {
        self.control
    }

    pub fn new() -> (r: AudioPlayer)
        ensures
            r.control().state_of() == TaskState::Stopped,
            r.control().intent_of() == Intent::Keep,
    {
        AudioPlayer { control: TaskControl::new() }
    }

    /// Puts the task in `Playing` with nothing requested, as a freshly
    /// spawned task is.
    pub fn start(&mut self)
        ensures
            final(self).control().state_of() == TaskState::Playing,
            final(self).control().intent_of() == Intent::Keep,
    {
        self.control = TaskControl::started();
    }

    pub fn state(&self) -> (r: TaskState)
        ensures
            r == self.control().state_of(),
    {
        self.control.state()
    }

    /// One iteration of the audio loop: commit the intent; when playing, take
    /// the oldest frame, apply the volume, set the clock to the frame's
    /// timestamp and play it for its duration.
    pub fn tick(&mut self, buffer: &mut AudioBuffer, clock: &mut i64, volume: i16) -> (r: AudioAction)
        requires
            old(buffer).wf(),
            valid_volume(volume as int),
        ensures
            final(buffer).wf(),
            final(buffer).capacity() == old(buffer).capacity(),
            final(self).control().intent_of() == old(self).control().intent_of(),
            final(self).control().state_of() == resolved(
                old(self).control().state_of(),
                old(self).control().intent_of(),
            ),
            final(self).control().state_of() != TaskState::Playing ==> *final(buffer)
                == *old(buffer) && *final(clock) == *old(clock),
            final(self).control().state_of() == TaskState::Stopped ==> r == AudioAction::Exit,
            final(self).control().state_of() == TaskState::Paused ==> r == AudioAction::Idle(
                IDLE_SLEEP_MILLIS,
            ),
            final(self).control().state_of() == TaskState::Seeking ==> r == AudioAction::Idle(
                IDLE_SLEEP_MILLIS,
            ),
            final(self).control().state_of() == TaskState::Playing ==> final(buffer)@ == rest_of(
                old(buffer)@,
            ) && match head_of(old(buffer)@) {
                None => r == AudioAction::Idle(UNDERRUN_SLEEP_MILLIS) && *final(clock) == *old(
                    clock,
                ),
                Some(f) => r matches AudioAction::Render(g, ms) && volume_applied(
                    f,
                    g,
                    volume as int,
                ) && *final(clock) == f.pts_millis && ms == audio_frame_millis(f),
            },
    {
        let state = self.control.resolve();
        match state {
            TaskState::Stopped => AudioAction::Exit,
            TaskState::Paused | TaskState::Seeking => AudioAction::Idle(IDLE_SLEEP_MILLIS),
            TaskState::Playing => match buffer.pop() {
                None => AudioAction::Idle(UNDERRUN_SLEEP_MILLIS),
                Some(f) => {
                    let mut g = f;
                    let ms = frame_millis(&g);
                    apply_volume(&mut g, volume);
                    *clock = g.pts_millis;
                    AudioAction::Render(g, ms)
                },
            },
        }
    }
}

/// What the video task does next.
#[derive(Clone, Debug, PartialEq, Eq)]
pub enum VideoAction {
    /// The task is stopped: leave the loop
    Exit,
    /// Sleep this many milliseconds, then tick again
    Idle(u64),
    /// A frame behind the clock was dropped unseen: tick again at once
    Drop,
    /// The held frame is ahead of the clock: show it again, then sleep this
    /// many milliseconds
    Repeat(u64),
    /// Show the frame, then sleep this many milliseconds
    Render(VideoFrame, u64),
}

/// The video playback task. With an audio stream it follows the audio
/// clock; without one it is the clock.
pub struct VideoPlayer {
    control: TaskControl,
    interval: u64,
    held: Option<VideoFrame>,
}

/// What a playing video task does with `cand`, the held frame or else the
/// oldest buffered one, at clock `clock`; and the frame it holds afterwards.
pub open spec fn video_outcome(
    cand: Option<VideoFrame>,
    clock: i64,
    audio_master: bool,
    interval: u64,
) -> (VideoAction, Option<VideoFrame>) {
    match cand {
        None => (VideoAction::Idle(UNDERRUN_SLEEP_MILLIS), None),
        Some(f) => if !audio_master || clock == UNKNOWN_CLOCK {
            (VideoAction::Render(f, interval), None)
        } else {
            match sync_of(clock as int, f.pts_millis as int) {
                SyncDecision::Drop => (VideoAction::Drop, None),
                SyncDecision::Hold => (VideoAction::Repeat(interval), Some(f)),
                SyncDecision::Show => (VideoAction::Render(f, interval), None),
            }
        },
    }
}

impl VideoPlayer {
    pub closed spec fn control(&self) -> TaskControl {
        self.control
    }

    pub closed spec fn interval_of(&self) -> u64 {
        self.interval
    }

    pub closed spec fn held_of(&self) -> Option<VideoFrame> {
        self.held
    }

    pub fn new() -> (r: VideoPlayer)
        ensures
            r.control().state_of() == TaskState::Stopped,
            r.control().intent_of() == Intent::Keep,
            r.held_of() is None,
            r.interval_of() == 0,
    {
        VideoPlayer { control: TaskControl::new(), interval: 0, held: None }
    }

    /// Puts the task in `Playing` with nothing requested, showing each frame
    /// for `interval` milliseconds.
    pub fn start(&mut self, interval: u64)
        ensures
            final(self).control().state_of() == TaskState::Playing,
            final(self).control().intent_of() == Intent::Keep,
            final(self).held_of() is None,
            final(self).interval_of() == interval,
    {
        self.control = TaskControl::started();
        self.interval = interval;
        self.held = None;
    }

    pub fn state(&self) -> (r: TaskState)
        ensures
            r == self.control().state_of(),
    {
        self.control.state()
    }

    /// The frame held back because it is ahead of the clock, if any.
    pub fn held_frame(&self) -> (r: Option<&VideoFrame>)
        ensures
            r == match self.held_of() {
                Some(f) => Some(&f),
                None => None::<&VideoFrame>,
            },
    {
        match &self.held {
            Some(f) => Some(f),
            None => None,
        }
    }

    /// Forgets the held frame; a seek makes it stale.
    pub fn discard_held(&mut self)
        ensures
            final(self).held_of() is None,
            final(self).control() == old(self).control(),
            final(self).interval_of() == old(self).interval_of(),
    {
        self.held = None;
    }

    /// One iteration of the video loop. Commit the intent; when playing,
    /// take the held frame or else the oldest buffered one and compare it
    /// with the clock: drop it when behind, hold and repeat it when ahead,
    /// show it when within the tolerance. Without an audio stream, or while
    /// the clock is unknown, every frame is shown; without an audio stream
    /// the frame also sets the clock.
    pub fn tick(&mut self, buffer: &mut VideoBuffer, clock: &mut i64, audio_master: bool) -> (r:
        VideoAction)
        requires
            old(buffer).wf(),
        ensures
            final(buffer).wf(),
            final(buffer).capacity() == old(buffer).capacity(),
            final(self).interval_of() == old(self).interval_of(),
            final(self).control().intent_of() == old(self).control().intent_of(),
            final(self).control().state_of() == resolved(
                old(self).control().state_of(),
                old(self).control().intent_of(),
            ),
            final(self).control().state_of() != TaskState::Playing ==> *final(buffer)
                == *old(buffer) && *final(clock) == *old(clock),
            final(self).control().state_of() == TaskState::Stopped ==> r == VideoAction::Exit
                && final(self).held_of() is None,
            final(self).control().state_of() == TaskState::Paused ==> r == VideoAction::Idle(
                IDLE_SLEEP_MILLIS,
            ) && final(self).held_of() == old(self).held_of(),
            final(self).control().state_of() == TaskState::Seeking ==> r == VideoAction::Idle(
                IDLE_SLEEP_MILLIS,
            ) && final(self).held_of() is None,
            final(self).control().state_of() == TaskState::Playing ==> ({
                let cand = match old(self).held_of() {
                    Some(h) => Some(h),
                    None => head_of(old(buffer)@),
                };
                let out = video_outcome(cand, *old(clock), audio_master, old(self).interval_of());
                &&& final(buffer)@ == (if old(self).held_of() is Some {
                    old(buffer)@
                } else {
                    rest_of(old(buffer)@)
                })
                &&& r == out.0
                &&& final(self).held_of() == out.1
                &&& *final(clock) == (if !audio_master && cand is Some {
                    cand->0.pts_millis
                } else {
                    *old(clock)
                })
            }),
    {
        let state = self.control.resolve();
        match state {
            TaskState::Stopped => {
                self.held = None;
                VideoAction::Exit
            },
            TaskState::Paused => VideoAction::Idle(IDLE_SLEEP_MILLIS),
            TaskState::Seeking => {
                self.held = None;
                VideoAction::Idle(IDLE_SLEEP_MILLIS)
            },
            TaskState::Playing => {
                let cand = match self.held.take() {
                    Some(h) => Some(h),
                    None => buffer.pop(),
                };
                match cand {
                    None => VideoAction::Idle(UNDERRUN_SLEEP_MILLIS),
                    Some(f) => {
                        if !audio_master {
                            *clock = f.pts_millis;
                            VideoAction::Render(f, self.interval)
                        } else if *clock == UNKNOWN_CLOCK {
                            VideoAction::Render(f, self.interval)
                        } else {
                            match sync_decision(*clock, f.pts_millis) {
                                SyncDecision::Drop => VideoAction::Drop,
                                SyncDecision::Hold => {
                                    self.held = Some(f);
                                    VideoAction::Repeat(self.interval)
                                },
                                SyncDecision::Show => VideoAction::Render(f, self.interval),
                            }
                        }
                    },
                }
            },
        }
    }
}

/// During steady playback against a known audio clock, a frame the video
/// task shows lies within the tolerance of the clock; a dropped frame is
/// never shown, and a repeated one is ahead of the clock.
pub proof fn lemma_shown_frames_in_sync(
    cand: Option<VideoFrame>,
    clock: i64,
    interval: u64,
)
    requires
        clock != UNKNOWN_CLOCK,
    ensures
        video_outcome(cand, clock, true, interval).0 matches VideoAction::Render(f, _) ==> cand
            == Some(f) && -SYNC_TOLERANCE_MILLIS <= clock - f.pts_millis
            <= SYNC_TOLERANCE_MILLIS,
        video_outcome(cand, clock, true, interval).0 == VideoAction::Drop ==> cand is Some
            && clock - cand->0.pts_millis > SYNC_TOLERANCE_MILLIS,
        video_outcome(cand, clock, true, interval).0 matches VideoAction::Repeat(_) ==> cand
            is Some && clock - cand->0.pts_millis < -SYNC_TOLERANCE_MILLIS,
{
}

/// The commands every playback task answers. Each records an intent; the
/// task commits it on its next iteration.
pub trait Player {
    /// The intent the last requests left.
    spec fn requested(&self) -> Intent;

    /// What the implementation keeps true between requests.
    spec fn player_inv(&self) -> bool;

    /// Everything but the intent is as in `other`: a request changes only the
    /// intent, never the committed state the task alone writes, nor what the
    /// task holds.
    spec fn same_but_intent(self, other: Self) -> bool;

    fn play(&mut self)
        requires
            old(self).player_inv(),
        ensures
            final(self).player_inv(),
            final(self).requested() == next_intent(old(self).requested(), Intent::Play),
            (*final(self)).same_but_intent(*old(self)),
    ;

    fn pause(&mut self)
        requires
            old(self).player_inv(),
        ensures
            final(self).player_inv(),
            final(self).requested() == next_intent(old(self).requested(), Intent::Pause),
            (*final(self)).same_but_intent(*old(self)),
    ;

    fn resume(&mut self)
        requires
            old(self).player_inv(),
        ensures
            final(self).player_inv(),
            final(self).requested() == next_intent(old(self).requested(), Intent::Resume),
            (*final(self)).same_but_intent(*old(self)),
    ;

    fn stop(&mut self)
        requires
            old(self).player_inv(),
        ensures
            final(self).player_inv(),
            final(self).requested() == next_intent(old(self).requested(), Intent::Stop),
            (*final(self)).same_but_intent(*old(self)),
    ;

    /// Fast forward is a seek: the task waits while the decoder repositions.
    fn fast_forward(&mut self)
        requires
            old(self).player_inv(),
        ensures
            final(self).player_inv(),
            final(self).requested() == next_intent(old(self).requested(), Intent::Seek),
            (*final(self)).same_but_intent(*old(self)),
    ;

    /// Fast rewind is a seek: the task waits while the decoder repositions.
    fn fast_rewind(&mut self)
        requires
            old(self).player_inv(),
        ensures
            final(self).player_inv(),
            final(self).requested() == next_intent(old(self).requested(), Intent::Seek),
            (*final(self)).same_but_intent(*old(self)),
    ;

    fn seeking(&mut self)
        requires
            old(self).player_inv(),
        ensures
            final(self).player_inv(),
            final(self).requested() == next_intent(old(self).requested(), Intent::Seek),
            (*final(self)).same_but_intent(*old(self)),
    ;

    fn seek_finished(&mut self)
        requires
            old(self).player_inv(),
        ensures
            final(self).player_inv(),
            final(self).requested() == next_intent(old(self).requested(), Intent::SeekFinished),
            (*final(self)).same_but_intent(*old(self)),
    ;
}

impl Player for AudioPlayer {
    open spec fn requested(&self) -> Intent {
        self.control().intent_of()
    }

    open spec fn player_inv(&self) -> bool {
        true
    }

    open spec fn same_but_intent(self, other: Self) -> bool {
        self.control().state_of() == other.control().state_of()
    }

    fn play(&mut self) {
        self.control.request(Intent::Play);
    }

    fn pause(&mut self) {
        self.control.request(Intent::Pause);
    }

    fn resume(&mut self) {
        self.control.request(Intent::Resume);
    }

    fn stop(&mut self) {
        self.control.request(Intent::Stop);
    }

    fn fast_forward(&mut self) {
        self.control.request(Intent::Seek);
    }

    fn fast_rewind(&mut self) {
        self.control.request(Intent::Seek);
    }

    fn seeking(&mut self) {
        self.control.request(Intent::Seek);
    }

    fn seek_finished(&mut self) {
        self.control.request(Intent::SeekFinished);
    }
}

impl Player for VideoPlayer {
    open spec fn requested(&self) -> Intent {
        self.control().intent_of()
    }

    open spec fn player_inv(&self) -> bool {
        true
    }

    open spec fn same_but_intent(self, other: Self) -> bool {
        &&& self.control().state_of() == other.control().state_of()
        &&& self.held_of() == other.held_of()
        &&& self.interval_of() == other.interval_of()
    }

    fn play(&mut self) {
        self.control.request(Intent::Play);
    }

    fn pause(&mut self) {
        self.control.request(Intent::Pause);
    }

    fn resume(&mut self) {
        self.control.request(Intent::Resume);
    }

    fn stop(&mut self) {
        self.control.request(Intent::Stop);
    }

    fn fast_forward(&mut self) {
        self.control.request(Intent::Seek);
    }

    fn fast_rewind(&mut self) {
        self.control.request(Intent::Seek);
    }

    fn seeking(&mut self) {
        self.control.request(Intent::Seek);
    }

    fn seek_finished(&mut self) {
        self.control.request(Intent::SeekFinished);
    }
}

/// The audio and video tasks of one playback, driven together. Audio
/// pauses with video during a seek, so that no stale clock is presented.
pub struct MediaPlayer {
    pub audio_player: AudioPlayer,
    pub video_player: VideoPlayer,
}

impl MediaPlayer {
    /// Both tasks carry the same intent.
    pub open spec fn in_step(&self) -> bool {
        self.audio_player.control().intent_of() == self.video_player.control().intent_of()
    }

    /// Both tasks' committed states, and the video task's held frame and
    /// interval, are as in `other`.
    pub open spec fn tasks_as(self, other: MediaPlayer) -> bool {
        &&& self.audio_player.control().state_of() == other.audio_player.control().state_of()
        &&& self.video_player.control().state_of() == other.video_player.control().state_of()
        &&& self.video_player.held_of() == other.video_player.held_of()
        &&& self.video_player.interval_of() == other.video_player.interval_of()
    }

    /// The intent both tasks carry.
    pub open spec fn common_intent(&self) -> Intent {
        self.video_player.control().intent_of()
    }

    /// The intent both tasks carry.
    pub fn intent(&self) -> (r: Intent)
        ensures
            r == self.common_intent(),
    {
        self.video_player.control.intent()
    }

    /// Both tasks not started.
    pub fn new() -> (r: MediaPlayer)
        ensures
            r.in_step(),
            r.common_intent() == Intent::Keep,
            r.audio_player.control().state_of() == TaskState::Stopped,
            r.video_player.control().state_of() == TaskState::Stopped,
    {
        MediaPlayer { audio_player: AudioPlayer::new(), video_player: VideoPlayer::new() }
    }

    /// Starts both tasks for media with this summary: video shows each frame
    /// for the video stream's frame interval.
    pub fn start(&mut self, video_interval: u64)
        ensures
            final(self).in_step(),
            final(self).common_intent() == Intent::Keep,
            final(self).audio_player.control().state_of() == TaskState::Playing,
            final(self).video_player.control().state_of() == TaskState::Playing,
            final(self).video_player.interval_of() == video_interval,
            final(self).video_player.held_of() is None,
    {
        self.audio_player.start();
        self.video_player.start(video_interval);
    }
}

impl Player for MediaPlayer {
    open spec fn requested(&self) -> Intent {
        self.common_intent()
    }

    open spec fn player_inv(&self) -> bool {
        self.in_step()
    }

    open spec fn same_but_intent(self, other: Self) -> bool {
        self.tasks_as(other)
    }

    fn play(&mut self) {
        self.audio_player.play();
        self.video_player.play();
    }

    fn pause(&mut self) {
        self.audio_player.pause();
        self.video_player.pause();
    }

    fn resume(&mut self) {
        self.audio_player.resume();
        self.video_player.resume();
    }

    fn stop(&mut self) {
        self.audio_player.stop();
        self.video_player.stop();
    }

    fn fast_forward(&mut self) {
        self.audio_player.fast_forward();
        self.video_player.fast_forward();
    }

    fn fast_rewind(&mut self) {
        self.audio_player.fast_rewind();
        self.video_player.fast_rewind();
    }

    fn seeking(&mut self) {
        self.audio_player.seeking();
        self.video_player.seeking();
    }

    fn seek_finished(&mut self) {
        self.audio_player.seek_finished();
        self.video_player.seek_finished();
    }
}

} // verus!
