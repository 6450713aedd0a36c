use crossbeam::channel::unbounded;
use ntplayer::context::{
    DecodeAction, PushOutcome, SharedPlaybackContext, SubtitleAction, AUDIO_BUFFER_CAPACITY,
    FR_STEP, SUBTITLE_BUFFER_CAPACITY, VIDEO_BUFFER_CAPACITY,
};
use ntplayer::decoder::{MediaDecoder, PacketRoute, BUFFER_FULL_SLEEP_MILLIS};
use ntplayer::entity::EventMessage;
use ntplayer::error::{handle_result, handle_send_result, PlayerError};
use ntplayer::frame::{AudioFrame, SubtitleFrame, VideoFrame};
use ntplayer::player::{
    sync_decision, AudioAction, AudioPlayer, Intent, MediaPlayer, Player, SyncDecision,
    TaskState, VideoAction, IDLE_SLEEP_MILLIS, UNDERRUN_SLEEP_MILLIS, UNKNOWN_CLOCK,
};
use ntplayer::summary::{StreamDescriptor, StreamKind};

fn stream(index: i32, kind: StreamKind, frames: i64, decoder: Option<&str>) -> StreamDescriptor {
    StreamDescriptor {
        index,
        kind,
        nb_frames: frames,
        duration: 10000,
        time_base_num: 1,
        time_base_den: 1000,
        decoder: decoder.map(|d| d.to_string()),
        width: 640,
        height: 360,
        sample_rate: 1000,
        channels: 2,
        channel_layout: 3,
    }
}

fn video(pts: i64) -> VideoFrame {
    VideoFrame { format: 0, data: vec![vec![pts as u8]], width: 1, height: 1, pts_millis: pts }
}

fn audio(pts: i64, samples: Vec<i16>) -> AudioFrame {
    AudioFrame {
        format: 1,
        samples,
        pts_millis: pts,
        sample_rate: 1000,
        channels: 2,
        channel_layout: 3,
    }
}

fn av_context() -> SharedPlaybackContext {
    let streams = vec![
        stream(0, StreamKind::Video, 250, Some("h264")),
        stream(1, StreamKind::Audio, 400, Some("aac")),
    ];
    SharedPlaybackContext::new(MediaDecoder::new(&streams).unwrap())
}

fn video_only_context() -> SharedPlaybackContext {
    let streams = vec![stream(0, StreamKind::Video, 250, Some("h264"))];
    SharedPlaybackContext::new(MediaDecoder::new(&streams).unwrap())
}

#[test]
fn first_stream_of_each_kind_is_selected() {
    let streams = vec![
        stream(0, StreamKind::Data, 5, None),
        stream(1, StreamKind::Video, 0, Some("skip-empty")),
        stream(2, StreamKind::Video, 10, Some("first")),
        stream(3, StreamKind::Video, 10, Some("second")),
        stream(4, StreamKind::Audio, 10, None),
        stream(5, StreamKind::Audio, 10, Some("aac")),
    ];
    let (sel, summary) = MediaDecoder::get_streams(&streams);
    assert_eq!(sel.video.map(|s| s.index), Some(2));
    assert_eq!(sel.audio.map(|s| (s.index, s.decodable)), Some((4, false)));
    assert!(sel.subtitle.is_none());
    assert_eq!(summary.video.as_ref().map(|v| v.decoder_name.as_str()), Some("first"));
    assert_eq!(summary.audio.as_ref().map(|a| a.decoder_name.as_str()), Some(""));
    assert!(summary.subtitle.is_none());
}

#[test]
fn open_errors() {
    let none: Vec<StreamDescriptor> = vec![stream(0, StreamKind::Subtitle, 3, Some("srt"))];
    assert_eq!(MediaDecoder::new(&none).err(), Some(PlayerError::NoPlayableStream));
    let undecodable = vec![stream(0, StreamKind::Video, 3, None)];
    assert_eq!(MediaDecoder::new(&undecodable).err(), Some(PlayerError::NoDecoder));
    let audio_only = vec![stream(7, StreamKind::Audio, 3, Some("mp3"))];
    assert!(MediaDecoder::new(&audio_only).is_ok());
}

#[test]
fn packets_are_routed_by_stream_index() {
    let streams = vec![
        stream(0, StreamKind::Video, 10, Some("h264")),
        stream(1, StreamKind::Audio, 10, Some("aac")),
        stream(2, StreamKind::Subtitle, 10, None),
        stream(3, StreamKind::Attachment, 10, None),
    ];
    let d = MediaDecoder::new(&streams).unwrap();
    assert_eq!(d.route(0), PacketRoute::Video);
    assert_eq!(d.route(1), PacketRoute::Audio);
    assert_eq!(d.route(2), PacketRoute::Ignore);
    assert_eq!(d.route(3), PacketRoute::Ignore);
    assert_eq!(d.route(42), PacketRoute::Ignore);
}

#[test]
fn ten_second_video_has_forty_millisecond_interval() {
    let streams = vec![stream(0, StreamKind::Video, 250, Some("h264"))];
    let d = MediaDecoder::new(&streams).unwrap();
    let v = d.media_summary().video.clone().unwrap();
    assert_eq!(v.duration_millis, 10000);
    assert_eq!(v.frames, 250);
    assert_eq!(v.play_interval, 40);
    assert_eq!((v.width, v.height), (640, 360));
}

#[test]
fn video_only_first_frame_renders_at_start() {
    let mut ctx = video_only_context();
    assert_eq!(ctx.resize_event(), Some(EventMessage::Resize(640, 360)));
    assert_eq!(ctx.decode_tick(), DecodeAction::ReadPacket);
    assert_eq!(ctx.push_video(video(0)), PushOutcome::Pushed);
    assert_eq!(ctx.push_video(video(40)), PushOutcome::Pushed);
    assert_eq!(ctx.video_tick(), VideoAction::Render(video(0), 40));
    assert_eq!(ctx.clock(), 0);
    assert_eq!(ctx.video_tick(), VideoAction::Render(video(40), 40));
    assert_eq!(ctx.clock(), 40);
}

#[test]
fn pause_twice_stays_paused() {
    let mut ctx = av_context();
    ctx.pause();
    ctx.pause();
    assert_eq!(ctx.player().intent(), Intent::Pause);
    assert!(ctx.push_audio(audio(0, vec![1, 1])) == PushOutcome::Pushed);
    assert_eq!(ctx.audio_tick(), AudioAction::Idle(IDLE_SLEEP_MILLIS));
    assert_eq!(ctx.player().audio_player.state(), TaskState::Paused);
    ctx.pause();
    assert_eq!(ctx.audio_tick(), AudioAction::Idle(IDLE_SLEEP_MILLIS));
    assert_eq!(ctx.player().audio_player.state(), TaskState::Paused);
    assert_eq!(ctx.video_tick(), VideoAction::Idle(IDLE_SLEEP_MILLIS));
    assert_eq!(ctx.player().video_player.state(), TaskState::Paused);
    ctx.resume();
    assert!(matches!(ctx.audio_tick(), AudioAction::Render(_, _)));
}

#[test]
fn player_pause_is_idempotent() {
    let mut p = AudioPlayer::new();
    p.start();
    p.pause();
    p.pause();
    assert_eq!(p.state(), TaskState::Playing);
    let mut m = MediaPlayer::new();
    m.start(40);
    m.pause();
    m.pause();
    assert_eq!(m.intent(), Intent::Pause);
}

#[test]
fn last_seek_wins_with_one_flush() {
    let mut ctx = av_context();
    for pts in 0..3 {
        assert_eq!(ctx.push_video(video(pts * 40)), PushOutcome::Pushed);
        assert_eq!(ctx.push_audio(audio(pts * 40, vec![5, 5])), PushOutcome::Pushed);
    }
    ctx.seek_to(5000);
    ctx.seek_to(9000);
    assert_eq!(ctx.push_video(video(200)), PushOutcome::Discarded);
    assert_eq!(ctx.decode_tick(), DecodeAction::Reposition(9000));
    assert_eq!(ctx.clock(), UNKNOWN_CLOCK);
    assert_eq!(ctx.decoder().pending(), None);
    assert_eq!(ctx.decode_tick(), DecodeAction::ReadPacket);
    assert_eq!(ctx.video_tick(), VideoAction::Idle(IDLE_SLEEP_MILLIS));
    assert_eq!(ctx.audio_tick(), AudioAction::Idle(IDLE_SLEEP_MILLIS));
    ctx.finish_seek();
    assert_eq!(ctx.player().intent(), Intent::SeekFinished);
    assert_eq!(ctx.audio_tick(), AudioAction::Idle(UNDERRUN_SLEEP_MILLIS));
    assert_eq!(ctx.video_tick(), VideoAction::Idle(UNDERRUN_SLEEP_MILLIS));
    assert_eq!(ctx.push_video(video(9000)), PushOutcome::Pushed);
    assert_eq!(ctx.video_tick(), VideoAction::Render(video(9000), 40));
}

#[test]
fn seek_before_start_goes_to_start() {
    let mut ctx = av_context();
    ctx.seek_to(-5);
    assert_eq!(ctx.decode_tick(), DecodeAction::Reposition(0));
}

#[test]
fn sync_decisions() {
    assert_eq!(sync_decision(1000, 1000), SyncDecision::Show);
    assert_eq!(sync_decision(1200, 1000), SyncDecision::Show);
    assert_eq!(sync_decision(1201, 1000), SyncDecision::Drop);
    assert_eq!(sync_decision(800, 1000), SyncDecision::Show);
    assert_eq!(sync_decision(799, 1000), SyncDecision::Hold);
    assert_eq!(sync_decision(i64::MAX, i64::MIN), SyncDecision::Drop);
}

#[test]
fn video_follows_audio_clock() {
    let mut ctx = av_context();
    assert_eq!(ctx.push_audio(audio(1000, vec![1, 2])), PushOutcome::Pushed);
    assert!(matches!(ctx.audio_tick(), AudioAction::Render(_, _)));
    assert_eq!(ctx.clock(), 1000);
    assert_eq!(ctx.push_video(video(500)), PushOutcome::Pushed);
    assert_eq!(ctx.push_video(video(1100)), PushOutcome::Pushed);
    assert_eq!(ctx.push_video(video(1500)), PushOutcome::Pushed);
    assert_eq!(ctx.video_tick(), VideoAction::Drop);
    assert_eq!(ctx.video_tick(), VideoAction::Render(video(1100), 40));
    assert_eq!(ctx.video_tick(), VideoAction::Repeat(40));
    assert_eq!(ctx.player().video_player.held_frame(), Some(&video(1500)));
    assert_eq!(ctx.video_tick(), VideoAction::Repeat(40));
    assert_eq!(ctx.push_audio(audio(1400, vec![1, 2])), PushOutcome::Pushed);
    assert!(matches!(ctx.audio_tick(), AudioAction::Render(_, _)));
    assert_eq!(ctx.video_tick(), VideoAction::Render(video(1500), 40));
    assert_eq!(ctx.player().video_player.held_frame(), None);
}

#[test]
fn stop_during_backpressure_ends_decoding() {
    let mut ctx = av_context();
    for i in 0..VIDEO_BUFFER_CAPACITY {
        assert_eq!(ctx.push_video(video(i as i64)), PushOutcome::Pushed);
    }
    assert_eq!(ctx.push_video(video(99)), PushOutcome::Full(video(99)));
    assert_eq!(ctx.decode_tick(), DecodeAction::Backoff(BUFFER_FULL_SLEEP_MILLIS));
    assert_eq!(BUFFER_FULL_SLEEP_MILLIS, 200);
    ctx.stop();
    assert_eq!(ctx.push_video(video(99)), PushOutcome::Discarded);
    assert_eq!(ctx.decode_tick(), DecodeAction::Exit);
    assert_eq!(ctx.audio_tick(), AudioAction::Exit);
    assert_eq!(ctx.video_tick(), VideoAction::Exit);
    ctx.resume();
    assert_eq!(ctx.player().intent(), Intent::Stop);
}

#[test]
fn zero_volume_zeroes_samples_and_keeps_clock() {
    let mut ctx = av_context();
    ctx.set_volume(0);
    assert_eq!(ctx.push_audio(audio(320, vec![100, -200, 300, -400])), PushOutcome::Pushed);
    match ctx.audio_tick() {
        AudioAction::Render(f, ms) => {
            assert_eq!(f.samples, vec![0, 0, 0, 0]);
            assert_eq!(f.pts_millis, 320);
            assert_eq!(ms, 2);
        }
        other => panic!("unexpected {:?}", other),
    }
    assert_eq!(ctx.clock(), 320);
}

#[test]
fn default_volume_leaves_samples() {
    let mut ctx = av_context();
    assert_eq!(ctx.volume(), 50);
    assert_eq!(ctx.push_audio(audio(0, vec![100, -200])), PushOutcome::Pushed);
    match ctx.audio_tick() {
        AudioAction::Render(f, _) => assert_eq!(f.samples, vec![100, -200]),
        other => panic!("unexpected {:?}", other),
    }
    assert_eq!(ctx.dispatch(EventMessage::UpVolume), None);
    assert_eq!(ctx.volume(), 60);
    assert_eq!(ctx.dispatch(EventMessage::DownVolume), None);
    assert_eq!(ctx.volume(), 50);
}

#[test]
fn forward_and_rewind_seek() {
    let mut ctx = av_context();
    assert_eq!(ctx.push_audio(audio(3000, vec![0, 0])), PushOutcome::Pushed);
    assert!(matches!(ctx.audio_tick(), AudioAction::Render(_, _)));
    assert_eq!(ctx.dispatch(EventMessage::Rewind), None);
    assert_eq!(ctx.decoder().pending(), Some(0));
    assert_eq!(ctx.decode_tick(), DecodeAction::Reposition(0));
    ctx.finish_seek();
    assert_eq!(ctx.position(), 0);
    assert_eq!(ctx.dispatch(EventMessage::Forward), None);
    assert_eq!(ctx.decoder().pending(), Some(FR_STEP));
    assert_eq!(ctx.player().intent(), Intent::Seek);
}

#[test]
fn forward_past_end_stops() {
    let mut ctx = av_context();
    ctx.seek_to(5000);
    ctx.forward();
    assert!(ctx.decoder().is_stopped());
    assert_eq!(ctx.player().intent(), Intent::Stop);
    assert_eq!(ctx.decode_tick(), DecodeAction::Exit);
}

#[test]
fn dispatch_hands_back_other_messages() {
    let mut ctx = av_context();
    assert_eq!(ctx.dispatch(EventMessage::Quit), Some(EventMessage::Quit));
    assert_eq!(
        ctx.dispatch(EventMessage::Play("a.mp4".to_string())),
        Some(EventMessage::Play("a.mp4".to_string()))
    );
    assert_eq!(ctx.dispatch(EventMessage::SeekTo(1500)), None);
    assert_eq!(ctx.decoder().pending(), Some(1500));
    assert_eq!(ctx.dispatch(EventMessage::Pause), None);
    assert_eq!(ctx.player().intent(), Intent::Pause);
    assert_eq!(ctx.dispatch(EventMessage::Stop), None);
    assert!(ctx.decoder().is_stopped());
}

#[test]
fn buffers_have_documented_capacities() {
    let mut ctx = av_context();
    for i in 0..AUDIO_BUFFER_CAPACITY {
        assert_eq!(ctx.push_audio(audio(i as i64, vec![])), PushOutcome::Pushed);
    }
    assert_eq!(ctx.push_audio(audio(0, vec![])), PushOutcome::Full(audio(0, vec![])));
    for i in 0..5 {
        let s = SubtitleFrame { data: vec![], pts_millis: i };
        assert_eq!(ctx.push_subtitle(s), PushOutcome::Pushed);
    }
    let s = SubtitleFrame { data: vec![], pts_millis: 9 };
    assert_eq!(ctx.push_subtitle(s.clone()), PushOutcome::Full(s));
}

#[test]
fn results_become_error_messages() {
    let (v, e) = handle_result::<u32>(Ok(5));
    assert_eq!(v, Some(5));
    assert_eq!(e, None);
    let (v, e) = handle_result::<u32>(Err(PlayerError::NoDecoder));
    assert_eq!(v, None);
    assert_eq!(e, Some(EventMessage::ShowError(PlayerError::NoDecoder.message())));
    assert_eq!(PlayerError::OpenFailed.message(), "the media file could not be opened");
}

#[test]
fn send_results_report_delivery() {
    let (s, r) = unbounded::<EventMessage>();
    assert!(handle_send_result(s.send(EventMessage::Pause)));
    drop(r);
    assert!(!handle_send_result(s.send(EventMessage::Pause)));
}

#[test]
fn media_player_trait_forwards_to_both() {
    let mut m = MediaPlayer::new();
    m.start(40);
    m.seeking();
    assert_eq!(m.intent(), Intent::Seek);
    m.seek_finished();
    assert_eq!(m.intent(), Intent::SeekFinished);
    m.seek_finished();
    assert_eq!(m.intent(), Intent::SeekFinished);
    m.fast_forward();
    m.stop();
    m.play();
    assert_eq!(m.intent(), Intent::Stop);
}

#[test]
fn subtitles_drain_so_decoding_goes_on() {
    let mut ctx = av_context();
    for i in 0..SUBTITLE_BUFFER_CAPACITY {
        let s = SubtitleFrame { data: vec![i as u8], pts_millis: i as i64 * 1000 };
        assert_eq!(ctx.push_subtitle(s), PushOutcome::Pushed);
    }
    assert_eq!(ctx.decode_tick(), DecodeAction::Backoff(BUFFER_FULL_SLEEP_MILLIS));
    let first = SubtitleFrame { data: vec![0], pts_millis: 0 };
    assert_eq!(ctx.subtitle_tick(), SubtitleAction::Render(first));
    assert_eq!(ctx.decode_tick(), DecodeAction::ReadPacket);
    for _ in 1..SUBTITLE_BUFFER_CAPACITY {
        assert!(matches!(ctx.subtitle_tick(), SubtitleAction::Render(_)));
    }
    assert_eq!(ctx.subtitle_tick(), SubtitleAction::Idle(IDLE_SLEEP_MILLIS));
    ctx.stop();
    assert_eq!(ctx.subtitle_tick(), SubtitleAction::Exit);
}

#[test]
fn position_after_flush_is_the_seek_target() {
    let mut ctx = av_context();
    assert_eq!(ctx.position(), 0);
    ctx.seek_to(4000);
    assert_eq!(ctx.decode_tick(), DecodeAction::Reposition(4000));
    ctx.finish_seek();
    assert_eq!(ctx.clock(), UNKNOWN_CLOCK);
    assert_eq!(ctx.position(), 4000);
    ctx.rewind();
    assert_eq!(ctx.decoder().pending(), Some(0));
    assert_eq!(ctx.decode_tick(), DecodeAction::Reposition(0));
    ctx.finish_seek();
    ctx.forward();
    assert_eq!(ctx.decoder().pending(), Some(FR_STEP));
}
