use ntplayer::error::PlayerError;
use ntplayer::frame::{DecodedFrame, MediaKind};
use ntplayer::summary::{duration_millis, play_interval};
use ntplayer::frame::{
    interleave, plane_sizes, pts_to_millis, AudioFrame, SubtitleFrame, VideoFrame,
    PIX_FMT_YUV420P,
};
use ntplayer::volume::{
    apply_volume, clamp_volume, scale_sample, volume_down, volume_up, MAX_VOLUME,
};

#[test]
fn pts_to_millis_uses_timebase() {
    assert_eq!(pts_to_millis(90000, 1, 90000), 1000);
    assert_eq!(pts_to_millis(3, 1, 25), 120);
    assert_eq!(pts_to_millis(1, 1001, 30000), 33);
    assert_eq!(pts_to_millis(0, 1, 1000), 0);
}

#[test]
fn pts_to_millis_rounds_toward_zero_for_negative() {
    assert_eq!(pts_to_millis(-1, 1, 3), -333);
    assert_eq!(pts_to_millis(-2, 1, 3), -666);
    assert_eq!(pts_to_millis(-3, 1, 1000), -3);
}

#[test]
fn pts_to_millis_saturates() {
    assert_eq!(pts_to_millis(i64::MAX, 1, 1), i64::MAX);
    assert_eq!(pts_to_millis(i64::MIN, 1, 1), i64::MIN);
}

#[test]
fn yuv420p_plane_sizes() {
    assert_eq!(plane_sizes(PIX_FMT_YUV420P, 4, 2), vec![8, 2, 2]);
    assert_eq!(plane_sizes(PIX_FMT_YUV420P, 1920, 1080), vec![2073600, 518400, 518400]);
    assert!(plane_sizes(PIX_FMT_YUV420P + 1, 4, 2).is_empty());
}

#[test]
fn interleave_two_channels() {
    let planes = vec![vec![1i16, 2, 3, 9], vec![-1i16, -2, -3]];
    assert_eq!(interleave(&planes, 3), vec![1, -1, 2, -2, 3, -3]);
    assert_eq!(interleave(&planes, 0), Vec::<i16>::new());
}

#[test]
fn audio_frame_from_planes() {
    let planes = vec![vec![10i16, 20], vec![30i16, 40]];
    let f = AudioFrame::from_planes(8, &planes, 2, 441, 1, 44100, 44100, 3);
    assert_eq!(f.samples, vec![10, 30, 20, 40]);
    assert_eq!(f.pts_millis, 10);
    assert_eq!(f.channels, 2);
    assert_eq!(f.sample_rate, 44100);
}

#[test]
fn video_and_subtitle_frames_from_decoded() {
    let v = VideoFrame::from_planes(0, vec![vec![1, 2], vec![3]], 2, 1, 50, 1, 25, );
    assert_eq!(v.pts_millis, 2000);
    assert_eq!(v.data, vec![vec![1, 2], vec![3]]);
    let unknown = VideoFrame::from_planes(0, vec![], 2, 1, 50, 1, 0);
    assert_eq!(unknown.pts_millis, 0);
    let s = SubtitleFrame::from_payload(vec![b'h', b'i'], 12, 1, 1000);
    assert_eq!(s.pts_millis, 12);
    assert_eq!(s.data, vec![b'h', b'i']);
}

#[test]
fn volume_steps_are_clamped() {
    assert_eq!(volume_up(50), 60);
    assert_eq!(volume_up(MAX_VOLUME - 5), MAX_VOLUME);
    assert_eq!(volume_up(MAX_VOLUME), MAX_VOLUME);
    assert_eq!(volume_down(50), 40);
    assert_eq!(volume_down(5), 0);
    assert_eq!(volume_down(0), 0);
    assert_eq!(clamp_volume(-3), 0);
    assert_eq!(clamp_volume(100000), MAX_VOLUME);
    assert_eq!(clamp_volume(75), 75);
}

#[test]
fn sample_scaling() {
    assert_eq!(scale_sample(1000, 50), 1000);
    assert_eq!(scale_sample(1000, 25), 500);
    assert_eq!(scale_sample(-1000, 25), -500);
    assert_eq!(scale_sample(-7, 10), -1);
    assert_eq!(scale_sample(7, 10), 1);
    assert_eq!(scale_sample(30000, 100), i16::MAX);
    assert_eq!(scale_sample(-30000, 100), i16::MIN);
    assert_eq!(scale_sample(12345, 0), 0);
}

#[test]
fn zero_volume_silences_frame_but_keeps_timestamp() {
    let mut f = AudioFrame {
        format: 1,
        samples: vec![i16::MIN, -1, 0, 1, i16::MAX],
        pts_millis: 777,
        sample_rate: 48000,
        channels: 1,
        channel_layout: 4,
    };
    apply_volume(&mut f, 0);
    assert_eq!(f.samples, vec![0, 0, 0, 0, 0]);
    assert_eq!(f.pts_millis, 777);
    assert_eq!(f.sample_rate, 48000);
}

#[test]
fn decoded_frame_reports_kind_and_time() {
    let s = DecodedFrame::Subtitle(SubtitleFrame { data: vec![], pts_millis: 5 });
    assert_eq!(s.kind(), MediaKind::Subtitle);
    assert_eq!(s.pts_millis(), 5);
    let v = DecodedFrame::Video(VideoFrame::from_planes(0, vec![], 0, 0, 7, 1, 1000));
    assert_eq!(v.kind(), MediaKind::Video);
    assert_eq!(v.pts_millis(), 7);
}

#[test]
fn stream_durations_and_intervals() {
    assert_eq!(duration_millis(900000, 1, 90000), 10000);
    assert_eq!(duration_millis(-1, 1, 90000), 0);
    assert_eq!(duration_millis(100, 1, 0), 0);
    assert_eq!(play_interval(10000, 250), 40);
    assert_eq!(play_interval(1001, 30), 33);
    assert_eq!(play_interval(10000, 0), 0);
}

#[test]
fn error_messages() {
    assert_eq!(PlayerError::ReadFailed.message(), "the media file could not be read");
    assert_eq!(PlayerError::JoinFailed.message(), "the previous playback did not stop cleanly");
    assert_eq!(PlayerError::NoPlayableStream.message(), "the media file holds no audio or video");
}
