use ntplayer::buffer::{AudioBuffer, FrameBuffer, SubtitleBuffer, VideoBuffer};
use ntplayer::frame::{AudioFrame, DecodedFrame, SubtitleFrame, VideoFrame};

fn video(pts: i64) -> VideoFrame {
    VideoFrame {
        format: 0,
        data: vec![vec![1, 2, 3], vec![4], vec![5]],
        width: 2,
        height: 2,
        pts_millis: pts,
    }
}

fn audio(pts: i64, samples: Vec<i16>) -> AudioFrame {
    AudioFrame {
        format: 1,
        samples,
        pts_millis: pts,
        sample_rate: 1000,
        channels: 2,
        channel_layout: 3,
    }
}

#[test]
fn capacity_accepts_exactly_c_pushes() {
    for c in 1..6usize {
        let mut b = VideoBuffer::new(c);
        for i in 0..c {
            assert!(!b.is_full());
            assert!(b.push(video(i as i64)).is_ok());
        }
        assert!(b.is_full());
        assert_eq!(b.len(), c);
        let rejected = b.push(video(99));
        assert_eq!(rejected, Err(video(99)));
        assert_eq!(b.len(), c);
    }
}

#[test]
fn pops_after_pushes_drain_in_order() {
    let c = 4usize;
    for k in 0..=c {
        let mut b = VideoBuffer::new(c);
        for i in 0..c {
            assert!(b.push(video(i as i64)).is_ok());
        }
        for i in 0..k {
            assert_eq!(b.pop().map(|f| f.pts_millis), Some(i as i64));
        }
        let mut somes = 0;
        for i in k..c {
            assert_eq!(b.pop().map(|f| f.pts_millis), Some(i as i64));
            somes += 1;
        }
        assert_eq!(somes, c - k);
        assert!(b.pop().is_none());
        assert!(b.is_empty());
    }
}

#[test]
fn push_then_pop_round_trips() {
    let mut b = AudioBuffer::new(3);
    let f = audio(1234, vec![1, -2, 3, -4]);
    assert!(b.push(f.clone()).is_ok());
    assert_eq!(b.pop(), Some(f));
    assert!(b.is_empty());

    let mut v = VideoBuffer::new(1);
    assert!(v.push(video(40)).is_ok());
    assert_eq!(v.pop(), Some(video(40)));
    assert_eq!(v.pop(), None);
}

#[test]
fn subtitle_buffer_full_hands_frame_back() {
    let mut b = SubtitleBuffer::new(1);
    let s1 = SubtitleFrame { data: vec![b'a'], pts_millis: 10 };
    let s2 = SubtitleFrame { data: vec![b'b'], pts_millis: 20 };
    assert_eq!(b.push(s1.clone()), Ok(()));
    assert_eq!(b.push(s2.clone()), Err(s2));
    assert_eq!(b.pop(), Some(s1));
}

#[test]
fn clear_empties_buffer() {
    let mut b = VideoBuffer::new(5);
    for i in 0..5 {
        assert!(b.push(video(i)).is_ok());
    }
    b.clear();
    assert!(b.is_empty());
    assert_eq!(b.len(), 0);
    assert!(b.push(video(7)).is_ok());
    assert_eq!(b.len(), 1);
}

#[test]
fn frame_buffer_keeps_fifo_order_across_kinds() {
    let mut b = FrameBuffer::new(2);
    assert!(b.push(DecodedFrame::Video(video(1))).is_ok());
    assert!(b.push(DecodedFrame::Audio(audio(2, vec![]))).is_ok());
    assert!(b.is_full());
    assert!(b.push(DecodedFrame::Video(video(3))).is_err());
    assert_eq!(b.pop().map(|f| f.pts_millis()), Some(1));
    assert_eq!(b.pop().map(|f| f.pts_millis()), Some(2));
    assert!(b.pop().is_none());
}
