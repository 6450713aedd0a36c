//! Decoded frames and the arithmetic that produces their timestamps.

use vstd::prelude::*;

verus! {

/// Pixel format tag of planar YUV 4:2:0 (the decoding library's value).
pub const PIX_FMT_YUV420P: i32 = 0;

/// Largest number of planes a video frame carries.
pub const MAX_PLANES: usize = 8;

/// A decoded picture: up to eight planes of pixel bytes (unused planes are
/// left out), its size, and its presentation time in milliseconds.
#[derive(Clone, Debug, PartialEq, Eq)]
pub struct VideoFrame {
    pub format: i32,
    pub data: Vec<Vec<u8>>,
    pub width: usize,
    pub height: usize,
    pub pts_millis: i64,
}

/// Decoded sound: signed 16-bit samples, interleaved by channel, with the
/// presentation time in milliseconds and the stream's layout.
#[derive(Clone, Debug, PartialEq, Eq)]
pub struct AudioFrame {
    pub format: i32,
    pub samples: Vec<i16>,
    pub pts_millis: i64,
    pub sample_rate: u32,
    pub channels: u8,
    pub channel_layout: u8,
}

/// A decoded subtitle: its opaque payload and presentation time.
#[derive(Clone, Debug, PartialEq, Eq)]
pub struct SubtitleFrame {
    pub data: Vec<u8>,
    pub pts_millis: i64,
}

/// Which elementary stream a frame or stream belongs to.
#[derive(Clone, Copy, Debug, PartialEq, Eq, Structural)]
pub enum MediaKind {
    Audio,
    Video,
    Subtitle,
}

/// A frame of any kind, as the frame buffers hold it.
#[derive(Clone, Debug, PartialEq, Eq)]
pub enum DecodedFrame {
    Audio(AudioFrame),
    Video(VideoFrame),
    Subtitle(SubtitleFrame),
}

impl DecodedFrame {
    pub open spec fn kind_of(self) -> MediaKind {
        match self {
            DecodedFrame::Audio(_) => MediaKind::Audio,
            DecodedFrame::Video(_) => MediaKind::Video,
            DecodedFrame::Subtitle(_) => MediaKind::Subtitle,
        }
    }

    pub open spec fn pts_of(self) -> i64 {
        match self {
            DecodedFrame::Audio(f) => f.pts_millis,
            DecodedFrame::Video(f) => f.pts_millis,
            DecodedFrame::Subtitle(f) => f.pts_millis,
        }
    }

    /// The kind of stream the frame came from.
    pub fn kind(&self) -> (r: MediaKind)
        ensures
            r == self.kind_of(),
    {
        match self {
            DecodedFrame::Audio(_) => MediaKind::Audio,
            DecodedFrame::Video(_) => MediaKind::Video,
            DecodedFrame::Subtitle(_) => MediaKind::Subtitle,
        }
    }

    /// The frame's presentation time in milliseconds.
    pub fn pts_millis(&self) -> (r: i64)
        ensures
            r == self.pts_of(),
    {
        match self {
            DecodedFrame::Audio(f) => f.pts_millis,
            DecodedFrame::Video(f) => f.pts_millis,
            DecodedFrame::Subtitle(f) => f.pts_millis,
        }
    }
}

/// The presentation time in milliseconds of a timestamp counted in units of
/// `num / den` seconds, rounded toward zero as integer division does.
pub open spec fn millis_of(pts: int, num: int, den: int) -> int {
    let m = pts * 1000 * num;
    if m >= 0 {
        m / den
    } else {
        -((-m) / den)
    }
}

/// Clamps an integer into the range of `i64`.
pub open spec fn clamp_i64(x: int) -> int {
    if x < i64::MIN {
        i64::MIN as int
    } else if x > i64::MAX {
        i64::MAX as int
    } else {
        x
    }
}

/// Converts a stream timestamp to milliseconds using the stream's timebase.
/// The result rounds toward zero, and one outside the range of `i64`
/// saturates rather than overflowing.
pub fn pts_to_millis(pts: i64, num: u32, den: u32) -> (r: i64)
    requires
        den > 0,
    ensures
        r == clamp_i64(millis_of(pts as int, num as int, den as int)),
{
    let p: i128 = (pts as i128) * 1000i128;
    let n: i128 = num as i128;
    assert(-0x8000_0000_0000_0000 * 1000 * 0xffff_ffff <= p * n <= 0x7fff_ffff_ffff_ffff * 1000 * 0xffff_ffff)
        by (nonlinear_arith)
        requires
            -0x8000_0000_0000_0000 * 1000 <= p <= 0x7fff_ffff_ffff_ffff * 1000,
            0 <= n <= 0xffff_ffff,
    ;
    let scaled: i128 = p * n;
    let d: i128 = den as i128;
    let q: i128 = if scaled >= 0 {
        scaled / d
    } else {
        -((-scaled) / d)
    };
    if q < i64::MIN as i128 {
        i64::MIN
    } else if q > i64::MAX as i128 {
        i64::MAX
    } else {
        q as i64
    }
}

/// Sizes of the planes to read from a decoded picture: luma then the two
/// quarter-size chroma planes for planar YUV 4:2:0, none for a format that
/// is not handled.
pub open spec fn plane_sizes_of(format: i32, width: int, height: int) -> Seq<int> {
    if format == PIX_FMT_YUV420P {
        seq![width * height, width * height / 4, width * height / 4]
    } else {
        Seq::empty()
    }
}

/// The plane sizes of a decoded picture of this format and size.
pub fn plane_sizes(format: i32, width: usize, height: usize) -> (r: Vec<usize>)
    requires
        width * height <= usize::MAX,
    ensures
        r@.len() == plane_sizes_of(format, width as int, height as int).len(),
        forall|i: int|
            0 <= i < r@.len() ==> r@[i] as int == #[trigger] plane_sizes_of(
                format,
                width as int,
                height as int,
            )[i],
{
    let mut r: Vec<usize> = Vec::new();
    if format == PIX_FMT_YUV420P {
        let y = width * height;
        r.push(y);
        r.push(y / 4);
        r.push(y / 4);
    }
    r
}

/// The sample of channel `c` at position `i` comes at `i * channels + c`.
pub open spec fn interleaved(planes: Seq<Vec<i16>>, n: int, out: Seq<i16>) -> bool {
    &&& out.len() == n * planes.len()
    &&& forall|i: int, c: int|
        0 <= i < n && 0 <= c < planes.len() ==> out[i * planes.len() + c] == #[trigger] planes[c]@[i]
}

proof fn lemma_index_bound(i: int, c: int, ch: int, n: int)
    requires
        0 <= i < n,
        0 <= c < ch,
    ensures
        0 <= i * ch + c < n * ch,
{
    assert(i * ch + c < (i + 1) * ch) by (nonlinear_arith)
        requires
            0 <= c < ch,
    ;
    assert((i + 1) * ch <= n * ch) by (nonlinear_arith)
        requires
            i + 1 <= n,
            0 <= ch,
    ;
    assert(0 <= i * ch) by (nonlinear_arith)
        requires
            0 <= i,
            0 <= ch,
    ;
}

/// Interleaves the first `n` samples of each channel's plane: sample `i` of
/// every channel in turn, then sample `i + 1`.
pub fn interleave(planes: &Vec<Vec<i16>>, n: usize) -> (r: Vec<i16>)
    requires
        forall|c: int| 0 <= c < planes@.len() ==> n <= #[trigger] planes@[c]@.len(),
        n * planes@.len() <= usize::MAX,
    ensures
        interleaved(planes@, n as int, r@),
{
    let ch = planes.len();
    let mut out: Vec<i16> = Vec::new();
    let mut i: usize = 0;
    while i < n
        invariant
            i <= n,
            ch == planes@.len(),
            n * ch <= usize::MAX,
            forall|c: int| 0 <= c < planes@.len() ==> n <= #[trigger] planes@[c]@.len(),
            out@.len() == i * ch,
            forall|ii: int, c: int|
                0 <= ii < i && 0 <= c < ch ==> out@[ii * ch + c] == #[trigger] planes@[c]@[ii],
        decreases n - i,
    {
        let mut c: usize = 0;
        while c < ch
            invariant
                i < n,
                c <= ch,
                ch == planes@.len(),
                forall|k: int| 0 <= k < planes@.len() ==> n <= #[trigger] planes@[k]@.len(),
                out@.len() == i * ch + c,
                forall|ii: int, k: int|
                    0 <= ii < i && 0 <= k < ch ==> out@[ii * ch + k] == #[trigger] planes@[k]@[ii],
                forall|k: int| 0 <= k < c ==> out@[i * ch + k] == #[trigger] planes@[k]@[i as int],
            decreases ch - c,
        {
            assert(n <= planes@[c as int]@.len());
            out.push(planes[c][i]);
            proof {
                assert forall|ii: int, k: int|
                    0 <= ii < i && 0 <= k < ch implies out@[ii * ch + k] == #[trigger] planes@[k]@[ii] by {
                    lemma_index_bound(ii, k, ch as int, i as int);
                }
            }
            c = c + 1;
        }
        proof {
            assert((i + 1) * ch == i * ch + ch) by (nonlinear_arith);
            assert forall|ii: int, k: int|
                0 <= ii < i + 1 && 0 <= k < ch implies out@[ii * ch + k] == #[trigger] planes@[k]@[ii] by {
                if ii < i {
                } else {
                    assert(ii == i);
                }
            }
            assert(i + 1 <= n);
            assert((i + 1) * ch <= n * ch) by (nonlinear_arith)
                requires
                    i + 1 <= n,
            ;
        }
        i = i + 1;
    }
    out
}

impl VideoFrame {
    /// A frame from the planes of a decoded picture, its timestamp converted
    /// to milliseconds with the stream's timebase. Where plain `i64`
    /// arithmetic would fail, this stays total: a zero denominator (an
    /// unknown timebase) gives 0, and a value outside `i64` saturates.
    pub fn from_planes(
        format: i32,
        data: Vec<Vec<u8>>,
        width: usize,
        height: usize,
        pts: i64,
        time_base_num: u32,
        time_base_den: u32,
    ) -> (r: VideoFrame)
        requires
            data@.len() <= MAX_PLANES,
        ensures
            r.format == format,
            r.data@ == data@,
            r.width == width,
            r.height == height,
            r.pts_millis == (if time_base_den == 0 {
                0
            } else {
                clamp_i64(millis_of(pts as int, time_base_num as int, time_base_den as int))
            }),
    {
        let pts_millis = if time_base_den == 0 {
            0
        } else {
            pts_to_millis(pts, time_base_num, time_base_den)
        };
        VideoFrame { format, data, width, height, pts_millis }
    }
}

impl AudioFrame {
    /// A frame from the planar samples of decoded sound, one plane per
    /// channel, interleaved; its timestamp converted to milliseconds with
    /// the stream's timebase. Where plain `i64` arithmetic would fail, this
    /// stays total: a zero denominator (an unknown timebase) gives 0, and a
    /// value outside `i64` saturates.
    pub fn from_planes(
        format: i32,
        planes: &Vec<Vec<i16>>,
        nb_samples: usize,
        pts: i64,
        time_base_num: u32,
        time_base_den: u32,
        sample_rate: u32,
        channel_layout: u8,
    ) -> (r: AudioFrame)
        requires
            forall|c: int| 0 <= c < planes@.len() ==> nb_samples <= #[trigger] planes@[c]@.len(),
            nb_samples * planes@.len() <= usize::MAX,
            planes@.len() <= u8::MAX,
        ensures
            interleaved(planes@, nb_samples as int, r.samples@),
            r.format == format,
            r.channels == planes@.len(),
            r.sample_rate == sample_rate,
            r.channel_layout == channel_layout,
            r.pts_millis == (if time_base_den == 0 {
                0
            } else {
                clamp_i64(millis_of(pts as int, time_base_num as int, time_base_den as int))
            }),
    {
        let pts_millis = if time_base_den == 0 {
            0
        } else {
            pts_to_millis(pts, time_base_num, time_base_den)
        };
        AudioFrame {
            format,
            samples: interleave(planes, nb_samples),
            pts_millis,
            sample_rate,
            channels: planes.len() as u8,
            channel_layout,
        }
    }
}

impl SubtitleFrame {
    /// A subtitle from its payload, its timestamp converted to milliseconds
    /// with the stream's timebase. Where plain `i64` arithmetic would fail,
    /// this stays total: a zero denominator (an unknown timebase) gives 0,
    /// and a value outside `i64` saturates.
    pub fn from_payload(data: Vec<u8>, pts: i64, time_base_num: u32, time_base_den: u32) -> (r:
        SubtitleFrame)
        ensures
            r.data@ == data@,
            r.pts_millis == (if time_base_den == 0 {
                0
            } else {
                clamp_i64(millis_of(pts as int, time_base_num as int, time_base_den as int))
            }),
    {
        let pts_millis = if time_base_den == 0 {
            0
        } else {
            pts_to_millis(pts, time_base_num, time_base_den)
        };
        SubtitleFrame { data, pts_millis }
    }
}

} // verus!
