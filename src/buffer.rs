//! Bounded, non-blocking frame buffers over crossbeam's `ArrayQueue`.
//!
//! A buffer never blocks: `push` hands the frame back when the buffer is
//! full and `pop` returns `None` when it is drained. Callers that must wait
//! sleep on their own.

use crate::frame::{AudioFrame, DecodedFrame, SubtitleFrame, VideoFrame};
use crossbeam::queue::ArrayQueue;
use vstd::prelude::*;

verus! {

/// Largest capacity a frame buffer can be built with. A queue slot holds a
/// stamp and one frame, well under 256 bytes, so the slots of a queue this
/// large still fit in the address space, and the lap size computed from the
/// capacity cannot overflow.
pub const MAX_CAPACITY: usize = usize::MAX / 256;

#[verifier::external_type_specification]
#[verifier::external_body]
#[verifier::reject_recursive_types(T)]
pub struct ExArrayQueue<T>(ArrayQueue<T>);

/// The frames a queue holds, oldest first.
pub uninterp spec fn queue_items(q: ArrayQueue<DecodedFrame>) -> Seq<DecodedFrame>;

/// The capacity a queue was built with.
pub uninterp spec fn queue_capacity(q: ArrayQueue<DecodedFrame>) -> nat;

/// Relies on `ArrayQueue::new`: an empty queue of capacity `cap`. It panics
/// on a zero capacity, on one whose lap size overflows, and on one whose slots
/// exceed the address space; `requires` leaves all three out.
#[verifier::external_body]
fn queue_new(cap: usize) -> (q: ArrayQueue<DecodedFrame>)
    requires
        0 < cap <= MAX_CAPACITY,
    ensures
        queue_items(q) == Seq::<DecodedFrame>::empty(),
        queue_capacity(q) == cap,
{
    ArrayQueue::new(cap)
}

/// Relies on `ArrayQueue::push_mut`: with exclusive access, the frame goes to
/// the back unless the queue is full, in which case it is handed back.
#[verifier::external_body]
fn queue_push(q: &mut ArrayQueue<DecodedFrame>, f: DecodedFrame) -> (r: Result<(), DecodedFrame>)
    requires
        queue_items(*old(q)).len() <= queue_capacity(*old(q)),
    ensures
        queue_capacity(*final(q)) == queue_capacity(*old(q)),
        queue_items(*old(q)).len() < queue_capacity(*old(q)) ==> r is Ok
            && queue_items(*final(q)) == queue_items(*old(q)).push(f),
        queue_items(*old(q)).len() == queue_capacity(*old(q)) ==> (r matches Err(g) && g == f)
            && queue_items(*final(q)) == queue_items(*old(q)),
{
    q.push_mut(f)
}

/// Relies on `ArrayQueue::pop_mut`: with exclusive access, the oldest frame
/// leaves the queue, or `None` when it is empty.
#[verifier::external_body]
fn queue_pop(q: &mut ArrayQueue<DecodedFrame>) -> (r: Option<DecodedFrame>)
    ensures
        queue_capacity(*final(q)) == queue_capacity(*old(q)),
        queue_items(*old(q)).len() == 0 ==> r == None::<DecodedFrame>
            && queue_items(*final(q)) == queue_items(*old(q)),
        queue_items(*old(q)).len() > 0 ==> r == Some(queue_items(*old(q))[0])
            && queue_items(*final(q)) == queue_items(*old(q)).drop_first(),
{
    q.pop_mut()
}

/// Relies on `ArrayQueue::is_empty`: whether the queue holds no frame.
#[verifier::external_body]
fn queue_is_empty(q: &ArrayQueue<DecodedFrame>) -> (r: bool)
    ensures
        r == (queue_items(*q).len() == 0),
{
    q.is_empty()
}

/// Relies on `ArrayQueue::is_full`: whether the queue holds as many frames
/// as its capacity.
#[verifier::external_body]
fn queue_is_full(q: &ArrayQueue<DecodedFrame>) -> (r: bool)
    requires
        queue_items(*q).len() <= queue_capacity(*q),
    ensures
        r == (queue_items(*q).len() == queue_capacity(*q)),
{
    q.is_full()
}

/// Relies on `ArrayQueue::len`: the number of frames held.
#[verifier::external_body]
fn queue_len(q: &ArrayQueue<DecodedFrame>) -> (r: usize)
    ensures
        r == queue_items(*q).len(),
{
    q.len()
}

/// What a buffer of capacity `cap` that holds `s` holds after `f` is
/// offered to it: `f` joins the back unless the buffer is full.
pub open spec fn offer<T>(s: Seq<T>, cap: nat, f: T) -> Seq<T> {
    if s.len() < cap {
        s.push(f)
    } else {
        s
    }
}

/// What a buffer holds after each of `fs` is offered in turn.
pub open spec fn offer_all<T>(s: Seq<T>, cap: nat, fs: Seq<T>) -> Seq<T>
    decreases fs.len(),
{
    if fs.len() == 0 {
        s
    } else {
        offer_all(offer(s, cap, fs[0]), cap, fs.drop_first())
    }
}

/// What a pop returns from a buffer that holds `s`.
pub open spec fn head_of<T>(s: Seq<T>) -> Option<T> {
    if s.len() > 0 {
        Some(s[0])
    } else {
        None
    }
}

/// What a buffer that holds `s` holds after a pop.
pub open spec fn rest_of<T>(s: Seq<T>) -> Seq<T> {
    if s.len() > 0 {
        s.drop_first()
    } else {
        s
    }
}

/// The results of `n` pops in a row from a buffer that holds `s`.
pub open spec fn pops<T>(s: Seq<T>, n: nat) -> Seq<Option<T>>
    decreases n,
{
    if n == 0 {
        Seq::empty()
    } else {
        seq![head_of(s)] + pops(rest_of(s), (n - 1) as nat)
    }
}

/// What a buffer that holds `s` holds after `n` pops in a row.
pub open spec fn after_pops<T>(s: Seq<T>, n: nat) -> Seq<T>
    decreases n,
{
    if n == 0 {
        s
    } else {
        after_pops(rest_of(s), (n - 1) as nat)
    }
}

proof fn lemma_offer_all_fits<T>(s: Seq<T>, cap: nat, fs: Seq<T>)
    requires
        s.len() + fs.len() <= cap,
    ensures
        offer_all(s, cap, fs) == s + fs,
    decreases fs.len(),
{
    if fs.len() > 0 {
        lemma_offer_all_fits(s.push(fs[0]), cap, fs.drop_first());
        assert(s.push(fs[0]) + fs.drop_first() =~= s + fs);
    } else {
        assert(s + fs =~= s);
    }
}

proof fn lemma_pops_within<T>(s: Seq<T>, n: nat)
    requires
        n <= s.len(),
    ensures
        pops(s, n) == s.take(n as int).map_values(|f: T| Some(f)),
        after_pops(s, n) == s.skip(n as int),
    decreases n,
{
    if n == 0 {
        assert(s.take(0).map_values(|f: T| Some(f)) =~= Seq::<Option<T>>::empty());
        assert(s.skip(0) =~= s);
    } else {
        lemma_pops_within(s.drop_first(), (n - 1) as nat);
        assert(seq![Some(s[0])] + s.drop_first().take(n - 1).map_values(|f: T| Some(f))
            =~= s.take(n as int).map_values(|f: T| Some(f)));
        assert(s.drop_first().skip(n - 1) =~= s.skip(n as int));
    }
}

proof fn lemma_pops_drain<T>(s: Seq<T>)
    ensures
        pops(s, s.len() + 1) == s.map_values(|f: T| Some(f)).push(None),
    decreases s.len(),
{
    if s.len() == 0 {
        assert(pops(s, 0) =~= Seq::<Option<T>>::empty());
        assert(pops(s, 1) =~= s.map_values(|f: T| Some(f)).push(None));
    } else {
        lemma_pops_drain(s.drop_first());
        assert(seq![Some(s[0])] + s.drop_first().map_values(|f: T| Some(f)).push(None)
            =~= s.map_values(|f: T| Some(f)).push(None));
    }
}

/// A buffer of capacity `c > 0` that starts empty accepts exactly `c`
/// offered frames and refuses the next one. After `k <= c` pops have
/// returned the oldest `k` frames, the next `c - k + 1` pops return the
/// remaining `c - k` frames, oldest first, and then `None`.
pub proof fn lemma_fill_then_drain<T>(c: nat, fs: Seq<T>, extra: T, k: nat)
    requires
        c > 0,
        fs.len() == c,
        k <= c,
    ensures
        offer_all(Seq::<T>::empty(), c, fs) == fs,
        offer(fs, c, extra) == fs,
        pops(fs, k) == fs.take(k as int).map_values(|f: T| Some(f)),
        after_pops(fs, k) == fs.skip(k as int),
        pops(fs.skip(k as int), (c - k + 1) as nat) == fs.skip(k as int).map_values(
            |f: T| Some(f),
        ).push(None),
{
    lemma_offer_all_fits(Seq::<T>::empty(), c, fs);
    assert(Seq::<T>::empty() + fs =~= fs);
    lemma_pops_within(fs, k);
    lemma_pops_drain(fs.skip(k as int));
}

/// A frame offered to an empty buffer comes back from the next pop
/// unchanged, and the buffer is empty again.
pub proof fn lemma_round_trip<T>(cap: nat, f: T)
    requires
        cap > 0,
    ensures
        head_of(offer(Seq::<T>::empty(), cap, f)) == Some(f),
        rest_of(offer(Seq::<T>::empty(), cap, f)) == Seq::<T>::empty(),
{
    assert(offer(Seq::<T>::empty(), cap, f) =~= seq![f]);
    assert(seq![f].drop_first() =~= Seq::<T>::empty());
}

/// A bounded FIFO of decoded frames with a capacity fixed at construction.
pub struct FrameBuffer {
    queue: ArrayQueue<DecodedFrame>,
}

impl View for FrameBuffer {
    type V = Seq<DecodedFrame>;

    closed spec fn view(&self) -> Seq<DecodedFrame> {
        queue_items(self.queue)
    }
}

impl FrameBuffer {
    pub closed spec fn capacity_of(&self) -> nat {
        queue_capacity(self.queue)
    }

    /// A positive capacity no larger than the bound, and never more frames
    /// than it.
    pub open spec fn wf(&self) -> bool {
        &&& 0 < self.capacity_of() <= MAX_CAPACITY
        &&& self@.len() <= self.capacity_of()
    }

    /// An empty buffer of the given capacity.
    pub fn new(capacity: usize) -> (r: FrameBuffer)
        requires
            0 < capacity <= MAX_CAPACITY,
        ensures
            r.wf(),
            r@ == Seq::<DecodedFrame>::empty(),
            r.capacity_of() == capacity,
    {
        FrameBuffer { queue: queue_new(capacity) }
    }

    /// Appends a frame, or hands it back when the buffer is full.
    pub fn push(&mut self, frame: DecodedFrame) -> (r: Result<(), DecodedFrame>)
        requires
            old(self).wf(),
        ensures
            final(self).wf(),
            final(self).capacity_of() == old(self).capacity_of(),
            old(self)@.len() < old(self).capacity_of() ==> r is Ok
                && final(self)@ == old(self)@.push(frame),
            old(self)@.len() == old(self).capacity_of() ==> (r matches Err(g) && g == frame)
                && final(self)@ == old(self)@,
    {
        queue_push(&mut self.queue, frame)
    }

    /// Removes and returns the oldest frame, or `None` when empty.
    pub fn pop(&mut self) -> (r: Option<DecodedFrame>)
        requires
            old(self).wf(),
        ensures
            final(self).wf(),
            final(self).capacity_of() == old(self).capacity_of(),
            old(self)@.len() == 0 ==> r == None::<DecodedFrame> && final(self)@ == old(self)@,
            old(self)@.len() > 0 ==> r == Some(old(self)@[0]) && final(self)@
                == old(self)@.drop_first(),
    {
        queue_pop(&mut self.queue)
    }

    pub fn is_empty(&self) -> (r: bool)
        ensures
            r == (self@.len() == 0),
    {
        queue_is_empty(&self.queue)
    }

    pub fn is_full(&self) -> (r: bool)
        requires
            self.wf(),
        ensures
            r == (self@.len() == self.capacity_of()),
    {
        queue_is_full(&self.queue)
    }

    pub fn len(&self) -> (r: usize)
        ensures
            r == self@.len(),
    {
        queue_len(&self.queue)
    }

    /// Pops until the buffer is empty, discarding every frame.
    pub fn clear(&mut self)
        requires
            old(self).wf(),
        ensures
            final(self).wf(),
            final(self).capacity_of() == old(self).capacity_of(),
            final(self)@ == Seq::<DecodedFrame>::empty(),
    {
        while !self.is_empty()
            invariant
                self.wf(),
                self.capacity_of() == old(self).capacity_of(),
            decreases self@.len(),
        {
            let _ = self.pop();
        }
    }
}

/// A frame buffer that holds only audio frames.
pub struct AudioBuffer {
    inner: FrameBuffer,
}

impl View for AudioBuffer {
    type V = Seq<AudioFrame>;

    closed spec fn view(&self) -> Seq<AudioFrame> {
        self.inner@.map_values(|f: DecodedFrame| f->Audio_0)
    }
}

impl AudioBuffer {
    pub closed spec fn capacity(&self) -> nat {
        self.inner.capacity_of()
    }

    pub closed spec fn wf(&self) -> bool {
        &&& self.inner.wf()
        &&& forall|i: int| 0 <= i < self.inner@.len() ==> #[trigger] self.inner@[i] is Audio
    }

    pub proof fn lemma_bounds(&self)
        requires
            self.wf(),
        ensures
            0 < self.capacity() <= MAX_CAPACITY,
            self@.len() <= self.capacity(),
    {
    }

    /// An empty buffer of the given capacity.
    pub fn new(size: usize) -> (r: Self)
        requires
            0 < size <= MAX_CAPACITY,
        ensures
            r.wf(),
            r@ == Seq::<AudioFrame>::empty(),
            r.capacity() == size,
    {
        let r = AudioBuffer { inner: FrameBuffer::new(size) };
        assert(r@ =~= Seq::<AudioFrame>::empty());
        r
    }

    /// Appends a frame, or hands it back when the buffer is full.
    pub fn push(&mut self, frame: AudioFrame) -> (r: Result<(), AudioFrame>)
        requires
            old(self).wf(),
        ensures
            final(self).wf(),
            final(self).capacity() == old(self).capacity(),
            final(self)@ == offer(old(self)@, old(self).capacity(), frame),
            r is Ok <==> old(self)@.len() < old(self).capacity(),
            r matches Err(g) ==> g == frame,
    {
        let ghost before = self.inner@;
        let r = self.inner.push(DecodedFrame::Audio(frame));
        proof {
            if before.len() < self.inner.capacity_of() {
                assert(self@ =~= old(self)@.push(frame));
            }
        }
        match r {
            Ok(()) => Ok(()),
            Err(DecodedFrame::Audio(f)) => Err(f),
            Err(_) => vstd::pervasive::unreached(),
        }
    }

    /// Removes and returns the oldest frame, or `None` when empty.
    pub fn pop(&mut self) -> (r: Option<AudioFrame>)
        requires
            old(self).wf(),
        ensures
            final(self).wf(),
            final(self).capacity() == old(self).capacity(),
            r == head_of(old(self)@),
            final(self)@ == rest_of(old(self)@),
    {
        let r = self.inner.pop();
        proof {
            if old(self)@.len() > 0 {
                assert(self@ =~= old(self)@.drop_first());
            }
        }
        match r {
            Some(DecodedFrame::Audio(f)) => Some(f),
            Some(_) => {
                proof {
                    assert(old(self).inner@[0] is Audio);
                }
                vstd::pervasive::unreached()
            },
            None => None,
        }
    }

    pub fn is_empty(&self) -> (r: bool)
        ensures
            r == (self@.len() == 0),
    {
        self.inner.is_empty()
    }

    pub fn is_full(&self) -> (r: bool)
        requires
            self.wf(),
        ensures
            r == (self@.len() == self.capacity()),
    {
        self.inner.is_full()
    }

    pub fn len(&self) -> (r: usize)
        ensures
            r == self@.len(),
    {
        self.inner.len()
    }

    /// Discards every frame.
    pub fn clear(&mut self)
        requires
            old(self).wf(),
        ensures
            final(self).wf(),
            final(self).capacity() == old(self).capacity(),
            final(self)@ == Seq::<AudioFrame>::empty(),
    {
        self.inner.clear();
        assert(self@ =~= Seq::<AudioFrame>::empty());
    }
}

/// A frame buffer that holds only video frames.
pub struct VideoBuffer {
    inner: FrameBuffer,
}

impl View for VideoBuffer {
    type V = Seq<VideoFrame>;

    closed spec fn view(&self) -> Seq<VideoFrame> {
        self.inner@.map_values(|f: DecodedFrame| f->Video_0)
    }
}

impl VideoBuffer {
    pub closed spec fn capacity(&self) -> nat {
        self.inner.capacity_of()
    }

    pub closed spec fn wf(&self) -> bool {
        &&& self.inner.wf()
        &&& forall|i: int| 0 <= i < self.inner@.len() ==> #[trigger] self.inner@[i] is Video
    }

    pub proof fn lemma_bounds(&self)
        requires
            self.wf(),
        ensures
            0 < self.capacity() <= MAX_CAPACITY,
            self@.len() <= self.capacity(),
    {
    }

    /// An empty buffer of the given capacity.
    pub fn new(size: usize) -> (r: Self)
        requires
            0 < size <= MAX_CAPACITY,
        ensures
            r.wf(),
            r@ == Seq::<VideoFrame>::empty(),
            r.capacity() == size,
    {
        let r = VideoBuffer { inner: FrameBuffer::new(size) };
        assert(r@ =~= Seq::<VideoFrame>::empty());
        r
    }

    /// Appends a frame, or hands it back when the buffer is full.
    pub fn push(&mut self, frame: VideoFrame) -> (r: Result<(), VideoFrame>)
        requires
            old(self).wf(),
        ensures
            final(self).wf(),
            final(self).capacity() == old(self).capacity(),
            final(self)@ == offer(old(self)@, old(self).capacity(), frame),
            r is Ok <==> old(self)@.len() < old(self).capacity(),
            r matches Err(g) ==> g == frame,
    {
        let ghost before = self.inner@;
        let r = self.inner.push(DecodedFrame::Video(frame));
        proof {
            if before.len() < self.inner.capacity_of() {
                assert(self@ =~= old(self)@.push(frame));
            }
        }
        match r {
            Ok(()) => Ok(()),
            Err(DecodedFrame::Video(f)) => Err(f),
            Err(_) => vstd::pervasive::unreached(),
        }
    }

    /// Removes and returns the oldest frame, or `None` when empty.
    pub fn pop(&mut self) -> (r: Option<VideoFrame>)
        requires
            old(self).wf(),
        ensures
            final(self).wf(),
            final(self).capacity() == old(self).capacity(),
            r == head_of(old(self)@),
            final(self)@ == rest_of(old(self)@),
    {
        let r = self.inner.pop();
        proof {
            if old(self)@.len() > 0 {
                assert(self@ =~= old(self)@.drop_first());
            }
        }
        match r {
            Some(DecodedFrame::Video(f)) => Some(f),
            Some(_) => {
                proof {
                    assert(old(self).inner@[0] is Video);
                }
                vstd::pervasive::unreached()
            },
            None => None,
        }
    }

    pub fn is_empty(&self) -> (r: bool)
        ensures
            r == (self@.len() == 0),
    {
        self.inner.is_empty()
    }

    pub fn is_full(&self) -> (r: bool)
        requires
            self.wf(),
        ensures
            r == (self@.len() == self.capacity()),
    {
        self.inner.is_full()
    }

    pub fn len(&self) -> (r: usize)
        ensures
            r == self@.len(),
    {
        self.inner.len()
    }

    /// Discards every frame.
    pub fn clear(&mut self)
        requires
            old(self).wf(),
        ensures
            final(self).wf(),
            final(self).capacity() == old(self).capacity(),
            final(self)@ == Seq::<VideoFrame>::empty(),
    {
        self.inner.clear();
        assert(self@ =~= Seq::<VideoFrame>::empty());
    }
}

/// A frame buffer that holds only subtitle frames.
pub struct SubtitleBuffer {
    inner: FrameBuffer,
}

impl View for SubtitleBuffer {
    type V = Seq<SubtitleFrame>;

    closed spec fn view(&self) -> Seq<SubtitleFrame> {
        self.inner@.map_values(|f: DecodedFrame| f->Subtitle_0)
    }
}

impl SubtitleBuffer {
    pub closed spec fn capacity(&self) -> nat {
        self.inner.capacity_of()
    }

    pub closed spec fn wf(&self) -> bool {
        &&& self.inner.wf()
        &&& forall|i: int| 0 <= i < self.inner@.len() ==> #[trigger] self.inner@[i] is Subtitle
    }

    pub proof fn lemma_bounds(&self)
        requires
            self.wf(),
        ensures
            0 < self.capacity() <= MAX_CAPACITY,
            self@.len() <= self.capacity(),
    {
    }

    /// An empty buffer of the given capacity.
    pub fn new(size: usize) -> (r: Self)
        requires
            0 < size <= MAX_CAPACITY,
        ensures
            r.wf(),
            r@ == Seq::<SubtitleFrame>::empty(),
            r.capacity() == size,
    {
        let r = SubtitleBuffer { inner: FrameBuffer::new(size) };
        assert(r@ =~= Seq::<SubtitleFrame>::empty());
        r
    }

    /// Appends a frame, or hands it back when the buffer is full.
    pub fn push(&mut self, frame: SubtitleFrame) -> (r: Result<(), SubtitleFrame>)
        requires
            old(self).wf(),
        ensures
            final(self).wf(),
            final(self).capacity() == old(self).capacity(),
            final(self)@ == offer(old(self)@, old(self).capacity(), frame),
            r is Ok <==> old(self)@.len() < old(self).capacity(),
            r matches Err(g) ==> g == frame,
    {
        let ghost before = self.inner@;
        let r = self.inner.push(DecodedFrame::Subtitle(frame));
        proof {
            if before.len() < self.inner.capacity_of() {
                assert(self@ =~= old(self)@.push(frame));
            }
        }
        match r {
            Ok(()) => Ok(()),
            Err(DecodedFrame::Subtitle(f)) => Err(f),
            Err(_) => vstd::pervasive::unreached(),
        }
    }

    /// Removes and returns the oldest frame, or `None` when empty.
    pub fn pop(&mut self) -> (r: Option<SubtitleFrame>)
        requires
            old(self).wf(),
        ensures
            final(self).wf(),
            final(self).capacity() == old(self).capacity(),
            r == head_of(old(self)@),
            final(self)@ == rest_of(old(self)@),
    {
        let r = self.inner.pop();
        proof {
            if old(self)@.len() > 0 {
                assert(self@ =~= old(self)@.drop_first());
            }
        }
        match r {
            Some(DecodedFrame::Subtitle(f)) => Some(f),
            Some(_) => {
                proof {
                    assert(old(self).inner@[0] is Subtitle);
                }
                vstd::pervasive::unreached()
            },
            None => None,
        }
    }

    pub fn is_empty(&self) -> (r: bool)
        ensures
            r == (self@.len() == 0),
    {
        self.inner.is_empty()
    }

    pub fn is_full(&self) -> (r: bool)
        requires
            self.wf(),
        ensures
            r == (self@.len() == self.capacity()),
    {
        self.inner.is_full()
    }

    pub fn len(&self) -> (r: usize)
        ensures
            r == self@.len(),
    {
        self.inner.len()
    }

    /// Discards every frame.
    pub fn clear(&mut self)
        requires
            old(self).wf(),
        ensures
            final(self).wf(),
            final(self).capacity() == old(self).capacity(),
            final(self)@ == Seq::<SubtitleFrame>::empty(),
    {
        self.inner.clear();
        assert(self@ =~= Seq::<SubtitleFrame>::empty());
    }
}

} // verus!
