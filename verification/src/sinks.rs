//! Where the core hands out what it produces: video frames and audio frames.

use vstd::prelude::*;

verus! {

/// A frame of audio: the left and the right sample.
pub type AudioFrame = (i16, i16);

/// A frame of video: the left and the right plane, 384 × 224 brightness
/// values each, row by row.
pub type VideoFrame = (Vec<u8>, Vec<u8>);

/// Takes values one at a time: a video output or an audio output of the
/// host, or a test double.
pub trait Sink<T> {
    /// Pushes a value out the sink.
    fn append(&mut self, value: T);
}

/// A sink together with a record of everything that was handed to it. The
/// core pushes what it produces through a record, so that its contracts can
/// say what the sink was handed.
pub struct Recorded<T, S: Sink<T>> {
    sink: S,
    record: Ghost<Seq<T>>,
}

impl<T, S: Sink<T>> Recorded<T, S> {
    /// Every value that was handed to the sink through this record, oldest
    /// first.
    pub closed spec fn appended(&self) -> Seq<T> {
        self.record@
    }

    /// The sink.
    pub closed spec fn inner(&self) -> S {
        self.sink
    }

    /// A record of a sink, which so far was handed nothing.
    pub fn new(sink: S) -> (r: Self)
        ensures
            r.appended() == Seq::<T>::empty(),
            r.inner() == sink,
    {
        Recorded { sink, record: Ghost(Seq::empty()) }
    }

    /// Hands the sink a value and records it.
    pub fn append(&mut self, value: T)
        ensures
            final(self).appended() == old(self).appended().push(value),
    {
        self.record = Ghost(self.record@.push(value));
        self.sink.append(value);
    }

    pub fn sink(&self) -> (r: &S)
        ensures
            *r == self.inner(),
    {
        &self.sink
    }

    /// The sink, for the host to take out what it holds; the record stays as
    /// it is.
    pub fn sink_mut(&mut self) -> (r: &mut S)
        ensures
            *r == old(self).inner(),
            final(self).inner() == *final(r),
            final(self).appended() == old(self).appended(),
    {
        &mut self.sink
    }

    pub fn into_sink(self) -> (r: S)
        ensures
            r == self.inner(),
    {
        self.sink
    }
}

/// Takes values by reference.
pub trait SinkRef<T: ?Sized> {
    fn append(&mut self, value: &T);
}

/// The planes of a sequence of video frames.
pub open spec fn frame_planes(frames: Seq<VideoFrame>) -> Seq<(Seq<u8>, Seq<u8>)> {
    Seq::new(frames.len(), |i: int| (frames[i].0@, frames[i].1@))
}

/// Appending a frame appends its planes.
pub proof fn lemma_frame_planes_push(frames: Seq<VideoFrame>, frame: VideoFrame)
    ensures
        frame_planes(frames.push(frame)) == frame_planes(frames).push((frame.0@, frame.1@)),
{
    assert(frame_planes(frames.push(frame)) =~= frame_planes(frames).push((frame.0@, frame.1@)));
}

/// A sink that keeps every value it was handed, oldest first, until they are
/// taken out.
pub struct VecSink<T> {
    items: Vec<T>,
}

impl<T> VecSink<T> {
    pub fn new() -> (r: VecSink<T>)
        ensures
            r.held() == Seq::<T>::empty(),
    {
        VecSink { items: Vec::new() }
    }

    /// The values held: those appended since the sink was made or emptied.
    pub closed spec fn held(&self) -> Seq<T> {
        self.items@
    }

    /// How many values are held.
    pub fn len(&self) -> (r: usize)
        ensures
            r == self.held().len(),
    {
        self.items.len()
    }

    /// Hands out the values held, and holds none afterwards.
    pub fn take(&mut self) -> (r: Vec<T>)
        ensures
            r@ == old(self).held(),
            final(self).held() == Seq::<T>::empty(),
    {
        let mut items: Vec<T> = Vec::new();
        core::mem::swap(&mut self.items, &mut items);
        items
    }
}

impl<T> Sink<T> for VecSink<T> {
    fn append(&mut self, value: T)
        ensures
            final(self).held() == old(self).held().push(value),
    {
        self.items.push(value);
    }
}

/// A sink that keeps the value it was handed last.
pub struct MostRecentSink<T> {
    next: Option<T>,
}

impl<T> MostRecentSink<T> {
    pub fn new() -> (r: MostRecentSink<T>)
        ensures
            r.held() is None,
    {
        MostRecentSink { next: None }
    }

    /// The value held, which is the last one appended since the sink was made
    /// or emptied.
    pub closed spec fn held(&self) -> Option<T> {
        self.next
    }

    /// Hands out the value held, and holds none afterwards.
    pub fn take(&mut self) -> (r: Option<T>)
        ensures
            r == old(self).held(),
            final(self).held() is None,
    {
        self.next.take()
    }
}

impl<T> Sink<T> for MostRecentSink<T> {
    fn append(&mut self, value: T)
        ensures
            final(self).held() == Some(value),
    {
        self.next = Some(value);
    }
}

pub enum StereoVideoFormat {
    AnaglyphRedElectricCyan,
}

/// A host framebuffer to draw into, with its pitch in pixels.
pub enum PixelBuffer<'a> {
    Xrgb1555(&'a mut [u16], usize),
    Rgb565(&'a mut [u16], usize),
    Xrgb8888(&'a mut [u32], usize),
}

impl<'a> PixelBuffer<'a> {
    /// The pitch that the buffer was made with.
    pub open spec fn pitch_of(&self) -> usize {
        match *self {
            PixelBuffer::Xrgb1555(_, pitch) => pitch,
            PixelBuffer::Rgb565(_, pitch) => pitch,
            PixelBuffer::Xrgb8888(_, pitch) => pitch,
        }
    }

    pub fn pitch(&self) -> (r: usize)
        ensures
            r == self.pitch_of(),
    {
        match self {
            PixelBuffer::Xrgb1555(_, pitch) => *pitch,
            PixelBuffer::Rgb565(_, pitch) => *pitch,
            PixelBuffer::Xrgb8888(_, pitch) => *pitch,
        }
    }
}

pub enum GammaCorrection {
    NoCorrection,
    TwoPointTwo,
}

pub struct VideoSink<'a> {
    pub buffer: PixelBuffer<'a>,
    pub format: StereoVideoFormat,
    pub gamma_correction: GammaCorrection,
    pub is_populated: bool,
}

} // verus!
