//! The growing store of quantized mono samples of one recording.

use vstd::prelude::*;
use crate::encoder::FinishedRecording;

verus! {

/// What is to happen to the buffered samples after a step of the session:
/// once a recording has ended and its stream has been released, or once a
/// new recording has begun.
#[derive(Clone, Copy, Debug, PartialEq, Eq, Structural)]
pub enum BufferAction {
    /// The recording was stopped: hand the samples out for encoding at
    /// `sample_rate`.
    Drain { sample_rate: u32 },
    /// A recording was canceled, or a new one has begun: throw away what
    /// is buffered.
    Discard,
}

impl BufferAction {
    /// What carrying out the order hands out of a buffer holding
    /// `contents`: the samples and the rate to encode them at, or nothing.
    pub open spec fn handed_out(self, contents: Seq<i16>) -> Option<(Seq<i16>, u32)> {
        match self {
            BufferAction::Drain { sample_rate } => Some((contents, sample_rate)),
            BufferAction::Discard => None,
        }
    }
}

/// An append-only sequence of quantized mono samples.
///
/// The buffer itself is a plain value; callers that share it between the
/// capture callback and the control path keep it behind their own lock and
/// hold that lock for the length of one call.
#[derive(Debug)]
pub struct CaptureBuffer {
    samples: Vec<i16>,
}

impl View for CaptureBuffer {
    type V = Seq<i16>;

    closed spec fn view(&self) -> Seq<i16> {
        self.samples@
    }
}

impl CaptureBuffer {
    /// An empty buffer.
    pub fn new() -> (buffer: Self)
        ensures
            buffer@ == Seq::<i16>::empty(),
    {
        CaptureBuffer { samples: Vec::new() }
    }

    /// Number of samples held.
    pub fn len(&self) -> (n: usize)
        ensures
            n == self@.len(),
    {
        self.samples.len()
    }

    /// Whether no sample is held.
    pub fn is_empty(&self) -> (empty: bool)
        ensures
            empty == (self@.len() == 0),
    {
        self.samples.len() == 0
    }

    /// Adds `samples` to the tail, in order.
    pub fn append(&mut self, samples: &[i16])
        ensures
            final(self)@ == old(self)@ + samples@,
    {
        self.samples.extend_from_slice(samples);
        assert(self.samples@ =~= old(self)@ + samples@);
    }

    /// Empties the buffer.
    pub fn clear(&mut self)
        ensures
            final(self)@ == Seq::<i16>::empty(),
    {
        self.samples.clear();
    }

    /// Hands out everything held, in order, and leaves the buffer empty.
    ///
    /// Both happen within this one call, so no sample appended before it is
    /// lost and none is handed out twice.
    pub fn snapshot_and_clear(&mut self) -> (snapshot: Vec<i16>)
        ensures
            snapshot@ == old(self)@,
            final(self)@ == Seq::<i16>::empty(),
    {
        let mut snapshot: Vec<i16> = Vec::new();
        std::mem::swap(&mut self.samples, &mut snapshot);
        snapshot
    }

    /// Carries out an order of the session. Either way the buffer is empty
    /// afterwards; only a stopped recording is handed out, a discard leaves
    /// nothing to encode.
    pub fn settle(&mut self, action: BufferAction) -> (recording: Option<FinishedRecording>)
        ensures
            final(self)@ == Seq::<i16>::empty(),
            match action.handed_out(old(self)@) {
                Some((samples, sample_rate)) => (recording matches Some(finished)
                    && finished.samples@ == samples && finished.sample_rate == sample_rate),
                None => recording is None,
            },
    {
        match action {
            BufferAction::Drain { sample_rate } => {
                let samples = self.snapshot_and_clear();
                Some(FinishedRecording { samples, sample_rate })
            },
            BufferAction::Discard => {
                self.clear();
                None
            },
        }
    }
}

} // verus!
