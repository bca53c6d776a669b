use vstd::prelude::*;
use crate::error::CaptureError;
use crate::format::StreamVariant;
use crate::sample::{convert_sample, convert_spec, Sample};

verus! {

/// The state of the shared slot that holds a recording's WAV encoder.
///
/// Each buffer that the device delivers is offered together with the outcome
/// of a non-blocking attempt to take the slot's lock: when the lock was not
/// had, or the encoder has already been taken out, the buffer is dropped.
/// Accepted buffers are converted to the writer's variant and handed to the
/// encoder whole and in order. The encoder is taken out exactly once, at
/// finalization.
pub struct StreamWriter {
    variant: StreamVariant,
    open: bool,
    written: u64,
}

/// The mathematical state of a [`StreamWriter`].
pub struct WriterView {
    pub variant: StreamVariant,
    pub open: bool,
    pub written: nat,
}

/// The samples of a buffer converted to a variant, in order; a sample that
/// has no conversion is left out.
pub open spec fn converted(input: Seq<Sample>, v: StreamVariant) -> Seq<Sample>
    decreases input.len(),
{
    if input.len() == 0 {
        Seq::empty()
    } else {
        let rest = converted(input.drop_last(), v);
        match convert_spec(input.last(), v) {
            Some(s) => rest.push(s),
            None => rest,
        }
    }
}

/// What one delivery does: the new state and the samples handed to the encoder.
pub open spec fn deliver_spec(w: WriterView, input: Seq<Sample>, acquired: bool) -> (WriterView, Seq<Sample>) {
    if acquired && w.open {
        let out = converted(input, w.variant);
        (WriterView { written: w.written + out.len(), ..w }, out)
    } else {
        (w, Seq::empty())
    }
}

/// What finalization does: the first call closes the slot and reports the
/// number of samples written; later calls fail and change nothing.
pub open spec fn finalize_spec(w: WriterView) -> (WriterView, Result<nat, CaptureError>) {
    if w.open {
        (WriterView { open: false, ..w }, Ok(w.written))
    } else {
        (w, Err(CaptureError::FinalizeFailure))
    }
}

/// A run of deliveries, each a buffer with the outcome of its lock attempt.
pub open spec fn run_spec(w: WriterView, batches: Seq<(Seq<Sample>, bool)>) -> (WriterView, Seq<Sample>)
    decreases batches.len(),
{
    if batches.len() == 0 {
        (w, Seq::empty())
    } else {
        let (w1, out1) = run_spec(w, batches.drop_last());
        let (w2, out2) = deliver_spec(w1, batches.last().0, batches.last().1);
        (w2, out1 + out2)
    }
}

pub open spec fn total_len(batches: Seq<(Seq<Sample>, bool)>) -> nat
    decreases batches.len(),
{
    if batches.len() == 0 {
        0
    } else {
        total_len(batches.drop_last()) + batches.last().0.len()
    }
}

impl View for StreamWriter {
    type V = WriterView;

    closed spec fn view(&self) -> WriterView {
        WriterView { variant: self.variant, open: self.open, written: self.written as nat }
    }
}

impl StreamWriter {
    /// A slot holding a fresh encoder for samples of the given variant.
    pub fn new(variant: StreamVariant) -> (r: StreamWriter)
        ensures
            r@ == (WriterView { variant, open: true, written: 0 }),
    {
        StreamWriter { variant, open: true, written: 0 }
    }

    pub fn variant(&self) -> (r: StreamVariant)
        ensures
            r == self@.variant,
    {
        self.variant
    }

    /// Whether the encoder is still in the slot.
    pub fn is_open(&self) -> (r: bool)
        ensures
            r == self@.open,
    {
        self.open
    }

    /// Number of samples handed to the encoder so far.
    pub fn samples_written(&self) -> (r: u64)
        ensures
            r as nat == self@.written,
    {
        self.written
    }

    /// Offers one delivered buffer. Returns the samples to append to the
    /// encoder: the whole buffer converted to the writer's variant when the
    /// lock was had and the encoder is still there, nothing otherwise.
    pub fn write_input_data(&mut self, input: &Vec<Sample>, acquired: bool) -> (r: Vec<Sample>)
        requires
            old(self)@.written + input@.len() <= u64::MAX,
        ensures
            (final(self)@, r@) == deliver_spec(old(self)@, input@, acquired),
            r@.len() <= input@.len(),
    {
        let mut out: Vec<Sample> = Vec::new();
        if !acquired || !self.open {
            return out;
        }
        let mut i: usize = 0;
        while i < input.len()
            invariant
                i <= input@.len(),
                out@ == converted(input@.take(i as int), self.variant),
                out@.len() <= i,
            decreases input@.len() - i,
        {
            proof {
                assert(input@.take(i as int + 1).drop_last() == input@.take(i as int));
            }
            match convert_sample(input[i], self.variant) {
                Some(s) => out.push(s),
                None => {},
            }
            i = i + 1;
        }
        assert(input@.take(input@.len() as int) == input@);
        self.written = self.written + out.len() as u64;
        out
    }

    /// Takes the encoder out of the slot. The first call succeeds with the
    /// number of samples written; any later call is a `FinalizeFailure` and
    /// changes nothing.
    pub fn finalize(&mut self) -> (r: Result<u64, CaptureError>)
        ensures
            (final(self)@, match r {
                Ok(n) => Ok(n as nat),
                Err(e) => Err(e),
            }) == finalize_spec(old(self)@),
            old(self)@.open ==> r is Ok && r->Ok_0 as nat == old(self)@.written,
            !old(self)@.open ==> r == Err::<u64, CaptureError>(CaptureError::FinalizeFailure),
    {
        if self.open {
            self.open = false;
            Ok(self.written)
        } else {
            Err(CaptureError::FinalizeFailure)
        }
    }
}

/// Finalizing twice: the first call closes the slot, the second is a
/// `FinalizeFailure` that leaves the closed slot as it was.
pub proof fn lemma_finalize_twice(w: WriterView)
    requires
        w.open,
    ensures
        finalize_spec(w).1 == Ok::<nat, CaptureError>(w.written),
        finalize_spec(finalize_spec(w).0).1 == Err::<nat, CaptureError>(CaptureError::FinalizeFailure),
        finalize_spec(finalize_spec(w).0).0 == finalize_spec(w).0,
{
}

proof fn lemma_converted_len(input: Seq<Sample>, v: StreamVariant)
    ensures
        converted(input, v).len() <= input.len(),
    decreases input.len(),
{
    if input.len() > 0 {
        lemma_converted_len(input.drop_last(), v);
    }
}

/// Over any run of deliveries, whatever the outcome of each lock attempt: the
/// encoder receives no more samples than were delivered, the count of written
/// samples grows by exactly what it received, and once the slot is closed
/// nothing more is written.
pub proof fn lemma_run_bounded(w: WriterView, batches: Seq<(Seq<Sample>, bool)>)
    ensures
        run_spec(w, batches).1.len() <= total_len(batches),
        run_spec(w, batches).0.written == w.written + run_spec(w, batches).1.len(),
        run_spec(w, batches).0.open == w.open,
        run_spec(w, batches).0.variant == w.variant,
        !w.open ==> run_spec(w, batches).1.len() == 0,
    decreases batches.len(),
{
    if batches.len() > 0 {
        lemma_run_bounded(w, batches.drop_last());
        let w1 = run_spec(w, batches.drop_last()).0;
        lemma_converted_len(batches.last().0, w1.variant);
    }
}

} // verus!
