//! The bulk conversion of a whole buffer: the growth of its output around the engine
//! calls that the caller makes.
//!
//! `convert_bytes` sets a conversion up. While `step` says `Convert`, the caller runs
//! the engine on `input_window` and `output_window` and reports to `converted`. When
//! it says `Done`, `finish` gives the output.

use crate::status::{ConversionResult, ConversionStatus};
use vstd::prelude::*;
use vstd::slice::slice_subrange;

verus! {

/// Why a bulk conversion gives no output.
#[derive(Clone, Copy, Debug, PartialEq, Eq, Structural)]
pub enum BulkError {
    /// The input holds bytes that form no character of the source encoding.
    InvalidSequence,
    /// The input ends inside a character.
    IncompleteSequence,
    /// The output would be longer than a buffer can be.
    TooLarge,
}

/// What the caller does next.
#[derive(Clone, Copy, Debug, PartialEq, Eq, Structural)]
pub enum BulkStep {
    /// Run the engine on `input_window` and `output_window`, report to `converted`.
    Convert,
    /// All input is consumed: `finish` gives the output.
    Done,
    /// The conversion has failed.
    Failed(BulkError),
}

/// A bulk conversion as the contracts see it.
#[verifier::ext_equal]
pub struct BulkView {
    /// The source encoding.
    pub from: Seq<char>,
    /// The target encoding.
    pub to: Seq<char>,
    /// The whole input.
    pub input: Seq<u8>,
    /// The number of input bytes that the engine has consumed.
    pub consumed: nat,
    /// The output produced so far.
    pub output: Seq<u8>,
    /// The unfilled rest of the output buffer, which the next engine call writes into.
    pub window: Seq<u8>,
    /// Why the conversion failed, once it has.
    pub failed: Option<BulkError>,
}

/// `n` zero bytes.
pub open spec fn zeros(n: nat) -> Seq<u8> {
    Seq::new(n, |i: int| 0u8)
}

impl BulkView {
    /// The view of a conversion that is set up and has not started.
    pub open spec fn fresh(input: Seq<u8>, from: Seq<char>, to: Seq<char>) -> Self {
        BulkView {
            from,
            to,
            input,
            consumed: 0,
            output: Seq::empty(),
            window: if 2 * input.len() <= usize::MAX {
                zeros(2 * input.len())
            } else {
                Seq::empty()
            },
            failed: if 2 * input.len() <= usize::MAX {
                None
            } else {
                Some(BulkError::TooLarge)
            },
        }
    }

    /// The input that the engine has not consumed.
    pub open spec fn remaining(self) -> Seq<u8> {
        self.input.skip(self.consumed as int)
    }

    /// What the caller does next: nothing after a failure, another engine call while
    /// input remains.
    pub open spec fn step(self) -> BulkStep {
        match self.failed {
            Some(e) => BulkStep::Failed(e),
            None => if self.consumed < self.input.len() {
                BulkStep::Convert
            } else {
                BulkStep::Done
            },
        }
    }

    /// The engine has run on the remaining input and the window. What it consumed and
    /// produced is counted. An invalid sequence, or a character cut short at the end
    /// of the input, fails the conversion. An output window that was too small grows
    /// by the length of the input, or fails the conversion where no buffer can be
    /// that long.
    pub open spec fn after_convert(self, result: ConversionResult) -> Self {
        let counted = BulkView {
            consumed: self.consumed + result.consumed as nat,
            output: self.output + self.window.take(result.produced as int),
            window: self.window.skip(result.produced as int),
            ..self
        };
        match result.status {
            ConversionStatus::Complete => counted,
            ConversionStatus::InvalidSequence => BulkView {
                failed: Some(BulkError::InvalidSequence),
                ..counted
            },
            ConversionStatus::IncompleteSequence => BulkView {
                failed: Some(BulkError::IncompleteSequence),
                ..counted
            },
            ConversionStatus::OutputTooSmall => if self.output.len() + self.window.len()
                + self.input.len() <= usize::MAX {
                BulkView { window: counted.window + zeros(self.input.len()), ..counted }
            } else {
                BulkView { failed: Some(BulkError::TooLarge), ..counted }
            },
        }
    }

    /// The output of a conversion that has consumed all its input and has not failed.
    pub open spec fn outcome(self) -> Option<Seq<u8>> {
        if self.step() is Done {
            Some(self.output)
        } else {
            None
        }
    }
}

/// The bulk conversion of one input buffer.
pub struct BulkConversion<'a> {
    from: String,
    to: String,
    input: &'a [u8],
    outbuf: Vec<u8>,
    total_nread: usize,
    total_nwrite: usize,
    failed: Option<BulkError>,
}

impl<'a> View for BulkConversion<'a> {
    type V = BulkView;

    closed spec fn view(&self) -> BulkView {
        BulkView {
            from: self.from@,
            to: self.to@,
            input: self.input@,
            consumed: self.total_nread as nat,
            output: self.outbuf@.subrange(0, self.total_nwrite as int),
            window: self.outbuf@.subrange(self.total_nwrite as int, self.outbuf@.len() as int),
            failed: self.failed,
        }
    }
}

/// Sets up the conversion of `inbuf` from the encoding `from` to the encoding `to`,
/// with an output buffer of twice the input's length.
pub fn convert_bytes<'a>(inbuf: &'a [u8], from: &str, to: &str) -> (job: BulkConversion<'a>)
    ensures
        job.wf(),
        job@ == BulkView::fresh(inbuf@, from@, to@),
{
    let len: usize = inbuf.len();
    let mut outbuf: Vec<u8> = Vec::new();
    let mut failed: Option<BulkError> = None;
    if len <= usize::MAX / 2 {
        outbuf = zero_bytes(2 * len);
    } else {
        failed = Some(BulkError::TooLarge);
    }
    let job = BulkConversion {
        from: from.to_owned(),
        to: to.to_owned(),
        input: inbuf,
        outbuf,
        total_nread: 0,
        total_nwrite: 0,
        failed,
    };
    assert(job@.window =~= BulkView::fresh(inbuf@, from@, to@).window);
    assert(job@.output =~= Seq::<u8>::empty());
    job
}

/// A vector of `n` zero bytes.
fn zero_bytes(n: usize) -> (out: Vec<u8>)
    ensures
        out@ == zeros(n as nat),
{
    let mut out: Vec<u8> = Vec::new();
    let mut i: usize = 0;
    while i < n
        invariant
            i <= n,
            out@ == zeros(i as nat),
        decreases n - i,
    {
        out.push(0u8);
        i = i + 1;
        assert(out@ =~= zeros(i as nat));
    }
    out
}

impl<'a> BulkConversion<'a> {
    /// The counts lie in their buffers.
    pub closed spec fn wf(&self) -> bool {
        self.total_nread <= self.input@.len() && self.total_nwrite <= self.outbuf@.len()
    }

    /// The output and the window make up one buffer, and the count of consumed bytes
    /// lies in the input.
    pub proof fn law_bounds(&self)
        requires
            self.wf(),
        ensures
            self@.consumed <= self@.input.len(),
            self@.output.len() + self@.window.len() <= usize::MAX,
    {
        vstd::std_specs::vec::axiom_spec_len(&self.outbuf);
    }

    /// The source encoding.
    pub fn from_encoding(&self) -> (name: &str)
        ensures
            name@ == self@.from,
    {
        self.from.as_str()
    }

    /// The target encoding.
    pub fn to_encoding(&self) -> (name: &str)
        ensures
            name@ == self@.to,
    {
        self.to.as_str()
    }

    /// What the caller does next.
    pub fn step(&self) -> (step: BulkStep)
        requires
            self.wf(),
        ensures
            step == self@.step(),
    {
        match self.failed {
            Some(e) => BulkStep::Failed(e),
            None => if self.total_nread < self.input.len() {
                BulkStep::Convert
            } else {
                BulkStep::Done
            },
        }
    }

    /// The input that the engine has not consumed.
    pub fn input_window(&self) -> (window: &'a [u8])
        requires
            self.wf(),
        ensures
            window@ == self@.remaining(),
    {
        slice_subrange(self.input, self.total_nread, self.input.len())
    }

    /// The unfilled rest of the output buffer, for the engine to write into.
    pub fn output_window(&mut self) -> (window: &mut [u8])
        requires
            old(self).wf(),
        ensures
            window@ == old(self)@.window,
            final(self).wf(),
            final(self)@ =~~= (BulkView { window: final(window)@, ..old(self)@ }),
    {
        let at: usize = self.total_nwrite;
        let (_filled, rest) = self.outbuf.as_mut_slice().split_at_mut(at);
        rest
    }

    /// Takes the outcome of the engine's run on `input_window` and `output_window`.
    pub fn converted(&mut self, result: ConversionResult) -> (step: BulkStep)
        requires
            old(self).wf(),
            result.fits(old(self)@.remaining().len(), old(self)@.window.len()),
        ensures
            final(self).wf(),
            final(self)@ == old(self)@.after_convert(result),
            step == final(self)@.step(),
    {
        let capacity: usize = self.outbuf.len();
        let input_len: usize = self.input.len();
        self.total_nread = self.total_nread + result.consumed;
        self.total_nwrite = self.total_nwrite + result.produced;
        match result.status {
            ConversionStatus::Complete => {},
            ConversionStatus::InvalidSequence => {
                self.failed = Some(BulkError::InvalidSequence);
            },
            ConversionStatus::IncompleteSequence => {
                self.failed = Some(BulkError::IncompleteSequence);
            },
            ConversionStatus::OutputTooSmall => {
                if self.input.len() <= usize::MAX - capacity {
                    let grown = zero_bytes(self.input.len());
                    let mut grown = grown;
                    self.outbuf.append(&mut grown);
                } else {
                    self.failed = Some(BulkError::TooLarge);
                }
            },
        }
        assert(self@.output =~= old(self)@.after_convert(result).output);
        assert(self@.window =~= old(self)@.after_convert(result).window);
        self.step()
    }

    /// Ends the conversion. The output, cut to what was produced, is given once all
    /// input is consumed and nothing has failed, and only then.
    pub fn finish(self) -> (output: Option<Vec<u8>>)
        requires
            self.wf(),
        ensures
            match self@.outcome() {
                Some(bytes) => output matches Some(v) && v@ == bytes,
                None => output is None,
            },
    {
        match self.step() {
            BulkStep::Done => {
                let mut outbuf = self.outbuf;
                outbuf.truncate(self.total_nwrite);
                Some(outbuf)
            },
            _ => None,
        }
    }
}

} // verus!
