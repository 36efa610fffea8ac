//! The streaming reader: buffering, retrying and draining around a byte source and a
//! conversion engine that the caller drives.
//!
//! One read of the caller's goes through the reader as a short exchange. `read` opens
//! it and answers with a `ReadStep`: either the read is over, or the caller has outside
//! work to do (pull bytes from the source, run the engine) and reports its outcome to
//! `filled`, `converted` or `scratch_converted`, which answer with the next step.

use crate::fill_buffer::{FillBuffer, BUFFER_SIZE};
use crate::status::{ConversionResult, ConversionStatus};
use vstd::prelude::*;

verus! {

/// Bytes of the scratch window for a destination too small for one character.
pub const SCRATCH_SIZE: usize = 8;

/// Why the source will deliver no more bytes.
pub enum SourceStop<E> {
    /// The source is exhausted.
    End,
    /// The source failed with this error.
    Error(E),
}

/// What one pull from the source brought.
pub enum SourceSignal<E> {
    /// This many bytes were written to the front of the window that `fill_buf` gave.
    Data(usize),
    /// The source is exhausted.
    End,
    /// The source failed with this error.
    Error(E),
}

/// A terminal failure of the reader.
#[derive(Clone, Copy, Debug, PartialEq, Eq, Structural)]
pub enum ReadError {
    /// The engine met bytes that form no character of the source encoding.
    InvalidInput,
    /// The source failed; `source_error` holds its error.
    Source,
}

/// Where the reader stands in the exchange.
#[derive(Clone, Copy, Debug, PartialEq, Eq, Structural)]
pub enum Phase {
    /// Between reads. With pending output this is the draining state.
    Idle,
    /// The buffer holds nothing unconverted: bytes are being pulled from the source.
    Filling,
    /// The engine is running on the unconverted bytes and the caller's destination.
    Converting,
    /// The engine stopped inside a character: more bytes are being pulled, after which
    /// the read returns the count held here.
    Retrying(usize),
    /// The engine is running on the unconverted bytes and the scratch window.
    Rescuing,
    /// The reader has failed, for good.
    Failed(ReadError),
    /// The reader has reported the end of input, for good.
    Eof,
}

/// What the caller does next.
#[derive(Clone, Copy, Debug, PartialEq, Eq, Structural)]
pub enum ReadStep {
    /// The read is over: this many bytes are at the front of the destination.
    Return(usize),
    /// Take the window from `fill_buf`, read from the source into it, report to `filled`.
    Pull,
    /// Run the engine on `unconverted` and the destination, report to `converted`.
    Convert,
    /// Run the engine on `unconverted` and a scratch window of `SCRATCH_SIZE` bytes,
    /// report to `scratch_converted`.
    ConvertScratch,
    /// The read is over: the input has ended.
    Eof,
    /// The read is over: the reader has failed.
    Fail(ReadError),
}

/// The reader as the contracts see it.
pub struct ReaderView<E> {
    /// Bytes pulled from the source and not yet consumed by the engine, oldest first.
    pub unconverted: Seq<u8>,
    /// The free tail of the buffer, which the next pull writes into.
    pub spare: Seq<u8>,
    /// Converted bytes that did not fit the last destination.
    pub pending: Seq<u8>,
    /// Why the source stopped, once it has.
    pub deferred: Option<SourceStop<E>>,
    /// Where the exchange stands.
    pub phase: Phase,
}

/// The smaller of two lengths.
pub open spec fn min_len(a: nat, b: nat) -> nat {
    if a <= b {
        a
    } else {
        b
    }
}

impl<E> ReaderView<E> {
    /// No read is under way.
    pub open spec fn at_rest(self) -> bool {
        self.phase is Idle || self.phase is Failed || self.phase is Eof
    }

    /// The same reader in another phase.
    pub open spec fn in_phase(self, phase: Phase) -> Self {
        ReaderView { phase, ..self }
    }

    /// With nothing pending: surface what ended the source once nothing unconverted is
    /// left, pull while the source may still deliver, convert otherwise.
    pub open spec fn settle(self) -> (Self, ReadStep) {
        if self.unconverted.len() == 0 {
            match self.deferred {
                Some(SourceStop::End) => (self.in_phase(Phase::Eof), ReadStep::Eof),
                Some(SourceStop::Error(_)) => (
                    self.in_phase(Phase::Failed(ReadError::Source)),
                    ReadStep::Fail(ReadError::Source),
                ),
                None => (self.in_phase(Phase::Filling), ReadStep::Pull),
            }
        } else {
            (self.in_phase(Phase::Converting), ReadStep::Convert)
        }
    }

    /// A read opens on a destination of `dst_len` bytes. A reader that has failed or
    /// ended says so again. Pending output is drained first, as much as fits, and ends
    /// the read at once.
    pub open spec fn begin(self, dst_len: nat) -> (Self, ReadStep) {
        match self.phase {
            Phase::Failed(e) => (self, ReadStep::Fail(e)),
            Phase::Eof => (self, ReadStep::Eof),
            _ => if self.pending.len() > 0 {
                let n = min_len(dst_len, self.pending.len());
                (
                    ReaderView { pending: self.pending.skip(n as int), phase: Phase::Idle, ..self },
                    ReadStep::Return(n as usize),
                )
            } else {
                self.settle()
            },
        }
    }

    /// What a pull leaves behind: bytes move from the spare window to the unconverted
    /// ones, or the reason why the source stopped is kept for later. An error that is
    /// kept already stays: no error of the source is ever dropped.
    pub open spec fn record(self, signal: SourceSignal<E>) -> Self {
        match signal {
            SourceSignal::Data(n) => ReaderView {
                unconverted: self.unconverted + self.spare.take(n as int),
                spare: self.spare.skip(n as int),
                ..self
            },
            SourceSignal::End => if self.deferred is Some && self.deferred->0 is Error {
                self
            } else {
                ReaderView { deferred: Some(SourceStop::End), ..self }
            },
            SourceSignal::Error(e) => if self.deferred is Some && self.deferred->0 is Error {
                self
            } else {
                ReaderView { deferred: Some(SourceStop::Error(e)), ..self }
            },
        }
    }

    /// A pull has come back. While filling, the reader settles again; while retrying,
    /// the read ends with the count that was held.
    pub open spec fn after_pull(self, signal: SourceSignal<E>) -> (Self, ReadStep) {
        let recorded = self.record(signal);
        match self.phase {
            Phase::Retrying(held) => (recorded.in_phase(Phase::Idle), ReadStep::Return(held)),
            _ => recorded.settle(),
        }
    }

    /// The engine has run on the unconverted bytes and a destination of `dst_len` bytes.
    pub open spec fn after_convert(self, result: ConversionResult, dst_len: nat) -> (
        Self,
        ReadStep,
    ) {
        let rest = ReaderView { unconverted: self.unconverted.skip(result.consumed as int), ..self };
        match result.status {
            ConversionStatus::Complete => (
                rest.in_phase(Phase::Idle),
                ReadStep::Return(result.produced),
            ),
            ConversionStatus::IncompleteSequence => (
                rest.in_phase(Phase::Retrying(result.produced)),
                ReadStep::Pull,
            ),
            ConversionStatus::InvalidSequence => (
                rest.in_phase(Phase::Failed(ReadError::InvalidInput)),
                ReadStep::Fail(ReadError::InvalidInput),
            ),
            ConversionStatus::OutputTooSmall => if result.consumed == 0 && result.produced == 0
                && dst_len > 0 {
                (rest.in_phase(Phase::Rescuing), ReadStep::ConvertScratch)
            } else {
                (rest.in_phase(Phase::Idle), ReadStep::Return(result.produced))
            },
        }
    }

    /// The engine has run on the unconverted bytes and the scratch window, whose bytes
    /// are `scratch`. As much of what it produced as fits goes to the destination of
    /// `dst_len` bytes, the rest is kept pending.
    pub open spec fn after_scratch(self, result: ConversionResult, scratch: Seq<u8>, dst_len: nat)
        -> (Self, ReadStep) {
        let n = min_len(dst_len, result.produced as nat);
        let rest = ReaderView {
            unconverted: self.unconverted.skip(result.consumed as int),
            pending: scratch.subrange(n as int, result.produced as int),
            ..self
        };
        if result.status is InvalidSequence {
            (
                rest.in_phase(Phase::Failed(ReadError::InvalidInput)),
                ReadStep::Fail(ReadError::InvalidInput),
            )
        } else {
            (rest.in_phase(Phase::Idle), ReadStep::Return(n as usize))
        }
    }
}

/// A reader that re-encodes what a byte source delivers. `E` is the source's error type.
pub struct IconvReader<E> {
    fill: FillBuffer,
    err: Option<SourceStop<E>>,
    tempbuf: Vec<u8>,
    phase: Phase,
}

impl<E> View for IconvReader<E> {
    type V = ReaderView<E>;

    closed spec fn view(&self) -> ReaderView<E> {
        ReaderView {
            unconverted: self.fill.unconverted(),
            spare: self.fill.spare(),
            pending: self.tempbuf@,
            deferred: self.err,
            phase: self.phase,
        }
    }
}

impl<E> IconvReader<E> {
    /// The fill buffer is well formed.
    pub closed spec fn wf(&self) -> bool {
        self.fill.wf()
    }

    /// The unconverted bytes and the spare window lie in the one buffer.
    pub proof fn law_bounds(&self)
        requires
            self.wf(),
        ensures
            self@.unconverted.len() + self@.spare.len() <= BUFFER_SIZE,
    {
        self.fill.law_parts();
    }

    /// A reader with an empty buffer, nothing pending and nothing deferred.
    pub fn new() -> (reader: Self)
        ensures
            reader.wf(),
            reader@.unconverted.len() == 0,
            reader@.spare.len() == BUFFER_SIZE,
            reader@.pending.len() == 0,
            reader@.deferred is None,
            reader@.phase is Idle,
    {
        IconvReader { fill: FillBuffer::new(), err: None, tempbuf: Vec::new(), phase: Phase::Idle }
    }

    /// Where the exchange stands.
    pub fn phase(&self) -> (phase: Phase)
        ensures
            phase == self@.phase,
    {
        self.phase
    }

    /// The bytes that the engine is to convert next.
    pub fn unconverted(&self) -> (window: &[u8])
        requires
            self.wf(),
        ensures
            window@ == self@.unconverted,
    {
        self.fill.window()
    }

    /// The number of converted bytes that wait for the next read.
    pub fn pending_len(&self) -> (n: usize)
        ensures
            n == self@.pending.len(),
    {
        self.tempbuf.len()
    }

    /// The error with which the source failed, once it has.
    pub fn source_error(&self) -> (error: Option<&E>)
        ensures
            error == match self@.deferred {
                Some(SourceStop::Error(e)) => Some(&e),
                _ => None::<&E>,
            },
    {
        match &self.err {
            Some(SourceStop::Error(e)) => Some(e),
            _ => None,
        }
    }

    /// Whether an error of the source is kept.
    fn holds_error(&self) -> (held: bool)
        ensures
            held == (self@.deferred is Some && self@.deferred->0 is Error),
    {
        match &self.err {
            Some(SourceStop::Error(_)) => true,
            _ => false,
        }
    }

    /// Decides what follows once nothing is pending.
    fn settle(&mut self) -> (step: ReadStep)
        requires
            old(self).wf(),
        ensures
            final(self).wf(),
            (final(self)@, step) == old(self)@.settle(),
    {
        if self.fill.is_drained() {
            match &self.err {
                Some(SourceStop::End) => {
                    self.phase = Phase::Eof;
                    ReadStep::Eof
                },
                Some(SourceStop::Error(_)) => {
                    self.phase = Phase::Failed(ReadError::Source);
                    ReadStep::Fail(ReadError::Source)
                },
                None => {
                    self.phase = Phase::Filling;
                    ReadStep::Pull
                },
            }
        } else {
            self.phase = Phase::Converting;
            ReadStep::Convert
        }
    }

    /// Opens a read into `dst`. A reader that has failed or ended says so again.
    /// Pending output is drained first, as much as fits, and ends the read at once.
    /// Else the answer is the outside work that the read needs. An exchange that was
    /// left unfinished is abandoned.
    pub fn read(&mut self, dst: &mut [u8]) -> (step: ReadStep)
        requires
            old(self).wf(),
        ensures
            final(self).wf(),
            (final(self)@, step) == old(self)@.begin(old(dst)@.len()),
            final(dst)@ == match step {
                ReadStep::Return(n) => old(self)@.pending.take(n as int) + old(dst)@.skip(n as int),
                _ => old(dst)@,
            },
    {
        match self.phase {
            Phase::Failed(e) => {
                return ReadStep::Fail(e);
            },
            Phase::Eof => {
                return ReadStep::Eof;
            },
            _ => {},
        }
        if self.tempbuf.len() > 0 {
            let n: usize = if dst.len() <= self.tempbuf.len() {
                dst.len()
            } else {
                self.tempbuf.len()
            };
            copy_front(dst, self.tempbuf.as_slice(), n);
            let rest = self.tempbuf.split_off(n);
            self.tempbuf = rest;
            self.phase = Phase::Idle;
            assert(self@ == ReaderView {
                pending: old(self)@.pending.skip(n as int),
                phase: Phase::Idle,
                ..old(self)@
            });
            return ReadStep::Return(n);
        }
        self.settle()
    }

    /// Compacts the fill buffer and hands out its free tail: the window that the next
    /// pull from the source writes into. It takes all of the buffer that the
    /// unconverted bytes leave free. The reader is well formed again once the window
    /// is given back, since a slice keeps its length.
    pub fn fill_buf(&mut self) -> (window: &mut [u8])
        requires
            old(self).wf(),
        ensures
            window@.len() == BUFFER_SIZE - old(self)@.unconverted.len(),
            final(window)@.len() == window@.len() ==> final(self).wf(),
            final(self)@ == (ReaderView { spare: final(window)@, ..old(self)@ }),
    {
        self.fill.fill_window()
    }

    /// Takes the outcome of a pull. `Data(n)` counts the first `n` bytes of the window
    /// as unconverted; the end or an error of the source is kept for later, unless an
    /// error is kept already. While filling, the reader then settles again; while
    /// retrying, the read ends with the count that was held.
    pub fn filled(&mut self, signal: SourceSignal<E>) -> (step: ReadStep)
        requires
            old(self).wf(),
            signal matches SourceSignal::Data(n) ==> n <= old(self)@.spare.len(),
        ensures
            final(self).wf(),
            (final(self)@, step) == old(self)@.after_pull(signal),
    {
        match signal {
            SourceSignal::Data(n) => {
                self.fill.commit(n);
            },
            SourceSignal::End => {
                if !self.holds_error() {
                    self.err = Some(SourceStop::End);
                }
            },
            SourceSignal::Error(e) => {
                if !self.holds_error() {
                    self.err = Some(SourceStop::Error(e));
                }
            },
        }
        assert(self@ == old(self)@.record(signal));
        match self.phase {
            Phase::Retrying(held) => {
                self.phase = Phase::Idle;
                ReadStep::Return(held)
            },
            _ => self.settle(),
        }
    }

    /// Takes the outcome of the engine's run on the unconverted bytes and a
    /// destination of `dst_len` bytes. What the engine consumed leaves the buffer.
    /// A complete run ends the read with what it produced; a character cut short asks
    /// for one more pull before the read ends; an invalid sequence fails the reader;
    /// a destination too small for even one character asks for a run on the scratch
    /// window, and one that took some characters ends the read with them.
    pub fn converted(&mut self, result: ConversionResult, dst_len: usize) -> (step: ReadStep)
        requires
            old(self).wf(),
            result.fits(old(self)@.unconverted.len(), dst_len as nat),
        ensures
            final(self).wf(),
            (final(self)@, step) == old(self)@.after_convert(result, dst_len as nat),
    {
        self.fill.consume(result.consumed);
        match result.status {
            ConversionStatus::Complete => {
                self.phase = Phase::Idle;
                ReadStep::Return(result.produced)
            },
            ConversionStatus::IncompleteSequence => {
                self.phase = Phase::Retrying(result.produced);
                ReadStep::Pull
            },
            ConversionStatus::InvalidSequence => {
                self.phase = Phase::Failed(ReadError::InvalidInput);
                ReadStep::Fail(ReadError::InvalidInput)
            },
            ConversionStatus::OutputTooSmall => {
                if result.consumed == 0 && result.produced == 0 && dst_len > 0 {
                    self.phase = Phase::Rescuing;
                    ReadStep::ConvertScratch
                } else {
                    self.phase = Phase::Idle;
                    ReadStep::Return(result.produced)
                }
            },
        }
    }

    /// Takes the outcome of the engine's run on the unconverted bytes and the scratch
    /// window `scratch`. What the engine consumed leaves the buffer. As many of the
    /// bytes it produced as fit are copied to the front of `dst`, the rest is kept
    /// pending for the next read. An invalid sequence fails the reader; any other
    /// status ends the read with the number of bytes copied.
    pub fn scratch_converted(
        &mut self,
        result: ConversionResult,
        scratch: &[u8],
        dst: &mut [u8],
    ) -> (step: ReadStep)
        requires
            old(self).wf(),
            result.fits(old(self)@.unconverted.len(), scratch@.len()),
        ensures
            final(self).wf(),
            (final(self)@, step) == old(self)@.after_scratch(result, scratch@, old(dst)@.len()),
            final(dst)@ == scratch@.take(min_len(old(dst)@.len(), result.produced as nat) as int)
                + old(dst)@.skip(min_len(old(dst)@.len(), result.produced as nat) as int),
    {
        self.fill.consume(result.consumed);
        let n: usize = if dst.len() <= result.produced {
            dst.len()
        } else {
            result.produced
        };
        copy_front(dst, scratch, n);
        self.tempbuf = copy_range(scratch, n, result.produced);
        if let ConversionStatus::InvalidSequence = result.status {
            self.phase = Phase::Failed(ReadError::InvalidInput);
            ReadStep::Fail(ReadError::InvalidInput)
        } else {
            self.phase = Phase::Idle;
            ReadStep::Return(n)
        }
    }
}

/// Copies the first `n` bytes of `src` over the first `n` bytes of `dst`.
fn copy_front(dst: &mut [u8], src: &[u8], n: usize)
    requires
        n <= src@.len(),
        n <= old(dst)@.len(),
    ensures
        final(dst)@ == src@.take(n as int) + old(dst)@.skip(n as int),
{
    let mut i: usize = 0;
    while i < n
        invariant
            i <= n,
            n <= src@.len(),
            dst@.len() == old(dst)@.len(),
            n <= dst@.len(),
            dst@ == src@.take(i as int) + old(dst)@.skip(i as int),
        decreases n - i,
    {
        dst[i] = src[i];
        i = i + 1;
    }
}

/// The bytes of `src` from `from` up to `to`, as a vector of their own.
fn copy_range(src: &[u8], from: usize, to: usize) -> (out: Vec<u8>)
    requires
        from <= to <= src@.len(),
    ensures
        out@ == src@.subrange(from as int, to as int),
{
    let mut out: Vec<u8> = Vec::new();
    let mut i: usize = from;
    while i < to
        invariant
            from <= i <= to,
            to <= src@.len(),
            out@ == src@.subrange(from as int, i as int),
        decreases to - i,
    {
        out.push(src[i]);
        i = i + 1;
    }
    out
}

} // verus!
