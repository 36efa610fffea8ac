//! What the converters guarantee around an engine that behaves as a codec says.
//!
//! The reader and the bulk conversion never see the whole picture: the bytes of the
//! source and what the engine wrote to the caller's destination pass them by. A ledger
//! keeps that picture, and the laws say that each step of the exchange keeps the ledger
//! and the converter in agreement. From that agreement follow the laws on chunking, on
//! invalid input and on progress.

use crate::bulk::{BulkError, BulkView};
use crate::codec::{Codec, Glyph, Run, Scan, Stop};
use crate::reader::{
    min_len, Phase, ReadError, ReadStep, ReaderView, SourceSignal, SCRATCH_SIZE,
};
use crate::status::ConversionStatus;
use vstd::prelude::*;

verus! {

/// The part of a streaming conversion that the reader does not hold.
#[verifier::ext_equal]
pub struct Ledger {
    /// All bytes pulled from the source so far.
    pub source: Seq<u8>,
    /// How many of them the engine has consumed.
    pub taken: nat,
    /// The bytes that the reads ended so far have returned, in order.
    pub returned: Seq<u8>,
    /// The bytes already in the destination of the read under way, which it returns
    /// when it ends.
    pub staged: Seq<u8>,
    /// The engine's shift state.
    pub state: int,
}

impl Ledger {
    /// The ledger of a conversion that starts in the shift state `state`.
    pub open spec fn start(state: int) -> Ledger {
        Ledger {
            source: Seq::empty(),
            taken: 0,
            returned: Seq::empty(),
            staged: Seq::empty(),
            state,
        }
    }

    /// The source delivered `bytes`.
    pub open spec fn pulled(self, bytes: Seq<u8>) -> Ledger {
        Ledger { source: self.source + bytes, ..self }
    }

    /// The engine made the run `run`.
    pub open spec fn ran(self, run: Run) -> Ledger {
        Ledger { taken: self.taken + run.consumed, state: run.state, ..self }
    }

    /// `bytes` are in the destination, and the read goes on.
    pub open spec fn staging(self, bytes: Seq<u8>) -> Ledger {
        Ledger { staged: self.staged + bytes, ..self }
    }

    /// The read ends: it returns what was staged and then `bytes`.
    pub open spec fn returning(self, bytes: Seq<u8>) -> Ledger {
        Ledger { returned: self.returned + self.staged + bytes, staged: Seq::empty(), ..self }
    }
}

/// The bytes that a signal of the source brought, given the window they were written to.
pub open spec fn bytes_of<E>(signal: SourceSignal<E>, spare: Seq<u8>) -> Seq<u8> {
    match signal {
        SourceSignal::Data(n) => spare.take(n as int),
        _ => Seq::empty(),
    }
}

/// The reader `v` and the ledger `l` agree on a conversion by the codec `m` that began
/// in the shift state `q0`: the reader holds the bytes of the source that the engine
/// has not consumed, and what was returned, staged and is pending is the conversion of
/// the bytes that it has. A reader that has failed agrees with every ledger.
pub open spec fn coherent<E>(m: Codec, q0: int, v: ReaderView<E>, l: Ledger) -> bool {
    v.phase is Failed || {
        &&& l.source.len() <= usize::MAX
        &&& l.taken <= l.source.len()
        &&& v.unconverted == l.source.skip(l.taken as int)
        &&& m.scan(q0, l.source.take(l.taken as int)) == (Scan {
            consumed: l.taken,
            image: l.returned + l.staged + v.pending,
            state: l.state,
            stop: Stop::End,
        })
        &&& match v.phase {
            Phase::Idle => l.staged.len() == 0,
            Phase::Filling => l.staged.len() == 0 && v.pending.len() == 0 && v.unconverted.len() == 0
                && v.deferred is None,
            Phase::Converting => l.staged.len() == 0 && v.pending.len() == 0 && v.unconverted.len()
                > 0,
            Phase::Retrying(held) => l.staged.len() == held && v.pending.len() == 0,
            Phase::Rescuing => l.staged.len() == 0 && v.pending.len() == 0 && v.unconverted.len()
                > 0,
            Phase::Eof => l.staged.len() == 0 && v.pending.len() == 0 && v.unconverted.len() == 0,
            Phase::Failed(_) => true,
        }
    }
}

/// A new reader agrees with a new ledger.
pub proof fn law_new_reader_coherent<E>(m: Codec, q0: int, v: ReaderView<E>)
    requires
        v.unconverted.len() == 0,
        v.pending.len() == 0,
        v.phase is Idle,
    ensures
        coherent(m, q0, v, Ledger::start(q0)),
{
    let l = Ledger::start(q0);
    assert(l.source.take(0) =~= Seq::<u8>::empty());
    assert(l.returned + l.staged + v.pending =~= Seq::<u8>::empty());
    assert(v.unconverted =~= l.source.skip(0));
}

/// Opening a read keeps the agreement. A read that drains pending bytes returns them.
pub proof fn law_read_keeps_coherence<E>(m: Codec, q0: int, v: ReaderView<E>, l: Ledger, dst_len: usize)
    requires
        coherent(m, q0, v, l),
        v.at_rest(),
    ensures
        ({
            let (after, step) = v.begin(dst_len as nat);
            match step {
                ReadStep::Return(n) => n == min_len(dst_len as nat, v.pending.len()) && coherent(
                    m,
                    q0,
                    after,
                    l.returning(v.pending.take(n as int)),
                ),
                _ => coherent(m, q0, after, l),
            }
        }),
{
    let (after, step) = v.begin(dst_len as nat);
    if v.phase is Idle && v.pending.len() > 0 {
        let n = min_len(dst_len as nat, v.pending.len());
        let l2 = l.returning(v.pending.take(n as int));
        assert(l2.returned + l2.staged + after.pending =~= l.returned + l.staged + v.pending);
    }
}

/// Taking the outcome of a pull keeps the agreement, with the bytes that the source
/// delivered entered into the ledger. A retry ends the read with the bytes that were
/// staged.
pub proof fn law_filled_keeps_coherence<E>(
    m: Codec,
    q0: int,
    v: ReaderView<E>,
    l: Ledger,
    signal: SourceSignal<E>,
)
    requires
        coherent(m, q0, v, l),
        v.phase is Filling || v.phase is Retrying,
        signal matches SourceSignal::Data(n) ==> n <= v.spare.len(),
        l.source.len() + bytes_of(signal, v.spare).len() <= usize::MAX,
    ensures
        ({
            let (after, step) = v.after_pull(signal);
            let entered = l.pulled(bytes_of(signal, v.spare));
            match step {
                ReadStep::Return(n) => n == l.staged.len() && coherent(
                    m,
                    q0,
                    after,
                    entered.returning(Seq::empty()),
                ),
                _ => coherent(m, q0, after, entered),
            }
        }),
{
    let (after, step) = v.after_pull(signal);
    let bytes = bytes_of(signal, v.spare);
    let entered = l.pulled(bytes);
    assert(entered.source.take(l.taken as int) =~= l.source.take(l.taken as int));
    assert(after.unconverted =~= entered.source.skip(l.taken as int));
    if v.phase is Retrying {
        let ended = entered.returning(Seq::empty());
        assert(ended.returned + ended.staged + after.pending =~= l.returned + l.staged + v.pending);
    }
}

/// The ledger after the engine's run `run` on the reader's unconverted bytes moves on
/// by what the run consumed: the bytes taken so far convert to what they converted to
/// before, followed by the run's image.
proof fn lemma_ran<E>(m: Codec, q0: int, v: ReaderView<E>, l: Ledger, room: nat)
    requires
        m.sound(),
        coherent(m, q0, v, l),
        !(v.phase is Failed),
    ensures
        ({
            let run = m.run(l.state, v.unconverted, room);
            let moved = l.ran(run);
            &&& run.consumed <= v.unconverted.len()
            &&& run.image.len() <= room
            &&& moved.taken <= l.source.len()
            &&& v.unconverted.skip(run.consumed as int) == l.source.skip(moved.taken as int)
            &&& m.scan(q0, l.source.take(moved.taken as int)) == (Scan {
                consumed: moved.taken,
                image: l.returned + l.staged + v.pending + run.image,
                state: run.state,
                stop: Stop::End,
            })
        }),
{
    let run = m.run(l.state, v.unconverted, room);
    let moved = l.ran(run);
    m.lemma_run_bounds(l.state, v.unconverted, room);
    m.lemma_run_is_scan(l.state, v.unconverted, room);
    let before = l.source.take(l.taken as int);
    let step = v.unconverted.take(run.consumed as int);
    m.lemma_scan_append(q0, before, step);
    assert(before + step =~= l.source.take(moved.taken as int));
    assert(v.unconverted.skip(run.consumed as int) =~= l.source.skip(moved.taken as int));
}

/// Taking the outcome of an engine run on the destination keeps the agreement, with
/// the run entered into the ledger. A read that ends returns the run's image; a retry
/// stages it.
pub proof fn law_converted_keeps_coherence<E>(
    m: Codec,
    q0: int,
    v: ReaderView<E>,
    l: Ledger,
    dst_len: usize,
)
    requires
        m.sound(),
        coherent(m, q0, v, l),
        v.phase is Converting,
    ensures
        ({
            let run = m.run(l.state, v.unconverted, dst_len as nat);
            let (after, step) = v.after_convert(run.result(), dst_len as nat);
            let moved = l.ran(run);
            &&& run.result().fits(v.unconverted.len(), dst_len as nat)
            &&& match step {
                ReadStep::Return(n) => n == run.image.len() && coherent(
                    m,
                    q0,
                    after,
                    moved.returning(run.image),
                ),
                ReadStep::Pull => coherent(m, q0, after, moved.staging(run.image)),
                ReadStep::ConvertScratch => moved == l && coherent(m, q0, after, l),
                _ => step == ReadStep::Fail(ReadError::InvalidInput),
            }
        }),
{
    let run = m.run(l.state, v.unconverted, dst_len as nat);
    let (after, step) = v.after_convert(run.result(), dst_len as nat);
    let moved = l.ran(run);
    lemma_ran(m, q0, v, l, dst_len as nat);
    m.lemma_run_stop(l.state, v.unconverted, dst_len as nat);
    assert(v.pending =~= Seq::<u8>::empty());
    assert(l.staged =~= Seq::<u8>::empty());
    match step {
        ReadStep::Return(n) => {
            let ended = moved.returning(run.image);
            assert(ended.returned + ended.staged + after.pending =~= l.returned + l.staged
                + v.pending + run.image);
        },
        ReadStep::Pull => {
            let staged = moved.staging(run.image);
            assert(staged.returned + staged.staged + after.pending =~= l.returned + l.staged
                + v.pending + run.image);
        },
        ReadStep::ConvertScratch => {
            m.lemma_run_nothing(l.state, v.unconverted, dst_len as nat);
            assert(after.unconverted =~= v.unconverted);
        },
        _ => {},
    }
}

/// Taking the outcome of an engine run on the scratch window keeps the agreement, with
/// the run entered into the ledger: the read returns the front of the run's image, and
/// the rest is pending.
pub proof fn law_scratch_keeps_coherence<E>(
    m: Codec,
    q0: int,
    v: ReaderView<E>,
    l: Ledger,
    scratch: Seq<u8>,
    dst_len: usize,
)
    requires
        m.sound(),
        coherent(m, q0, v, l),
        v.phase is Rescuing,
        scratch.len() == SCRATCH_SIZE,
        scratch.take(m.run(l.state, v.unconverted, SCRATCH_SIZE as nat).image.len() as int) == m.run(
            l.state,
            v.unconverted,
            SCRATCH_SIZE as nat,
        ).image,
    ensures
        ({
            let run = m.run(l.state, v.unconverted, SCRATCH_SIZE as nat);
            let (after, step) = v.after_scratch(run.result(), scratch, dst_len as nat);
            &&& run.result().fits(v.unconverted.len(), scratch.len())
            &&& match step {
                ReadStep::Return(n) => n == min_len(dst_len as nat, run.image.len()) && coherent(
                    m,
                    q0,
                    after,
                    l.ran(run).returning(run.image.take(n as int)),
                ),
                _ => step == ReadStep::Fail(ReadError::InvalidInput),
            }
        }),
{
    let run = m.run(l.state, v.unconverted, SCRATCH_SIZE as nat);
    let (after, step) = v.after_scratch(run.result(), scratch, dst_len as nat);
    lemma_ran(m, q0, v, l, SCRATCH_SIZE as nat);
    assert(v.pending =~= Seq::<u8>::empty());
    assert(l.staged =~= Seq::<u8>::empty());
    if let ReadStep::Return(n) = step {
        let ended = l.ran(run).returning(run.image.take(n as int));
        assert(after.pending =~= run.image.skip(n as int));
        assert(run.image.take(n as int) + run.image.skip(n as int) =~= run.image);
        assert(ended.returned + ended.staged + after.pending =~= l.returned + l.staged + v.pending
            + run.image);
    }
}

/// At the end of input everything is delivered: the reads have returned, in order,
/// exactly the conversion of all that the source delivered.
pub proof fn law_eof_delivers_all<E>(m: Codec, q0: int, v: ReaderView<E>, l: Ledger)
    requires
        coherent(m, q0, v, l),
        v.phase is Eof,
    ensures
        l.taken == l.source.len(),
        m.scan(q0, l.source).stop is End,
        l.returned == m.scan(q0, l.source).image,
{
    assert(l.source.skip(l.taken as int).len() == 0);
    assert(l.source.take(l.taken as int) =~= l.source);
    assert(l.returned + l.staged + v.pending =~= l.returned);
}

/// An error of the source is reported last: when a read that opens, or a pull while
/// filling, fails the reader with the source's error, the reads before it have
/// returned the conversion of all that the source delivered.
pub proof fn law_source_error_comes_last<E>(
    m: Codec,
    q0: int,
    v: ReaderView<E>,
    l: Ledger,
    dst_len: usize,
    signal: SourceSignal<E>,
)
    requires
        coherent(m, q0, v, l),
        v.phase is Idle || v.phase is Filling,
        signal matches SourceSignal::Data(n) ==> n <= v.spare.len(),
    ensures
        v.phase is Idle && v.begin(dst_len as nat).1 == ReadStep::Fail(ReadError::Source) ==> l.returned
            == m.scan(q0, l.source).image && m.scan(q0, l.source).stop is End,
        v.phase is Filling && v.after_pull(signal).1 == ReadStep::Fail(ReadError::Source) ==> l.returned
            == m.scan(q0, l.source).image && m.scan(q0, l.source).stop is End && bytes_of(
            signal,
            v.spare,
        ).len() == 0,
{
    if v.unconverted.len() == 0 && v.pending.len() == 0 {
        assert(l.source.skip(l.taken as int).len() == 0);
        assert(l.source.take(l.taken as int) =~= l.source);
        assert(l.returned + l.staged + v.pending =~= l.returned);
    }
}

/// Invalid input fails the reader at one place: when a run on the destination or on
/// the scratch window stops at an invalid sequence, the conversion of the source,
/// whatever it delivers later, stops as invalid at the very byte where the run
/// stopped. How the source was cut into pulls and the output into reads plays no part.
pub proof fn law_invalid_input_offset<E>(
    m: Codec,
    q0: int,
    v: ReaderView<E>,
    l: Ledger,
    room: nat,
    later: Seq<u8>,
)
    requires
        m.sound(),
        coherent(m, q0, v, l),
        v.phase is Converting || v.phase is Rescuing,
        m.run(l.state, v.unconverted, room).status is InvalidSequence,
    ensures
        m.scan(q0, l.source + later).stop is Invalid,
        m.scan(q0, l.source + later).consumed == l.taken + m.run(
            l.state,
            v.unconverted,
            room,
        ).consumed,
{
    let run = m.run(l.state, v.unconverted, room);
    let moved = l.ran(run);
    lemma_ran(m, q0, v, l, room);
    m.lemma_run_stop(l.state, v.unconverted, room);
    let before = l.source.take(moved.taken as int);
    let bad = v.unconverted.skip(run.consumed as int);
    m.lemma_scan_append(q0, before, bad + later);
    m.lemma_scan_invalid(run.state, bad, later);
    assert(before + (bad + later) =~= l.source + later);
}

/// Draining makes progress: a read that finds bytes pending returns at least one of
/// them to a destination that has room for one.
pub proof fn law_drain_progress<E>(v: ReaderView<E>, dst_len: usize)
    requires
        v.phase is Idle,
        v.pending.len() > 0,
        dst_len >= 1,
    ensures
        v.begin(dst_len as nat).1 matches ReadStep::Return(n) && n >= 1,
{
}

/// Converting makes progress: when a read ends after the engine's run on its
/// destination, it returns bytes or the engine has consumed input.
pub proof fn law_convert_progress<E>(m: Codec, q0: int, v: ReaderView<E>, l: Ledger, dst_len: usize)
    requires
        m.sound(),
        coherent(m, q0, v, l),
        v.phase is Converting,
    ensures
        ({
            let run = m.run(l.state, v.unconverted, dst_len as nat);
            v.after_convert(run.result(), dst_len as nat).1 matches ReadStep::Return(n) ==> n >= 1
                || run.consumed >= 1 || dst_len == 0
        }),
{
    let run = m.run(l.state, v.unconverted, dst_len as nat);
    lemma_ran(m, q0, v, l, dst_len as nat);
    m.lemma_run_stop(l.state, v.unconverted, dst_len as nat);
}

/// Retrying makes progress while the source delivers: the bytes that a pull brings
/// lengthen what the engine sees at the next read, and the read ends with the count
/// that was held. A source that brings nothing leaves the unconverted bytes as they
/// were: a character cut short at the end of the input is never completed.
pub proof fn law_retry_progress<E>(v: ReaderView<E>, held: usize, signal: SourceSignal<E>)
    requires
        v.phase == Phase::Retrying(held),
        signal matches SourceSignal::Data(n) ==> n <= v.spare.len(),
    ensures
        v.after_pull(signal).1 == ReadStep::Return(held),
        v.after_pull(signal).0.phase is Idle,
        v.after_pull(signal).0.unconverted.len() == v.unconverted.len() + (match signal {
            SourceSignal::Data(n) => n as nat,
            _ => 0nat,
        }),
{
}

/// The scratch window rescues a small destination: where the destination has room for
/// a byte but not for the next character, and no character converts to more bytes
/// than the scratch window holds, the run on the scratch window consumes input and the
/// read returns a full destination, unless the run meets an invalid sequence.
pub proof fn law_rescue_progress<E>(
    m: Codec,
    q0: int,
    v: ReaderView<E>,
    l: Ledger,
    scratch: Seq<u8>,
    dst_len: usize,
)
    requires
        m.sound(),
        m.images_within(SCRATCH_SIZE as nat),
        coherent(m, q0, v, l),
        v.phase is Rescuing,
        dst_len >= 1,
        m.run(l.state, v.unconverted, dst_len as nat).status is OutputTooSmall,
        m.run(l.state, v.unconverted, dst_len as nat).consumed == 0,
    ensures
        ({
            let run = m.run(l.state, v.unconverted, SCRATCH_SIZE as nat);
            let step = v.after_scratch(run.result(), scratch, dst_len as nat).1;
            &&& run.consumed >= 1
            &&& step == ReadStep::Return(dst_len) || step == ReadStep::Fail(ReadError::InvalidInput)
        }),
{
    reveal(Codec::sound);
    let small = m.run(l.state, v.unconverted, dst_len as nat);
    let run = m.run(l.state, v.unconverted, SCRATCH_SIZE as nat);
    m.lemma_run_stop(l.state, v.unconverted, dst_len as nat);
    m.lemma_run_nothing(l.state, v.unconverted, dst_len as nat);
    assert(v.unconverted.skip(0) =~= v.unconverted);
    lemma_ran(m, q0, v, l, SCRATCH_SIZE as nat);
    if let Glyph::Whole { width, image, next } = m.head_of(l.state, v.unconverted) {
        assert(image.len() > dst_len);
        assert(image.len() <= SCRATCH_SIZE);
        let inner = m.run(next, v.unconverted.skip(width as int), (SCRATCH_SIZE - image.len()) as nat);
        assert(run.image == image + inner.image);
    }
}

/// A bulk conversion by the codec `m` that began in the shift state `q0` is on its
/// way: nothing has failed, and the output so far is the conversion of the input
/// consumed so far, which left the engine in the shift state `q`.
pub open spec fn bulk_coherent(m: Codec, q0: int, v: BulkView, q: int) -> bool {
    &&& v.failed is None
    &&& v.input.len() <= usize::MAX
    &&& v.consumed <= v.input.len()
    &&& v.output.len() + v.window.len() <= usize::MAX
    &&& m.scan(q0, v.input.take(v.consumed as int)) == (Scan {
        consumed: v.consumed,
        image: v.output,
        state: q,
        stop: Stop::End,
    })
}

/// A bulk conversion that was set up is on its way, unless its input is too long to
/// start with.
pub proof fn law_bulk_fresh_coherent(m: Codec, q0: int, input: Seq<u8>, from: Seq<char>, to: Seq<char>)
    requires
        2 * input.len() <= usize::MAX,
    ensures
        bulk_coherent(m, q0, BulkView::fresh(input, from, to), q0),
{
    assert(input.take(0) =~= Seq::<u8>::empty());
}

/// Taking the outcome of an engine run keeps a bulk conversion on its way, or fails
/// it for the reason for which the conversion of the whole input stops: at an invalid
/// sequence, at the very byte where the run stopped, or inside its last character.
/// An input that converts to its end fails for want of room only.
pub proof fn law_bulk_converted(m: Codec, q0: int, v: BulkView, q: int)
    requires
        m.sound(),
        bulk_coherent(m, q0, v, q),
        v.step() is Convert,
        v.window.take(m.run(q, v.remaining(), v.window.len()).image.len() as int) == m.run(
            q,
            v.remaining(),
            v.window.len(),
        ).image,
    ensures
        ({
            let run = m.run(q, v.remaining(), v.window.len());
            let after = v.after_convert(run.result());
            let whole = m.scan(q0, v.input);
            &&& run.result().fits(v.remaining().len(), v.window.len())
            &&& match after.failed {
                None => bulk_coherent(m, q0, after, run.state),
                Some(BulkError::InvalidSequence) => whole.stop is Invalid && whole.consumed
                    == after.consumed,
                Some(BulkError::IncompleteSequence) => whole.stop is Incomplete && whole.consumed
                    == after.consumed,
                Some(BulkError::TooLarge) => run.status is OutputTooSmall,
            }
        }),
{
    let run = m.run(q, v.remaining(), v.window.len());
    let after = v.after_convert(run.result());
    let window = v.remaining();
    m.lemma_run_bounds(q, window, v.window.len());
    m.lemma_run_is_scan(q, window, v.window.len());
    m.lemma_run_stop(q, window, v.window.len());
    let before = v.input.take(v.consumed as int);
    let step = window.take(run.consumed as int);
    let taken = v.input.take(after.consumed as int);
    m.lemma_scan_append(q0, before, step);
    assert(before + step =~= taken);
    let rest = window.skip(run.consumed as int);
    assert(taken + rest =~= v.input);
    m.lemma_scan_append(q0, taken, rest);
    match run.status {
        ConversionStatus::InvalidSequence => {
            m.lemma_scan_invalid(run.state, rest, Seq::empty());
            assert(rest + Seq::<u8>::empty() =~= rest);
        },
        _ => {},
    }
}

/// A bulk conversion that is done gives the conversion of its whole input.
pub proof fn law_bulk_done(m: Codec, q0: int, v: BulkView, q: int)
    requires
        bulk_coherent(m, q0, v, q),
        v.step() is Done,
    ensures
        m.scan(q0, v.input).stop is End,
        v.outcome() == Some(m.scan(q0, v.input).image),
{
    assert(v.input.take(v.consumed as int) =~= v.input);
}

/// A bulk conversion moves on: where the output window has room for any one
/// character, a run consumes input or the conversion fails on the input itself.
pub proof fn law_bulk_progress(m: Codec, q0: int, v: BulkView, q: int, limit: nat)
    requires
        m.sound(),
        m.images_within(limit),
        bulk_coherent(m, q0, v, q),
        v.step() is Convert,
        v.window.len() >= limit,
    ensures
        ({
            let run = m.run(q, v.remaining(), v.window.len());
            run.consumed >= 1 || run.status is InvalidSequence || run.status is IncompleteSequence
        }),
{
    reveal(Codec::sound);
}

/// Reads of any size give what the bulk conversion gives: when a reader has reached
/// the end of its input and a bulk conversion of the same bytes is done, the reads
/// have returned, in order, exactly the bulk conversion's output.
pub proof fn law_chunking_independence<E>(
    m: Codec,
    q0: int,
    v: ReaderView<E>,
    l: Ledger,
    b: BulkView,
    q: int,
)
    requires
        coherent(m, q0, v, l),
        v.phase is Eof,
        bulk_coherent(m, q0, b, q),
        b.step() is Done,
        b.input == l.source,
    ensures
        b.outcome() == Some(l.returned),
{
    law_eof_delivers_all(m, q0, v, l);
    law_bulk_done(m, q0, b, q);
}

/// Converting there and back gives the text again: when a codec and its reverse undo
/// each other on a text, a bulk conversion of the text followed by one of its output
/// ends with the text.
pub proof fn law_round_trip(
    there: Codec,
    back: Codec,
    q_there: int,
    q_back: int,
    text: Seq<u8>,
    first: BulkView,
    q1: int,
    second: BulkView,
    q2: int,
)
    requires
        back.scan(q_back, there.scan(q_there, text).image).image == text,
        bulk_coherent(there, q_there, first, q1),
        first.step() is Done,
        first.input == text,
        bulk_coherent(back, q_back, second, q2),
        second.step() is Done,
        Some(second.input) == first.outcome(),
    ensures
        second.outcome() == Some(text),
{
    law_bulk_done(there, q_there, first, q1);
    law_bulk_done(back, q_back, second, q2);
}

} // verus!
