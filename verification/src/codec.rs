//! A mathematical model of a conversion engine, for stating what the converters do with
//! one that behaves.
//!
//! A codec says, for a shift state and the bytes at the head of the input, whether
//! they start with a whole character, with no character at all, or with the beginning
//! of one. From that follow the conversion of a whole input (`scan`) and the outcome of
//! one engine call on a window with limited room (`run`).

use crate::status::{ConversionResult, ConversionStatus};
use vstd::prelude::*;

verus! {

/// What the bytes at the head of the input start with.
pub enum Glyph {
    /// A whole character of `width` bytes, which converts to `image` and leaves the
    /// engine in the shift state `next`.
    Whole { width: nat, image: Seq<u8>, next: int },
    /// No character of the source encoding.
    Invalid,
    /// The beginning of a character: more bytes are needed to tell.
    Incomplete,
}

/// A pair of encodings as the engine converts between them.
pub struct Codec {
    /// What the bytes start with, in a shift state.
    pub head: spec_fn(int, Seq<u8>) -> Glyph,
}

/// Why a scan of the input stopped.
pub enum Stop {
    /// The input is used up.
    End,
    /// The rest of the input starts with no character.
    Invalid,
    /// The rest of the input is the beginning of a character.
    Incomplete,
}

/// The conversion of an input, as far as it goes.
#[verifier::ext_equal]
pub struct Scan {
    /// The number of input bytes converted.
    pub consumed: nat,
    /// What they convert to.
    pub image: Seq<u8>,
    /// The shift state after them.
    pub state: int,
    /// Why the conversion went no further.
    pub stop: Stop,
}

/// What one engine call does on a window.
#[verifier::ext_equal]
pub struct Run {
    /// The number of bytes taken from the input window.
    pub consumed: nat,
    /// The bytes written to the output window.
    pub image: Seq<u8>,
    /// The shift state after the call.
    pub state: int,
    /// Why the engine stopped.
    pub status: ConversionStatus,
}

impl Run {
    /// The counts and the status that the caller of the engine sees.
    pub open spec fn result(self) -> ConversionResult {
        ConversionResult {
            consumed: self.consumed as usize,
            produced: self.image.len() as usize,
            status: self.status,
        }
    }
}

impl Codec {
    /// What `bytes` start with in the shift state `state`.
    pub open spec fn head_of(self, state: int, bytes: Seq<u8>) -> Glyph {
        (self.head)(state, bytes)
    }

    /// The codec decides by prefixes: a whole character lies within the bytes given,
    /// has at least one byte and is decided by its own bytes; bytes that start with a
    /// whole character, or with none, still do so when more bytes follow; and no bytes
    /// decide nothing.
    #[verifier::opaque]
    pub open spec fn sound(self) -> bool {
        &&& forall|q: int, s: Seq<u8>| (#[trigger] self.head_of(q, s)) matches Glyph::Whole { width, .. }
            ==> 1 <= width <= s.len() && self.head_of(q, s.take(width as int)) == self.head_of(q, s)
        &&& forall|q: int, s: Seq<u8>, n: int|
            0 <= n <= s.len() && (#[trigger] self.head_of(q, s.take(n))) is Whole ==> self.head_of(
                q,
                s,
            ) == self.head_of(q, s.take(n))
        &&& forall|q: int, s: Seq<u8>, n: int|
            0 <= n <= s.len() && (#[trigger] self.head_of(q, s.take(n))) is Invalid
                ==> self.head_of(q, s) is Invalid
        &&& forall|q: int| (#[trigger] self.head_of(q, Seq::<u8>::empty())) is Incomplete
    }

    /// No character converts to more than `limit` bytes.
    pub open spec fn images_within(self, limit: nat) -> bool {
        forall|q: int, s: Seq<u8>| (#[trigger] self.head_of(q, s)) matches Glyph::Whole { image, .. }
            ==> image.len() <= limit
    }

    /// The conversion of `input` from the shift state `state`, character by character,
    /// until the input is used up or its rest starts with no whole character.
    pub open spec fn scan(self, state: int, input: Seq<u8>) -> Scan
        decreases input.len(),
    {
        if input.len() == 0 {
            Scan { consumed: 0, image: Seq::empty(), state, stop: Stop::End }
        } else {
            match self.head_of(state, input) {
                Glyph::Whole { width, image, next } => if 1 <= width <= input.len() {
                    let rest = self.scan(next, input.skip(width as int));
                    Scan {
                        consumed: width + rest.consumed,
                        image: image + rest.image,
                        state: rest.state,
                        stop: rest.stop,
                    }
                } else {
                    Scan { consumed: 0, image: Seq::empty(), state, stop: Stop::Invalid }
                },
                Glyph::Invalid => Scan {
                    consumed: 0,
                    image: Seq::empty(),
                    state,
                    stop: Stop::Invalid,
                },
                Glyph::Incomplete => Scan {
                    consumed: 0,
                    image: Seq::empty(),
                    state,
                    stop: Stop::Incomplete,
                },
            }
        }
    }

    /// One engine call on the input window `window` with `room` bytes of output, from
    /// the shift state `state`: as many whole characters as fit are converted.
    pub open spec fn run(self, state: int, window: Seq<u8>, room: nat) -> Run
        decreases window.len(),
    {
        if window.len() == 0 {
            Run { consumed: 0, image: Seq::empty(), state, status: ConversionStatus::Complete }
        } else {
            match self.head_of(state, window) {
                Glyph::Whole { width, image, next } => if 1 <= width <= window.len() {
                    if image.len() <= room {
                        let rest = self.run(
                            next,
                            window.skip(width as int),
                            (room - image.len()) as nat,
                        );
                        Run {
                            consumed: width + rest.consumed,
                            image: image + rest.image,
                            state: rest.state,
                            status: rest.status,
                        }
                    } else {
                        Run {
                            consumed: 0,
                            image: Seq::empty(),
                            state,
                            status: ConversionStatus::OutputTooSmall,
                        }
                    }
                } else {
                    Run {
                        consumed: 0,
                        image: Seq::empty(),
                        state,
                        status: ConversionStatus::InvalidSequence,
                    }
                },
                Glyph::Invalid => Run {
                    consumed: 0,
                    image: Seq::empty(),
                    state,
                    status: ConversionStatus::InvalidSequence,
                },
                Glyph::Incomplete => Run {
                    consumed: 0,
                    image: Seq::empty(),
                    state,
                    status: ConversionStatus::IncompleteSequence,
                },
            }
        }
    }

    /// A run stays inside its windows.
    pub proof fn lemma_run_bounds(self, state: int, window: Seq<u8>, room: nat)
        ensures
            self.run(state, window, room).consumed <= window.len(),
            self.run(state, window, room).image.len() <= room,
        decreases window.len(),
    {
        if window.len() > 0 {
            if let Glyph::Whole { width, image, next } = self.head_of(state, window) {
                if 1 <= width <= window.len() && image.len() <= room {
                    self.lemma_run_bounds(next, window.skip(width as int), (room - image.len()) as nat);
                }
            }
        }
    }

    /// A scan stays inside its input.
    pub proof fn lemma_scan_bounds(self, state: int, input: Seq<u8>)
        ensures
            self.scan(state, input).consumed <= input.len(),
            self.scan(state, input).stop is End <==> self.scan(state, input).consumed
                == input.len(),
        decreases input.len(),
    {
        if input.len() > 0 {
            if let Glyph::Whole { width, image, next } = self.head_of(state, input) {
                if 1 <= width <= input.len() {
                    self.lemma_scan_bounds(next, input.skip(width as int));
                }
            }
        }
    }

    /// What the status of a run says of the input at the place where it stopped.
    pub proof fn lemma_run_stop(self, state: int, window: Seq<u8>, room: nat)
        requires
            self.sound(),
        ensures
            ({
                let r = self.run(state, window, room);
                let rest = window.skip(r.consumed as int);
                match r.status {
                    ConversionStatus::Complete => r.consumed == window.len(),
                    ConversionStatus::InvalidSequence => self.head_of(r.state, rest) is Invalid,
                    ConversionStatus::IncompleteSequence => rest.len() > 0 && self.head_of(
                        r.state,
                        rest,
                    ) is Incomplete,
                    ConversionStatus::OutputTooSmall => self.head_of(r.state, rest) matches Glyph::Whole {
                        image,
                        ..
                    } && image.len() > room - r.image.len(),
                }
            }),
        decreases window.len(),
    {
        reveal(Codec::sound);
        assert(window.skip(0) =~= window);
        if window.len() > 0 {
            if let Glyph::Whole { width, image, next } = self.head_of(state, window) {
                if image.len() <= room {
                    let tail = window.skip(width as int);
                    self.lemma_run_stop(next, tail, (room - image.len()) as nat);
                    let r = self.run(next, tail, (room - image.len()) as nat);
                    self.lemma_run_bounds(next, tail, (room - image.len()) as nat);
                    assert(tail.skip(r.consumed as int) =~= window.skip((width + r.consumed) as int));
                }
            }
        }
    }

    /// A run that consumes nothing leaves the shift state as it was and writes nothing.
    pub proof fn lemma_run_nothing(self, state: int, window: Seq<u8>, room: nat)
        requires
            self.sound(),
            self.run(state, window, room).consumed == 0,
        ensures
            self.run(state, window, room).state == state,
            self.run(state, window, room).image.len() == 0,
    {
        reveal(Codec::sound);
    }

    /// What a run converts is the conversion of what it consumed: the bytes that the
    /// run took scan to their end, into the run's image and shift state.
    pub proof fn lemma_run_is_scan(self, state: int, window: Seq<u8>, room: nat)
        requires
            self.sound(),
        ensures
            ({
                let r = self.run(state, window, room);
                self.scan(state, window.take(r.consumed as int)) == (Scan {
                    consumed: r.consumed,
                    image: r.image,
                    state: r.state,
                    stop: Stop::End,
                })
            }),
        decreases window.len(),
    {
        reveal(Codec::sound);
        let r = self.run(state, window, room);
        if window.len() > 0 {
            if let Glyph::Whole { width, image, next } = self.head_of(state, window) {
                if image.len() <= room {
                    let tail = window.skip(width as int);
                    let inner = self.run(next, tail, (room - image.len()) as nat);
                    self.lemma_run_is_scan(next, tail, (room - image.len()) as nat);
                    self.lemma_run_bounds(next, tail, (room - image.len()) as nat);
                    let taken = window.take(r.consumed as int);
                    assert(taken.take(width as int) =~= window.take(width as int));
                    assert(self.head_of(state, taken) == self.head_of(state, window));
                    assert(taken.skip(width as int) =~= tail.take(inner.consumed as int));
                }
            }
        }
    }

    /// Scanning goes on where it left off: when `first` scans to its end, the scan of
    /// `first` followed by `second` is that scan followed by the scan of `second`.
    pub proof fn lemma_scan_append(self, state: int, first: Seq<u8>, second: Seq<u8>)
        requires
            self.sound(),
            self.scan(state, first).stop is End,
        ensures
            ({
                let a = self.scan(state, first);
                let b = self.scan(a.state, second);
                self.scan(state, first + second) == (Scan {
                    consumed: first.len() + b.consumed,
                    image: a.image + b.image,
                    state: b.state,
                    stop: b.stop,
                })
            }),
        decreases first.len(),
    {
        reveal(Codec::sound);
        let whole = first + second;
        if first.len() == 0 {
            assert(whole =~= second);
            let b = self.scan(state, second);
            assert(Seq::<u8>::empty() + b.image =~= b.image);
        } else {
            match self.head_of(state, first) {
                Glyph::Whole { width, image, next } => {
                    assert(whole.take(first.len() as int) =~= first);
                    assert(self.head_of(state, whole) == self.head_of(state, first));
                    let tail = first.skip(width as int);
                    self.lemma_scan_append(next, tail, second);
                    assert(whole.skip(width as int) =~= tail + second);
                    let a = self.scan(next, tail);
                    let b = self.scan(a.state, second);
                    self.lemma_scan_bounds(next, tail);
                    assert(image + (a.image + b.image) =~= (image + a.image) + b.image);
                },
                _ => {},
            }
        }
    }

    /// Bytes that start with no character end every scan that reaches them.
    pub proof fn lemma_scan_invalid(self, state: int, head: Seq<u8>, rest: Seq<u8>)
        requires
            self.sound(),
            self.head_of(state, head) is Invalid,
        ensures
            self.scan(state, head + rest).consumed == 0,
            self.scan(state, head + rest).stop is Invalid,
    {
        reveal(Codec::sound);
        let whole = head + rest;
        assert(whole.take(head.len() as int) =~= head);
        assert(self.head_of(state, whole) is Invalid);
        if whole.len() == 0 {
            assert(whole =~= Seq::<u8>::empty());
        }
    }
}

/// The codec that copies: every byte is a character of its own and converts to itself,
/// with no shift state to speak of.
pub open spec fn copying() -> Codec {
    Codec {
        head: |state: int, bytes: Seq<u8>|
            if bytes.len() == 0 {
                Glyph::Incomplete
            } else {
                Glyph::Whole { width: 1, image: bytes.take(1), next: state }
            },
    }
}

/// The copying codec is sound, and its characters convert to one byte each: the
/// premises of the laws can be met.
pub proof fn law_copying_sound()
    ensures
        copying().sound(),
        copying().images_within(1),
{
    reveal(Codec::sound);
    let m = copying();
    assert forall|q: int, s: Seq<u8>| (#[trigger] m.head_of(q, s)) matches Glyph::Whole { width, .. }
        ==> 1 <= width <= s.len() && m.head_of(q, s.take(width as int)) == m.head_of(q, s) by {
        if s.len() > 0 {
            assert(s.take(1).take(1) =~= s.take(1));
        }
    }
    assert forall|q: int, s: Seq<u8>, n: int|
        0 <= n <= s.len() && (#[trigger] m.head_of(q, s.take(n))) is Whole implies m.head_of(q, s)
        == m.head_of(q, s.take(n)) by {
        if n > 0 {
            assert(s.take(n).take(1) =~= s.take(1));
        }
    }
}

} // verus!
