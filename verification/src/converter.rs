//! The conversion handle: what is decided before and after each call of the engine.
//!
//! Opening, calling and closing the engine are outside work. The record of the handle,
//! the shape of each call and the reading of what the call left behind live here.

use crate::status::{ConversionResult, ConversionStatus};
use vstd::prelude::*;

verus! {

/// The descriptor that the engine returns when it cannot open a handle.
pub const INVALID_DESCRIPTOR: usize = usize::MAX;

/// The engine knows one of the two encodings not.
#[derive(Debug)]
pub struct ConfigurationError {
    /// The source encoding that was asked for.
    pub from: String,
    /// The target encoding that was asked for.
    pub to: String,
}

/// Why an engine call gave no result.
#[derive(Clone, Copy, Debug, PartialEq, Eq, Structural)]
pub enum EngineFailure {
    /// The handle was released before the call.
    Released,
    /// The engine failed with an error number that its interface does not define.
    Unrecognized,
    /// The engine claims to have left more bytes than a window held.
    OutOfWindow,
}

/// How the engine is called for an input and an output window.
#[derive(Clone, Copy, Debug, PartialEq, Eq, Structural)]
pub enum CallShape {
    /// Both windows hold bytes: convert from one into the other.
    Convert,
    /// The input window is empty: flush pending shift state into the output window.
    Flush,
    /// The output window is empty: touch the handle's state only, with no window.
    Probe,
}

/// The shape of the call for windows of these lengths.
pub open spec fn shape_of(input_len: nat, output_len: nat) -> CallShape {
    if input_len > 0 && output_len > 0 {
        CallShape::Convert
    } else if input_len == 0 && output_len > 0 {
        CallShape::Flush
    } else {
        CallShape::Probe
    }
}

/// What a call on windows of `input_len` and `output_len` bytes amounts to, when the
/// engine left `input_left` and `output_left` bytes of them unused and stopped with
/// `status` (`None`: with an error number that has no status). Only a window that was
/// handed to the engine counts.
pub open spec fn outcome_of(
    input_len: nat,
    output_len: nat,
    input_left: nat,
    output_left: nat,
    status: Option<ConversionStatus>,
) -> Result<ConversionResult, EngineFailure> {
    match status {
        None => Err(EngineFailure::Unrecognized),
        Some(status) => match shape_of(input_len, output_len) {
            CallShape::Convert => if input_left <= input_len && output_left <= output_len {
                Ok(
                    ConversionResult {
                        consumed: (input_len - input_left) as usize,
                        produced: (output_len - output_left) as usize,
                        status,
                    },
                )
            } else {
                Err(EngineFailure::OutOfWindow)
            },
            CallShape::Flush => if output_left <= output_len {
                Ok(
                    ConversionResult {
                        consumed: 0,
                        produced: (output_len - output_left) as usize,
                        status,
                    },
                )
            } else {
                Err(EngineFailure::OutOfWindow)
            },
            CallShape::Probe => Ok(ConversionResult { consumed: 0, produced: 0, status }),
        },
    }
}

/// The record of one conversion handle: the pair of encodings it was opened for, the
/// engine's descriptor, and whether the handle is still to be closed.
#[derive(Debug)]
pub struct Converter {
    from: String,
    to: String,
    descriptor: usize,
    open: bool,
}

/// A converter as the contracts see it.
pub struct ConverterView {
    /// The source encoding.
    pub from: Seq<char>,
    /// The target encoding.
    pub to: Seq<char>,
    /// The engine's descriptor.
    pub descriptor: usize,
    /// Whether the handle is still to be closed.
    pub open: bool,
}

impl ConverterView {
    /// Giving up the handle: the descriptor is handed out for closing if the handle was
    /// open, and the handle is closed from then on.
    pub open spec fn release(self) -> (ConverterView, Option<usize>) {
        (
            ConverterView { open: false, ..self },
            if self.open {
                Some(self.descriptor)
            } else {
                None
            },
        )
    }
}

/// Releasing a handle again changes nothing and hands out nothing to close: however
/// often a handle is released, its descriptor is closed once.
pub proof fn law_release_idempotent(v: ConverterView)
    ensures
        v.release().0.release() == (v.release().0, None::<usize>),
        v.release().1 is Some <==> v.open,
{
}

impl View for Converter {
    type V = ConverterView;

    closed spec fn view(&self) -> ConverterView {
        ConverterView {
            from: self.from@,
            to: self.to@,
            descriptor: self.descriptor,
            open: self.open,
        }
    }
}

impl Converter {
    /// Records a handle that the engine opened to convert from `from` to `to`, given
    /// the descriptor that the open call returned. The invalid descriptor means that
    /// the engine knows one of the encodings not.
    pub fn new(from: &str, to: &str, descriptor: usize) -> (made: Result<
        Converter,
        ConfigurationError,
    >)
        ensures
            descriptor == INVALID_DESCRIPTOR ==> (made matches Err(e) && e.from@ == from@ && e.to@
                == to@),
            descriptor != INVALID_DESCRIPTOR ==> (made matches Ok(c) && c@ == (ConverterView {
                from: from@,
                to: to@,
                descriptor,
                open: true,
            })),
    {
        if descriptor == INVALID_DESCRIPTOR {
            Err(ConfigurationError { from: from.to_owned(), to: to.to_owned() })
        } else {
            Ok(Converter { from: from.to_owned(), to: to.to_owned(), descriptor, open: true })
        }
    }

    /// The source encoding.
    pub fn from_encoding(&self) -> (name: &str)
        ensures
            name@ == self@.from,
    {
        self.from.as_str()
    }

    /// The target encoding.
    pub fn to_encoding(&self) -> (name: &str)
        ensures
            name@ == self@.to,
    {
        self.to.as_str()
    }

    /// The descriptor to call the engine with, while the handle is open.
    pub fn descriptor(&self) -> (descriptor: Option<usize>)
        ensures
            descriptor == if self@.open {
                Some(self@.descriptor)
            } else {
                None
            },
    {
        if self.open {
            Some(self.descriptor)
        } else {
            None
        }
    }

    /// How to call the engine for windows of these lengths.
    pub fn shape(input_len: usize, output_len: usize) -> (shape: CallShape)
        ensures
            shape == shape_of(input_len as nat, output_len as nat),
    {
        if input_len > 0 && output_len > 0 {
            CallShape::Convert
        } else if input_len == 0 && output_len > 0 {
            CallShape::Flush
        } else {
            CallShape::Probe
        }
    }

    /// Reads back one engine call on windows of `input_len` and `output_len` bytes:
    /// the engine left `input_left` and `output_left` bytes of them unused and stopped
    /// with `status` (`None`: with an error number that has no status). The result
    /// counts what was consumed and produced. A released handle gives no result.
    pub fn convert(
        &self,
        input_len: usize,
        output_len: usize,
        input_left: usize,
        output_left: usize,
        status: Option<ConversionStatus>,
    ) -> (outcome: Result<ConversionResult, EngineFailure>)
        ensures
            outcome == if self@.open {
                outcome_of(
                    input_len as nat,
                    output_len as nat,
                    input_left as nat,
                    output_left as nat,
                    status,
                )
            } else {
                Err(EngineFailure::Released)
            },
            outcome matches Ok(result) ==> result.fits(input_len as nat, output_len as nat),
    {
        if !self.open {
            return Err(EngineFailure::Released);
        }
        let status = match status {
            Some(status) => status,
            None => {
                return Err(EngineFailure::Unrecognized);
            },
        };
        match Self::shape(input_len, output_len) {
            CallShape::Convert => {
                if input_left <= input_len && output_left <= output_len {
                    Ok(
                        ConversionResult {
                            consumed: input_len - input_left,
                            produced: output_len - output_left,
                            status,
                        },
                    )
                } else {
                    Err(EngineFailure::OutOfWindow)
                }
            },
            CallShape::Flush => {
                if output_left <= output_len {
                    Ok(ConversionResult { consumed: 0, produced: output_len - output_left, status })
                } else {
                    Err(EngineFailure::OutOfWindow)
                }
            },
            CallShape::Probe => Ok(ConversionResult { consumed: 0, produced: 0, status }),
        }
    }

    /// Gives up the handle. The first release returns the descriptor, which the caller
    /// then closes; every later one returns nothing and changes nothing.
    pub fn release(&mut self) -> (to_close: Option<usize>)
        ensures
            (final(self)@, to_close) == old(self)@.release(),
    {
        if self.open {
            self.open = false;
            Some(self.descriptor)
        } else {
            None
        }
    }
}

} // verus!
