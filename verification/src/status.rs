//! What one call of the conversion engine reports: how far it got and why it stopped.

use vstd::prelude::*;

verus! {

/// Why the conversion engine stopped.
#[derive(Clone, Copy, Debug, PartialEq, Eq, Structural)]
pub enum ConversionStatus {
    /// The whole input window was converted.
    Complete,
    /// The bytes at the current input position form no character of the source encoding.
    InvalidSequence,
    /// The input window ends inside a character; more input is needed.
    IncompleteSequence,
    /// The output window has no room for the next character.
    OutputTooSmall,
}

/// The outcome of one engine call on an input window and an output window.
#[derive(Clone, Copy, Debug, PartialEq, Eq, Structural)]
pub struct ConversionResult {
    /// Bytes taken from the front of the input window.
    pub consumed: usize,
    /// Bytes written to the front of the output window.
    pub produced: usize,
    /// Why the engine stopped.
    pub status: ConversionStatus,
}

impl ConversionResult {
    /// The counts lie inside windows of the given lengths.
    pub open spec fn fits(self, input_len: nat, output_len: nat) -> bool {
        self.consumed <= input_len && self.produced <= output_len
    }

    /// Tests `fits` for windows of the given lengths.
    pub fn is_within(&self, input_len: usize, output_len: usize) -> (ok: bool)
        ensures
            ok == self.fits(input_len as nat, output_len as nat),
    {
        self.consumed <= input_len && self.produced <= output_len
    }
}

/// The status that an error number stands for, given the platform's three numbers for
/// "argument list too long", "illegal byte sequence" and "invalid argument".
/// Zero is success; a number that is none of these has no status.
pub open spec fn status_of_code(code: int, too_big: int, illegal: int, invalid: int) -> Option<
    ConversionStatus,
> {
    if code == 0 {
        Some(ConversionStatus::Complete)
    } else if code == too_big {
        Some(ConversionStatus::OutputTooSmall)
    } else if code == illegal {
        Some(ConversionStatus::InvalidSequence)
    } else if code == invalid {
        Some(ConversionStatus::IncompleteSequence)
    } else {
        None
    }
}

/// The error number that counts for an engine call: the one it left behind where it
/// returned its failure value, zero where it did not.
pub open spec fn code_of_call(failed: bool, errno: int) -> int {
    if failed {
        errno
    } else {
        0
    }
}

/// Classifies an error number against the three numbers given.
pub fn classify_code(code: i32, too_big: i32, illegal: i32, invalid: i32) -> (status: Option<
    ConversionStatus,
>)
    ensures
        status == status_of_code(code as int, too_big as int, illegal as int, invalid as int),
{
    if code == 0 {
        Some(ConversionStatus::Complete)
    } else if code == too_big {
        Some(ConversionStatus::OutputTooSmall)
    } else if code == illegal {
        Some(ConversionStatus::InvalidSequence)
    } else if code == invalid {
        Some(ConversionStatus::IncompleteSequence)
    } else {
        None
    }
}

/// `libc::E2BIG`, the platform's error number for an output window that is too small.
/// Trusted: the number is not zero, which no error number of any platform is.
#[verifier::external_body]
fn code_too_big() -> (code: i32)
    ensures
        code != 0,
{
    libc::E2BIG
}

/// `libc::EILSEQ`, the platform's error number for an illegal byte sequence.
/// Trusted: the number is not zero, which no error number of any platform is.
#[verifier::external_body]
fn code_illegal_sequence() -> (code: i32)
    ensures
        code != 0,
{
    libc::EILSEQ
}

/// `libc::EINVAL`, the platform's error number for an invalid argument, which the engine
/// reports for an input window that ends inside a character.
/// Trusted: the number is not zero, which no error number of any platform is.
#[verifier::external_body]
fn code_invalid_argument() -> (code: i32)
    ensures
        code != 0,
{
    libc::EINVAL
}

impl ConversionStatus {
    /// The status that the platform's error number `code` stands for; `None` for a number
    /// that the engine's interface does not define. Zero is always `Complete`; any other number
    /// is classified against the platform's own three numbers, whatever they are.
    pub fn from_errno(code: i32) -> (status: Option<ConversionStatus>)
        ensures
            code == 0 ==> status == Some(ConversionStatus::Complete),
            code != 0 ==> status != Some(ConversionStatus::Complete),
            exists|too_big: int, illegal: int, invalid: int|
                too_big != 0 && illegal != 0 && invalid != 0 && status == #[trigger] status_of_code(
                    code as int,
                    too_big,
                    illegal,
                    invalid,
                ),
    {
        let too_big: i32 = code_too_big();
        let illegal: i32 = code_illegal_sequence();
        let invalid: i32 = code_invalid_argument();
        let status = classify_code(code, too_big, illegal, invalid);
        assert(status == status_of_code(code as int, too_big as int, illegal as int, invalid as int));
        status
    }

    /// The status of an engine call that returned its failure value or not, with the
    /// error number that it left behind: a call that did not fail is complete, and the
    /// error number counts only for one that did.
    pub fn from_call(failed: bool, errno: i32) -> (status: Option<ConversionStatus>)
        ensures
            !failed || errno == 0 ==> status == Some(ConversionStatus::Complete),
            failed && errno != 0 ==> status != Some(ConversionStatus::Complete),
            exists|too_big: int, illegal: int, invalid: int|
                too_big != 0 && illegal != 0 && invalid != 0 && status == #[trigger] status_of_code(
                    code_of_call(failed, errno as int),
                    too_big,
                    illegal,
                    invalid,
                ),
    {
        if failed {
            let status = Self::from_errno(errno);
            proof {
                let (too_big, illegal, invalid) = choose|too_big: int, illegal: int, invalid: int|
                    too_big != 0 && illegal != 0 && invalid != 0 && status == #[trigger] status_of_code(
                        errno as int,
                        too_big,
                        illegal,
                        invalid,
                    );
                assert(status == status_of_code(
                    code_of_call(failed, errno as int),
                    too_big,
                    illegal,
                    invalid,
                ));
            }
            status
        } else {
            assert(Some(ConversionStatus::Complete) == status_of_code(
                code_of_call(failed, errno as int),
                1,
                1,
                1,
            ));
            Some(ConversionStatus::Complete)
        }
    }
}

} // verus!
