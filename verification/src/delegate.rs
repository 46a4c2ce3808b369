//! Handing the command line over to the cached binary, and what the launcher makes of
//! the way the binary ended.

use vstd::prelude::*;
use vstd::string::*;
use vstd::utf8::*;
use crate::after_program_name;
use crate::error::{Error, ErrorView};

verus! {

/// The exit code of a launcher whose delegate ended without one.
pub const FALLBACK_EXIT_CODE: i32 = 1;

/// What is known of a delegate that ran: all that it wrote to its standard output, and
/// its exit code, unless a signal ended it.
pub struct ChildReport {
    pub stdout: Vec<u8>,
    pub status: Option<i32>,
}

/// How a run of the launcher ends once the delegate has run: the text to print and the
/// code to exit with.
pub struct ExitOutcome {
    pub output: String,
    pub code: i32,
}

/// The exit code of the launcher for the exit status of its delegate: the code of the
/// delegate, or the fallback where it has none.
pub open spec fn exit_code_of(status: Option<i32>) -> i32 {
    match status {
        Some(code) => code,
        None => FALLBACK_EXIT_CODE,
    }
}

/// The words in which `std::str::from_utf8` refuses the bytes `bytes`: the printed form
/// of its error, which tells where the bytes stop being UTF-8.
pub uninterp spec fn utf8_complaint(bytes: Seq<u8>) -> Seq<char>;

/// Calls `std::str::from_utf8`, which accepts exactly the byte strings that are valid
/// UTF-8 and then yields the text that they encode. Of a rejected input the wrapper
/// hands back the printed form of the error; the standard library makes it from the
/// bytes alone, and the contract gives it the name [`utf8_complaint`].
#[verifier::external_body]
fn text_of_utf8(bytes: &[u8]) -> (text: Result<String, String>)
    ensures
        match text {
            Ok(decoded) => valid_utf8(bytes@) && encode_utf8(decoded@) == bytes@,
            Err(cause) => !valid_utf8(bytes@) && cause@ == utf8_complaint(bytes@),
        },
{
    match std::str::from_utf8(bytes) {
        Ok(decoded) => Ok(decoded.to_owned()),
        Err(e) => Err(e.to_string()),
    }
}

/// The arguments that are forwarded to the delegate: the command line of the launcher
/// without its first word, unchanged and in order.
pub fn forwarded_args(argv: Vec<String>) -> (args: Vec<String>)
    ensures
        args@ == after_program_name(argv@),
{
    let mut args = argv;
    if args.len() > 0 {
        args.remove(0);
    }
    assert(args@ =~= after_program_name(argv@));
    args
}

/// The exit code of the launcher for the exit status of its delegate. A delegate that
/// ended without a code never makes the launcher exit with 0.
pub fn exit_code(status: Option<i32>) -> (code: i32)
    ensures
        code == exit_code_of(status),
        status is None ==> code != 0,
{
    match status {
        Some(code) => code,
        None => FALLBACK_EXIT_CODE,
    }
}

/// Decodes the captured output of the delegate. Valid UTF-8 comes back as the text that
/// it encodes, byte for byte; anything else is refused as a whole, with the words of
/// the decoder as the cause.
pub fn decode_output(bytes: &[u8]) -> (text: Result<String, Error>)
    ensures
        if valid_utf8(bytes@) {
            text matches Ok(decoded) && encode_utf8(decoded@) == bytes@
        } else {
            text matches Err(e) && e@ == ErrorView::OutputDecodingFailed(utf8_complaint(bytes@))
        },
{
    match text_of_utf8(bytes) {
        Ok(decoded) => Ok(decoded),
        Err(cause) => Err(Error::OutputDecodingFailed(cause)),
    }
}

/// What the launcher does once the attempt to run the delegate is over. A delegate that
/// could not be started is an `ExecutionFailed` with the cause that was given; output
/// that is not UTF-8 is an `OutputDecodingFailed`; otherwise the launcher prints the
/// output as it is and exits with the code of the delegate, or with the fallback.
pub fn conclude(spawned: Result<ChildReport, String>) -> (end: Result<ExitOutcome, Error>)
    ensures
        match spawned {
            Ok(report) => if valid_utf8(report.stdout@) {
                end matches Ok(outcome) && encode_utf8(outcome.output@) == report.stdout@
                    && outcome.code == exit_code_of(report.status)
            } else {
                end matches Err(e) && e@ == ErrorView::OutputDecodingFailed(
                    utf8_complaint(report.stdout@),
                )
            },
            Err(cause) => end matches Err(e) && e@ == ErrorView::ExecutionFailed(cause@),
        },
{
    match spawned {
        Ok(report) => {
            let code = exit_code(report.status);
            match decode_output(report.stdout.as_slice()) {
                Ok(output) => Ok(ExitOutcome { output, code }),
                Err(e) => Err(e),
            }
        },
        Err(cause) => Err(Error::ExecutionFailed(cause)),
    }
}

/// The text that the launcher prints is the output of the delegate and nothing else:
/// two texts with the same UTF-8 encoding are the same text.
pub proof fn lemma_output_is_verbatim(a: Seq<char>, b: Seq<char>)
    ensures
        encode_utf8(a) == encode_utf8(b) ==> a == b,
{
    encode_utf8_decode_utf8(a);
    encode_utf8_decode_utf8(b);
}

} // verus!
