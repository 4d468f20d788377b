//! The process runner: spawns an external program, waits for it, and hands
//! back its full standard output and standard error. A spawn or wait
//! failure is deliberately reported as an empty-output success, so callers
//! observe empty text or bytes rather than an error.
use vstd::prelude::*;

use crate::text::{trim_str, trimmed};

verus! {

/// What `String::from_utf8_lossy` yields on the given bytes.
pub uninterp spec fn lossy_utf8_of(bytes: Seq<u8>) -> Seq<char>;

/// Relies on `String::from_utf8_lossy`: decodes the bytes as UTF-8,
/// substituting the replacement character for invalid sequences; the
/// result is a function of the bytes alone, and empty input decodes to
/// empty text.
#[verifier::external_body]
fn lossy_decode(bytes: &Vec<u8>) -> (r: String)
    ensures
        r@ == lossy_utf8_of(bytes@),
        bytes@.len() == 0 ==> r@.len() == 0,
{
    String::from_utf8_lossy(bytes).into_owned()
}

/// The post-processing applied to each captured stream: decode the bytes
/// as text, then trim surrounding whitespace. Empty captured bytes — in
/// particular a failed spawn's — surface as empty text.
fn decode_and_trim(bytes: &Vec<u8>) -> (r: String)
    ensures
        r@ == trimmed(lossy_utf8_of(bytes@)),
        bytes@.len() == 0 ==> r@.len() == 0,
{
    let text = lossy_decode(bytes);
    trim_str(text.as_str())
}

pub(crate) struct Process;

impl Process {
    /// Runs the program and returns both output streams as trimmed text.
    pub(crate) fn exec(program: &str, args: &Vec<String>) -> (r: Option<(String, String)>)
        ensures
            r is Some,
    {
        Self::exec_command_and_capture_output_as_strings(program, args)
    }

    /// Runs the program and returns its raw standard-output bytes.
    pub(crate) fn exec_and_return_stdout_bytes(program: &str, args: &Vec<String>) -> (r: Option<
        Vec<u8>,
    >)
        ensures
            r is Some,
    {
        Self::exec_command_and_return_stdout_bytes(program, args)
    }

    fn exec_command_and_return_stdout_bytes(program: &str, args: &Vec<String>) -> (r: Option<
        Vec<u8>,
    >)
        ensures
            r is Some,
    {
        let (stdout, _stderr) = Self::exec_command_and_capture_output(program, args);
        Some(stdout)
    }

    fn exec_command_and_capture_output_as_strings(program: &str, args: &Vec<String>) -> (r: Option<
        (String, String),
    >)
        ensures
            r is Some,
    {
        let (stdout, stderr) = Self::exec_command_and_capture_output(program, args);
        Some((decode_and_trim(&stdout), decode_and_trim(&stderr)))
    }

    /// Relies on `subprocess::Exec::{cmd, args, capture}`: runs the
    /// program with the given arguments to completion; `None` when it
    /// cannot be spawned or its output cannot be awaited, else both
    /// captured streams in full. What the program prints depends on the
    /// environment, so nothing is promised of the bytes.
    #[verifier::external_body]
    fn capture_streams(program: &str, args: &Vec<String>) -> Option<(Vec<u8>, Vec<u8>)> {
        match subprocess::Exec::cmd(program).args(args).capture() {
            Ok(capture) => Some((capture.stdout, capture.stderr)),
            Err(_) => None,
        }
    }

    /// Runs the program and applies the runner's lenient failure policy:
    /// a spawn or wait failure is reported as an empty-output success, so
    /// callers observe empty bytes rather than an error.
    fn exec_command_and_capture_output(program: &str, args: &Vec<String>) -> (Vec<u8>, Vec<u8>) {
        match Self::capture_streams(program, args) {
            Some(streams) => streams,
            None => (Vec::new(), Vec::new()),
        }
    }
}

} // verus!
