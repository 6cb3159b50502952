//! What came of running a program.

use vstd::prelude::*;
use vstd::utf8::{decode_utf8, valid_utf8};

verus! {

/// The error of `String::from_utf8`, carried through unopened.
#[verifier::external_type_specification]
#[verifier::external_body]
pub struct ExFromUtf8Error(std::string::FromUtf8Error);

/// `String::from_utf8` turns bytes that are UTF-8 into the text they encode,
/// and fails on all other bytes.
pub assume_specification[ String::from_utf8 ](bytes: Vec<u8>) -> (text: Result<
    String,
    std::string::FromUtf8Error,
>)
    ensures
        text is Ok == valid_utf8(bytes@),
        text matches Ok(decoded) ==> decoded@ == decode_utf8(bytes@),
;

/// Runs programs as processes of the operating system.
#[derive(Debug, Clone, Copy)]
pub struct ProcessExecutionService;

/// Why running a program gave no output.
#[derive(Debug, PartialEq)]
pub enum ProcessExecutionError {
    /// The program did not start, or what it printed is no text.
    Unknown,
    /// The program ended in failure, with this exit code, if it has one, and
    /// this output.
    StatusError(Option<i32>, String),
}

/// What a process left behind when it ended.
#[derive(Debug, PartialEq)]
pub struct ProcessOutput {
    /// Whether the process ended in success.
    pub success: bool,
    /// Its exit code, if it has one.
    pub code: Option<i32>,
    /// What it wrote to its standard output.
    pub stdout: Vec<u8>,
}

/// `result` is what running a program comes to, where `ran` is what the
/// process left behind, `None` if it never started: the output as text if
/// the process succeeded, a status error with the output as text if it
/// failed, and `Unknown` if it never started or its output is no text.
pub open spec fn execution_result(
    ran: Option<ProcessOutput>,
    result: Result<String, ProcessExecutionError>,
) -> bool {
    match result {
        Ok(text) => {
            &&& ran matches Some(output)
            &&& output.success
            &&& valid_utf8(output.stdout@)
            &&& text@ == decode_utf8(output.stdout@)
        },
        Err(ProcessExecutionError::StatusError(code, message)) => {
            &&& ran matches Some(output)
            &&& !output.success
            &&& valid_utf8(output.stdout@)
            &&& code == output.code
            &&& message@ == decode_utf8(output.stdout@)
        },
        Err(ProcessExecutionError::Unknown) => ran matches Some(output) ==> !valid_utf8(
            output.stdout@,
        ),
    }
}

impl ProcessExecutionService {
    /// What running a program comes to, from what its process left behind.
    pub fn outcome(&self, ran: Option<ProcessOutput>) -> (result: Result<
        String,
        ProcessExecutionError,
    >)
        ensures
            execution_result(ran, result),
    {
        let output = match ran {
            Some(output) => output,
            None => {
                return Err(ProcessExecutionError::Unknown);
            },
        };
        if !output.success {
            match String::from_utf8(output.stdout) {
                Ok(message) => Err(ProcessExecutionError::StatusError(output.code, message)),
                Err(_) => Err(ProcessExecutionError::Unknown),
            }
        } else if let Ok(text) = String::from_utf8(output.stdout) {
            Ok(text)
        } else {
            Err(ProcessExecutionError::Unknown)
        }
    }
}

} // verus!
