//! The compilation of a document: where its files go, how the compiler is
//! called, and what is made of the compiler's result.

use vstd::prelude::*;
use vstd::string::StringExecFns;
use crate::constants::COMPILE_DIR;
use crate::decimal::{decimal, push_decimal};
use crate::service::execution::ProcessExecutionError;

verus! {

/// Why a document was not compiled.
#[derive(Debug, PartialEq)]
pub enum SimpleCompilationError {
    /// The compiler could not be run, or the document not be written.
    Unexpected,
    /// The compiler refused the document, with this output.
    Message(String),
}

impl SimpleCompilationError {
    /// The text that tells a client of the error.
    pub fn into_message(self) -> (message: String)
        ensures
            match self {
                SimpleCompilationError::Unexpected => message@ == "UNKNOWN ERROR"@,
                SimpleCompilationError::Message(text) => message == text,
            },
    {
        match self {
            SimpleCompilationError::Unexpected => "UNKNOWN ERROR".to_owned(),
            SimpleCompilationError::Message(text) => text,
        }
    }
}

/// Where one compilation reads and writes, and the arguments of its
/// compiler.
#[derive(Debug, PartialEq)]
pub struct CompilationPlan {
    /// The file that the document is written to.
    pub input_path: String,
    /// The directory that the compiler writes to.
    pub output_dir: String,
    /// The arguments of the compiler.
    pub arguments: Vec<String>,
    /// The file that the compiled document is found in.
    pub document: String,
}

/// The file of the document with the number `id`.
pub open spec fn input_path_of(id: u32) -> Seq<char> {
    COMPILE_DIR@ + decimal(id as nat) + ".tex"@
}

/// The directory that the document with the number `id` is compiled into.
pub open spec fn output_dir_of(id: u32) -> Seq<char> {
    COMPILE_DIR@ + decimal(id as nat)
}

/// The file of the compiled document with the number `id`.
pub open spec fn document_of(id: u32) -> Seq<char> {
    output_dir_of(id) + "/"@ + decimal(id as nat) + ".pdf"@
}

/// `plan` is the plan for the document with the number `id`.
pub open spec fn plan_of(plan: CompilationPlan, id: u32) -> bool {
    &&& plan.input_path@ == input_path_of(id)
    &&& plan.output_dir@ == output_dir_of(id)
    &&& plan.document@ == document_of(id)
    &&& plan.arguments@.len() == 4
    &&& plan.arguments@[0]@ == "-outdir="@ + output_dir_of(id)
    &&& plan.arguments@[1]@ == "-pdf"@
    &&& plan.arguments@[2]@ == "-logfilewarninglist"@
    &&& plan.arguments@[3]@ == input_path_of(id)
}

/// The plan for the document with the number `rand_id`.
pub fn plan(rand_id: u32) -> (plan: CompilationPlan)
    ensures
        plan_of(plan, rand_id),
{
    let mut output_dir = COMPILE_DIR.to_owned();
    push_decimal(&mut output_dir, rand_id as u64);
    let mut input_path = output_dir.clone();
    input_path.append(".tex");
    let mut outdir = "-outdir=".to_owned();
    outdir.append(output_dir.as_str());
    let mut document = output_dir.clone();
    document.append("/");
    push_decimal(&mut document, rand_id as u64);
    document.append(".pdf");
    let mut arguments: Vec<String> = Vec::new();
    arguments.push(outdir);
    arguments.push("-pdf".to_owned());
    arguments.push("-logfilewarninglist".to_owned());
    arguments.push(input_path.clone());
    CompilationPlan { input_path, output_dir, arguments, document }
}

/// The result of a compilation whose compiler run came to `executed`: the
/// file `document` where the compiler succeeded, its output as the message
/// where it failed, and `Unexpected` where it could not be run.
pub fn compilation_result(executed: Result<String, ProcessExecutionError>, document: String) -> (result:
    Result<String, SimpleCompilationError>)
    ensures
        match executed {
            Ok(_) => result == Ok::<String, SimpleCompilationError>(document),
            Err(ProcessExecutionError::Unknown) => result == Err::<String, SimpleCompilationError>(
                SimpleCompilationError::Unexpected,
            ),
            Err(ProcessExecutionError::StatusError(_, message)) => result == Err::<
                String,
                SimpleCompilationError,
            >(SimpleCompilationError::Message(message)),
        },
{
    match executed {
        Err(ProcessExecutionError::Unknown) => Err(SimpleCompilationError::Unexpected),
        Err(ProcessExecutionError::StatusError(_, message)) => Err(
            SimpleCompilationError::Message(message),
        ),
        Ok(_) => Ok(document),
    }
}

} // verus!
