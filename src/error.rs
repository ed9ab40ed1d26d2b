//! The failures of a batch and of a single task.
use vstd::prelude::*;

verus! {

/// `std::io::Error`, carried through unread in `ProgramError::InputError`.
#[verifier::external_type_specification]
#[verifier::external_body]
pub struct ExIoError(std::io::Error);

/// Why a batch, or one task of it, failed.
#[derive(Debug)]
pub enum ProgramError {
    /// The directory holds a different number of video and subtitle files.
    MismatchError,
    /// The language code is not one of the supported codes; carries the code.
    LangError(String),
    /// The operator declined the proposed pairing.
    ExitError,
    /// Reading the directory, creating the output directory or starting a
    /// tool failed.
    InputError(std::io::Error),
    /// A tool ran and exited unsuccessfully; `code` is its exit code, if it
    /// had one.
    ToolError { program: String, code: Option<i32> },
}

/// `e` is the error for an unsupported language code `code`.
pub open spec fn is_lang_error(e: ProgramError, code: Seq<char>) -> bool {
    match e {
        ProgramError::LangError(c) => c@ == code,
        _ => false,
    }
}

/// `e` is the error for a tool `program` that exited with `code`.
pub open spec fn is_tool_error(e: ProgramError, program: Seq<char>, code: Option<i32>) -> bool {
    match e {
        ProgramError::ToolError { program: p, code: c } => p@ == program && c == code,
        _ => false,
    }
}

impl From<std::io::Error> for ProgramError {
    fn from(e: std::io::Error) -> (r: ProgramError)
        ensures
            r == ProgramError::InputError(e),
    {
        ProgramError::InputError(e)
    }
}

impl vstd::std_specs::convert::FromSpecImpl<std::io::Error> for ProgramError {
    open spec fn obeys_from_spec() -> bool {
        true
    }

    open spec fn from_spec(e: std::io::Error) -> ProgramError {
        ProgramError::InputError(e)
    }
}

} // verus!
