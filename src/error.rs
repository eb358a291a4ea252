use vstd::prelude::*;

verus! {

#[verifier::external_type_specification]
#[verifier::external_body]
pub struct ExAnyhowError(anyhow::Error);

/// Relies on `anyhow::Error::msg`, which wraps the message as an error whose
/// display is the message; nothing is claimed of the value here.
#[verifier::external_body]
fn error_from_message(message: &'static str) -> (r: anyhow::Error) {
    anyhow::Error::msg(message)
}

/// An error that the application cannot carry on from.
#[derive(Debug)]
pub enum KoyoteError {
    /// Quit the program with the given exit code.
    Fatal { error: anyhow::Error, exit_code: i32 },
}

impl KoyoteError {
    pub open spec fn spec_exit_code(&self) -> i32 {
        match self {
            KoyoteError::Fatal { exit_code, .. } => *exit_code,
        }
    }

    pub fn fatal(error: anyhow::Error) -> (r: KoyoteError)
        ensures
            r == (KoyoteError::Fatal { error, exit_code: 1 }),
    {
        KoyoteError::Fatal { error, exit_code: 1 }
    }

    pub fn fatal_with_code(error: anyhow::Error, exit_code: i32) -> (r: KoyoteError)
        ensures
            r == (KoyoteError::Fatal { error, exit_code }),
    {
        KoyoteError::Fatal { error, exit_code }
    }

    pub fn fatal_str(message: &'static str) -> (r: KoyoteError)
        ensures
            r.spec_exit_code() == 1,
    {
        KoyoteError::Fatal { error: error_from_message(message), exit_code: 1 }
    }

    pub fn fatal_str_with_code(message: &'static str, exit_code: i32) -> (r: KoyoteError)
        ensures
            r.spec_exit_code() == exit_code,
    {
        KoyoteError::Fatal { error: error_from_message(message), exit_code }
    }

    /// The code that the process ends with.
    pub fn exit_code(&self) -> (r: i32)
        ensures
            r == self.spec_exit_code(),
    {
        match self {
            KoyoteError::Fatal { exit_code, .. } => *exit_code,
        }
    }
}

} // verus!
