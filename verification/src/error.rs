//! The failures that an operation of the library reports.

use vstd::prelude::*;
use vstd::string::StringExecFns;

verus! {

/// Why an operation was refused.
#[derive(Debug, PartialEq, Eq)]
pub enum ReglError {
    /// A name or a source text holds a NUL byte, which would end it early for the
    /// hardware. The field is the position of the first one.
    NulError(usize),
    /// The hardware did not compile a shader. The field is its log.
    ShaderCompilationError(String),
    /// The hardware did not link a program. The field is its log.
    ProgramLinkingError(String),
    /// An update would write past the end of a buffer.
    BufferDataOutOfRange,
    /// A uniform of this type cannot be set from values of the kind given.
    UniformTypeMismatch,
    /// The number of values given is not what the uniform's type and count ask for.
    InvalidUniformValueCount,
}

impl ReglError {
    /// The sentence that `description` returns.
    pub open spec fn spec_description(&self) -> Seq<char> {
        match self {
            ReglError::NulError(_) => "Null byte encountered in unexpected place"@,
            ReglError::ShaderCompilationError(_) => "GLSL shader compilation failed"@,
            ReglError::ProgramLinkingError(_) => "GLSL shader program linking failed"@,
            ReglError::BufferDataOutOfRange => "Tried to update buffer data beyond buffer end"@,
            ReglError::UniformTypeMismatch => "Uniform type does not match the given values"@,
            ReglError::InvalidUniformValueCount => "Wrong number of values for the uniform"@,
        }
    }

    /// What `additional_message` returns.
    pub open spec fn spec_additional_message(&self) -> Option<Seq<char>> {
        match self {
            ReglError::NulError(_) => Some("nul byte found in data"@),
            ReglError::ShaderCompilationError(log) => Some(log@),
            ReglError::ProgramLinkingError(log) => Some(log@),
            ReglError::BufferDataOutOfRange => None,
            ReglError::UniformTypeMismatch => None,
            ReglError::InvalidUniformValueCount => None,
        }
    }

    /// The text that `message` returns.
    pub open spec fn spec_message(&self) -> Seq<char> {
        match self.spec_additional_message() {
            Some(additional) => "ReglError: "@ + self.spec_description() + "; "@ + additional,
            None => "ReglError: "@ + self.spec_description(),
        }
    }

    /// A sentence that names the kind of failure.
    pub fn description(&self) -> (text: &'static str)
        ensures
            text@ == self.spec_description(),
    {
        match self {
            ReglError::NulError(_) => "Null byte encountered in unexpected place",
            ReglError::ShaderCompilationError(_) => "GLSL shader compilation failed",
            ReglError::ProgramLinkingError(_) => "GLSL shader program linking failed",
            ReglError::BufferDataOutOfRange => "Tried to update buffer data beyond buffer end",
            ReglError::UniformTypeMismatch => "Uniform type does not match the given values",
            ReglError::InvalidUniformValueCount => "Wrong number of values for the uniform",
        }
    }

    /// The whole report: the description and, where the failure carries more, that
    /// after a semicolon.
    pub fn message(&self) -> (text: String)
        ensures
            text@ == self.spec_message(),
    {
        let mut text = String::from_str("ReglError: ");
        text.append(self.description());
        match additional_message(self) {
            Some(additional) => {
                text.append("; ");
                text.append(additional);
            },
            None => {},
        }
        text
    }
}

/// What a failure says beyond its kind: the hardware's log, where it has one.
pub fn additional_message(error: &ReglError) -> (text: Option<&str>)
    ensures
        text is Some == error.spec_additional_message() is Some,
        text matches Some(t) ==> Some(t@) == error.spec_additional_message(),
{
    match error {
        ReglError::NulError(_) => Some("nul byte found in data"),
        ReglError::ShaderCompilationError(log) => Some(log.as_str()),
        ReglError::ProgramLinkingError(log) => Some(log.as_str()),
        ReglError::BufferDataOutOfRange => None,
        ReglError::UniformTypeMismatch => None,
        ReglError::InvalidUniformValueCount => None,
    }
}

} // verus!
