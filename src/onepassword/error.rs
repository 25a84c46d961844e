//! The failures of the secrets service.
use vstd::prelude::*;

verus! {

/// The failures of the secrets service.
#[derive(Debug)]
pub enum OnePasswordError {
    ResourceParsingFailed,
    ServiceUnavailable,
    Unknown { message: String },
}

impl OnePasswordError {
    pub fn new_resource_parsing_failed() -> (r: Self)
        ensures
            r is ResourceParsingFailed,
    {
        OnePasswordError::ResourceParsingFailed
    }

    pub fn new_service_unavailable() -> (r: Self)
        ensures
            r is ServiceUnavailable,
    {
        OnePasswordError::ServiceUnavailable
    }

    pub fn new_unknown(message: String) -> (r: Self)
        ensures
            r == (OnePasswordError::Unknown { message }),
    {
        OnePasswordError::Unknown { message }
    }

    /// The human-readable description of an error.
    pub open spec fn spec_message(&self) -> Seq<char> {
        match self {
            OnePasswordError::ResourceParsingFailed => "Resource parsing failed"@,
            OnePasswordError::ServiceUnavailable => "Service unavailable"@,
            OnePasswordError::Unknown { message } => "Unknown: "@ + message@,
        }
    }

    /// The human-readable description of an error.
    pub fn to_message(&self) -> (r: String)
        ensures
            r@ == self.spec_message(),
    {
        match self {
            OnePasswordError::ResourceParsingFailed => String::from_str("Resource parsing failed"),
            OnePasswordError::ServiceUnavailable => String::from_str("Service unavailable"),
            OnePasswordError::Unknown { message } => String::from_str("Unknown: ").concat(
                message.as_str(),
            ),
        }
    }
}

} // verus!
