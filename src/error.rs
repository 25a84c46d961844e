//! The failures a resource fetch reports, and how they are described.
use vstd::prelude::*;

use crate::config::UrlResourceProviderKind;

verus! {

/// The kinds of failure a resource fetch can report.
///
/// Both successes and failures are cached, so a value of this type may be
/// handed to many callers.
#[derive(Debug, PartialEq, Eq)]
pub enum UrlResourceError {
    FailedPrecondition { message: String },
    ResourceAccessDenied { message: String },
    ResourceNotFound { message: String },
    ResourceReadError { message: String },
    ServiceUnavailable { message: String },
    Unknown { message: String },
    UnsupportedProvider { kind: UrlResourceProviderKind },
    UnsupportedScheme { scheme: String },
}

impl Clone for UrlResourceError {
    fn clone(&self) -> (r: Self)
        ensures
            r == *self,
    {
        match self {
            UrlResourceError::FailedPrecondition { message } => UrlResourceError::FailedPrecondition {
                message: message.clone(),
            },
            UrlResourceError::ResourceAccessDenied { message } => UrlResourceError::ResourceAccessDenied {
                message: message.clone(),
            },
            UrlResourceError::ResourceNotFound { message } => UrlResourceError::ResourceNotFound {
                message: message.clone(),
            },
            UrlResourceError::ResourceReadError { message } => UrlResourceError::ResourceReadError {
                message: message.clone(),
            },
            UrlResourceError::ServiceUnavailable { message } => UrlResourceError::ServiceUnavailable {
                message: message.clone(),
            },
            UrlResourceError::Unknown { message } => UrlResourceError::Unknown {
                message: message.clone(),
            },
            UrlResourceError::UnsupportedProvider { kind } => UrlResourceError::UnsupportedProvider {
                kind: *kind,
            },
            UrlResourceError::UnsupportedScheme { scheme } => UrlResourceError::UnsupportedScheme {
                scheme: scheme.clone(),
            },
        }
    }
}

/// The kind of a [`UrlResourceError`], without its details.
#[derive(Clone, Copy, Debug, PartialEq, Eq)]
pub enum UrlResourceErrorReason {
    FailedPrecondition,
    ResourceAccessDenied,
    ResourceNotFound,
    ResourceReadError,
    ServiceUnavailable,
    Unknown,
    UnsupportedProvider,
    UnsupportedScheme,
}

impl UrlResourceErrorReason {
    /// The screaming-snake-case code of a reason.
    pub open spec fn spec_code(self) -> Seq<char> {
        match self {
            UrlResourceErrorReason::FailedPrecondition => "FAILED_PRECONDITION"@,
            UrlResourceErrorReason::ResourceAccessDenied => "RESOURCE_ACCESS_DENIED"@,
            UrlResourceErrorReason::ResourceNotFound => "RESOURCE_NOT_FOUND"@,
            UrlResourceErrorReason::ResourceReadError => "RESOURCE_READ_ERROR"@,
            UrlResourceErrorReason::ServiceUnavailable => "SERVICE_UNAVAILABLE"@,
            UrlResourceErrorReason::Unknown => "UNKNOWN"@,
            UrlResourceErrorReason::UnsupportedProvider => "UNSUPPORTED_PROVIDER"@,
            UrlResourceErrorReason::UnsupportedScheme => "UNSUPPORTED_SCHEME"@,
        }
    }

    pub fn as_str(&self) -> (r: &'static str)
        ensures
            r@ == self.spec_code(),
    {
        match self {
            UrlResourceErrorReason::FailedPrecondition => "FAILED_PRECONDITION",
            UrlResourceErrorReason::ResourceAccessDenied => "RESOURCE_ACCESS_DENIED",
            UrlResourceErrorReason::ResourceNotFound => "RESOURCE_NOT_FOUND",
            UrlResourceErrorReason::ResourceReadError => "RESOURCE_READ_ERROR",
            UrlResourceErrorReason::ServiceUnavailable => "SERVICE_UNAVAILABLE",
            UrlResourceErrorReason::Unknown => "UNKNOWN",
            UrlResourceErrorReason::UnsupportedProvider => "UNSUPPORTED_PROVIDER",
            UrlResourceErrorReason::UnsupportedScheme => "UNSUPPORTED_SCHEME",
        }
    }
}

impl UrlResourceError {
    /// The domain under which the errors of this library are reported.
    pub const DOMAIN: &'static str = "com.appbiotic.data.url-resource";

    pub open spec fn spec_reason(&self) -> UrlResourceErrorReason {
        match self {
            UrlResourceError::FailedPrecondition { .. } => UrlResourceErrorReason::FailedPrecondition,
            UrlResourceError::ResourceAccessDenied { .. } => UrlResourceErrorReason::ResourceAccessDenied,
            UrlResourceError::ResourceNotFound { .. } => UrlResourceErrorReason::ResourceNotFound,
            UrlResourceError::ResourceReadError { .. } => UrlResourceErrorReason::ResourceReadError,
            UrlResourceError::ServiceUnavailable { .. } => UrlResourceErrorReason::ServiceUnavailable,
            UrlResourceError::Unknown { .. } => UrlResourceErrorReason::Unknown,
            UrlResourceError::UnsupportedProvider { .. } => UrlResourceErrorReason::UnsupportedProvider,
            UrlResourceError::UnsupportedScheme { .. } => UrlResourceErrorReason::UnsupportedScheme,
        }
    }

    /// The human-readable description of an error.
    pub open spec fn spec_message(&self) -> Seq<char> {
        match self {
            UrlResourceError::FailedPrecondition { message } => "Failed precondition: "@ + message@,
            UrlResourceError::ResourceAccessDenied { message } => "Denied access to resource: "@ + message@,
            UrlResourceError::ResourceNotFound { message } => "Resource not found: "@ + message@,
            UrlResourceError::ResourceReadError { message } => "Error resource: "@ + message@,
            UrlResourceError::ServiceUnavailable { message } => "Service unavailable: "@ + message@,
            UrlResourceError::Unknown { message } => "Unknown: "@ + message@,
            UrlResourceError::UnsupportedProvider { kind } => "Unsupported UrlResourceProvider kind `"@
                + kind.spec_name() + "`"@,
            UrlResourceError::UnsupportedScheme { scheme } => "URL scheme `"@ + scheme@
                + "` not supported"@,
        }
    }

    pub fn reason(&self) -> (r: UrlResourceErrorReason)
        ensures
            r == self.spec_reason(),
    {
        match self {
            UrlResourceError::FailedPrecondition { .. } => UrlResourceErrorReason::FailedPrecondition,
            UrlResourceError::ResourceAccessDenied { .. } => UrlResourceErrorReason::ResourceAccessDenied,
            UrlResourceError::ResourceNotFound { .. } => UrlResourceErrorReason::ResourceNotFound,
            UrlResourceError::ResourceReadError { .. } => UrlResourceErrorReason::ResourceReadError,
            UrlResourceError::ServiceUnavailable { .. } => UrlResourceErrorReason::ServiceUnavailable,
            UrlResourceError::Unknown { .. } => UrlResourceErrorReason::Unknown,
            UrlResourceError::UnsupportedProvider { .. } => UrlResourceErrorReason::UnsupportedProvider,
            UrlResourceError::UnsupportedScheme { .. } => UrlResourceErrorReason::UnsupportedScheme,
        }
    }

    /// The human-readable description of an error.
    pub fn to_message(&self) -> (r: String)
        ensures
            r@ == self.spec_message(),
    {
        match self {
            UrlResourceError::FailedPrecondition { message } => {
                String::from_str("Failed precondition: ").concat(message.as_str())
            },
            UrlResourceError::ResourceAccessDenied { message } => {
                String::from_str("Denied access to resource: ").concat(message.as_str())
            },
            UrlResourceError::ResourceNotFound { message } => {
                String::from_str("Resource not found: ").concat(message.as_str())
            },
            UrlResourceError::ResourceReadError { message } => {
                String::from_str("Error resource: ").concat(message.as_str())
            },
            UrlResourceError::ServiceUnavailable { message } => {
                String::from_str("Service unavailable: ").concat(message.as_str())
            },
            UrlResourceError::Unknown { message } => {
                String::from_str("Unknown: ").concat(message.as_str())
            },
            UrlResourceError::UnsupportedProvider { kind } => {
                String::from_str("Unsupported UrlResourceProvider kind `").concat(
                    kind.as_str(),
                ).concat("`")
            },
            UrlResourceError::UnsupportedScheme { scheme } => {
                String::from_str("URL scheme `").concat(scheme.as_str()).concat("` not supported")
            },
        }
    }

    pub fn new_failed_precondition(message: String) -> (r: Self)
        ensures
            r == (UrlResourceError::FailedPrecondition { message }),
    {
        UrlResourceError::FailedPrecondition { message }
    }

    pub fn new_resource_access_denied(message: String) -> (r: Self)
        ensures
            r == (UrlResourceError::ResourceAccessDenied { message }),
    {
        UrlResourceError::ResourceAccessDenied { message }
    }

    pub fn new_resource_not_found(message: String) -> (r: Self)
        ensures
            r == (UrlResourceError::ResourceNotFound { message }),
    {
        UrlResourceError::ResourceNotFound { message }
    }

    pub fn new_resource_read_error(message: String) -> (r: Self)
        ensures
            r == (UrlResourceError::ResourceReadError { message }),
    {
        UrlResourceError::ResourceReadError { message }
    }

    pub fn new_service_unavailable(message: String) -> (r: Self)
        ensures
            r == (UrlResourceError::ServiceUnavailable { message }),
    {
        UrlResourceError::ServiceUnavailable { message }
    }

    pub fn new_unknown(message: String) -> (r: Self)
        ensures
            r == (UrlResourceError::Unknown { message }),
    {
        UrlResourceError::Unknown { message }
    }

    pub fn new_unsupported_provider(kind: UrlResourceProviderKind) -> (r: Self)
        ensures
            r == (UrlResourceError::UnsupportedProvider { kind }),
    {
        UrlResourceError::UnsupportedProvider { kind }
    }

    pub fn new_unsupported_scheme(scheme: String) -> (r: Self)
        ensures
            r == (UrlResourceError::UnsupportedScheme { scheme }),
    {
        UrlResourceError::UnsupportedScheme { scheme }
    }
}

/// A list of error reports, as handed to a caller that wants them all.
#[derive(Debug)]
pub struct UrlResourceErrorReports {
    pub errors: Vec<UrlResourceErrorReport>,
}

/// An error as a code and a message.
#[derive(Debug)]
pub struct UrlResourceErrorReport {
    pub code: String,
    pub message: String,
}

impl UrlResourceErrorReports {
    /// A list that holds one report.
    pub fn from(value: UrlResourceErrorReport) -> (r: Self)
        ensures
            r.errors@ == seq![value],
    {
        UrlResourceErrorReports { errors: vec![value] }
    }
}

impl UrlResourceErrorReport {
    /// The report of an error: its reason's code and its message.
    pub fn from(value: UrlResourceError) -> (r: Self)
        ensures
            r.code@ == value.spec_reason().spec_code(),
            r.message@ == value.spec_message(),
    {
        let code = String::from_str(value.reason().as_str());
        let message = value.to_message();
        UrlResourceErrorReport { code, message }
    }
}

} // verus!
