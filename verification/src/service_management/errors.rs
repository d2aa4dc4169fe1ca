//! The error every service-management operation reports to the desktop shell.
use vstd::prelude::*;
use vstd::string::*;

use crate::text::{concat3};

verus! {

/// An error with a stable machine-readable `code`, a human-readable
/// `message`, and the service and operation it concerns.
#[derive(Debug, Clone)]
pub struct ServiceManagementError {
    pub code: String,
    pub message: String,
    pub service_key: Option<String>,
    pub operation: Option<String>,
}

/// The mathematical content of a [`ServiceManagementError`].
pub struct ErrorView {
    pub code: Seq<char>,
    pub message: Seq<char>,
    pub service_key: Option<Seq<char>>,
    pub operation: Option<Seq<char>>,
}

impl View for ServiceManagementError {
    type V = ErrorView;

    open spec fn view(&self) -> ErrorView {
        ErrorView {
            code: self.code@,
            message: self.message@,
            service_key: self.service_key.deep_view(),
            operation: self.operation.deep_view(),
        }
    }
}

/// Message of an `unsupported_service` error.
pub open spec fn unsupported_service_message(service_key: Seq<char>) -> Seq<char> {
    "No service-management adapter is registered for `"@ + service_key + "`."@
}

/// An error that carries the given code, message, service and operation.
pub open spec fn error_with(
    code: Seq<char>,
    message: Seq<char>,
    service_key: Seq<char>,
    operation: Seq<char>,
) -> ErrorView {
    ErrorView {
        code,
        message,
        service_key: Some(service_key),
        operation: Some(operation),
    }
}

pub open spec fn invalid_input_error(
    service_key: Seq<char>,
    operation: Seq<char>,
    message: Seq<char>,
) -> ErrorView {
    error_with("invalid_input"@, message, service_key, operation)
}

pub open spec fn unsupported_operation_error(
    service_key: Seq<char>,
    operation: Seq<char>,
    message: Seq<char>,
) -> ErrorView {
    error_with("unsupported_operation"@, message, service_key, operation)
}

pub open spec fn not_found_error(
    service_key: Seq<char>,
    operation: Seq<char>,
    message: Seq<char>,
) -> ErrorView {
    error_with("not_found"@, message, service_key, operation)
}

pub open spec fn unsupported_service_error(service_key: Seq<char>) -> ErrorView {
    ErrorView {
        code: "unsupported_service"@,
        message: unsupported_service_message(service_key),
        service_key: Some(service_key),
        operation: None,
    }
}

/// The view of a text-or-error outcome.
pub open spec fn text_outcome(r: Result<String, ServiceManagementError>) -> Result<
    Seq<char>,
    ErrorView,
> {
    match r {
        Ok(s) => Ok(s@),
        Err(e) => Err(e@),
    }
}

impl ServiceManagementError {
    /// No adapter is registered for the service.
    pub fn unsupported_service(service_key: &str) -> (e: Self)
        ensures
            e@ == unsupported_service_error(service_key@),
    {
        ServiceManagementError {
            code: String::from_str("unsupported_service"),
            message: concat3("No service-management adapter is registered for `", service_key, "`."),
            service_key: Some(String::from_str(service_key)),
            operation: None,
        }
    }

    /// The service is known but the operation is not available for it.
    pub fn unsupported_operation(service_key: &str, operation: &str, message: &str) -> (e: Self)
        ensures
            e@ == unsupported_operation_error(service_key@, operation@, message@),
    {
        Self::with_code("unsupported_operation", service_key, operation, message)
    }

    /// The AWS client reported a failure; `error_text` is the client's description of it.
    pub fn client_error(service_key: &str, operation: &str, error_text: &str) -> (e: Self)
        ensures
            e@ == error_with("client_error"@, error_text@, service_key@, operation@),
    {
        Self::with_code("client_error", service_key, operation, error_text)
    }

    /// The request was rejected before any call was made.
    pub fn invalid_input(service_key: &str, operation: &str, message: &str) -> (e: Self)
        ensures
            e@ == invalid_input_error(service_key@, operation@, message@),
    {
        Self::with_code("invalid_input", service_key, operation, message)
    }

    /// The requested resource does not exist.
    pub fn not_found(service_key: &str, operation: &str, message: &str) -> (e: Self)
        ensures
            e@ == not_found_error(service_key@, operation@, message@),
    {
        Self::with_code("not_found", service_key, operation, message)
    }

    /// A value could not be serialized; `error_text` is the serializer's description.
    pub fn serialization_error(service_key: &str, operation: &str, error_text: &str) -> (e: Self)
        ensures
            e@ == error_with("serialization_error"@, error_text@, service_key@, operation@),
    {
        Self::with_code("serialization_error", service_key, operation, error_text)
    }

    fn with_code(code: &str, service_key: &str, operation: &str, message: &str) -> (e: Self)
        ensures
            e@ == error_with(code@, message@, service_key@, operation@),
    {
        ServiceManagementError {
            code: String::from_str(code),
            message: String::from_str(message),
            service_key: Some(String::from_str(service_key)),
            operation: Some(String::from_str(operation)),
        }
    }

    /// The text shown to the user: the message.
    pub fn to_display_string(&self) -> (s: String)
        ensures
            s@ == self.message@,
    {
        self.message.clone()
    }
}

} // verus!
