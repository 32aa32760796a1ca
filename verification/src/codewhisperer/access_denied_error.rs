//! The error that says that the caller may not do what was asked.

use vstd::prelude::*;

use crate::codewhisperer::metadata::{
    build_error_text, error_code, error_message, error_request_id, request_id_of,
};
use crate::codewhisperer::types::AccessDeniedExceptionReason;
use crate::text::concat;
use crate::views::{referent, text_of, view_of};

verus! {

/// What the build error says of a message that was not set.
pub const MISSING_MESSAGE_DETAILS: &'static str =
    "message was not specified but it is required when building AccessDeniedError";

/// This error is returned when the caller does not have sufficient access
/// to perform the action.
#[derive(Debug, PartialEq)]
pub struct AccessDeniedError {
    pub message: String,
    /// Why access was denied.
    pub reason: Option<AccessDeniedExceptionReason>,
    pub meta: aws_smithy_types::error::ErrorMetadata,
}

impl Clone for AccessDeniedError {
    fn clone(&self) -> (r: Self)
        ensures
            r == *self,
    {
        AccessDeniedError {
            message: self.message.clone(),
            reason: self.reason,
            meta: self.meta.clone(),
        }
    }
}

impl AccessDeniedError {
    /// Why access was denied.
    pub fn reason(&self) -> (r: Option<&AccessDeniedExceptionReason>)
        ensures
            referent(r) == self.reason,
    {
        self.reason.as_ref()
    }

    /// The error message.
    pub fn message(&self) -> (r: &str)
        ensures
            r@ == self.message@,
    {
        self.message.as_str()
    }

    /// The text of the error: `AccessDeniedError: ` and the message.
    pub fn to_text(&self) -> (r: String)
        ensures
            r@ == "AccessDeniedError: "@ + self.message@,
    {
        concat("AccessDeniedError: ", self.message.as_str())
    }

    /// The metadata that came with the error.
    pub fn meta(&self) -> (r: &aws_smithy_types::error::ErrorMetadata)
        ensures
            *r == self.meta,
    {
        &self.meta
    }

    /// The identifier of the request that was refused, if the service gave
    /// one.
    pub fn request_id(&self) -> (r: Option<&str>)
        ensures
            text_of(r) == error_request_id(self.meta),
    {
        request_id_of(&self.meta)
    }

    /// A builder with nothing set.
    pub fn builder() -> (r: AccessDeniedErrorBuilder)
        ensures
            r.message is None,
            r.reason is None,
            r.meta is None,
    {
        AccessDeniedErrorBuilder::default()
    }
}

/// A builder for [`AccessDeniedError`].
#[derive(Debug, PartialEq)]
pub struct AccessDeniedErrorBuilder {
    pub message: Option<String>,
    pub reason: Option<AccessDeniedExceptionReason>,
    pub meta: Option<aws_smithy_types::error::ErrorMetadata>,
}

impl Default for AccessDeniedErrorBuilder {
    fn default() -> (r: Self)
        ensures
            r.message is None,
            r.reason is None,
            r.meta is None,
    {
        AccessDeniedErrorBuilder { message: None, reason: None, meta: None }
    }
}

impl AccessDeniedErrorBuilder {
    /// Sets the message. This field is required.
    pub fn message(self, input: &str) -> (r: Self)
        ensures
            view_of(r.message) == Some(input@),
            r.reason == self.reason,
            r.meta == self.meta,
    {
        AccessDeniedErrorBuilder {
            message: Some(input.to_owned()),
            reason: self.reason,
            meta: self.meta,
        }
    }

    /// Sets or clears the message.
    pub fn set_message(self, input: Option<String>) -> (r: Self)
        ensures
            r.message == input,
            r.reason == self.reason,
            r.meta == self.meta,
    {
        AccessDeniedErrorBuilder { message: input, reason: self.reason, meta: self.meta }
    }

    /// The message, if it was set.
    pub fn get_message(&self) -> (r: &Option<String>)
        ensures
            *r == self.message,
    {
        &self.message
    }

    /// Sets why access was denied.
    pub fn reason(self, input: AccessDeniedExceptionReason) -> (r: Self)
        ensures
            r.reason == Some(input),
            r.message == self.message,
            r.meta == self.meta,
    {
        AccessDeniedErrorBuilder { message: self.message, reason: Some(input), meta: self.meta }
    }

    /// Sets or clears why access was denied.
    pub fn set_reason(self, input: Option<AccessDeniedExceptionReason>) -> (r: Self)
        ensures
            r.reason == input,
            r.message == self.message,
            r.meta == self.meta,
    {
        AccessDeniedErrorBuilder { message: self.message, reason: input, meta: self.meta }
    }

    /// Why access was denied, if it was set.
    pub fn get_reason(&self) -> (r: &Option<AccessDeniedExceptionReason>)
        ensures
            *r == self.reason,
    {
        &self.reason
    }

    /// Sets the error metadata.
    pub fn meta(self, meta: aws_smithy_types::error::ErrorMetadata) -> (r: Self)
        ensures
            r.meta == Some(meta),
            r.message == self.message,
            r.reason == self.reason,
    {
        AccessDeniedErrorBuilder { message: self.message, reason: self.reason, meta: Some(meta) }
    }

    /// Sets or clears the error metadata.
    pub fn set_meta(&mut self, meta: Option<aws_smithy_types::error::ErrorMetadata>) -> (r:
        &mut Self)
        ensures
            *r == (AccessDeniedErrorBuilder {
                message: old(self).message,
                reason: old(self).reason,
                meta,
            }),
            *final(self) == *final(r),
    {
        self.meta = meta;
        self
    }

    /// Builds the error. This fails exactly when the message was not set,
    /// with the build error that names the field `message`. Metadata that
    /// was not set is the default metadata.
    pub fn build(self) -> (r: Result<
        AccessDeniedError,
        aws_smithy_types::error::operation::BuildError,
    >)
        ensures
            r is Ok <==> self.message is Some,
            r matches Err(e) ==> build_error_text(e) == "message"@ + " was missing: "@
                + MISSING_MESSAGE_DETAILS@,
            r matches Ok(error) ==> {
                &&& Some(error.message) == self.message
                &&& error.reason == self.reason
                &&& self.meta matches Some(meta) ==> error.meta == meta
                &&& self.meta is None ==> error_request_id(error.meta) is None
                    && error_code(error.meta) is None
                    && error_message(error.meta) is None
            },
    {
        let message = match self.message {
            Some(message) => message,
            None => {
                return Err(
                    aws_smithy_types::error::operation::BuildError::missing_field(
                        "message",
                        MISSING_MESSAGE_DETAILS,
                    ),
                );
            },
        };
        let meta = match self.meta {
            Some(meta) => meta,
            None => aws_smithy_types::error::ErrorMetadata::default(),
        };
        Ok(AccessDeniedError { message, reason: self.reason, meta })
    }
}

} // verus!
