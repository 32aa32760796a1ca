//! What the gateway reads of the metadata that comes with a service error.

use vstd::prelude::*;

use crate::views::text_of;

verus! {

#[verifier::external_type_specification]
#[verifier::external_body]
pub struct ExErrorMetadata(aws_smithy_types::error::ErrorMetadata);

#[verifier::external_type_specification]
#[verifier::external_body]
pub struct ExBuildError(aws_smithy_types::error::operation::BuildError);

/// The error code that the metadata holds, if any.
pub uninterp spec fn error_code(meta: aws_smithy_types::error::ErrorMetadata) -> Option<Seq<char>>;

/// The error message that the metadata holds, if any.
pub uninterp spec fn error_message(meta: aws_smithy_types::error::ErrorMetadata) -> Option<
    Seq<char>,
>;

/// The request identifier that the metadata holds, if any.
pub uninterp spec fn error_request_id(meta: aws_smithy_types::error::ErrorMetadata) -> Option<
    Seq<char>,
>;

/// `ErrorMetadata::code` hands out the code that the metadata holds.
pub assume_specification[ aws_smithy_types::error::ErrorMetadata::code ](
    meta: &aws_smithy_types::error::ErrorMetadata,
) -> (r: Option<&str>)
    ensures
        text_of(r) == error_code(*meta),
;

/// `ErrorMetadata::message` hands out the message that the metadata holds.
pub assume_specification[ aws_smithy_types::error::ErrorMetadata::message ](
    meta: &aws_smithy_types::error::ErrorMetadata,
) -> (r: Option<&str>)
    ensures
        text_of(r) == error_message(*meta),
;

/// The default metadata holds no code, no message and no request
/// identifier.
pub assume_specification[ <aws_smithy_types::error::ErrorMetadata as Default>::default ]() -> (r:
    aws_smithy_types::error::ErrorMetadata)
    ensures
        error_code(r) is None,
        error_message(r) is None,
        error_request_id(r) is None,
;

/// Cloning metadata gives the same metadata.
pub assume_specification[ <aws_smithy_types::error::ErrorMetadata as Clone>::clone ](
    meta: &aws_smithy_types::error::ErrorMetadata,
) -> (r: aws_smithy_types::error::ErrorMetadata)
    ensures
        r == *meta,
;

/// What a build error reads as, by its `Display`.
pub uninterp spec fn build_error_text(error: aws_smithy_types::error::operation::BuildError) -> Seq<
    char,
>;

/// `BuildError::missing_field` makes the error for a field that was not
/// set, which reads as the field, ` was missing: ` and the details.
pub assume_specification[ aws_smithy_types::error::operation::BuildError::missing_field ](
    field: &'static str,
    details: &'static str,
) -> (r: aws_smithy_types::error::operation::BuildError)
    ensures
        build_error_text(r) == field@ + " was missing: "@ + details@,
;

/// The request identifier of the metadata, as the `RequestId` impl for
/// `ErrorMetadata` gives it: the extra field `aws_request_id`.
#[verifier::external_body]
pub(crate) fn request_id_of(meta: &aws_smithy_types::error::ErrorMetadata) -> (r: Option<&str>)
    ensures
        text_of(r) == error_request_id(*meta),
{
    aws_types::request_id::RequestId::request_id(meta)
}

} // verus!
