//! Why a chat link or a template payload was refused.
use vstd::prelude::*;
use base64::DecodeError;
use crate::chatlink::ChatLinkType;

verus! {

#[verifier::external_type_specification]
#[verifier::external_body]
pub struct ExDecodeError(DecodeError);

/// The ways in which reading a chat link can fail.
#[derive(Debug)]
pub enum ChatLinkError {
    /// The text is not of the form of a chat link.
    InvalidString,
    /// The text between the delimiters is not valid base64.
    InvalidBase64(DecodeError),
    /// The link decodes to no bytes at all.
    EmptyPayload,
    /// The first byte names no known link type.
    UnknownType(u8),
    /// The link is of another type than the one asked for.
    UnexpectedType { expected: ChatLinkType, found: ChatLinkType },
    /// A template payload does not have the length of its type; holds the payload.
    TruncatedData(Vec<u8>),
    /// A template payload marks slots as visible that the template type does not have.
    InvalidVisibility(u16),
}

} // verus!
