//! Error values returned by the email request builder and the send flow.

use vstd::prelude::*;
use vstd::string::StringExecFns;

verus! {

/// A required field of an email request, as named by a validation failure.
#[derive(Clone, Copy, Debug, PartialEq, Eq, Structural)]
pub enum RequiredField {
    Body,
    Subject,
    ToEmails,
    FromEmail,
}

impl RequiredField {
    /// The field's name as it appears in error messages.
    pub open spec fn spec_name(self) -> Seq<char> {
        match self {
            RequiredField::Body => "body"@,
            RequiredField::Subject => "subject"@,
            RequiredField::ToEmails => "to emails"@,
            RequiredField::FromEmail => "from email"@,
        }
    }

    /// Returns the field's name.
    pub fn name(&self) -> (r: &'static str)
        ensures
            r@ == self.spec_name(),
    {
        match self {
            RequiredField::Body => "body",
            RequiredField::Subject => "subject",
            RequiredField::ToEmails => "to emails",
            RequiredField::FromEmail => "from email",
        }
    }
}

/// An error raised while building or sending an email request.
#[derive(Clone, Debug, PartialEq)]
pub enum SendgridError {
    /// The transport failed or the provider answered outside the 2xx range;
    /// carries the response text when it could be read.
    RequestError(String),
    /// A required field was empty when the request was built.
    ValidationError(RequiredField),
    /// The envelope could not be encoded. This crate's own encoder is total,
    /// so the crate never returns this variant; it is kept so that callers
    /// can match the full error taxonomy.
    SerializationError(String),
    /// An error built from caller-supplied text.
    CustomError(String),
}

impl SendgridError {
    /// The human-readable text of the error.
    pub open spec fn spec_message(self) -> Seq<char> {
        match self {
            SendgridError::RequestError(text) => text@,
            SendgridError::ValidationError(field) => "missing required field: "@ + field.spec_name(),
            SendgridError::SerializationError(text) => text@,
            SendgridError::CustomError(text) => text@,
        }
    }

    /// Returns the human-readable text of the error. For a `RequestError`
    /// this is the provider's response text, verbatim.
    pub fn message(&self) -> (r: String)
        ensures
            r@ == self.spec_message(),
    {
        match self {
            SendgridError::RequestError(text) => text.clone(),
            SendgridError::ValidationError(field) => {
                let mut out = String::from_str("missing required field: ");
                out.append(field.name());
                out
            },
            SendgridError::SerializationError(text) => text.clone(),
            SendgridError::CustomError(text) => text.clone(),
        }
    }

    /// Wraps caller-supplied text as an error value.
    pub fn new_custom_error(msg: &str) -> (r: SendgridError)
        ensures
            r matches SendgridError::CustomError(text) && text@ == msg@,
    {
        SendgridError::CustomError(msg.to_owned())
    }
}

} // verus!
