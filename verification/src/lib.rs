//! A thin, verified client for a transactional-email HTTP API.
//!
//! The crate models the provider's wire envelope (one personalization with a
//! `to` list and an optional `cc` list, a `from` address, a subject, one
//! content block, and an optional scheduled send time), lets callers build it
//! up step by step, validates the required fields, and encodes the finished
//! request as the exact JSON body the provider expects. The HTTP POST itself
//! is left to the surrounding application; this crate prepares the request
//! body and interprets the response.

mod clock;
mod error;
mod json;
mod sendgrid;
mod serialize;

pub use error::RequiredField;
pub use error::SendgridError;
pub use json::lemma_escape_plain_text;
pub use json::spec_char_unescaped;
pub use json::spec_dec;
pub use json::spec_dec_digit;
pub use json::spec_escape;
pub use json::spec_escape_char;
pub use json::spec_hex_digit;
pub use sendgrid::lemma_content_type_last_wins;
pub use sendgrid::lemma_first_missing_is_missing;
pub use sendgrid::spec_field_missing;
pub use sendgrid::spec_first_missing;
pub use sendgrid::spec_new_model;
pub use sendgrid::spec_set_cc;
pub use sendgrid::spec_set_content_type;
pub use sendgrid::spec_set_send_at;
pub use sendgrid::spec_valid;
pub use sendgrid::Content;
pub use sendgrid::ContentType;
pub use sendgrid::EmailAddress;
pub use sendgrid::EmailModel;
pub use sendgrid::Personalization;
pub use sendgrid::SendgridEmail;
pub use serialize::lemma_json_omits_unset_optionals;
pub use serialize::lemma_new_request_json;
pub use serialize::serialize_email;
pub use serialize::spec_addr_list;
pub use serialize::spec_addr_obj;
pub use serialize::spec_cc_part;
pub use serialize::spec_content_type_or_default;
pub use serialize::spec_email_json;
pub use serialize::spec_send_at_part;

use crate::clock::unix_now;
use crate::json::append_u64;
use std::time::Duration;
use vstd::prelude::*;
use vstd::string::StringExecFns;

verus! {

/// A built, immutable email request: the fixed wire body, bound to the API
/// key, together with the schedule and the transport timeout chosen for it.
#[derive(Clone, Debug, PartialEq)]
#[must_use]
pub struct Sendgrid {
    pub api_key: String,
    pub send_at: Option<u64>,
    pub request_timeout: Option<Duration>,
    pub sendgrid_request_body: String,
}

/// Accumulates the fields of one email request; consumed by `build`.
#[derive(Clone, Debug, PartialEq)]
#[must_use]
pub struct SendgridBuilder {
    pub api_key: String,
    pub request_timeout: Option<Duration>,
    pub sendgrid_email: SendgridEmail,
}

impl SendgridBuilder {
    /// Starts a request with all required fields set: plain-text content
    /// until a content type is chosen, no CC list, no schedule and no
    /// transport timeout.
    pub fn new(
        api_key: &str,
        from_email: &str,
        to_emails: Vec<String>,
        email_subject: &str,
        email_body: &str,
    ) -> (b: SendgridBuilder)
        ensures
            b.api_key@ == api_key@,
            b.request_timeout is None,
            b.sendgrid_email.wf(),
            b.sendgrid_email@ == spec_new_model(
                from_email@,
                to_emails.deep_view(),
                email_subject@,
                email_body@,
            ),
    {
        let mut to: Vec<EmailAddress> = Vec::new();
        let mut i: usize = 0;
        while i < to_emails.len()
            invariant
                i <= to_emails@.len(),
                to@.len() == i,
                forall|j: int| 0 <= j < i ==> to@[j].email@ == to_emails@[j]@,
            decreases to_emails@.len() - i,
        {
            to.push(EmailAddress { email: to_emails[i].clone() });
            i = i + 1;
        }
        proof {
            assert(to.deep_view() =~= to_emails.deep_view());
        }
        let mut personalizations: Vec<Personalization> = Vec::new();
        personalizations.push(Personalization { to, cc: None });
        let mut content: Vec<Content> = Vec::new();
        content.push(
            Content {
                content_type: Some(String::from_str("text/plain")),
                value: email_body.to_owned(),
            },
        );
        SendgridBuilder {
            api_key: api_key.to_owned(),
            request_timeout: None,
            sendgrid_email: SendgridEmail {
                personalizations,
                from: EmailAddress { email: from_email.to_owned() },
                subject: email_subject.to_owned(),
                content,
                send_at: None,
            },
        }
    }

    /// Sets the CC list, replacing any list set before.
    pub fn set_cc_emails(self, cc_emails: Vec<String>) -> (b: SendgridBuilder)
        requires
            self.sendgrid_email.wf(),
        ensures
            b.api_key == self.api_key,
            b.request_timeout == self.request_timeout,
            b.sendgrid_email.wf(),
            b.sendgrid_email@ == spec_set_cc(self.sendgrid_email@, cc_emails.deep_view()),
    {
        let mut cc: Vec<EmailAddress> = Vec::new();
        let mut i: usize = 0;
        while i < cc_emails.len()
            invariant
                i <= cc_emails@.len(),
                cc@.len() == i,
                forall|j: int| 0 <= j < i ==> cc@[j].email@ == cc_emails@[j]@,
            decreases cc_emails@.len() - i,
        {
            cc.push(EmailAddress { email: cc_emails[i].clone() });
            i = i + 1;
        }
        proof {
            assert(cc.deep_view() =~= cc_emails.deep_view());
        }
        let mut email = self.sendgrid_email;
        let p = email.personalizations.remove(0);
        email.personalizations.push(Personalization { to: p.to, cc: Some(cc) });
        SendgridBuilder {
            api_key: self.api_key,
            request_timeout: self.request_timeout,
            sendgrid_email: email,
        }
    }

    /// Sets the content type, overwriting any type set before.
    pub fn set_content_type(self, content_type: ContentType) -> (b: SendgridBuilder)
        requires
            self.sendgrid_email.wf(),
        ensures
            b.api_key == self.api_key,
            b.request_timeout == self.request_timeout,
            b.sendgrid_email.wf(),
            b.sendgrid_email@ == spec_set_content_type(self.sendgrid_email@, content_type),
    {
        let mut email = self.sendgrid_email;
        let c = email.content.remove(0);
        email.content.push(
            Content { content_type: Some(content_type.mime().to_owned()), value: c.value },
        );
        SendgridBuilder {
            api_key: self.api_key,
            request_timeout: self.request_timeout,
            sendgrid_email: email,
        }
    }

    /// Sets the Unix timestamp at which the provider should send the email,
    /// overwriting any schedule set before. The timestamp is not checked
    /// against the clock here; whether it still lies ahead is decided at send
    /// time.
    pub fn set_send_at(self, send_at: u64) -> (b: SendgridBuilder)
        ensures
            b.api_key == self.api_key,
            b.request_timeout == self.request_timeout,
            self.sendgrid_email.wf() ==> b.sendgrid_email.wf(),
            b.sendgrid_email@ == spec_set_send_at(self.sendgrid_email@, send_at),
    {
        let mut b = self;
        b.sendgrid_email.send_at = Some(send_at);
        b
    }

    /// Sets the transport timeout for this request, overwriting any timeout
    /// set before. Without one, the transport's own default applies.
    pub fn set_request_timeout(self, request_timeout: Duration) -> (b: SendgridBuilder)
        ensures
            b.api_key == self.api_key,
            b.request_timeout == Some(request_timeout),
            b.sendgrid_email == self.sendgrid_email,
    {
        let mut b = self;
        b.request_timeout = Some(request_timeout);
        b
    }

    /// Validates the required fields and freezes the request. On success the
    /// wire body is fixed and bound to the API key; no further mutation is
    /// possible. On failure the error names the first missing field, checked
    /// in the order body, subject, recipients, sender.
    pub fn build(self) -> (r: Result<Sendgrid, SendgridError>)
        requires
            self.sendgrid_email.wf(),
        ensures
            r is Ok <==> spec_valid(self.sendgrid_email@),
            r matches Ok(s) ==> s.api_key == self.api_key && s.send_at
                == self.sendgrid_email@.send_at && s.request_timeout == self.request_timeout
                && s.sendgrid_request_body@ == spec_email_json(self.sendgrid_email@),
            r matches Err(e) ==> e == SendgridError::ValidationError(
                spec_first_missing(self.sendgrid_email@),
            ),
    {
        let email = &self.sendgrid_email;
        if email.content[0].value.as_str().is_empty() {
            Err(SendgridError::ValidationError(RequiredField::Body))
        } else if email.subject.as_str().is_empty() {
            Err(SendgridError::ValidationError(RequiredField::Subject))
        } else if email.personalizations[0].to.len() == 0 {
            Err(SendgridError::ValidationError(RequiredField::ToEmails))
        } else if email.from.email.as_str().is_empty() {
            Err(SendgridError::ValidationError(RequiredField::FromEmail))
        } else {
            let body = serialize_email(&self.sendgrid_email);
            Ok(
                Sendgrid {
                    api_key: self.api_key,
                    send_at: self.sendgrid_email.send_at,
                    request_timeout: self.request_timeout,
                    sendgrid_request_body: body,
                },
            )
        }
    }
}

/// The outcome message for an email accepted for immediate sending.
pub open spec fn spec_sent_message() -> Seq<char> {
    "Email successfully sent."@
}

/// The outcome message for an email scheduled for the future moment `t`.
pub open spec fn spec_scheduled_message(t: u64) -> Seq<char> {
    "Email successfully scheduled to be sent at "@ + spec_dec(t as nat) + "."@
}

/// The outcome of a successful send, as decided by the schedule and the wall
/// clock at call time: the scheduled message when `send_at` still lies
/// strictly ahead of `now`, the plain sent message otherwise.
pub open spec fn spec_outcome(send_at: Option<u64>, now: u64) -> Seq<char> {
    match send_at {
        Some(t) => if now < t {
            spec_scheduled_message(t)
        } else {
            spec_sent_message()
        },
        None => spec_sent_message(),
    }
}

/// Builds the plain sent-outcome message.
pub fn sent_message() -> (r: String)
    ensures
        r@ == spec_sent_message(),
{
    String::from_str("Email successfully sent.")
}

/// Builds the scheduled-outcome message for the timestamp `t`.
pub fn scheduled_message(t: u64) -> (r: String)
    ensures
        r@ == spec_scheduled_message(t),
{
    let r = String::from_str("Email successfully scheduled to be sent at ");
    let r = append_u64(r, t);
    r.concat(".")
}

/// Returns the outcome message for a successful send, given the schedule and
/// a wall-clock reading taken at call time.
pub fn outcome_message(send_at: Option<u64>, now: u64) -> (r: String)
    ensures
        r@ == spec_outcome(send_at, now),
{
    match send_at {
        Some(t) => if now < t {
            scheduled_message(t)
        } else {
            sent_message()
        },
        None => sent_message(),
    }
}

impl Sendgrid {
    /// Starts a request builder; same contract as `SendgridBuilder::new`.
    pub fn builder(
        api_key: &str,
        from_email: &str,
        to_emails: Vec<String>,
        email_subject: &str,
        email_body: &str,
    ) -> (b: SendgridBuilder)
        ensures
            b.api_key@ == api_key@,
            b.request_timeout is None,
            b.sendgrid_email.wf(),
            b.sendgrid_email@ == spec_new_model(
                from_email@,
                to_emails.deep_view(),
                email_subject@,
                email_body@,
            ),
    {
        SendgridBuilder::new(api_key, from_email, to_emails, email_subject, email_body)
    }

    /// Checks, at call time, whether this request is scheduled for a
    /// wall-clock moment still strictly ahead: if so, returns the
    /// scheduled-outcome message for the set timestamp; returns `None` when
    /// no schedule is set, when the moment has passed, or when the clock
    /// cannot be read.
    pub fn is_scheduled(&self) -> (r: Option<String>)
        ensures
            self.send_at is None ==> r is None,
            r matches Some(msg) ==> self.send_at matches Some(t) && msg@
                == spec_scheduled_message(t),
    {
        match self.send_at {
            Some(send_at) => match unix_now() {
                Some(current_time) => if current_time < send_at {
                    Some(scheduled_message(send_at))
                } else {
                    None
                },
                None => None,
            },
            None => None,
        }
    }

    /// Turns the transport's answer into the caller-visible outcome. A non-2xx
    /// answer becomes a `RequestError` carrying the response text verbatim,
    /// or a placeholder when the text could not be read. A 2xx answer yields
    /// the scheduled message when the request's schedule still lies ahead of
    /// the wall clock at call time, and the plain sent message otherwise.
    pub fn interpret_response(&self, success: bool, response_text: Option<String>) -> (r: Result<
        String,
        SendgridError,
    >)
        ensures
            success <==> r is Ok,
            !success ==> (r matches Err(e) && e matches SendgridError::RequestError(text) && (
            match response_text {
                Some(given) => text == given,
                None => text@ == "Error getting response text"@,
            })),
            success && self.send_at is None ==> (r matches Ok(msg) && msg@
                == spec_sent_message()),
            success ==> (r matches Ok(msg) && (msg@ == spec_sent_message() || (self.send_at matches
                Some(t) && msg@ == spec_scheduled_message(t)))),
    {
        if !success {
            match response_text {
                Some(text) => Err(SendgridError::RequestError(text)),
                None => Err(
                    SendgridError::RequestError(String::from_str("Error getting response text")),
                ),
            }
        } else {
            match self.is_scheduled() {
                Some(msg) => Ok(msg),
                None => Ok(sent_message()),
            }
        }
    }
}

} // verus!
