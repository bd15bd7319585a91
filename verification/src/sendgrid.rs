//! The provider's wire envelope: the data that one email request carries,
//! together with its mathematical model.

use crate::error::RequiredField;
use vstd::prelude::*;
use vstd::string::StringExecFns;

verus! {

/// The content type of the email body.
#[derive(Clone, Copy, Debug, PartialEq, Eq, Structural)]
pub enum ContentType {
    Text,
    Html,
}

impl ContentType {
    /// The MIME string this content type serializes to.
    pub open spec fn spec_mime(self) -> Seq<char> {
        match self {
            ContentType::Text => "text/plain"@,
            ContentType::Html => "text/html"@,
        }
    }

    /// Returns the MIME string this content type serializes to.
    pub fn mime(&self) -> (r: &'static str)
        ensures
            r@ == self.spec_mime(),
    {
        match self {
            ContentType::Text => "text/plain",
            ContentType::Html => "text/html",
        }
    }
}

/// A single email address, wrapped the way the provider's envelope nests it.
#[derive(Clone, Debug, PartialEq, Eq)]
pub struct EmailAddress {
    pub email: String,
}

impl View for EmailAddress {
    type V = Seq<char>;

    open spec fn view(&self) -> Seq<char> {
        self.email@
    }
}

impl DeepView for EmailAddress {
    type V = Seq<char>;

    open spec fn deep_view(&self) -> Seq<char> {
        self.email@
    }
}

/// One recipient grouping: the `to` list and an optional `cc` list.
#[derive(Clone, Debug, PartialEq, Eq)]
pub struct Personalization {
    pub to: Vec<EmailAddress>,
    pub cc: Option<Vec<EmailAddress>>,
}

/// One renderable version of the message: a MIME type and the body text.
#[derive(Clone, Debug, PartialEq, Eq)]
pub struct Content {
    pub content_type: Option<String>,
    pub value: String,
}

/// The envelope that is ultimately serialized and posted to the provider.
///
/// A well-formed envelope holds exactly one `Personalization` and exactly one
/// `Content` block; the wire format nevertheless writes both as arrays, which
/// is why the fields are sequences.
#[derive(Clone, Debug, PartialEq, Eq)]
pub struct SendgridEmail {
    pub personalizations: Vec<Personalization>,
    pub from: EmailAddress,
    pub subject: String,
    pub content: Vec<Content>,
    pub send_at: Option<u64>,
}

/// The mathematical model of an envelope: every string as a sequence of
/// characters, with the two singleton arrays flattened away.
pub ghost struct EmailModel {
    pub to: Seq<Seq<char>>,
    pub cc: Option<Seq<Seq<char>>>,
    pub from: Seq<char>,
    pub subject: Seq<char>,
    pub content_type: Option<Seq<char>>,
    pub body: Seq<char>,
    pub send_at: Option<u64>,
}

impl View for SendgridEmail {
    type V = EmailModel;

    open spec fn view(&self) -> EmailModel {
        EmailModel {
            to: self.personalizations@[0].to.deep_view(),
            cc: match self.personalizations@[0].cc {
                Some(cc) => Some(cc.deep_view()),
                None => None,
            },
            from: self.from.email@,
            subject: self.subject@,
            content_type: match self.content@[0].content_type {
                Some(mime) => Some(mime@),
                None => None,
            },
            body: self.content@[0].value@,
            send_at: self.send_at,
        }
    }
}

impl SendgridEmail {
    /// The envelope's structural invariant: exactly one personalization and
    /// exactly one content block.
    pub open spec fn wf(self) -> bool {
        self.personalizations@.len() == 1 && self.content@.len() == 1
    }
}

impl Default for SendgridEmail {
    /// The empty skeleton an envelope starts from: one personalization with a
    /// single empty recipient address, one plain-text content block with an
    /// empty body, and no optional field set.
    fn default() -> (d: SendgridEmail)
        ensures
            d.wf(),
            d@ == (EmailModel {
                to: seq![Seq::<char>::empty()],
                cc: None,
                from: Seq::<char>::empty(),
                subject: Seq::<char>::empty(),
                content_type: Some("text/plain"@),
                body: Seq::<char>::empty(),
                send_at: None,
            }),
    {
        let mut to: Vec<EmailAddress> = Vec::new();
        to.push(EmailAddress { email: String::new() });
        let mut personalizations: Vec<Personalization> = Vec::new();
        personalizations.push(Personalization { to, cc: None });
        let mut content: Vec<Content> = Vec::new();
        content.push(
            Content { content_type: Some(String::from_str("text/plain")), value: String::new() },
        );
        let d = SendgridEmail {
            personalizations,
            from: EmailAddress { email: String::new() },
            subject: String::new(),
            content,
            send_at: None,
        };
        proof {
            assert(d@.to =~= seq![Seq::<char>::empty()]);
        }
        d
    }
}

/// The model of a fresh request: the given required fields, plain-text
/// content, no CC list and no schedule.
pub open spec fn spec_new_model(
    from: Seq<char>,
    to: Seq<Seq<char>>,
    subject: Seq<char>,
    body: Seq<char>,
) -> EmailModel {
    EmailModel {
        to,
        cc: None,
        from,
        subject,
        content_type: Some("text/plain"@),
        body,
        send_at: None,
    }
}

/// Replaces the CC list; every other field is kept.
pub open spec fn spec_set_cc(m: EmailModel, cc: Seq<Seq<char>>) -> EmailModel {
    EmailModel { cc: Some(cc), ..m }
}

/// Overwrites the content type; every other field is kept.
pub open spec fn spec_set_content_type(m: EmailModel, content_type: ContentType) -> EmailModel {
    EmailModel { content_type: Some(content_type.spec_mime()), ..m }
}

/// Overwrites the scheduled send time; every other field is kept.
pub open spec fn spec_set_send_at(m: EmailModel, send_at: u64) -> EmailModel {
    EmailModel { send_at: Some(send_at), ..m }
}

/// A request is valid when the body, the subject and the sender address are
/// non-empty and at least one recipient is present.
pub open spec fn spec_valid(m: EmailModel) -> bool {
    m.body.len() > 0 && m.subject.len() > 0 && m.to.len() > 0 && m.from.len() > 0
}

/// Whether the given required field is missing from the model.
pub open spec fn spec_field_missing(m: EmailModel, f: RequiredField) -> bool {
    match f {
        RequiredField::Body => m.body.len() == 0,
        RequiredField::Subject => m.subject.len() == 0,
        RequiredField::ToEmails => m.to.len() == 0,
        RequiredField::FromEmail => m.from.len() == 0,
    }
}

/// The first missing required field, in the order the build step checks them:
/// body, subject, recipients, sender.
pub open spec fn spec_first_missing(m: EmailModel) -> RequiredField {
    if m.body.len() == 0 {
        RequiredField::Body
    } else if m.subject.len() == 0 {
        RequiredField::Subject
    } else if m.to.len() == 0 {
        RequiredField::ToEmails
    } else {
        RequiredField::FromEmail
    }
}

/// Of two content-type settings, only the last one shows in the model, and
/// hence in the wire body: setting the type twice is the same as setting it
/// once to the second value.
pub proof fn lemma_content_type_last_wins(m: EmailModel, first: ContentType, second: ContentType)
    ensures
        spec_set_content_type(spec_set_content_type(m, first), second) == spec_set_content_type(
            m,
            second,
        ),
{
}

/// An invalid request always has its first missing field actually missing:
/// the field a validation error names is a field the caller left empty.
pub proof fn lemma_first_missing_is_missing(m: EmailModel)
    requires
        !spec_valid(m),
    ensures
        spec_field_missing(m, spec_first_missing(m)),
{
}

} // verus!
