//! The wire encoding of an envelope: the exact JSON body that is posted to
//! the provider, as a spec-level sequence and as a verified encoder.

use crate::json::append_escaped;
use crate::json::append_u64;
use crate::json::lemma_escape_plain_text;
use crate::json::spec_char_unescaped;
use crate::json::spec_dec;
use crate::json::spec_escape;
use crate::sendgrid::spec_new_model;
use crate::sendgrid::spec_valid;
use crate::sendgrid::EmailAddress;
use crate::sendgrid::EmailModel;
use crate::sendgrid::SendgridEmail;
use vstd::prelude::*;
use vstd::string::StringExecFns;

verus! {

/// One address object, as the envelope nests every address.
pub open spec fn spec_addr_obj(email: Seq<char>) -> Seq<char> {
    "{\"email\":\""@ + spec_escape(email) + "\"}"@
}

/// A comma-separated list of address objects, in the given order.
pub open spec fn spec_addr_list(emails: Seq<Seq<char>>) -> Seq<char>
    decreases emails.len(),
{
    if emails.len() == 0 {
        Seq::empty()
    } else if emails.len() == 1 {
        spec_addr_obj(emails[0])
    } else {
        spec_addr_list(emails.drop_last()) + ","@ + spec_addr_obj(emails.last())
    }
}

/// The `cc` member of the personalization object; entirely absent when no CC
/// list was set, never `null`.
pub open spec fn spec_cc_part(cc: Option<Seq<Seq<char>>>) -> Seq<char> {
    match cc {
        Some(emails) => ",\"cc\":["@ + spec_addr_list(emails) + "]"@,
        None => Seq::empty(),
    }
}

/// The `send_at` member of the envelope; entirely absent when no schedule was
/// set, never `null`.
pub open spec fn spec_send_at_part(send_at: Option<u64>) -> Seq<char> {
    match send_at {
        Some(t) => ",\"send_at\":"@ + spec_dec(t as nat),
        None => Seq::empty(),
    }
}

/// The content type that is written: the one that was set, or plain text when
/// none ever was.
pub open spec fn spec_content_type_or_default(content_type: Option<Seq<char>>) -> Seq<char> {
    match content_type {
        Some(mime) => mime,
        None => "text/plain"@,
    }
}

/// The JSON body posted to the provider for a given envelope model.
pub open spec fn spec_email_json(m: EmailModel) -> Seq<char> {
    "{\"personalizations\":[{\"to\":["@ + spec_addr_list(m.to) + "]"@ + spec_cc_part(m.cc)
        + "}],\"from\":{\"email\":\""@ + spec_escape(m.from) + "\"},\"subject\":\""@
        + spec_escape(m.subject) + "\",\"content\":[{\"type\":\""@ + spec_escape(
        spec_content_type_or_default(m.content_type),
    ) + "\",\"value\":\""@ + spec_escape(m.body) + "\"}]"@ + spec_send_at_part(m.send_at) + "}"@
}

/// A request with no CC list and no schedule set serializes with no `cc` and
/// no `send_at` member at all: the optional members are entirely absent from
/// the body, never written as `null`.
pub proof fn lemma_json_omits_unset_optionals(m: EmailModel)
    requires
        m.cc is None,
        m.send_at is None,
    ensures
        spec_email_json(m) == "{\"personalizations\":[{\"to\":["@ + spec_addr_list(m.to) + "]"@
            + "}],\"from\":{\"email\":\""@ + spec_escape(m.from) + "\"},\"subject\":\""@
            + spec_escape(m.subject) + "\",\"content\":[{\"type\":\""@ + spec_escape(
            spec_content_type_or_default(m.content_type),
        ) + "\",\"value\":\""@ + spec_escape(m.body) + "\"}]"@ + "}"@,
{
    let rhs = "{\"personalizations\":[{\"to\":["@ + spec_addr_list(m.to) + "]"@
        + "}],\"from\":{\"email\":\""@ + spec_escape(m.from) + "\"},\"subject\":\""@ + spec_escape(
        m.subject,
    ) + "\",\"content\":[{\"type\":\""@ + spec_escape(spec_content_type_or_default(m.content_type))
        + "\",\"value\":\""@ + spec_escape(m.body) + "\"}]"@ + "}"@;
    assert(spec_email_json(m) =~= rhs);
}

/// A request built from non-empty required fields passes validation, and its
/// wire body is exactly the documented shape around exactly those values: the
/// recipients in order, the sender, the subject, the default plain-text
/// content type and the body, with no optional members.
pub proof fn lemma_new_request_json(
    from: Seq<char>,
    to: Seq<Seq<char>>,
    subject: Seq<char>,
    body: Seq<char>,
)
    requires
        from.len() > 0,
        to.len() > 0,
        subject.len() > 0,
        body.len() > 0,
    ensures
        spec_valid(spec_new_model(from, to, subject, body)),
        spec_email_json(spec_new_model(from, to, subject, body))
            == "{\"personalizations\":[{\"to\":["@ + spec_addr_list(to) + "]"@
            + "}],\"from\":{\"email\":\""@ + spec_escape(from) + "\"},\"subject\":\""@
            + spec_escape(subject) + "\",\"content\":[{\"type\":\""@ + "text/plain"@
            + "\",\"value\":\""@ + spec_escape(body) + "\"}]"@ + "}"@,
{
    let m = spec_new_model(from, to, subject, body);
    lemma_json_omits_unset_optionals(m);
    reveal_strlit("text/plain");
    assert(forall|i: int|
        0 <= i < "text/plain"@.len() ==> spec_char_unescaped(#[trigger] "text/plain"@[i]));
    lemma_escape_plain_text("text/plain"@);
}

/// Appends one address object to `out`.
fn append_addr_obj(out: String, addr: &EmailAddress) -> (r: String)
    ensures
        r@ == out@ + spec_addr_obj(addr@),
{
    let mut r = out.concat("{\"email\":\"");
    r = append_escaped(r, addr.email.as_str());
    let r = r.concat("\"}");
    proof {
        assert(r@ =~= out@ + spec_addr_obj(addr@));
    }
    r
}

/// Appends the comma-separated address list to `out`.
fn append_addr_list(out: String, addrs: &Vec<EmailAddress>) -> (r: String)
    ensures
        r@ == out@ + spec_addr_list(addrs.deep_view()),
{
    let ghost orig: Seq<char> = out@;
    let ghost emails: Seq<Seq<char>> = addrs.deep_view();
    let mut r = out;
    proof {
        assert(orig + spec_addr_list(emails.take(0)) =~= orig);
    }
    let mut i: usize = 0;
    while i < addrs.len()
        invariant
            emails == addrs.deep_view(),
            emails.len() == addrs@.len(),
            i <= addrs@.len(),
            r@ == orig + spec_addr_list(emails.take(i as int)),
        decreases addrs@.len() - i,
    {
        if i > 0 {
            r = r.concat(",");
        }
        r = append_addr_obj(r, &addrs[i]);
        proof {
            assert(emails.take(i + 1 as int).drop_last() =~= emails.take(i as int));
            assert(emails.take(i + 1 as int).last() == emails[i as int]);
            assert(r@ =~= orig + spec_addr_list(emails.take(i + 1 as int)));
        }
        i = i + 1;
    }
    proof {
        assert(emails.take(addrs@.len() as int) =~= emails);
    }
    r
}

/// Encodes a well-formed envelope as the exact JSON body that is posted:
/// the singleton `personalizations` and `content` arrays, the `cc` and
/// `send_at` members only when they were set, and plain text as the content
/// type when none was chosen.
pub fn serialize_email(email: &SendgridEmail) -> (r: String)
    requires
        email.wf(),
    ensures
        r@ == spec_email_json(email@),
{
    let ghost m: EmailModel = email@;
    let mut r = String::from_str("{\"personalizations\":[{\"to\":[");
    let p = &email.personalizations[0];
    r = append_addr_list(r, &p.to);
    r = r.concat("]");
    match &p.cc {
        Some(cc) => {
            r = r.concat(",\"cc\":[");
            r = append_addr_list(r, cc);
            r = r.concat("]");
        },
        None => {},
    }
    proof {
        assert(r@ =~= "{\"personalizations\":[{\"to\":["@ + spec_addr_list(m.to) + "]"@
            + spec_cc_part(m.cc));
    }
    r = r.concat("}],\"from\":{\"email\":\"");
    r = append_escaped(r, email.from.email.as_str());
    r = r.concat("\"},\"subject\":\"");
    r = append_escaped(r, email.subject.as_str());
    r = r.concat("\",\"content\":[{\"type\":\"");
    match &email.content[0].content_type {
        Some(mime) => {
            r = append_escaped(r, mime.as_str());
        },
        None => {
            r = append_escaped(r, "text/plain");
        },
    }
    r = r.concat("\",\"value\":\"");
    r = append_escaped(r, email.content[0].value.as_str());
    r = r.concat("\"}]");
    proof {
        assert(r@ =~= "{\"personalizations\":[{\"to\":["@ + spec_addr_list(m.to) + "]"@
            + spec_cc_part(m.cc) + "}],\"from\":{\"email\":\""@ + spec_escape(m.from)
            + "\"},\"subject\":\""@ + spec_escape(m.subject) + "\",\"content\":[{\"type\":\""@
            + spec_escape(spec_content_type_or_default(m.content_type)) + "\",\"value\":\""@
            + spec_escape(m.body) + "\"}]"@);
    }
    match email.send_at {
        Some(t) => {
            r = r.concat(",\"send_at\":");
            r = append_u64(r, t);
        },
        None => {},
    }
    let r = r.concat("}");
    proof {
        assert(r@ =~= spec_email_json(m));
    }
    r
}

} // verus!
