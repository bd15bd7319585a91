use sendgrid_thin::serialize_email;
use sendgrid_thin::Content;
use sendgrid_thin::ContentType;
use sendgrid_thin::EmailAddress;
use sendgrid_thin::Personalization;
use sendgrid_thin::RequiredField;
use sendgrid_thin::SendgridBuilder;
use sendgrid_thin::SendgridEmail;
use sendgrid_thin::SendgridError;

#[test]
fn baseline_request_serializes_to_documented_shape() {
    let sendgrid = SendgridBuilder::new(
        "K",
        "a@x.com",
        vec![String::from("b@x.com")],
        "S",
        "B",
    )
    .build()
    .unwrap();
    assert_eq!(
        sendgrid.sendgrid_request_body,
        "{\"personalizations\":[{\"to\":[{\"email\":\"b@x.com\"}]}],\"from\":{\"email\":\"a@x.com\"},\"subject\":\"S\",\"content\":[{\"type\":\"text/plain\",\"value\":\"B\"}]}"
    );
    assert_eq!(sendgrid.api_key, "K");
    assert_eq!(sendgrid.send_at, None);
}

#[test]
fn cc_list_is_inserted_into_personalization() {
    let sendgrid = SendgridBuilder::new(
        "K",
        "a@x.com",
        vec![String::from("b@x.com")],
        "S",
        "B",
    )
    .set_cc_emails(vec![String::from("c1@x.com"), String::from("c2@x.com")])
    .build()
    .unwrap();
    assert_eq!(
        sendgrid.sendgrid_request_body,
        "{\"personalizations\":[{\"to\":[{\"email\":\"b@x.com\"}],\"cc\":[{\"email\":\"c1@x.com\"},{\"email\":\"c2@x.com\"}]}],\"from\":{\"email\":\"a@x.com\"},\"subject\":\"S\",\"content\":[{\"type\":\"text/plain\",\"value\":\"B\"}]}"
    );
}

#[test]
fn setting_cc_twice_keeps_only_the_last_list() {
    let sendgrid = SendgridBuilder::new(
        "K",
        "a@x.com",
        vec![String::from("b@x.com")],
        "S",
        "B",
    )
    .set_cc_emails(vec![String::from("old@x.com")])
    .set_cc_emails(vec![String::from("new@x.com")])
    .build()
    .unwrap();
    assert_eq!(
        sendgrid.sendgrid_request_body,
        "{\"personalizations\":[{\"to\":[{\"email\":\"b@x.com\"}],\"cc\":[{\"email\":\"new@x.com\"}]}],\"from\":{\"email\":\"a@x.com\"},\"subject\":\"S\",\"content\":[{\"type\":\"text/plain\",\"value\":\"B\"}]}"
    );
}

#[test]
fn send_at_is_serialized_as_bare_integer() {
    let sendgrid = SendgridBuilder::new(
        "K",
        "a@x.com",
        vec![String::from("b@x.com")],
        "S",
        "B",
    )
    .set_send_at(1668271500)
    .build()
    .unwrap();
    assert_eq!(
        sendgrid.sendgrid_request_body,
        "{\"personalizations\":[{\"to\":[{\"email\":\"b@x.com\"}]}],\"from\":{\"email\":\"a@x.com\"},\"subject\":\"S\",\"content\":[{\"type\":\"text/plain\",\"value\":\"B\"}],\"send_at\":1668271500}"
    );
}

#[test]
fn send_at_extreme_values_keep_exact_digits() {
    let sendgrid = SendgridBuilder::new(
        "K",
        "a@x.com",
        vec![String::from("b@x.com")],
        "S",
        "B",
    )
    .set_send_at(0)
    .build()
    .unwrap();
    assert!(sendgrid.sendgrid_request_body.ends_with("\"send_at\":0}"));

    let sendgrid = SendgridBuilder::new(
        "K",
        "a@x.com",
        vec![String::from("b@x.com")],
        "S",
        "B",
    )
    .set_send_at(u64::MAX)
    .build()
    .unwrap();
    assert!(sendgrid
        .sendgrid_request_body
        .ends_with("\"send_at\":18446744073709551615}"));
}

#[test]
fn html_content_type_is_serialized() {
    let sendgrid = SendgridBuilder::new(
        "K",
        "a@x.com",
        vec![String::from("b@x.com")],
        "S",
        "B",
    )
    .set_content_type(ContentType::Html)
    .build()
    .unwrap();
    assert_eq!(
        sendgrid.sendgrid_request_body,
        "{\"personalizations\":[{\"to\":[{\"email\":\"b@x.com\"}]}],\"from\":{\"email\":\"a@x.com\"},\"subject\":\"S\",\"content\":[{\"type\":\"text/html\",\"value\":\"B\"}]}"
    );
}

#[test]
fn special_characters_are_json_escaped() {
    let sendgrid = SendgridBuilder::new(
        "K",
        "a@x.com",
        vec![String::from("b@x.com")],
        "S",
        "say \"hi\"\t\\\n\u{1}end",
    )
    .build()
    .unwrap();
    assert_eq!(
        sendgrid.sendgrid_request_body,
        "{\"personalizations\":[{\"to\":[{\"email\":\"b@x.com\"}]}],\"from\":{\"email\":\"a@x.com\"},\"subject\":\"S\",\"content\":[{\"type\":\"text/plain\",\"value\":\"say \\\"hi\\\"\\t\\\\\\n\\u0001end\"}]}"
    );
}

#[test]
fn multiple_recipients_keep_their_order() {
    let sendgrid = SendgridBuilder::new(
        "K",
        "a@x.com",
        vec![
            String::from("b1@x.com"),
            String::from("b2@x.com"),
            String::from("b3@x.com"),
        ],
        "S",
        "B",
    )
    .build()
    .unwrap();
    assert_eq!(
        sendgrid.sendgrid_request_body,
        "{\"personalizations\":[{\"to\":[{\"email\":\"b1@x.com\"},{\"email\":\"b2@x.com\"},{\"email\":\"b3@x.com\"}]}],\"from\":{\"email\":\"a@x.com\"},\"subject\":\"S\",\"content\":[{\"type\":\"text/plain\",\"value\":\"B\"}]}"
    );
}

#[test]
fn unset_content_type_serializes_as_plain_text() {
    let email = SendgridEmail {
        personalizations: vec![Personalization {
            to: vec![EmailAddress {
                email: String::from("b@x.com"),
            }],
            cc: None,
        }],
        from: EmailAddress {
            email: String::from("a@x.com"),
        },
        subject: String::from("S"),
        content: vec![Content {
            content_type: None,
            value: String::from("B"),
        }],
        send_at: None,
    };
    assert_eq!(
        serialize_email(&email),
        "{\"personalizations\":[{\"to\":[{\"email\":\"b@x.com\"}]}],\"from\":{\"email\":\"a@x.com\"},\"subject\":\"S\",\"content\":[{\"type\":\"text/plain\",\"value\":\"B\"}]}"
    );
}

#[test]
fn build_rejects_empty_body() {
    let result = SendgridBuilder::new("K", "a@x.com", vec![String::from("b@x.com")], "S", "")
        .build();
    let err = result.unwrap_err();
    assert_eq!(err, SendgridError::ValidationError(RequiredField::Body));
    assert_eq!(err.message(), "missing required field: body");
}

#[test]
fn build_rejects_empty_subject() {
    let result = SendgridBuilder::new("K", "a@x.com", vec![String::from("b@x.com")], "", "B")
        .build();
    assert_eq!(
        result.unwrap_err(),
        SendgridError::ValidationError(RequiredField::Subject)
    );
}

#[test]
fn build_rejects_empty_to_list() {
    let result = SendgridBuilder::new("K", "a@x.com", vec![], "S", "B").build();
    assert_eq!(
        result.unwrap_err(),
        SendgridError::ValidationError(RequiredField::ToEmails)
    );
}

#[test]
fn build_rejects_empty_from() {
    let result = SendgridBuilder::new("K", "", vec![String::from("b@x.com")], "S", "B").build();
    assert_eq!(
        result.unwrap_err(),
        SendgridError::ValidationError(RequiredField::FromEmail)
    );
}

#[test]
fn build_names_the_first_missing_field() {
    let result = SendgridBuilder::new("K", "", vec![], "", "").build();
    assert_eq!(
        result.unwrap_err(),
        SendgridError::ValidationError(RequiredField::Body)
    );
}
