use sendgrid_thin::Content;
use sendgrid_thin::ContentType;
use sendgrid_thin::EmailAddress;
use sendgrid_thin::Personalization;
use sendgrid_thin::Sendgrid;
use sendgrid_thin::SendgridEmail;
use std::time::Duration;

#[test]
fn test_sendgrid_instance() {
    let sendgrid = Sendgrid::builder(
        "SENDGRID_API_KEY",
        "test_from@test.com",
        vec![String::from("test_to@test.com")],
        "subject",
        "body",
    );
    assert_eq!(
        sendgrid.sendgrid_email,
        SendgridEmail {
            personalizations: vec![Personalization {
                to: vec![EmailAddress {
                    email: String::from("test_to@test.com")
                }],
                cc: None,
            }],
            from: EmailAddress {
                email: String::from("test_from@test.com")
            },
            subject: String::from("subject"),
            content: vec![Content {
                content_type: Some(String::from("text/plain")),
                value: String::from("body"),
            }],
            send_at: None,
        }
    );
}

#[test]
fn test_sendgrid_instance_builder() {
    let sendgrid = Sendgrid::builder(
        "SENDGRID_API_KEY",
        "test_from@test.com",
        vec![String::from("test_to@test.com")],
        "subject",
        "body",
    );
    assert_eq!(
        sendgrid.sendgrid_email,
        SendgridEmail {
            personalizations: vec![Personalization {
                to: vec![EmailAddress {
                    email: String::from("test_to@test.com")
                }],
                cc: None,
            }],
            from: EmailAddress {
                email: String::from("test_from@test.com")
            },
            subject: String::from("subject"),
            content: vec![Content {
                content_type: Some(String::from("text/plain")),
                value: String::from("body"),
            }],
            send_at: None,
        }
    );
}

#[test]
fn test_content_type() {
    let sendgrid = Sendgrid::builder(
        "SENDGRID_API_KEY",
        "test_from@test.com",
        vec![String::from("test_to@test.com")],
        "subject",
        "body",
    );
    assert_eq!(
        sendgrid.sendgrid_email.content[0].content_type,
        Some(String::from("text/plain"))
    );

    let sendgrid = sendgrid.set_content_type(ContentType::Html);
    assert_eq!(
        sendgrid.sendgrid_email.content[0].content_type,
        Some(String::from("text/html"))
    );

    let sendgrid = sendgrid.set_content_type(ContentType::Text);
    assert_eq!(
        sendgrid.sendgrid_email.content[0].content_type,
        Some(String::from("text/plain"))
    );
}

#[test]
fn test_set_body_and_subject_email() {
    let sendgrid = Sendgrid::builder(
        "SENDGRID_API_KEY",
        "from_email@example.com",
        vec![String::from("to_email@example.com")],
        "subject_test",
        "body_test",
    )
    .set_content_type(ContentType::Text)
    .build()
    .unwrap();
    assert_eq!(sendgrid.sendgrid_request_body, "{\"personalizations\":[{\"to\":[{\"email\":\"to_email@example.com\"}]}],\"from\":{\"email\":\"from_email@example.com\"},\"subject\":\"subject_test\",\"content\":[{\"type\":\"text/plain\",\"value\":\"body_test\"}]}");
}

#[test]
fn test_set_body_email_with_cc_emails() {
    let sendgrid = Sendgrid::builder(
        "SENDGRID_API_KEY",
        "from_email@example.com",
        vec![String::from("to_email@example.com")],
        "subject_test",
        "body_test",
    )
    .set_content_type(ContentType::Text)
    .set_cc_emails(vec![
        String::from("cc_email1@example.com"),
        String::from("cc_email2@example.com"),
    ])
    .build()
    .unwrap();
    assert_eq!(sendgrid.sendgrid_request_body, "{\"personalizations\":[{\"to\":[{\"email\":\"to_email@example.com\"}],\"cc\":[{\"email\":\"cc_email1@example.com\"},{\"email\":\"cc_email2@example.com\"}]}],\"from\":{\"email\":\"from_email@example.com\"},\"subject\":\"subject_test\",\"content\":[{\"type\":\"text/plain\",\"value\":\"body_test\"}]}");
}

#[test]
fn default_envelope_is_the_empty_skeleton() {
    assert_eq!(
        SendgridEmail::default(),
        SendgridEmail {
            personalizations: vec![Personalization {
                to: vec![EmailAddress {
                    email: String::new()
                }],
                cc: None,
            }],
            from: EmailAddress {
                email: String::new()
            },
            subject: String::new(),
            content: vec![Content {
                content_type: Some(String::from("text/plain")),
                value: String::new(),
            }],
            send_at: None,
        }
    );
}

#[test]
fn test_set_send_at() {
    let sendgrid = Sendgrid::builder(
        "SENDGRID_API_KEY",
        "test_from@test.com",
        vec![String::from("test_to@test.com")],
        "subject",
        "body",
    );
    assert_eq!(sendgrid.sendgrid_email.send_at, None);
    let sendgrid = sendgrid.set_send_at(1668271500);
    assert_eq!(sendgrid.sendgrid_email.send_at, Some(1668271500));
}

#[test]
fn test_set_request_timeout() {
    let sendgrid = Sendgrid::builder(
        "SENDGRID_API_KEY",
        "test_from@test.com",
        vec![String::from("test_to@test.com")],
        "subject",
        "body",
    );
    assert_eq!(sendgrid.request_timeout, None);
    let sendgrid = sendgrid.set_request_timeout(Duration::from_secs(10));
    assert_eq!(sendgrid.request_timeout, Some(Duration::from_secs(10)));
}
