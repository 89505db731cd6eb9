use trailbase::email::{
    change_email_address_email, email_message, email_validation_email, fallback_sender,
    fallback_sender_for_host, password_reset_email, sender_mailbox, site_url_or_default, smtp_settings,
    EmailError, EmailKind, EmailTemplate, SmtpSettings,
};

#[test]
fn test_fallback_sender() {
    let url = Some(url::Url::parse("https://test.org").unwrap());
    let sender = fallback_sender(url.as_ref().map(|u| u.as_str()));
    assert_eq!("noreply@test.org", sender);
}

#[test]
fn fallback_sender_without_site() {
    assert_eq!(fallback_sender(None), "noreply@localhost");
    // A URL without a host, such as a `mailto:` one.
    assert_eq!(fallback_sender(Some("mailto:a@b.c")), "noreply@localhost");
    assert_eq!(fallback_sender(Some("http://127.0.0.1:4000/")), "noreply@127.0.0.1");
    assert_eq!(fallback_sender_for_host(Some("example.com")), "noreply@example.com");
    assert_eq!(fallback_sender_for_host(None), "noreply@localhost");
}

#[test]
fn default_templates() {
    let t = email_validation_email();
    assert_eq!(
        t.subject.as_deref(),
        Some("Verify your Email Address for {{ APP_NAME }}")
    );
    assert!(t.body.unwrap().contains("<h1>Welcome {{ EMAIL }}</h1>"));
    let t = password_reset_email();
    assert_eq!(
        t.subject.as_deref(),
        Some("Reset your Password for {{ APP_NAME }}")
    );
    let t = change_email_address_email();
    assert_eq!(
        t.subject.as_deref(),
        Some("Change your Email Address for {{ APP_NAME }}")
    );
    assert!(t.body.unwrap().contains("{{ VERIFICATION_URL }}"));
}

#[test]
fn email_messages_render_templates() {
    let site = site_url_or_default(None);
    assert_eq!(site, "http://localhost:4000/");
    let (subject, body) = email_message(
        EmailKind::Verification,
        None,
        Some("TrailBase"),
        &site,
        "user@test.org",
        "abc",
    )
    .unwrap();
    assert_eq!(subject, "Verify your Email Address for TrailBase");
    assert!(body.contains("<h1>Welcome user@test.org</h1>"));
    assert!(body.contains("href=\"http://localhost:4000/api/auth/v1/verify_email/confirm/abc\""));

    let custom = EmailTemplate {
        subject: Some("Reset {{ EMAIL }}".to_string()),
        body: Some("{{ CODE }} at {{ VERIFICATION_URL }} on {{ SITE_URL }}".to_string()),
    };
    let (subject, body) = email_message(
        EmailKind::PasswordReset,
        Some(&custom),
        None,
        "https://example.com",
        "a@b.c",
        "xyz",
    )
    .unwrap();
    assert_eq!(subject, "Reset a@b.c");
    assert_eq!(
        body,
        "xyz at https://example.com/api/auth/v1/reset_password/update/xyz on https://example.com"
    );

    // A template missing its body falls back to the default.
    let half = EmailTemplate {
        subject: Some("ignored".to_string()),
        body: None,
    };
    let (subject, _) = email_message(
        EmailKind::ChangeEmail,
        Some(&half),
        Some("App"),
        &site,
        "a@b.c",
        "1",
    )
    .unwrap();
    assert_eq!(subject, "Change your Email Address for App");

    let broken = EmailTemplate {
        subject: Some("{{ unclosed".to_string()),
        body: Some("".to_string()),
    };
    assert_eq!(
        email_message(EmailKind::Verification, Some(&broken), None, &site, "a@b.c", "1"),
        Err(EmailError::Template)
    );
    assert_eq!(
        email_message(EmailKind::Verification, None, None, "not a url", "a@b.c", "1"),
        Err(EmailError::Missing("email verification URL"))
    );

    assert_eq!(sender_mailbox(None, None, "noreply@x.org"), "noreply@x.org");
    assert_eq!(
        sender_mailbox(Some("me@x.org"), Some("Me"), "noreply@x.org"),
        "Me <me@x.org>"
    );
}

#[test]
fn smtp_settings_need_every_part() {
    let some = |s: &str| Some(s.to_string());
    assert_eq!(
        smtp_settings(&None, Some(25), &some("u"), &some("p")),
        Err(EmailError::Missing("SMTP host"))
    );
    assert_eq!(
        smtp_settings(&some("h"), None, &None, &some("p")),
        Err(EmailError::Missing("SMTP port"))
    );
    assert_eq!(
        smtp_settings(&some("h"), Some(25), &None, &None),
        Err(EmailError::Missing("SMTP username"))
    );
    assert_eq!(
        smtp_settings(&some("h"), Some(25), &some("u"), &None),
        Err(EmailError::Missing("SMTP password"))
    );
    assert_eq!(
        smtp_settings(&some("h"), Some(65536 + 587), &some("u"), &some("p")),
        Ok(SmtpSettings {
            host: "h".to_string(),
            port: 587,
            username: "u".to_string(),
            password: "p".to_string(),
        })
    );
}
