//! E-mail templates and sender addresses.
use vstd::prelude::*;

verus! {


/// A subject and body template; either may be missing.
#[derive(Clone, Debug, PartialEq, Eq, Default)]
pub struct EmailTemplate {
    pub subject: Option<String>,
    pub body: Option<String>,
}

pub const EMAIL_VALIDATION_SUBJECT: &'static str = "Verify your Email Address for {{ APP_NAME }}";

pub const EMAIL_VALIDATION_BODY: &'static str = "<html>\n  <body>\n    <h1>Welcome {{ EMAIL }}</h1>\n\n    <p>\n      Thanks for joining {{ APP_NAME }}.\n    </p>\n\n    <p>\n      To be able to log in, first validate your email by clicking the link below.\n    </p>\n\n    <a class=\"btn\" href=\"{{ VERIFICATION_URL }}\">\n      {{ VERIFICATION_URL }}\n    </a>\n  </body>\n</html>";

pub const PASSWORD_RESET_SUBJECT: &'static str = "Reset your Password for {{ APP_NAME }}";

pub const PASSWORD_RESET_BODY: &'static str = "<html>\n  <body>\n    <h1>Password Reset</h1>\n\n    <p>\n      Click the link below to reset your password.\n    </p>\n\n    <a class=\"btn\" href=\"{{ VERIFICATION_URL }}\">\n      {{ VERIFICATION_URL }}\n    </a>\n  </body>\n</html>";

pub const CHANGE_EMAIL_SUBJECT: &'static str = "Change your Email Address for {{ APP_NAME }}";

pub const CHANGE_EMAIL_BODY: &'static str = "<html>\n  <body>\n    <h1>Change E-Mail Address</h1>\n\n    <p>\n      Click the link below to verify your new E-mail address:\n    </p>\n\n    <a class=\"btn\" href=\"{{ VERIFICATION_URL }}\">\n      {{ VERIFICATION_URL }}\n    </a>\n  </body>\n</html>";

/// `t` holds exactly the given subject and body.
pub open spec fn template_is(t: EmailTemplate, subject: Seq<char>, body: Seq<char>) -> bool {
    &&& t.subject matches Some(s) && s@ == subject
    &&& t.body matches Some(b) && b@ == body
}

/// The default template of the address verification e-mail.
pub fn email_validation_email() -> (r: EmailTemplate)
    ensures
        template_is(r, EMAIL_VALIDATION_SUBJECT@, EMAIL_VALIDATION_BODY@),
{
    EmailTemplate {
        subject: Some(String::from_str(EMAIL_VALIDATION_SUBJECT)),
        body: Some(String::from_str(EMAIL_VALIDATION_BODY)),
    }
}

/// The default template of the password reset e-mail.
pub fn password_reset_email() -> (r: EmailTemplate)
    ensures
        template_is(r, PASSWORD_RESET_SUBJECT@, PASSWORD_RESET_BODY@),
{
    EmailTemplate {
        subject: Some(String::from_str(PASSWORD_RESET_SUBJECT)),
        body: Some(String::from_str(PASSWORD_RESET_BODY)),
    }
}

/// The default template of the e-mail address change e-mail.
pub fn change_email_address_email() -> (r: EmailTemplate)
    ensures
        template_is(r, CHANGE_EMAIL_SUBJECT@, CHANGE_EMAIL_BODY@),
{
    EmailTemplate {
        subject: Some(String::from_str(CHANGE_EMAIL_SUBJECT)),
        body: Some(String::from_str(CHANGE_EMAIL_BODY)),
    }
}

/// The sender used when none is configured: `noreply@` at the site's host, or at
/// `localhost` when there is no host.
pub open spec fn fallback_sender_address(host: Option<Seq<char>>) -> Seq<char> {
    match host {
        Some(h) => "noreply@"@ + h,
        None => "noreply@localhost"@,
    }
}

/// The fallback sender for a site with the given host, if any.
pub fn fallback_sender_for_host(host: Option<&str>) -> (r: String)
    ensures
        r@ == fallback_sender_address(
            match host {
                Some(h) => Some(h@),
                None => None,
            },
        ),
{
    match host {
        Some(h) => {
            let mut s = String::from_str("noreply@");
            s.append(h);
            s
        },
        None => String::from_str("noreply@localhost"),
    }
}

/// The host that `url::Url::host` gives, printed, of the URL serialized as `url`; `None`
/// when the URL has no host or the text is no URL.
pub uninterp spec fn url_host_of(url: Seq<char>) -> Option<Seq<char>>;

/// `url::Url::host` of the URL serialized as `url`, printed.
#[verifier::external_body]
fn url_host(url: &str) -> (r: Option<String>)
    ensures
        match r {
            Some(h) => url_host_of(url@) == Some(h@),
            None => url_host_of(url@) is None,
        },
{
    url::Url::parse(url).ok()?.host().map(|h| h.to_string())
}

/// The fallback sender for the configured site URL (serialized), if any: `noreply@` at
/// its host.
pub fn fallback_sender(site_url: Option<&str>) -> (r: String)
    ensures
        r@ == fallback_sender_address(
            match site_url {
                Some(u) => url_host_of(u@),
                None => None,
            },
        ),
{
    let host = match site_url {
        Some(u) => url_host(u),
        None => None,
    };
    match &host {
        Some(h) => fallback_sender_for_host(Some(h.as_str())),
        None => fallback_sender_for_host(None),
    }
}

/// The serialized URL that `url::Url::join` makes of `path` against the base URL
/// serialized as `base`; `None` where parsing fails.
pub uninterp spec fn url_joined(base: Seq<char>, path: Seq<char>) -> Option<Seq<char>>;

/// `url::Url::join` of `path` onto the URL `base`, serialized.
#[verifier::external_body]
fn join_url(base: &str, path: &str) -> (r: Option<String>)
    ensures
        match r {
            Some(u) => url_joined(base@, path@) == Some(u@),
            None => url_joined(base@, path@) is None,
        },
{
    url::Url::parse(base).ok()?.join(path).ok().map(|u| u.to_string())
}

/// What `minijinja` renders of the template with the given context (a name and an
/// optional text per variable); `None` where the template does not compile or render.
pub uninterp spec fn rendered_template(source: Seq<char>, ctx: Seq<(Seq<char>, Option<Seq<char>>)>) -> Option<Seq<char>>;

pub open spec fn ctx_view(ctx: Seq<(String, Option<String>)>) -> Seq<(Seq<char>, Option<Seq<char>>)> {
    ctx.map_values(|e: (String, Option<String>)| (e.0@, match e.1 {
        Some(v) => Some(v@),
        None => None,
    }))
}

/// `minijinja::Environment::render_str` in an empty environment.
#[verifier::external_body]
fn render_template(source: &str, ctx: &Vec<(String, Option<String>)>) -> (r: Option<String>)
    ensures
        match r {
            Some(t) => rendered_template(source@, ctx_view(ctx@)) == Some(t@),
            None => rendered_template(source@, ctx_view(ctx@)) is None,
        },
{
    let ctx: std::collections::BTreeMap<&str, &Option<String>> = ctx.iter().map(|(k, v)| (k.as_str(), v)).collect();
    minijinja::Environment::empty().render_str(source, ctx).ok()
}

/// The e-mails the auth flows send.
#[derive(Clone, Copy, Debug, PartialEq, Eq)]
pub enum EmailKind {
    Verification,
    ChangeEmail,
    PasswordReset,
}

/// Why an e-mail could not be written.
#[derive(Clone, Debug, PartialEq, Eq)]
pub enum EmailError {
    /// Something it needs is missing.
    Missing(&'static str),
    /// A template did not render.
    Template,
}

/// The default subject and body templates of a kind of e-mail.
pub open spec fn default_template(kind: EmailKind) -> (Seq<char>, Seq<char>) {
    match kind {
        EmailKind::Verification => (EMAIL_VALIDATION_SUBJECT@, EMAIL_VALIDATION_BODY@),
        EmailKind::ChangeEmail => (CHANGE_EMAIL_SUBJECT@, CHANGE_EMAIL_BODY@),
        EmailKind::PasswordReset => (PASSWORD_RESET_SUBJECT@, PASSWORD_RESET_BODY@),
    }
}

/// The configured templates when both are given, else the defaults.
pub open spec fn chosen_template(kind: EmailKind, configured: Option<EmailTemplate>) -> (Seq<char>, Seq<char>) {
    match configured {
        Some(EmailTemplate { subject: Some(s), body: Some(b) }) => (s@, b@),
        _ => default_template(kind),
    }
}

/// The path of the link an e-mail carries, under the site.
pub open spec fn link_path(kind: EmailKind, code: Seq<char>) -> Seq<char> {
    match kind {
        EmailKind::Verification => "/api/auth/v1/verify_email/confirm/"@ + code,
        EmailKind::ChangeEmail => "/api/auth/v1/change_email/confirm/"@ + code,
        EmailKind::PasswordReset => "/api/auth/v1/reset_password/update/"@ + code,
    }
}

/// Each e-mail links to its own endpoint under the site, followed by the code: the
/// verification mail to `/api/auth/v1/verify_email/confirm/`, the change-of-address mail
/// to `/api/auth/v1/change_email/confirm/`, and the password-reset mail to
/// `/api/auth/v1/reset_password/update/`; different kinds never share a link.
pub proof fn lemma_link_paths(code: Seq<char>)
    ensures
        link_path(EmailKind::Verification, code) == "/api/auth/v1/verify_email/confirm/"@ + code,
        link_path(EmailKind::ChangeEmail, code) == "/api/auth/v1/change_email/confirm/"@ + code,
        link_path(EmailKind::PasswordReset, code) == "/api/auth/v1/reset_password/update/"@ + code,
        forall|a: EmailKind, b: EmailKind| #[trigger] link_path(a, code) == #[trigger] link_path(b, code) ==> a == b,
{
    reveal_strlit("/api/auth/v1/verify_email/confirm/");
    reveal_strlit("/api/auth/v1/change_email/confirm/");
    reveal_strlit("/api/auth/v1/reset_password/update/");
    assert forall|a: EmailKind, b: EmailKind| #[trigger] link_path(a, code) == #[trigger] link_path(b, code) implies a
        == b by {
        let x = link_path(a, code);
        let y = link_path(b, code);
        assert(x[13] == y[13]);
    }
}

/// What is missing when the link cannot be made.
pub open spec fn missing_link(kind: EmailKind) -> &'static str {
    match kind {
        EmailKind::Verification => "email verification URL",
        EmailKind::ChangeEmail => "change email confirmation URL",
        EmailKind::PasswordReset => "password reset URL",
    }
}

/// When the link cannot be made, the error names the link of the mail's kind: the
/// `email verification URL`, the `change email confirmation URL` or the
/// `password reset URL`.
pub proof fn lemma_missing_links()
    ensures
        missing_link(EmailKind::Verification)@ == "email verification URL"@,
        missing_link(EmailKind::ChangeEmail)@ == "change email confirmation URL"@,
        missing_link(EmailKind::PasswordReset)@ == "password reset URL"@,
{
}

pub open spec fn opt_text(o: Option<&str>) -> Option<Seq<char>> {
    match o {
        Some(s) => Some(s@),
        None => None,
    }
}

/// The variables of the subject: the application's name and the address.
pub open spec fn subject_context(app_name: Option<Seq<char>>, email: Seq<char>) -> Seq<(Seq<char>, Option<Seq<char>>)> {
    seq![("APP_NAME"@, app_name), ("EMAIL"@, Some(email))]
}

/// The variables of the body: also the link, the site and the code.
pub open spec fn body_context(
    app_name: Option<Seq<char>>,
    link: Seq<char>,
    site_url: Seq<char>,
    code: Seq<char>,
    email: Seq<char>,
) -> Seq<(Seq<char>, Option<Seq<char>>)> {
    seq![
        ("APP_NAME"@, app_name),
        ("VERIFICATION_URL"@, Some(link)),
        ("SITE_URL"@, Some(site_url)),
        ("CODE"@, Some(code)),
        ("EMAIL"@, Some(email)),
    ]
}

fn text_entry(name: &str, v: Option<&str>) -> (r: (String, Option<String>))
    ensures
        r.0@ == name@,
        match r.1 {
            Some(t) => opt_text(v) == Some(t@),
            None => v is None,
        },
{
    (String::from_str(name), match v {
        Some(t) => Some(String::from_str(t)),
        None => None,
    })
}

/// The subject and body of an e-mail of the given kind to `email`, with the link built
/// from the site URL and `code`.
pub fn email_message(
    kind: EmailKind,
    configured: Option<&EmailTemplate>,
    app_name: Option<&str>,
    site_url: &str,
    email: &str,
    code: &str,
) -> (r: Result<(String, String), EmailError>)
    ensures
        ({
            let t = chosen_template(
                kind,
                match configured {
                    Some(c) => Some(*c),
                    None => None,
                },
            );
            match url_joined(site_url@, link_path(kind, code@)) {
                None => r == Err::<(String, String), EmailError>(EmailError::Missing(missing_link(kind))),
                Some(link) => match rendered_template(t.0, subject_context(opt_text(app_name), email@)) {
                    None => r == Err::<(String, String), EmailError>(EmailError::Template),
                    Some(subject) => match rendered_template(
                        t.1,
                        body_context(opt_text(app_name), link, site_url@, code@, email@),
                    ) {
                        None => r == Err::<(String, String), EmailError>(EmailError::Template),
                        Some(body) => r matches Ok((s, b)) && s@ == subject && b@ == body,
                    },
                },
            }
        }),
{
    let (subject_template, body_template): (&str, &str) = match configured {
        Some(EmailTemplate { subject: Some(s), body: Some(b) }) => (s.as_str(), b.as_str()),
        _ => match kind {
            EmailKind::Verification => (EMAIL_VALIDATION_SUBJECT, EMAIL_VALIDATION_BODY),
            EmailKind::ChangeEmail => (CHANGE_EMAIL_SUBJECT, CHANGE_EMAIL_BODY),
            EmailKind::PasswordReset => (PASSWORD_RESET_SUBJECT, PASSWORD_RESET_BODY),
        },
    };
    let (prefix, missing): (&str, &'static str) = match kind {
        EmailKind::Verification => ("/api/auth/v1/verify_email/confirm/", "email verification URL"),
        EmailKind::ChangeEmail => ("/api/auth/v1/change_email/confirm/", "change email confirmation URL"),
        EmailKind::PasswordReset => ("/api/auth/v1/reset_password/update/", "password reset URL"),
    };
    let mut path = String::from_str(prefix);
    path.append(code);
    let link = match join_url(site_url, path.as_str()) {
        Some(u) => u,
        None => {
            return Err(EmailError::Missing(missing));
        },
    };
    let mut subject_ctx: Vec<(String, Option<String>)> = Vec::new();
    subject_ctx.push(text_entry("APP_NAME", app_name));
    subject_ctx.push(text_entry("EMAIL", Some(email)));
    proof {
        assert(ctx_view(subject_ctx@) =~= subject_context(opt_text(app_name), email@));
    }
    let subject = match render_template(subject_template, &subject_ctx) {
        Some(s) => s,
        None => {
            return Err(EmailError::Template);
        },
    };
    let mut body_ctx: Vec<(String, Option<String>)> = Vec::new();
    body_ctx.push(text_entry("APP_NAME", app_name));
    body_ctx.push(text_entry("VERIFICATION_URL", Some(link.as_str())));
    body_ctx.push(text_entry("SITE_URL", Some(site_url)));
    body_ctx.push(text_entry("CODE", Some(code)));
    body_ctx.push(text_entry("EMAIL", Some(email)));
    proof {
        assert(ctx_view(body_ctx@) =~= body_context(opt_text(app_name), link@, site_url@, code@, email@));
    }
    let body = match render_template(body_template, &body_ctx) {
        Some(b) => b,
        None => {
            return Err(EmailError::Template);
        },
    };
    Ok((subject, body))
}

/// The site URL the links go to: the configured one, else the local default.
pub fn site_url_or_default(configured: Option<&str>) -> (r: String)
    ensures
        r@ == match configured {
            Some(u) => u@,
            None => "http://localhost:4000/"@,
        },
{
    match configured {
        Some(u) => String::from_str(u),
        None => String::from_str("http://localhost:4000/"),
    }
}

/// The sender mailbox: the configured address, else the fallback, after the sender's name
/// in angle brackets when a name is configured.
pub fn sender_mailbox(sender_address: Option<&str>, sender_name: Option<&str>, fallback: &str) -> (r: String)
    ensures
        ({
            let address = match sender_address {
                Some(a) => a@,
                None => fallback@,
            };
            r@ == match sender_name {
                Some(n) => n@ + " <"@ + address + ">"@,
                None => address,
            }
        }),
{
    let address = match sender_address {
        Some(a) => a,
        None => fallback,
    };
    match sender_name {
        Some(n) => {
            let mut m = String::from_str(n);
            m.append(" <");
            m.append(address);
            m.append(">");
            m
        },
        None => String::from_str(address),
    }
}

/// The settings of an SMTP relay: host, port, user name and password.
#[derive(Clone, Debug, PartialEq, Eq)]
pub struct SmtpSettings {
    pub host: String,
    pub port: u16,
    pub username: String,
    pub password: String,
}

/// The SMTP relay that the configuration describes: host, port, user name and password
/// must all be given, and the first that is missing is reported; the port is taken modulo
/// 2^16. Without one, e-mails go through the local `sendmail`.
pub fn smtp_settings(
    host: &Option<String>,
    port: Option<u32>,
    username: &Option<String>,
    password: &Option<String>,
) -> (r: Result<SmtpSettings, EmailError>)
    ensures
        host is None ==> r == Err::<SmtpSettings, EmailError>(EmailError::Missing("SMTP host")),
        host is Some && port is None ==> r == Err::<SmtpSettings, EmailError>(
            EmailError::Missing("SMTP port"),
        ),
        host is Some && port is Some && username is None ==> r == Err::<SmtpSettings, EmailError>(
            EmailError::Missing("SMTP username"),
        ),
        host is Some && port is Some && username is Some && password is None ==> r == Err::<
            SmtpSettings,
            EmailError,
        >(EmailError::Missing("SMTP password")),
        r is Ok <==> (host is Some && port is Some && username is Some && password is Some),
        r matches Ok(s) ==> (s.host@ == host->0@ && s.port == port->0 as u16 && s.username@
            == username->0@ && s.password@ == password->0@),
{
    let host = match host {
        Some(h) => h.clone(),
        None => return Err(EmailError::Missing("SMTP host")),
    };
    let port = match port {
        Some(p) => p as u16,
        None => return Err(EmailError::Missing("SMTP port")),
    };
    let username = match username {
        Some(u) => u.clone(),
        None => return Err(EmailError::Missing("SMTP username")),
    };
    let password = match password {
        Some(w) => w.clone(),
        None => return Err(EmailError::Missing("SMTP password")),
    };
    Ok(SmtpSettings { host, port, username, password })
}

} // verus!
