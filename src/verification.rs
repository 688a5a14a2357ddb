use vstd::prelude::*;

use crate::text::{chars_of, contains_run, occurs_in};

verus! {

/// Why an exchange with the identity provider gave no usable answer.
#[derive(Debug)]
pub enum TransportFault {
    /// A request did not complete; the text is the transport's own description.
    Network(String),
    /// The provider answered with this status and a body that could not be read.
    UnreadableBody(u16),
    /// The body could be read but its discriminant is not one this client knows.
    UnknownReply,
    /// The handshake was answered with this status outside the 2xx range.
    HandshakeRefused(u16),
}

/// The result of one verification: the handshake followed by the credential submission.
#[derive(Debug)]
pub enum VerificationOutcome {
    Success,
    InvalidCredentials,
    MfaRequired,
    TransportError(TransportFault),
}

/// The error half of a verification, for callers that want a `Result`.
#[derive(Debug)]
pub enum AuthError {
    AuthFailed,
    MFANeeded,
    HttpError(TransportFault),
}

/// The fields of the provider's JSON answer that decide what it means.
pub struct ProviderReply {
    /// The discriminant (`type`).
    pub kind: String,
    /// The inner error code (`error`), where there is one.
    pub error: Option<String>,
    /// The redirect target of a `response` answer (`response.parameters.uri`).
    pub redirect_uri: Option<String>,
}

/// An answer to the credential submission: its status and, where the body could be
/// read as JSON, its deciding fields.
pub struct HttpAnswer {
    pub status: u16,
    pub reply: Option<ProviderReply>,
}

/// What the credential submission sends: `type=auth`, the two credentials and,
/// on the second factor round, the code.
pub struct Submission {
    pub username: String,
    pub password: String,
    pub mfa_token: Option<String>,
}

/// A redirect target that carries both an access token and an ID token.
pub open spec fn carries_tokens(uri: Seq<char>) -> bool {
    occurs_in("access_token="@, uri) && occurs_in("id_token="@, uri)
}

/// The error code that names a credential failure.
pub open spec fn is_credential_failure(error: Option<String>) -> bool {
    error matches Some(e) && e@ == "auth_failure"@
}

/// The error code that names a second-factor requirement.
pub open spec fn is_mfa_demand(error: Option<String>) -> bool {
    error matches Some(e) && e@ == "multifactor_required"@
}

/// The meaning of a readable answer.
pub open spec fn reply_outcome(r: ProviderReply) -> VerificationOutcome {
    if r.kind@ == "response"@ && (r.redirect_uri matches Some(u) && carries_tokens(u@)) {
        VerificationOutcome::Success
    } else if r.kind@ == "auth"@ && is_credential_failure(r.error) {
        VerificationOutcome::InvalidCredentials
    } else if r.kind@ == "auth"@ && is_mfa_demand(r.error) {
        VerificationOutcome::MfaRequired
    } else {
        VerificationOutcome::TransportError(TransportFault::UnknownReply)
    }
}

/// The meaning of the answer to the credential submission.
pub open spec fn answer_outcome(a: HttpAnswer) -> VerificationOutcome {
    match a.reply {
        Some(r) => reply_outcome(r),
        None => VerificationOutcome::TransportError(TransportFault::UnreadableBody(a.status)),
    }
}

/// A status in the 2xx range.
pub open spec fn is_success_status(status: u16) -> bool {
    200 <= status <= 299
}

/// The outcome of the handshake alone, from its status or its transport error:
/// nothing where it succeeded, a transport error where it did not.
pub open spec fn handshake_outcome(h: Result<u16, String>) -> Option<VerificationOutcome> {
    match h {
        Ok(status) => if is_success_status(status) {
            None
        } else {
            Some(VerificationOutcome::TransportError(TransportFault::HandshakeRefused(status)))
        },
        Err(e) => Some(VerificationOutcome::TransportError(TransportFault::Network(e))),
    }
}

/// The outcome of the submission request, whether it completed or not.
pub open spec fn submission_outcome(s: Result<HttpAnswer, String>) -> VerificationOutcome {
    match s {
        Ok(a) => answer_outcome(a),
        Err(e) => VerificationOutcome::TransportError(TransportFault::Network(e)),
    }
}

impl VerificationOutcome {
    pub open spec fn spec_into_result(self) -> Result<(), AuthError> {
        match self {
            VerificationOutcome::Success => Ok(()),
            VerificationOutcome::InvalidCredentials => Err(AuthError::AuthFailed),
            VerificationOutcome::MfaRequired => Err(AuthError::MFANeeded),
            VerificationOutcome::TransportError(f) => Err(AuthError::HttpError(f)),
        }
    }

    /// The same outcome as a `Result`: `Ok` on success alone.
    pub fn into_result(self) -> (r: Result<(), AuthError>)
        ensures
            r == self.spec_into_result(),
    {
        match self {
            VerificationOutcome::Success => Ok(()),
            VerificationOutcome::InvalidCredentials => Err(AuthError::AuthFailed),
            VerificationOutcome::MfaRequired => Err(AuthError::MFANeeded),
            VerificationOutcome::TransportError(f) => Err(AuthError::HttpError(f)),
        }
    }
}

fn text_is(s: &String, lit: &str) -> (r: bool)
    ensures
        r == (s@ == lit@),
{
    *s == lit.to_owned()
}

fn error_is(error: &Option<String>, lit: &str) -> (r: bool)
    ensures
        r == (error matches Some(e) && e@ == lit@),
{
    match error {
        Some(e) => text_is(e, lit),
        None => false,
    }
}

/// Whether a redirect target carries both tokens.
pub fn has_tokens(uri: &String) -> (r: bool)
    ensures
        r == carries_tokens(uri@),
{
    let hay = chars_of(uri.as_str());
    let access = chars_of("access_token=");
    let id = chars_of("id_token=");
    contains_run(hay.as_slice(), access.as_slice()) && contains_run(hay.as_slice(), id.as_slice())
}

/// Classifies a readable answer by its discriminant and error code.
pub fn classify_reply(r: ProviderReply) -> (out: VerificationOutcome)
    ensures
        out == reply_outcome(r),
{
    let tokens = match &r.redirect_uri {
        Some(u) => has_tokens(u),
        None => false,
    };
    if text_is(&r.kind, "response") && tokens {
        VerificationOutcome::Success
    } else if text_is(&r.kind, "auth") && error_is(&r.error, "auth_failure") {
        VerificationOutcome::InvalidCredentials
    } else if text_is(&r.kind, "auth") && error_is(&r.error, "multifactor_required") {
        VerificationOutcome::MfaRequired
    } else {
        VerificationOutcome::TransportError(TransportFault::UnknownReply)
    }
}

/// Classifies the answer to the credential submission; an unreadable body is a
/// transport error whatever its status.
pub fn classify_answer(a: HttpAnswer) -> (out: VerificationOutcome)
    ensures
        out == answer_outcome(a),
{
    match a.reply {
        Some(r) => classify_reply(r),
        None => VerificationOutcome::TransportError(TransportFault::UnreadableBody(a.status)),
    }
}

/// Decides after the handshake: `None` means go on to the submission.
pub fn after_handshake(h: Result<u16, String>) -> (out: Option<VerificationOutcome>)
    ensures
        out == handshake_outcome(h),
        out is None <==> (h matches Ok(status) && is_success_status(status)),
{
    match h {
        Ok(status) => if 200 <= status && status <= 299 {
            None
        } else {
            Some(VerificationOutcome::TransportError(TransportFault::HandshakeRefused(status)))
        },
        Err(e) => Some(VerificationOutcome::TransportError(TransportFault::Network(e))),
    }
}

/// Decides after the submission: the verification's outcome.
pub fn after_submission(s: Result<HttpAnswer, String>) -> (out: VerificationOutcome)
    ensures
        out == submission_outcome(s),
{
    match s {
        Ok(a) => classify_answer(a),
        Err(e) => VerificationOutcome::TransportError(TransportFault::Network(e)),
    }
}

/// The fixed parameters of the authorization handshake, which carries no credential.
pub open spec fn handshake_spec() -> Seq<(Seq<char>, Seq<char>)> {
    seq![
        ("client_id"@, "play-valorant-web-prod"@),
        ("nonce"@, "1"@),
        ("redirect_uri"@, "https://playvalorant.com/opt_in"@),
        ("response_type"@, "token id_token"@),
    ]
}

/// The fields of the credential submission, the code last where there is one.
pub open spec fn submission_spec(
    username: Seq<char>,
    password: Seq<char>,
    mfa_token: Option<Seq<char>>,
) -> Seq<(Seq<char>, Seq<char>)> {
    let base = seq![
        ("type"@, "auth"@),
        ("username"@, username),
        ("password"@, password),
        ("remember"@, "true"@),
    ];
    match mfa_token {
        Some(t) => base.push(("code"@, t)),
        None => base,
    }
}

pub open spec fn fields_view(f: Seq<(String, String)>) -> Seq<(Seq<char>, Seq<char>)> {
    f.map_values(|p: (String, String)| (p.0@, p.1@))
}

fn field(name: &str, value: &str) -> (r: (String, String))
    ensures
        r.0@ == name@,
        r.1@ == value@,
{
    (name.to_owned(), value.to_owned())
}

/// The body of the handshake request, as name/value pairs.
pub fn handshake_fields() -> (r: Vec<(String, String)>)
    ensures
        fields_view(r@) == handshake_spec(),
{
    let mut r: Vec<(String, String)> = Vec::new();
    r.push(field("client_id", "play-valorant-web-prod"));
    r.push(field("nonce", "1"));
    r.push(field("redirect_uri", "https://playvalorant.com/opt_in"));
    r.push(field("response_type", "token id_token"));
    assert(fields_view(r@) =~= handshake_spec());
    r
}

impl Submission {
    /// The body of the credential submission, as name/value pairs.
    pub fn fields(&self) -> (r: Vec<(String, String)>)
        ensures
            fields_view(r@) == submission_spec(
                self.username@,
                self.password@,
                match self.mfa_token {
                    Some(t) => Some(t@),
                    None => None,
                },
            ),
    {
        let mut r: Vec<(String, String)> = Vec::new();
        r.push(field("type", "auth"));
        r.push(field("username", self.username.as_str()));
        r.push(field("password", self.password.as_str()));
        r.push(field("remember", "true"));
        match &self.mfa_token {
            Some(t) => {
                r.push(field("code", t.as_str()));
            },
            None => {},
        }
        assert(fields_view(r@) =~= submission_spec(
            self.username@,
            self.password@,
            match self.mfa_token {
                Some(t) => Some(t@),
                None => None,
            },
        ));
        r
    }
}

} // verus!
