//! Signing in through the browser, and what is exchanged with the token endpoint.
use crate::credentials;
use crate::credentials::{CodexCredentials, TokenResponse};
use crate::encoding;
use crate::text;
use vstd::prelude::*;
use vstd::string::*;

verus! {

/// Where tokens are issued.
pub const OPENAI_TOKEN_URL: &'static str = "https://auth.openai.com/oauth/token";

/// The client that the sign-in runs under.
pub const CLIENT_ID: &'static str = "app_EMoamEEZ73f0CkXaXp7hrann";

/// The host of the address to which the browser is sent back.
pub const CODEX_CALLBACK_HOST: &'static str = "localhost";

/// The first port to listen on for the browser.
pub const CODEX_CALLBACK_PORT: u16 = 1455;

/// The port to listen on where the first one is taken.
pub const CODEX_CALLBACK_FALLBACK_PORT: u16 = 1457;

/// The path of the address to which the browser is sent back.
///
/// The client is registered for this host, these ports and this path alone.
pub const CODEX_CALLBACK_PATH: &'static str = "/auth/callback";

/// The scopes to ask for. More of them would make tokens too long for the credential stores of
/// some systems.
pub const REQUESTED_SCOPES: &'static str = "openid profile email offline_access";

/// A sign-in that waits for the browser.
#[derive(Debug)]
pub struct AuthorizationRequest {
    /// The secret that proves, on exchange of the code, who asked for it.
    pub verifier: String,
    /// What the browser has to bring back.
    pub state: String,
    /// The page to open.
    pub url: String,
}

/// The digest of the verifier by which the authorize page knows it.
pub open spec fn challenge(verifier: Seq<char>) -> Seq<char> {
    encoding::base64url(encoding::sha256(vstd::utf8::encode_utf8(verifier)))
}

/// The parameters of the authorize page.
pub open spec fn authorize_pairs(
    redirect_uri: Seq<char>,
    verifier: Seq<char>,
    state: Seq<char>,
) -> Seq<(Seq<char>, Seq<char>)> {
    seq![
        ("client_id"@, CLIENT_ID@),
        ("redirect_uri"@, redirect_uri),
        ("scope"@, REQUESTED_SCOPES@),
        ("prompt"@, "select_account"@),
        ("response_type"@, "code"@),
        ("code_challenge"@, challenge(verifier)),
        ("code_challenge_method"@, "S256"@),
        ("id_token_add_organizations"@, "true"@),
        ("state"@, state),
        ("codex_cli_simplified_flow"@, "true"@),
        ("originator"@, "zed"@),
    ]
}

/// `request` is the sign-in for an address and the given random bytes.
pub open spec fn asks(
    request: AuthorizationRequest,
    redirect_uri: Seq<char>,
    verifier_bytes: Seq<u8>,
    state_bytes: Seq<u8>,
) -> bool {
    &&& request.verifier@ == encoding::base64url(verifier_bytes)
    &&& request.state@ == text::hexadecimal(state_bytes)
    &&& request.url@ == encoding::OPENAI_AUTHORIZE_URL@ + "?"@ + encoding::form_urlencoded(
        authorize_pairs(redirect_uri, request.verifier@, request.state@),
    )
}

/// The sign-in made of the given bytes.
pub fn authorization_request(redirect_uri: &str, verifier_bytes: &[u8], state_bytes: &[u8]) -> (r:
    AuthorizationRequest)
    requires
        verifier_bytes@.len() == 32,
        state_bytes@.len() == 16,
    ensures
        asks(r, redirect_uri@, verifier_bytes@, state_bytes@),
{
    let verifier = encoding::base64url_of(verifier_bytes);
    let digest = encoding::sha256_of(verifier.as_str().as_bytes());
    let challenge = encoding::base64url_of(digest.as_slice());
    let state = text::hexadecimal_of(state_bytes);
    let pairs: Vec<(&str, &str)> = vec![
        ("client_id", CLIENT_ID),
        ("redirect_uri", redirect_uri),
        ("scope", REQUESTED_SCOPES),
        ("prompt", "select_account"),
        ("response_type", "code"),
        ("code_challenge", challenge.as_str()),
        ("code_challenge_method", "S256"),
        ("id_token_add_organizations", "true"),
        ("state", state.as_str()),
        ("codex_cli_simplified_flow", "true"),
        ("originator", "zed"),
    ];
    assert(pairs.deep_view() == authorize_pairs(redirect_uri@, verifier@, state@));
    let url = encoding::url_with_query(encoding::OPENAI_AUTHORIZE_URL, &pairs);
    AuthorizationRequest { verifier, state, url }
}

/// A sign-in with a verifier of 32 and a state of 16 random bytes.
pub fn begin_authorization(redirect_uri: &str) -> (r: AuthorizationRequest)
    ensures
        exists|verifier_bytes: Seq<u8>, state_bytes: Seq<u8>|
            verifier_bytes.len() == 32 && state_bytes.len() == 16 && #[trigger] asks(
                r,
                redirect_uri@,
                verifier_bytes,
                state_bytes,
            ),
{
    let verifier_bytes = encoding::random_bytes(32);
    let state_bytes = encoding::random_bytes(16);
    authorization_request(redirect_uri, verifier_bytes.as_slice(), state_bytes.as_slice())
}

/// The fields with which a code is exchanged for tokens.
pub open spec fn exchange_pairs(
    code: Seq<char>,
    verifier: Seq<char>,
    redirect_uri: Seq<char>,
) -> Seq<(Seq<char>, Seq<char>)> {
    seq![
        ("grant_type"@, "authorization_code"@),
        ("client_id"@, CLIENT_ID@),
        ("code"@, code),
        ("redirect_uri"@, redirect_uri),
        ("code_verifier"@, verifier),
    ]
}

/// The body of the request that exchanges a code for tokens.
pub fn exchange_form(code: &str, verifier: &str, redirect_uri: &str) -> (body: String)
    ensures
        body@ == encoding::form_urlencoded(exchange_pairs(code@, verifier@, redirect_uri@)),
{
    let pairs: Vec<(&str, &str)> = vec![
        ("grant_type", "authorization_code"),
        ("client_id", CLIENT_ID),
        ("code", code),
        ("redirect_uri", redirect_uri),
        ("code_verifier", verifier),
    ];
    assert(pairs.deep_view() == exchange_pairs(code@, verifier@, redirect_uri@));
    encoding::form_urlencoded_of(&pairs)
}

/// The fields with which tokens are renewed.
pub open spec fn refresh_pairs(refresh_token: Seq<char>) -> Seq<(Seq<char>, Seq<char>)> {
    seq![
        ("grant_type"@, "refresh_token"@),
        ("client_id"@, CLIENT_ID@),
        ("refresh_token"@, refresh_token),
    ]
}

/// The body of the request that renews tokens.
pub fn refresh_form(refresh_token: &str) -> (body: String)
    ensures
        body@ == encoding::form_urlencoded(refresh_pairs(refresh_token@)),
{
    let pairs: Vec<(&str, &str)> = vec![
        ("grant_type", "refresh_token"),
        ("client_id", CLIENT_ID),
        ("refresh_token", refresh_token),
    ];
    assert(pairs.deep_view() == refresh_pairs(refresh_token@));
    encoding::form_urlencoded_of(&pairs)
}

/// A status that says that a request was granted.
pub open spec fn is_success(status: u16) -> bool {
    200 <= status < 300
}

/// A status that says that the server itself failed.
pub open spec fn is_server_error(status: u16) -> bool {
    500 <= status < 600
}

/// Whether a status says that a request was granted.
pub fn succeeded(status: u16) -> (r: bool)
    ensures
        r == is_success(status),
{
    200 <= status && status < 300
}

/// Whether a status says that the server itself failed.
pub fn server_failed(status: u16) -> (r: bool)
    ensures
        r == is_server_error(status),
{
    500 <= status && status < 600
}

/// A message that names a status and repeats the body of the answer.
pub open spec fn failure_message(what: Seq<char>, status: u16, body: Seq<char>) -> Seq<char> {
    what + " (HTTP "@ + encoding::status_text(status) + "): "@ + body
}

/// The message for an answer that grants nothing.
pub fn failure_message_of(what: &str, status: u16, body: &str) -> (r: String)
    requires
        100 <= status <= 999,
    ensures
        r@ == failure_message(what@, status, body@),
{
    let mut r = what.to_owned();
    r.append(" (HTTP ");
    r.append(&encoding::status_text_of(status));
    r.append("): ");
    r.append(body);
    r
}

/// What the exchange of a code comes to.
pub open spec fn exchanged(
    status: u16,
    body: Seq<char>,
    tokens: Result<TokenResponse, String>,
    r: Result<TokenResponse, String>,
) -> bool {
    if !is_success(status) {
        r matches Err(message) && message@ == failure_message("Token exchange failed"@, status, body)
    } else {
        match tokens {
            Ok(tokens) => r == Ok::<TokenResponse, String>(tokens),
            Err(unreadable) => r matches Err(message) && message@
                == "Failed to parse token response: "@ + unreadable@,
        }
    }
}

/// Judges the answer to the exchange of a code, given the tokens that its body was read as.
pub fn exchange_outcome(
    status: u16,
    body: &str,
    tokens: Result<TokenResponse, String>,
) -> (r: Result<TokenResponse, String>)
    requires
        100 <= status <= 999,
    ensures
        exchanged(status, body@, tokens, r),
{
    if !succeeded(status) {
        return Err(failure_message_of("Token exchange failed", status, body));
    }
    match tokens {
        Ok(tokens) => Ok(tokens),
        Err(unreadable) => Err(text::joined("Failed to parse token response: ", &unreadable)),
    }
}

pub const STATE_MISMATCH_MESSAGE: &'static str = "OAuth state mismatch";

impl AuthorizationRequest {
    /// Takes in what the browser brought back: the body of the request that exchanges the code
    /// for tokens, if the browser came back from this sign-in and no other.
    pub fn accept_callback(&self, returned_state: &str, code: &str, redirect_uri: &str) -> (r:
        Result<String, String>)
        ensures
            if returned_state@ == self.state@ {
                r matches Ok(body) && body@ == encoding::form_urlencoded(
                    exchange_pairs(code@, self.verifier@, redirect_uri@),
                )
            } else {
                r matches Err(message) && message@ == STATE_MISMATCH_MESSAGE@
            },
    {
        if !text::same(returned_state, &self.state) {
            return Err(STATE_MISMATCH_MESSAGE.to_owned());
        }
        Ok(exchange_form(code, &self.verifier, redirect_uri))
    }
}

/// What a sign-in comes to once its code is exchanged: the credentials that the tokens make, or
/// why there are none.
pub open spec fn signed_in(
    status: u16,
    body: Seq<char>,
    tokens: Result<TokenResponse, String>,
    now: u64,
    r: Result<CodexCredentials, String>,
) -> bool {
    if !is_success(status) {
        r matches Err(message) && message@ == "Token exchange failed: "@ + failure_message(
            "Token exchange failed"@,
            status,
            body,
        )
    } else {
        match tokens {
            Ok(tokens) => r matches Ok(made) && made@ == credentials::issued(
                tokens,
                credentials::token_claims(credentials::naming_token(tokens)),
                now,
            ),
            Err(unreadable) => r matches Err(message) && message@ == "Token exchange failed: "@ + (
            "Failed to parse token response: "@ + unreadable@),
        }
    }
}

/// Ends a sign-in with the answer to the exchange of its code, given the tokens that the body was
/// read as.
pub fn finish_authorization(
    status: u16,
    body: &str,
    tokens: Result<TokenResponse, String>,
    now: u64,
) -> (r: Result<CodexCredentials, String>)
    requires
        100 <= status <= 999,
        tokens matches Ok(tokens) ==> credentials::expiry(tokens, now) <= u64::MAX,
    ensures
        signed_in(status, body@, tokens, now, r),
{
    match exchange_outcome(status, body, tokens) {
        Ok(tokens) => Ok(credentials::credentials_from_tokens(tokens, now)),
        Err(message) => Err(text::joined("Token exchange failed: ", &message)),
    }
}

/// Sign-ins with different random bytes have different states, so that a browser that comes back
/// from one is not taken for that of another.
pub proof fn sign_ins_are_told_apart(
    request: AuthorizationRequest,
    redirect_uri: Seq<char>,
    verifier_bytes: Seq<u8>,
    state_bytes: Seq<u8>,
    other: Seq<u8>,
)
    requires
        asks(request, redirect_uri, verifier_bytes, state_bytes),
        other.len() == state_bytes.len(),
        other != state_bytes,
    ensures
        request.state@ != text::hexadecimal(other),
{
    if text::hexadecimal(other) == text::hexadecimal(state_bytes) {
        assert forall|i: int| 0 <= i < other.len() implies other[i] == state_bytes[i] by {
            let a = text::hexadecimal(other);
            let b = text::hexadecimal(state_bytes);
            assert(a[2 * i] == b[2 * i]);
            assert(a[2 * i + 1] == b[2 * i + 1]);
            text::digits_differ(other[i] as int / 16, state_bytes[i] as int / 16);
            text::digits_differ(other[i] as int % 16, state_bytes[i] as int % 16);
        }
        assert(other =~= state_bytes);
    }
}

/// Why tokens could not be renewed.
#[derive(Debug)]
pub enum RefreshError {
    /// The account has to sign in again.
    Fatal(String),
    /// Another try may succeed.
    Transient(String),
}

impl RefreshError {
    /// What happened, in words.
    pub open spec fn text(self) -> Seq<char> {
        match self {
            RefreshError::Fatal(message) => message@,
            RefreshError::Transient(message) => message@,
        }
    }

    /// What happened, in words.
    pub fn message(&self) -> (r: &str)
        ensures
            r@ == self.text(),
    {
        match self {
            RefreshError::Fatal(message) => message.as_str(),
            RefreshError::Transient(message) => message.as_str(),
        }
    }
}

/// A status by which the token endpoint says that a refresh token is invalid or revoked.
pub open spec fn revokes(status: u16) -> bool {
    status == 400 || status == 401 || status == 403
}

/// What an answer to the renewal of tokens comes to: the credentials that the tokens make, or why
/// there are none.
pub open spec fn renewed(
    status: u16,
    body: Seq<char>,
    tokens: Result<TokenResponse, String>,
    now: u64,
    r: Result<CodexCredentials, RefreshError>,
) -> bool {
    if is_success(status) {
        match tokens {
            Ok(tokens) => r matches Ok(renewed) && renewed@ == credentials::issued(
                tokens,
                credentials::token_claims(credentials::naming_token(tokens)),
                now,
            ),
            Err(unreadable) => r == Err::<CodexCredentials, RefreshError>(
                RefreshError::Transient(unreadable),
            ),
        }
    } else if revokes(status) {
        r matches Err(RefreshError::Fatal(message)) && message@ == failure_message(
            "Token refresh failed"@,
            status,
            body,
        )
    } else {
        r matches Err(RefreshError::Transient(message)) && message@ == failure_message(
            "Token refresh failed"@,
            status,
            body,
        )
    }
}

/// Judges the answer to the renewal of tokens, given the tokens that its body was read as.
pub fn refresh_outcome(
    status: u16,
    body: &str,
    tokens: Result<TokenResponse, String>,
    now: u64,
) -> (r: Result<CodexCredentials, RefreshError>)
    requires
        100 <= status <= 999,
        tokens matches Ok(tokens) ==> credentials::expiry(tokens, now) <= u64::MAX,
    ensures
        renewed(status, body@, tokens, now, r),
{
    if !succeeded(status) {
        let message = failure_message_of("Token refresh failed", status, body);
        if status == 400 || status == 401 || status == 403 {
            return Err(RefreshError::Fatal(message));
        }
        return Err(RefreshError::Transient(message));
    }
    match tokens {
        Ok(tokens) => Ok(credentials::credentials_from_tokens(tokens, now)),
        Err(unreadable) => Err(RefreshError::Transient(unreadable)),
    }
}

/// Whether to try once more to renew tokens: after a failure that may pass, and once only.
pub fn retries_refresh(result: &Result<CodexCredentials, RefreshError>, retried: bool) -> (r: bool)
    ensures
        r == (!retried && (result matches Err(RefreshError::Transient(_)))),
{
    match result {
        Err(RefreshError::Transient(_)) => !retried,
        _ => false,
    }
}

} // verus!
