//! What holds of tokens: how they are asked for, issued, read and renewed.
use crate::credentials;
use crate::credentials::{CodexCredentials, JwtClaims, TokenResponse};
use crate::encoding;
use crate::json;
use crate::json::Json;
use crate::oauth;
use crate::oauth::{AuthorizationRequest, RefreshError};
use crate::refresh;
use crate::requests;
use crate::storage;
use crate::text;
use crate::text_laws;
use vstd::prelude::*;
use vstd::string::*;

verus! {

/// A token counts as expired when no more than five minutes are left of its time.
pub proof fn tokens_expire_early(credentials: &CodexCredentials, now: u64, r: bool)
    requires
        call_ensures(CodexCredentials::is_expired_at, (credentials, now), r),
    ensures
        r <==> credentials.expires_at_ms - now <= 300_000,
{
}

/// An account is kept under its own id, else under its e-mail address, else under a fixed one.
pub proof fn accounts_have_ids(credentials: &CodexCredentials, id: String)
    requires
        call_ensures(CodexCredentials::id, (credentials,), id),
    ensures
        credentials.account_id matches Some(own) ==> id@ == own@,
        credentials.account_id is None ==> (credentials.email matches Some(email) ==> id@
            == email@),
        credentials.account_id is None && credentials.email is None ==> id@ == "legacy"@,
{
}

/// The text that an object holds under a name.
pub open spec fn text_under(value: Json, name: Seq<char>) -> Option<Seq<char>> {
    match value.member(name) {
        Some(member) => member.content(),
        None => None,
    }
}

/// A token's payload names the account at its top, else in the service's own claim, else as its
/// first organization; and it may name an e-mail address.
pub proof fn payloads_name_the_account(payload: &Json, r: JwtClaims)
    requires
        call_ensures(credentials::claims_of_payload, (payload,), r),
    ensures
        ({
            let top = text_under(*payload, "chatgpt_account_id"@);
            let nested = match payload.member("https://api.openai.com/auth"@) {
                Some(claim) => text_under(claim, "chatgpt_account_id"@),
                None => None,
            };
            let first = match payload.member("organizations"@) {
                Some(Json::Array(all)) => if all@.len() > 0 {
                    text_under(all@[0], "id"@)
                } else {
                    None
                },
                _ => None,
            };
            &&& top is Some ==> r.account_id.deep_view() == top
            &&& top is None && nested is Some ==> r.account_id.deep_view() == nested
            &&& top is None && nested is None ==> r.account_id.deep_view() == first
            &&& r.email.deep_view() == text_under(*payload, "email"@)
        }),
{
}

/// The claims of a token are those in the second of its parts, which dots separate: a JSON document
/// in base64.
pub proof fn tokens_hold_their_claims(
    token: &str,
    r: JwtClaims,
    first: Seq<char>,
    second: Seq<char>,
    rest: Seq<char>,
    bytes: Seq<u8>,
    payload: &Json,
    claims: JwtClaims,
)
    requires
        call_ensures(credentials::extract_jwt_claims, (token,), r),
        token@ == first + seq!['.'] + (second + seq!['.'] + rest),
        forall|i: int| 0 <= i < first.len() ==> #[trigger] first[i] != '.',
        forall|i: int| 0 <= i < second.len() ==> #[trigger] second[i] != '.',
        encoding::base64url_decoded(second) == Some(bytes),
        json::json_of_bytes(bytes) == Some(*payload),
        call_ensures(credentials::claims_of_payload, (payload,), claims),
    ensures
        r.account_id.deep_view() == claims.account_id.deep_view(),
        r.email.deep_view() == claims.email.deep_view(),
{
    reveal_strlit(".");
    assert("."@ =~= seq!['.']);
    let after = second + seq!['.'] + rest;
    assert forall|i: int| 0 <= i < first.len() implies !text::occurs_at(token@, "."@, i) by {
        if text::occurs_at(token@, "."@, i) {
            assert(token@.subrange(i, i + 1)[0] == token@[i]);
            assert(token@[i] == first[i]);
        }
    }
    assert forall|i: int| 0 <= i < second.len() implies !text::occurs_at(after, "."@, i) by {
        if text::occurs_at(after, "."@, i) {
            assert(after.subrange(i, i + 1)[0] == after[i]);
            assert(after[i] == second[i]);
        }
    }
    text_laws::lemma_cut(first, "."@, after);
    text_laws::lemma_cut(second, "."@, rest);
}

/// A token without parts, or whose second part is no base64 text of a JSON document, has no claims.
pub proof fn other_tokens_hold_no_claims(token: &str, r: JwtClaims)
    requires
        call_ensures(credentials::extract_jwt_claims, (token,), r),
        match text::second_piece(token@, "."@) {
            Some(part) => match encoding::base64url_decoded(part) {
                Some(bytes) => json::json_of_bytes(bytes) is None,
                None => true,
            },
            None => true,
        },
    ensures
        r.account_id is None,
        r.email is None,
{
}

/// Issued tokens make credentials that hold them, end after their time, have the scopes that are
/// granted, and belong to the account that the identity token names, else the access token.
pub proof fn issued_tokens_make_credentials(
    tokens: TokenResponse,
    now: u64,
    r: CodexCredentials,
    token: &str,
    claims: JwtClaims,
)
    requires
        call_ensures(credentials::credentials_from_tokens, (tokens, now), r),
        credentials::expiry(tokens, now) <= u64::MAX,
        call_ensures(credentials::extract_jwt_claims, (token,), claims),
        tokens.id_token matches Some(named) ==> token@ == named@,
        tokens.id_token is None ==> token@ == tokens.access_token@,
    ensures
        r.access_token@ == tokens.access_token@,
        r.refresh_token@ == tokens.refresh_token@,
        r.expires_at_ms == now + tokens.expires_in * 1000,
        r.account_id.deep_view() == claims.account_id.deep_view(),
        claims.email is Some ==> r.email.deep_view() == claims.email.deep_view(),
        claims.email is None ==> r.email.deep_view() == tokens.email.deep_view(),
        tokens.scope matches Some(scope) ==> r.scopes.deep_view() == text::words(scope@),
        tokens.scope is None ==> r.scopes@.len() == 0,
{
    assert(r.scopes.deep_view().len() == r.scopes@.len());
}

/// Tokens whose time ends beyond the largest number are told apart from others.
pub proof fn overlong_tokens_are_told(tokens: &TokenResponse, now: u64, r: bool)
    requires
        call_ensures(credentials::expiry_fits, (tokens, now), r),
    ensures
        r <==> now + tokens.expires_in * 1000 <= u64::MAX,
{
}

/// A sign-in asks for a code at the authorize page, with these parameters, a challenge that belongs
/// to its verifier, and a state of its own.
pub proof fn sign_ins_ask_for_a_code(
    redirect_uri: &str,
    verifier_bytes: &[u8],
    state_bytes: &[u8],
    r: AuthorizationRequest,
)
    requires
        call_ensures(
            oauth::authorization_request,
            (redirect_uri, verifier_bytes, state_bytes),
            r,
        ),
    ensures
        r.verifier@ == encoding::base64url(verifier_bytes@),
        r.state@ == text::hexadecimal(state_bytes@),
        r.url@ == "https://auth.openai.com/oauth/authorize?"@ + encoding::form_urlencoded(
            seq![
                ("client_id"@, "app_EMoamEEZ73f0CkXaXp7hrann"@),
                ("redirect_uri"@, redirect_uri@),
                ("scope"@, "openid profile email offline_access"@),
                ("prompt"@, "select_account"@),
                ("response_type"@, "code"@),
                (
                    "code_challenge"@,
                    encoding::base64url(
                        encoding::sha256(vstd::utf8::encode_utf8(r.verifier@)),
                    ),
                ),
                ("code_challenge_method"@, "S256"@),
                ("id_token_add_organizations"@, "true"@),
                ("state"@, r.state@),
                ("codex_cli_simplified_flow"@, "true"@),
                ("originator"@, "zed"@),
            ],
        ),
{
    reveal_strlit("https://auth.openai.com/oauth/authorize");
    reveal_strlit("?");
    reveal_strlit("https://auth.openai.com/oauth/authorize?");
    assert("https://auth.openai.com/oauth/authorize"@ + "?"@
        =~= "https://auth.openai.com/oauth/authorize?"@);
}

/// A sign-in has a state of thirty-two hexadecimal digits.
pub proof fn states_are_long(redirect_uri: &str, r: AuthorizationRequest, i: int)
    requires
        call_ensures(oauth::begin_authorization, (redirect_uri,), r),
    ensures
        r.state@.len() == 32,
        0 <= i < 32 ==> ('0' <= r.state@[i] <= '9') || ('a' <= r.state@[i] <= 'f'),
{
    let (verifier_bytes, state_bytes) = choose|verifier_bytes: Seq<u8>, state_bytes: Seq<u8>|
        verifier_bytes.len() == 32 && state_bytes.len() == 16 && #[trigger] oauth::asks(
            r,
            redirect_uri@,
            verifier_bytes,
            state_bytes,
        );
    if 0 <= i < 32 {
        assert(0 <= state_bytes[i / 2] as int / 16 < 16);
        assert(0 <= state_bytes[i / 2] as int % 16 < 16);
    }
}

/// A code is exchanged, and tokens are renewed, with these fields.
pub proof fn tokens_are_asked_for(
    code: &str,
    verifier: &str,
    redirect_uri: &str,
    exchange: String,
    refresh_token: &str,
    renewal: String,
)
    requires
        call_ensures(oauth::exchange_form, (code, verifier, redirect_uri), exchange),
        call_ensures(oauth::refresh_form, (refresh_token,), renewal),
    ensures
        exchange@ == encoding::form_urlencoded(
            seq![
                ("grant_type"@, "authorization_code"@),
                ("client_id"@, "app_EMoamEEZ73f0CkXaXp7hrann"@),
                ("code"@, code@),
                ("redirect_uri"@, redirect_uri@),
                ("code_verifier"@, verifier@),
            ],
        ),
        renewal@ == encoding::form_urlencoded(
            seq![
                ("grant_type"@, "refresh_token"@),
                ("client_id"@, "app_EMoamEEZ73f0CkXaXp7hrann"@),
                ("refresh_token"@, refresh_token@),
            ],
        ),
{
}

/// A code is exchanged only for a browser that brings back the state of this sign-in, and with the
/// verifier of this sign-in.
pub proof fn only_own_codes_are_exchanged(
    request: &AuthorizationRequest,
    state: &str,
    code: &str,
    redirect_uri: &str,
    verifier: &str,
    r: Result<String, String>,
    form: String,
)
    requires
        call_ensures(AuthorizationRequest::accept_callback, (request, state, code, redirect_uri), r),
        call_ensures(oauth::exchange_form, (code, verifier, redirect_uri), form),
        verifier@ == request.verifier@,
    ensures
        state@ == request.state@ ==> (r matches Ok(body) && body@ == form@),
        state@ != request.state@ ==> (r matches Err(message) && message@
            == "OAuth state mismatch"@),
{
}

proof fn lemma_failure_text(status: u16, body: Seq<char>)
    ensures
        oauth::failure_message("Token exchange failed"@, status, body)
            == "Token exchange failed (HTTP "@ + encoding::status_text(status) + "): "@ + body,
        oauth::failure_message("Token refresh failed"@, status, body)
            == "Token refresh failed (HTTP "@ + encoding::status_text(status) + "): "@ + body,
{
    reveal_strlit("Token exchange failed");
    reveal_strlit("Token refresh failed");
    reveal_strlit(" (HTTP ");
    reveal_strlit("Token exchange failed (HTTP ");
    reveal_strlit("Token refresh failed (HTTP ");
    assert("Token exchange failed"@ + " (HTTP "@ =~= "Token exchange failed (HTTP "@);
    assert("Token refresh failed"@ + " (HTTP "@ =~= "Token refresh failed (HTTP "@);
}

/// A sign-in ends with the credentials that the tokens make, if they are granted and can be read,
/// and with the reason otherwise.
pub proof fn granted_sign_ins_make_credentials(
    status: u16,
    body: &str,
    tokens: Result<TokenResponse, String>,
    now: u64,
    r: Result<CodexCredentials, String>,
    made: CodexCredentials,
)
    requires
        call_ensures(oauth::finish_authorization, (status, body, tokens, now), r),
        tokens matches Ok(issued) ==> call_ensures(
            credentials::credentials_from_tokens,
            (issued, now),
            made,
        ),
    ensures
        200 <= status < 300 && tokens is Ok ==> (r matches Ok(credentials) && credentials@
            == made@),
        200 <= status < 300 ==> (tokens matches Err(unreadable) ==> (r matches Err(message)
            && message@ == "Token exchange failed: "@ + ("Failed to parse token response: "@
            + unreadable@))),
        !(200 <= status < 300) ==> (r matches Err(message) && message@ == "Token exchange failed: "@
            + ("Token exchange failed (HTTP "@ + encoding::status_text(status) + "): "@ + body@)),
{
    lemma_failure_text(status, body@);
}

/// The tokens of an exchange are those that are granted and can be read.
pub proof fn granted_exchanges_give_tokens(
    status: u16,
    body: &str,
    tokens: Result<TokenResponse, String>,
    r: Result<TokenResponse, String>,
)
    requires
        call_ensures(oauth::exchange_outcome, (status, body, tokens), r),
    ensures
        200 <= status < 300 ==> (tokens matches Ok(issued) ==> r == Ok::<TokenResponse, String>(
            issued,
        )),
        !(200 <= status < 300) || tokens is Err ==> r is Err,
        !(200 <= status < 300) ==> (r matches Err(message) && message@
            == "Token exchange failed (HTTP "@ + encoding::status_text(status) + "): "@ + body@),
{
    lemma_failure_text(status, body@);
}

/// A renewal gives the credentials that the tokens make. One that is answered with 400, 401 or 403
/// has failed for good; any other failure may pass, and is tried once more.
pub proof fn renewals_succeed_or_fail(
    status: u16,
    body: &str,
    tokens: Result<TokenResponse, String>,
    now: u64,
    r: Result<CodexCredentials, RefreshError>,
    made: CodexCredentials,
    retried: bool,
    again: bool,
)
    requires
        call_ensures(oauth::refresh_outcome, (status, body, tokens, now), r),
        tokens matches Ok(issued) ==> call_ensures(
            credentials::credentials_from_tokens,
            (issued, now),
            made,
        ),
        call_ensures(oauth::retries_refresh, (&r, retried), again),
    ensures
        200 <= status < 300 && tokens is Ok ==> (r matches Ok(renewed) && renewed@ == made@),
        200 <= status < 300 ==> (tokens matches Err(unreadable) ==> (r matches Err(
            RefreshError::Transient(message),
        ) && message@ == unreadable@)),
        status == 400 || status == 401 || status == 403 ==> (r matches Err(
            RefreshError::Fatal(message),
        ) && message@ == "Token refresh failed (HTTP "@ + encoding::status_text(status) + "): "@
            + body@),
        !(200 <= status < 300) && status != 400 && status != 401 && status != 403 ==> (r
            matches Err(RefreshError::Transient(message)) && message@
            == "Token refresh failed (HTTP "@ + encoding::status_text(status) + "): "@ + body@),
        again <==> !retried && !(r is Ok) && status != 400 && status != 401 && status != 403,
{
    lemma_failure_text(status, body@);
}

/// A renewal that takes too long may succeed later. What those who wait for a renewal get is its
/// result, unless it could not be saved.
pub proof fn renewals_are_settled(
    late: RefreshError,
    result: Result<CodexCredentials, String>,
    saved: Option<Result<(), String>>,
    r: Result<CodexCredentials, String>,
)
    requires
        call_ensures(refresh::refresh_timed_out, (), late),
        call_ensures(refresh::settled, (result, saved), r),
    ensures
        late matches RefreshError::Transient(message) && message@
            == "ChatGPT token refresh timed out"@,
        saved is None ==> r == result,
        saved matches Some(Ok(_)) ==> r == result,
        saved matches Some(Err(reason)) ==> r == Err::<CodexCredentials, String>(reason),
{
}

/// The reason for which a renewal failed is told, whether it failed for good or not.
pub proof fn reasons_of_renewals_are_told(error: &RefreshError, r: &str)
    requires
        call_ensures(RefreshError::message, (error,), r),
    ensures
        *error matches RefreshError::Fatal(message) ==> r@ == message@,
        *error matches RefreshError::Transient(message) ==> r@ == message@,
{
}

/// The service is reached at these addresses. The client is registered for this address of the
/// browser's return.
pub proof fn addresses_are_registered()
    ensures
        oauth::OPENAI_TOKEN_URL@ == "https://auth.openai.com/oauth/token"@,
        encoding::OPENAI_AUTHORIZE_URL@ == "https://auth.openai.com/oauth/authorize"@,
        oauth::CODEX_CALLBACK_HOST@ == "localhost"@,
        oauth::CODEX_CALLBACK_PORT == 1455,
        oauth::CODEX_CALLBACK_FALLBACK_PORT == 1457,
        oauth::CODEX_CALLBACK_PATH@ == "/auth/callback"@,
        requests::CODEX_BASE_URL@ == "https://chatgpt.com/backend-api/codex"@,
        requests::USAGE_URL@ == "https://chatgpt.com/backend-api/wham/usage"@,
        storage::CREDENTIALS_KEY@ == "https://chatgpt.com/backend-api/codex"@,
        storage::INDEX_USER@ == "Accounts"@,
        storage::RECORD_USER@ == "Bearer"@,
{
}

/// Requests are granted with a status from 200 on, and servers fail with one from 500 on.
pub proof fn statuses_are_told(status: u16, granted: bool, failed: bool)
    requires
        call_ensures(oauth::succeeded, (status,), granted),
        call_ensures(oauth::server_failed, (status,), failed),
    ensures
        granted <==> status / 100 == 2,
        failed <==> status / 100 == 5,
{
}

} // verus!
