//! What signs requests of one account: its tokens, and who it belongs to.
use crate::encoding;
use crate::json::Json;
use crate::text;
use crate::time;
use std::time::SystemTime;
use vstd::prelude::*;
use vstd::string::*;

verus! {

/// How long before its end a token counts as expired: five minutes.
pub const TOKEN_REFRESH_BUFFER_MS: u64 = 300_000;

/// The tokens of an account, and what is known of the account.
#[derive(Debug)]
pub struct CodexCredentials {
    pub access_token: String,
    pub refresh_token: String,
    pub expires_at_ms: u64,
    pub account_id: Option<String>,
    pub email: Option<String>,
    pub scopes: Vec<String>,
}

/// What credentials hold.
#[verifier::ext_equal]
pub struct CredentialsModel {
    pub access_token: Seq<char>,
    pub refresh_token: Seq<char>,
    pub expires_at_ms: u64,
    pub account_id: Option<Seq<char>>,
    pub email: Option<Seq<char>>,
    pub scopes: Seq<Seq<char>>,
}

impl View for CodexCredentials {
    type V = CredentialsModel;

    open spec fn view(&self) -> CredentialsModel {
        CredentialsModel {
            access_token: self.access_token@,
            refresh_token: self.refresh_token@,
            expires_at_ms: self.expires_at_ms,
            account_id: self.account_id.deep_view(),
            email: self.email.deep_view(),
            scopes: self.scopes.deep_view(),
        }
    }
}

impl CredentialsModel {
    /// At `now`, no more than the refresh buffer is left of the access token's time.
    pub open spec fn expired_at(self, now: u64) -> bool {
        now + TOKEN_REFRESH_BUFFER_MS >= self.expires_at_ms
    }

    /// The id under which the account is kept: its own, else the e-mail address, else `legacy`.
    pub open spec fn id(self) -> Seq<char> {
        match self.account_id {
            Some(id) => id,
            None => match self.email {
                Some(email) => email,
                None => "legacy"@,
            },
        }
    }
}

impl Clone for CodexCredentials {
    fn clone(&self) -> (copy: Self)
        ensures
            copy@ == self@,
    {
        CodexCredentials {
            access_token: self.access_token.clone(),
            refresh_token: self.refresh_token.clone(),
            expires_at_ms: self.expires_at_ms,
            account_id: text::copy_optional(&self.account_id),
            email: text::copy_optional(&self.email),
            scopes: text::copy_list(&self.scopes),
        }
    }
}

impl CodexCredentials {
    /// Whether the access token counts as expired at a time.
    pub fn is_expired_at(&self, now: u64) -> (r: bool)
        ensures
            r == self@.expired_at(now),
    {
        self.expires_at_ms <= TOKEN_REFRESH_BUFFER_MS || now >= self.expires_at_ms
            - TOKEN_REFRESH_BUFFER_MS
    }

    /// Whether the access token counts as expired by the wall clock.
    pub fn is_expired(&self) -> (r: bool)
        ensures
            exists|reading: SystemTime|
                r == self@.expired_at(#[trigger] time::read_ms(reading)),
            self.expires_at_ms <= TOKEN_REFRESH_BUFFER_MS ==> r,
    {
        let now = time::now_ms();
        self.is_expired_at(now)
    }

    /// The id under which the account is kept.
    pub fn id(&self) -> (id: String)
        ensures
            id@ == self@.id(),
    {
        match &self.account_id {
            Some(id) => id.clone(),
            None => match &self.email {
                Some(email) => email.clone(),
                None => "legacy".to_owned(),
            },
        }
    }
}

/// Who a token says that it belongs to.
#[derive(Debug)]
pub struct JwtClaims {
    pub account_id: Option<String>,
    pub email: Option<String>,
}

/// What claims hold.
#[verifier::ext_equal]
pub struct ClaimsModel {
    pub account_id: Option<Seq<char>>,
    pub email: Option<Seq<char>>,
}

impl View for JwtClaims {
    type V = ClaimsModel;

    open spec fn view(&self) -> ClaimsModel {
        ClaimsModel { account_id: self.account_id.deep_view(), email: self.email.deep_view() }
    }
}

/// The text of a member of an object.
pub open spec fn member_content(value: Option<Json>, key: Seq<char>) -> Option<Seq<char>> {
    match value {
        Some(value) => match value.member(key) {
            Some(member) => member.content(),
            None => None,
        },
        None => None,
    }
}

/// The account that a token's payload names: at its top, else in OpenAI's own claim, else as the
/// first organization.
pub open spec fn claimed_account(payload: Json) -> Option<Seq<char>> {
    let top = member_content(Some(payload), "chatgpt_account_id"@);
    let nested = member_content(
        payload.member("https://api.openai.com/auth"@),
        "chatgpt_account_id"@,
    );
    let organization = match payload.member("organizations"@) {
        Some(organizations) => member_content(organizations.head(), "id"@),
        None => None,
    };
    if top is Some {
        top
    } else if nested is Some {
        nested
    } else {
        organization
    }
}

/// The claims in a token's payload.
pub open spec fn payload_claims(payload: Json) -> ClaimsModel {
    ClaimsModel {
        account_id: claimed_account(payload),
        email: member_content(Some(payload), "email"@),
    }
}

/// The claims of a token: those in the second of its parts, which is base64 text of a JSON
/// document; none where it has no such part.
pub open spec fn token_claims(jwt: Seq<char>) -> ClaimsModel {
    let none = ClaimsModel { account_id: None, email: None };
    match text::second_piece(jwt, "."@) {
        Some(part) => match encoding::base64url_decoded(part) {
            Some(bytes) => match crate::json::json_of_bytes(bytes) {
                Some(payload) => payload_claims(payload),
                None => none,
            },
            None => none,
        },
        None => none,
    }
}

fn content_of(value: Option<&Json>, key: &str) -> (r: Option<String>)
    ensures
        r.deep_view() == member_content(
            match value {
                Some(value) => Some(*value),
                None => None,
            },
            key@,
        ),
{
    match value {
        Some(value) => match value.get(key) {
            Some(member) => match member.as_str() {
                Some(content) => Some(content.to_owned()),
                None => None,
            },
            None => None,
        },
        None => None,
    }
}

/// The claims in a token's payload.
pub fn claims_of_payload(payload: &Json) -> (claims: JwtClaims)
    ensures
        claims@ == payload_claims(*payload),
{
    let email = content_of(Some(payload), "email");
    let top = content_of(Some(payload), "chatgpt_account_id");
    if top.is_some() {
        return JwtClaims { account_id: top, email };
    }
    let nested = content_of(payload.get("https://api.openai.com/auth"), "chatgpt_account_id");
    if nested.is_some() {
        return JwtClaims { account_id: nested, email };
    }
    let organization = match payload.get("organizations") {
        Some(organizations) => content_of(organizations.first(), "id"),
        None => None,
    };
    JwtClaims { account_id: organization, email }
}

/// The claims of a token.
pub fn extract_jwt_claims(jwt: &str) -> (claims: JwtClaims)
    ensures
        claims@ == token_claims(jwt@),
{
    let none = JwtClaims { account_id: None, email: None };
    let part = match text::second_piece_of(jwt, ".") {
        Some(part) => text::string_of(part.as_slice()),
        None => return none,
    };
    let bytes = match encoding::base64url_bytes(&part) {
        Some(bytes) => bytes,
        None => return none,
    };
    match Json::parse_bytes(bytes.as_slice()) {
        Some(payload) => claims_of_payload(&payload),
        None => none,
    }
}

/// What the token endpoint answers.
#[derive(Debug)]
pub struct TokenResponse {
    pub scope: Option<String>,
    pub access_token: String,
    pub refresh_token: String,
    pub id_token: Option<String>,
    pub expires_in: u64,
    pub email: Option<String>,
}

/// The time at which tokens issued at `now` end.
pub open spec fn expiry(tokens: TokenResponse, now: u64) -> int {
    now + tokens.expires_in * 1000
}

/// Whether the end of the tokens' time is a number of 64 bits.
pub fn expiry_fits(tokens: &TokenResponse, now: u64) -> (r: bool)
    ensures
        r == (expiry(*tokens, now) <= u64::MAX),
{
    tokens.expires_in <= (u64::MAX - now) / 1000
}

/// The token that names the account: the identity token, else the access token.
pub open spec fn naming_token(tokens: TokenResponse) -> Seq<char> {
    match tokens.id_token {
        Some(token) => token@,
        None => tokens.access_token@,
    }
}

/// The credentials that tokens issued at `now` make, with the claims of the naming token.
pub open spec fn issued(tokens: TokenResponse, claims: ClaimsModel, now: u64) -> CredentialsModel {
    CredentialsModel {
        access_token: tokens.access_token@,
        refresh_token: tokens.refresh_token@,
        expires_at_ms: expiry(tokens, now) as u64,
        account_id: claims.account_id,
        email: if claims.email is Some {
            claims.email
        } else {
            tokens.email.deep_view()
        },
        scopes: match tokens.scope {
            Some(scope) => text::words(scope@),
            None => Seq::empty(),
        },
    }
}

/// The credentials that freshly issued tokens make, given the claims of the naming token.
pub fn credentials_with_claims(tokens: TokenResponse, claims: JwtClaims, now: u64) -> (r:
    CodexCredentials)
    requires
        expiry(tokens, now) <= u64::MAX,
    ensures
        r@ == issued(tokens, claims@, now),
{
    let scopes: Vec<String> = match &tokens.scope {
        Some(scope) => text::words_of(scope),
        None => Vec::new(),
    };
    assert(tokens.scope is None ==> scopes.deep_view() == Seq::<Seq<char>>::empty());
    let email = if claims.email.is_some() {
        claims.email
    } else {
        tokens.email
    };
    CodexCredentials {
        access_token: tokens.access_token,
        refresh_token: tokens.refresh_token,
        expires_at_ms: now + tokens.expires_in * 1000,
        account_id: claims.account_id,
        email,
        scopes,
    }
}

/// The credentials that freshly issued tokens make.
pub fn credentials_from_tokens(tokens: TokenResponse, now: u64) -> (r: CodexCredentials)
    requires
        expiry(tokens, now) <= u64::MAX,
    ensures
        r@ == issued(tokens, token_claims(naming_token(tokens)), now),
{
    let claims = match &tokens.id_token {
        Some(token) => extract_jwt_claims(token),
        None => extract_jwt_claims(&tokens.access_token),
    };
    credentials_with_claims(tokens, claims, now)
}

} // verus!
