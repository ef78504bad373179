//! What requests to the service look like.
use crate::credentials::{CodexCredentials, CredentialsModel};
use crate::encoding;
use crate::models::{ChatGptModel, ReasoningEffort};
use crate::text;
use vstd::prelude::*;
use vstd::string::*;

verus! {

/// Where responses and the catalog of models are asked for.
pub const CODEX_BASE_URL: &'static str = "https://chatgpt.com/backend-api/codex";

/// Where the usage of an account is asked for.
pub const USAGE_URL: &'static str = "https://chatgpt.com/backend-api/wham/usage";

/// The version under which the service lists all models of an account; any other is compared with
/// the version that a model asks for.
pub const UNGATED_MODEL_CATALOG_CLIENT_VERSION: &'static str = "0.0.0";

/// The address of the catalog of models.
pub fn models_uri(client_version: &str) -> (uri: String)
    ensures
        uri@ == CODEX_BASE_URL@ + "/models?"@ + encoding::form_urlencoded(
            seq![("client_version"@, client_version@)],
        ),
{
    let pairs: Vec<(&str, &str)> = vec![("client_version", client_version)];
    assert(pairs.deep_view() =~= seq![("client_version"@, client_version@)]);
    text::joined3(CODEX_BASE_URL, "/models?", &encoding::form_urlencoded_of(&pairs))
}

/// The header by which a request shows its access token.
pub fn authorization(credentials: &CodexCredentials) -> (value: String)
    ensures
        value@ == "Bearer "@ + credentials@.access_token,
{
    text::joined("Bearer ", &credentials.access_token)
}

/// The account's own id, if it can stand in a header.
pub open spec fn account_header(credentials: CredentialsModel) -> Option<Seq<char>> {
    match credentials.account_id {
        Some(id) => if id.len() > 0 && encoding::header_value_allowed(id) {
            Some(id)
        } else {
            None
        },
        None => None,
    }
}

/// The headers of a request to the service, by name.
///
/// A routing key that cannot stand in a header is left out.
pub open spec fn extra_headers(
    credentials: CredentialsModel,
    routing_cache_key: Option<Seq<char>>,
) -> Seq<(Seq<char>, Seq<char>)> {
    let fixed = seq![("originator"@, "zed"@), ("openai-beta"@, "responses=experimental"@)];
    let account = match account_header(credentials) {
        Some(id) => fixed.push(("chatgpt-account-id"@, id)),
        None => fixed,
    };
    match routing_cache_key {
        Some(key) => if encoding::header_value_allowed(key) {
            account.push(("session-id"@, key)).push(("thread-id"@, key))
        } else {
            account
        },
        None => account,
    }
}

fn push_header(headers: &mut Vec<(String, String)>, name: &str, value: &str)
    ensures
        final(headers).deep_view() == old(headers).deep_view().push((name@, value@)),
{
    let ghost before = headers.deep_view();
    headers.push((name.to_owned(), value.to_owned()));
    assert(headers.deep_view() =~= before.push((name@, value@)));
}

/// The headers of a request to the service beside the access token.
pub fn codex_extra_headers(credentials: &CodexCredentials, routing_cache_key: Option<&str>) -> (
    headers: Vec<(String, String)>)
    ensures
        headers.deep_view() == extra_headers(
            credentials@,
            match routing_cache_key {
                Some(key) => Some(key@),
                None => None,
            },
        ),
{
    let mut headers: Vec<(String, String)> = Vec::new();
    push_header(&mut headers, "originator", "zed");
    push_header(&mut headers, "openai-beta", "responses=experimental");
    assert(headers.deep_view() =~= seq![
        ("originator"@, "zed"@),
        ("openai-beta"@, "responses=experimental"@),
    ]);
    match &credentials.account_id {
        Some(id) => {
            if !text::empty(id) && encoding::is_header_value(id) {
                push_header(&mut headers, "chatgpt-account-id", id);
            }
        },
        None => {},
    }
    match routing_cache_key {
        Some(key) => {
            if encoding::is_header_value(key) {
                push_header(&mut headers, "session-id", key);
                push_header(&mut headers, "thread-id", key);
            }
        },
        None => {},
    }
    headers
}

/// Every request names its origin, and shows the id of its account where that can stand in a
/// header.
pub proof fn requests_name_their_account(
    credentials: CredentialsModel,
    routing_cache_key: Option<Seq<char>>,
)
    ensures
        extra_headers(credentials, routing_cache_key).contains(("originator"@, "zed"@)),
        account_header(credentials) matches Some(id) ==> extra_headers(
            credentials,
            routing_cache_key,
        ).contains(("chatgpt-account-id"@, id)),
{
    let headers = extra_headers(credentials, routing_cache_key);
    assert(headers[0] == ("originator"@, "zed"@));
    if account_header(credentials) is Some {
        assert(headers[2] == ("chatgpt-account-id"@, account_header(credentials)->0));
    }
}

/// What a model prescribes for a request to it.
#[derive(Debug)]
pub struct RequestOptions {
    pub model: String,
    pub parallel_tool_calls: bool,
    pub prompt_cache_key: bool,
    pub max_output_tokens: Option<u64>,
    pub default_reasoning_effort: Option<ReasoningEffort>,
    /// A request can ask for no effort at all.
    pub supports_no_effort: bool,
}

fn offers_no_effort(efforts: &Vec<ReasoningEffort>) -> (r: bool)
    ensures
        r == efforts@.contains(ReasoningEffort::NoEffort),
{
    let mut i: usize = 0;
    while i < efforts.len()
        invariant
            i <= efforts@.len(),
            forall|k: int| 0 <= k < i ==> efforts@[k] != ReasoningEffort::NoEffort,
        decreases efforts@.len() - i,
    {
        if efforts[i] == ReasoningEffort::NoEffort {
            return true;
        }
        i += 1;
    }
    false
}

impl ChatGptModel {
    /// The speed of a request to the model: the one asked for, if the model offers any.
    pub fn speed<S>(&self, requested: Option<S>) -> (r: Option<S>)
        ensures
            r == (if self@.supports_priority {
                requested
            } else {
                None
            }),
    {
        if self.supports_priority() {
            requested
        } else {
            None
        }
    }

    /// What the model prescribes for a request to it.
    pub fn request_options(&self) -> (r: RequestOptions)
        ensures
            r.model@ == self@.id,
            r.parallel_tool_calls,
            r.prompt_cache_key,
            r.max_output_tokens is None,
            r.default_reasoning_effort == self@.default_reasoning_effort,
            r.supports_no_effort == self@.supported_reasoning_efforts.contains(
                ReasoningEffort::NoEffort,
            ),
    {
        RequestOptions {
            model: self.id().to_owned(),
            parallel_tool_calls: self.supports_parallel_tool_calls(),
            prompt_cache_key: self.supports_prompt_cache_key(),
            max_output_tokens: None,
            default_reasoning_effort: self.default_reasoning_effort(),
            supports_no_effort: offers_no_effort(&self.supported_reasoning_efforts()),
        }
    }
}

/// A request for a response, as far as this provider changes it: its items are of type `I`, its
/// rules for the context of type `C`.
pub struct ResponsesRequest<I, C> {
    pub store: Option<bool>,
    pub instructions: Option<String>,
    pub context_management: Option<C>,
    pub input: Vec<I>,
}

impl<I, C> ResponsesRequest<I, C> {
    /// Makes the request one that is not kept by the service and has instructions, if empty ones.
    pub fn seal(&mut self)
        ensures
            final(self).store == Some(false),
            match old(self).instructions {
                Some(_) => final(self).instructions == old(self).instructions,
                None => final(self).instructions matches Some(content) && content@ == ""@,
            },
            final(self).context_management == old(self).context_management,
            final(self).input == old(self).input,
    {
        self.store = Some(false);
        if self.instructions.is_none() {
            self.instructions = Some("".to_owned());
        }
    }

    /// Makes the request one for a shorter context: the item that asks for it comes last, and no
    /// rules for the context are given.
    pub fn ask_for_compaction(&mut self, trigger: I)
        ensures
            final(self).context_management is None,
            final(self).input@ == old(self).input@.push(trigger),
            final(self).store == old(self).store,
            final(self).instructions == old(self).instructions,
    {
        self.context_management = None;
        self.input.push(trigger);
    }
}

} // verus!
