use openai_subscribed::accounts::{AccountSwitchPolicy, Accounts};
use openai_subscribed::configuration::{configuration, configuration_at};
use openai_subscribed::credentials::CodexCredentials;
use openai_subscribed::models::{
    catalog_in_time, catalog_outcome, parse_reasoning_effort, CatalogModel, ChatGptModel,
    ModelVisibility, ReasoningEffort, CATALOG_TIMEOUT_SECONDS,
};
use openai_subscribed::provider::{Authentication, OpenAiSubscribedProvider};
use openai_subscribed::requests::{authorization, codex_extra_headers, models_uri};
use openai_subscribed::sign_in::{SignInAction, SignInEvent};
use openai_subscribed::state::State;
use openai_subscribed::storage::{previous_accounts, save_plan, StoreStep};
use openai_subscribed::time::now_ms;

type Task = u32;

fn make_fresh_credentials() -> CodexCredentials {
    CodexCredentials {
        access_token: "fresh_access".to_string(),
        refresh_token: "fresh_refresh".to_string(),
        scopes: Vec::new(),
        expires_at_ms: now_ms() + 3_600_000,
        account_id: None,
        email: None,
    }
}

fn make_state(credentials: Option<CodexCredentials>) -> State<Task> {
    let mut state = State::new(0);
    state.finish_load();
    if let Some(credentials) = credentials {
        state.accounts.insert(credentials);
    }
    state
}

fn listed(slug: &str) -> CatalogModel {
    CatalogModel {
        slug: slug.to_string(),
        display_name: slug.to_string(),
        default_reasoning_level: Some("medium".to_string()),
        supported_reasoning_levels: Vec::new(),
        visibility: ModelVisibility::List,
        priority: 0,
        additional_speed_tiers: Vec::new(),
        service_tiers: Vec::new(),
        context_window: Some(128_000),
        max_context_window: None,
        input_modalities: Some(vec!["text".to_string()]),
    }
}

fn texts(contents: &[&str]) -> Vec<String> {
    contents.iter().map(|content| content.to_string()).collect()
}

fn ids(state: &State<Task>) -> Vec<String> {
    state.available_models().iter().map(|model| model.id().to_string()).collect()
}

#[test]
fn test_authenticate_awaits_initial_load() {
    let mut provider = OpenAiSubscribedProvider::new(9, None);
    assert!(matches!(provider.authenticate(), Authentication::AwaitLoad(9)));
    let mut credentials = make_fresh_credentials();
    credentials.expires_at_ms = u64::MAX;
    let loaded = Accounts::decode(None, Ok(credentials)).expect("accounts");
    let effects = provider.state.apply_loaded(Some(loaded));
    assert!(effects.refresh_catalog);
    let generation = provider.state.begin_model_catalog_refresh();
    let mut model = listed("gpt-account-default");
    model.display_name = "Account Default".to_string();
    let result = catalog_outcome(200, "", Ok(vec![model]));
    provider.state.finish_model_catalog_refresh(generation, result);
    provider.state.finish_load();
    assert!(
        matches!(provider.authenticate(), Authentication::Done),
        "authenticate should succeed after load completes with valid credentials"
    );
    let models = provider.provided_models();
    assert_eq!(models.len(), 1);
    assert_eq!(models.first().map(|model| model.model.id()), Some("gpt-account-default"));
    assert_eq!(
        provider.default_model().map(|model| model.model.id().to_string()),
        Some("gpt-account-default".to_string())
    );
    assert_eq!(provider.recommended_models().len(), 1);
    assert!(provider.default_fast_model().is_none());
}

#[test]
fn authentication_fails_without_accounts() {
    let mut provider = OpenAiSubscribedProvider::new(9, Some(AccountSwitchPolicy::Manual));
    assert_eq!(provider.state.switch_policy(), AccountSwitchPolicy::Manual);
    assert!(!provider.state.apply_loaded(None).refresh_catalog);
    provider.state.finish_load();
    assert!(matches!(provider.authenticate(), Authentication::CredentialsNotFound));
    assert_eq!(
        provider.state.last_auth_error().as_deref(),
        Some("Failed to load saved ChatGPT accounts.")
    );
    assert_eq!(provider.settings_title(), Some("Configure ChatGPT"));
    assert!(provider.settings_description().is_some());
    provider.state.accounts.insert(make_fresh_credentials());
    assert!(provider.is_authenticated());
    assert_eq!(provider.settings_title(), None);
    assert_eq!(provider.settings_description(), None);
}

#[test]
fn test_initial_load_restores_persisted_credentials() {
    let mut state: State<Task> = State::new(5);
    assert_eq!(state.load_task(), Some(&5), "constructor should start the credentials load");
    assert_eq!(
        models_uri(&state.client_version),
        "https://chatgpt.com/backend-api/codex/models?client_version=0.0.0"
    );
    let loaded = Accounts::decode(None, Ok(make_fresh_credentials())).expect("accounts");
    assert!(state.apply_loaded(Some(loaded)).refresh_catalog);
    let generation = state.begin_model_catalog_refresh();
    let mut model = listed("gpt-account-default");
    model.supported_reasoning_levels = texts(&["medium"]);
    state.finish_model_catalog_refresh(generation, catalog_outcome(200, "", Ok(vec![model])));
    assert!(state.finish_load().notify);
    assert!(state.is_authenticated());
    assert!(state.load_task().is_none());
    assert_eq!(
        state.available_models().first().map(ChatGptModel::id),
        Some("gpt-account-default")
    );
}

#[test]
fn test_model_catalog_uses_account_visible_models() {
    let mut credentials = make_fresh_credentials();
    credentials.account_id = Some("account-123".to_string());
    let mut state = make_state(Some(credentials.clone()));
    state.client_version = "1.2.3".into();
    assert_eq!(
        models_uri(&state.client_version),
        "https://chatgpt.com/backend-api/codex/models?client_version=1.2.3"
    );
    assert_eq!(authorization(&credentials), "Bearer fresh_access");
    let headers = codex_extra_headers(&credentials, None);
    for (name, value) in [("chatgpt-account-id", "account-123"), ("originator", "zed")] {
        assert!(headers.contains(&(name.to_string(), value.to_string())));
    }
    let described = |slug: &str, name: &str, effort: &str, visibility, priority, tiers: &[&str], services: &[&str], window, modalities: &[&str]| CatalogModel {
        slug: slug.to_string(),
        display_name: name.to_string(),
        default_reasoning_level: Some(effort.to_string()),
        supported_reasoning_levels: texts(&[effort]),
        visibility,
        priority,
        additional_speed_tiers: texts(tiers),
        service_tiers: texts(services),
        context_window: Some(window),
        max_context_window: None,
        input_modalities: Some(texts(modalities)),
    };
    let catalog = vec![
        described("gpt-5.6-sol", "GPT-5.6 Sol", "low", ModelVisibility::Hide, 0, &["fast"], &[], 372_000, &["text", "image"]),
        described("gpt-5.6-luna", "GPT-5.6 Luna", "medium", ModelVisibility::List, 2, &[], &["priority"], 372_000, &["text", "image"]),
        described("gpt-5.5", "GPT-5.5", "medium", ModelVisibility::List, 1, &[], &[], 272_000, &["text"]),
    ];
    let generation = state.begin_model_catalog_refresh();
    let result = catalog_outcome(200, "", Ok(catalog));
    assert!(result.is_ok(), "model discovery should succeed");
    state.finish_model_catalog_refresh(generation, result);
    assert_eq!(ids(&state), ["gpt-5.5", "gpt-5.6-luna"]);
    assert_eq!(state.default_model().as_ref().map(ChatGptModel::id), Some("gpt-5.5"));
    assert_eq!(state.default_fast_model().as_ref().map(ChatGptModel::id), Some("gpt-5.6-luna"));
    let default_model = state
        .available_models()
        .iter()
        .find(|model| model.id() == "gpt-5.5")
        .expect("default model should be present");
    let fast_model = state
        .available_models()
        .iter()
        .find(|model| model.id() == "gpt-5.6-luna")
        .expect("fast model should be present");
    assert!(!default_model.supports_images());
    assert!(fast_model.supports_priority());
    assert!(state.model_catalog_error().is_none());
}

#[test]
fn test_model_catalog_failure_preserves_fallback_models() {
    let mut state = make_state(Some(make_fresh_credentials()));
    let fallback_model_ids = ids(&state);
    let generation = state.begin_model_catalog_refresh();
    let result = catalog_outcome(500, "backend unavailable", Ok(vec![listed("m")]));
    assert!(result.is_err(), "model discovery should fail");
    state.finish_model_catalog_refresh(generation, result);
    assert_eq!(ids(&state), fallback_model_ids);
    assert!(state
        .model_catalog_error()
        .is_some_and(|error| error.contains("backend unavailable")));
}

#[test]
fn test_model_catalog_request_times_out() {
    let mut state = make_state(Some(make_fresh_credentials()));
    let before: Vec<String> =
        state.available_models().iter().map(|model| model.id().to_string()).collect();
    let generation = state.begin_model_catalog_refresh();
    assert_eq!(CATALOG_TIMEOUT_SECONDS, 5);
    let result = catalog_in_time(None);
    let error = result.as_ref().err().expect("model discovery should time out");
    assert!(error.contains("timed out after 5s"), "unexpected model discovery error: {error}");
    assert!(state.finish_model_catalog_refresh(generation, result).notify);
    assert_eq!(
        state.model_catalog_error().map(|error| error.to_string()),
        Some("Failed to load models: ChatGPT models request timed out after 5s".to_string())
    );
    let after: Vec<String> =
        state.available_models().iter().map(|model| model.id().to_string()).collect();
    assert_eq!(after, before);
}

#[test]
fn catalogs_in_time_are_kept() {
    assert_eq!(
        catalog_in_time(Some(Err("refused".to_string()))).err(),
        Some("refused".to_string())
    );
    let offered = catalog_in_time(Some(catalog_outcome(200, "", Ok(vec![listed("model")]))));
    assert_eq!(offered.expect("models").first().map(ChatGptModel::id), Some("model"));
}

#[test]
fn test_obsolete_model_catalog_cannot_replace_newer_models() {
    let mut state = make_state(Some(make_fresh_credentials()));
    let obsolete = state.begin_model_catalog_refresh();
    let current = state.begin_model_catalog_refresh();
    let answer = |slug: &str| catalog_outcome(200, "", Ok(vec![listed(slug)]));
    assert!(state.finish_model_catalog_refresh(current, answer("current-model")).notify);
    assert!(!state.finish_model_catalog_refresh(obsolete, answer("obsolete-model")).notify);
    assert!(!state.finish_model_catalog_refresh(obsolete, Err("late".to_string())).notify);
    assert_eq!(state.available_models().first().map(ChatGptModel::id), Some("current-model"));
    assert!(state.model_catalog_error().is_none());
}

#[test]
fn catalogs_that_show_nothing_are_errors() {
    assert_eq!(
        catalog_outcome(200, "", Ok(Vec::new())).err(),
        Some("ChatGPT models response did not contain any picker-visible models".to_string())
    );
    let mut nowhere = listed("m");
    nowhere.visibility = ModelVisibility::Nowhere;
    assert!(catalog_outcome(200, "", Ok(vec![nowhere])).is_err());
    assert_eq!(
        catalog_outcome(200, "", Err("odd".to_string())).err(),
        Some("failed to parse ChatGPT models response: odd".to_string())
    );
    assert_eq!(
        catalog_outcome(404, "gone", Ok(Vec::new())).err(),
        Some("ChatGPT models request failed (HTTP 404 Not Found): gone".to_string())
    );
}

#[test]
fn models_of_one_priority_keep_their_order() {
    let with = |slug: &str, priority| CatalogModel { priority, ..listed(slug) };
    let offered = catalog_outcome(
        200,
        "",
        Ok(vec![with("c", 2), with("a", 1), with("d", 2), with("b", 1), with("z", -1)]),
    )
    .expect("models");
    let order: Vec<&str> = offered.iter().map(ChatGptModel::id).collect();
    assert_eq!(order, ["z", "a", "b", "c", "d"]);
}

#[test]
fn discovered_models_follow_the_catalog() {
    let mut model = listed("m");
    model.context_window = None;
    model.max_context_window = Some(5);
    model.input_modalities = None;
    model.supported_reasoning_levels = texts(&["max", "odd", "none"]);
    let found = ChatGptModel::from_catalog(model);
    assert_eq!(found.max_token_count(), 5);
    assert!(found.supports_images());
    assert_eq!(
        found.supported_reasoning_efforts(),
        [ReasoningEffort::Max, ReasoningEffort::NoEffort]
    );
    assert!(found.request_options().supports_no_effort);
    assert_eq!(found.speed(Some("fast")), None);
    let levels = found.supported_effort_levels();
    assert_eq!(levels.len(), 1);
    assert_eq!(levels[0].name, "Max");
    assert!(!levels[0].is_default);

    let mut plain = listed("m");
    plain.context_window = None;
    let plain = ChatGptModel::from_catalog(plain);
    assert_eq!(plain.max_token_count(), 272_000);
    assert_eq!(plain.supported_reasoning_efforts(), [ReasoningEffort::Medium]);
    assert_eq!(plain.clone(), plain);
}

#[test]
fn known_models_have_their_facts() {
    let all = ChatGptModel::all();
    let shown: Vec<(&str, &str, u64, bool)> = all
        .iter()
        .map(|model| {
            (model.id(), model.display_name(), model.max_token_count(), model.supports_priority())
        })
        .collect();
    assert_eq!(
        shown,
        [
            ("gpt-5.6-sol", "GPT-5.6 Sol", 372_000, true),
            ("gpt-5.6-terra", "GPT-5.6 Terra", 372_000, true),
            ("gpt-5.6-luna", "GPT-5.6 Luna", 372_000, true),
            ("gpt-5.5", "GPT-5.5", 272_000, true),
            ("gpt-5.4", "GPT-5.4", 272_000, true),
            ("gpt-5.4-mini", "GPT-5.4 Mini", 272_000, false),
        ]
    );
    let levels: Vec<(String, String, bool)> = all[0]
        .supported_effort_levels()
        .into_iter()
        .map(|level| (level.name, level.value, level.is_default))
        .collect();
    let level = |name: &str, value: &str, is_default| (name.to_string(), value.to_string(), is_default);
    assert_eq!(
        levels,
        [
            level("Low", "low", true),
            level("Medium", "medium", false),
            level("High", "high", false),
            level("Extra High", "xhigh", false),
            level("Max", "max", false),
        ]
    );
    assert_eq!(all[4].telemetry_id(), "openai-subscribed/gpt-5.4");
    assert_eq!(all[4].max_output_tokens(), None);
    assert_eq!(all[5].speed(Some("fast")), None);
    assert_eq!(all[4].speed(Some("fast")), Some("fast"));
    assert!(!all[4].request_options().supports_no_effort);
    assert_eq!(parse_reasoning_effort("minimal"), Some(ReasoningEffort::Minimal));
    assert_eq!(parse_reasoning_effort("Low"), None);
}

#[test]
fn sign_ins_go_step_by_step() {
    let mut state = make_state(None);
    assert!(state.sign_in(1).notify);
    assert!(!state.sign_in(2).notify);
    assert!(state.is_sign_in_cancellable());
    let generation = state.auth_generation;
    let (action, effects) = state.sign_in_step(SignInEvent::Authorized(make_fresh_credentials()));
    assert_eq!(action, SignInAction::AwaitSave);
    assert!(effects.persist && effects.notify);
    assert!(!state.is_sign_in_cancellable());
    assert_ne!(state.auth_generation, generation);
    let (action, effects) = state.sign_in_step(SignInEvent::Saved);
    assert_eq!(action, SignInAction::AwaitCatalog);
    assert!(effects.refresh_catalog);
    let (action, _) = state.sign_in_step(SignInEvent::CatalogAsked);
    assert_eq!(action, SignInAction::Finish);
    assert!(!state.is_signing_in());
    assert!(state.is_authenticated());
    assert_eq!(state.last_auth_error(), None);
    assert_eq!(state.email(), None);
}

#[test]
fn sign_ins_can_fail() {
    let mut state = make_state(None);
    state.sign_in(1);
    assert_eq!(state.sign_in_step(SignInEvent::Refused).0, SignInAction::Finish);
    assert_eq!(state.last_auth_error().as_deref(), Some("Sign-in failed. Please try again."));
    assert!(!state.is_signing_in());
    state.sign_in(1);
    assert_eq!(state.last_auth_error(), None);
    state.sign_in_step(SignInEvent::Authorized(make_fresh_credentials()));
    state.sign_in_step(SignInEvent::NotSaved);
    assert_eq!(
        state.last_auth_error().as_deref(),
        Some("Failed to save credentials. Please try again.")
    );
    assert!(!state.is_signing_in());
}

#[test]
fn test_sign_out_completes_fully() {
    let mut state = make_state(Some(make_fresh_credentials()));
    let effects = state.sign_out();
    assert!(effects.persist);
    let (waits_for, accounts) = state.begin_persist();
    assert_eq!(waits_for, None);
    let unreadable = Some(Err("some-creds".to_string()));
    let previous = previous_accounts(unreadable, &accounts).expect("sign-out should succeed");
    let steps = save_plan(&accounts, &previous);
    assert_eq!(steps.len(), 1);
    assert!(
        matches!(steps[0], StoreStep::DeleteIndex),
        "credential store should be empty after sign-out"
    );
    assert!(!state.is_authenticated(), "state should show not authenticated");
}

#[test]
fn saves_follow_each_other() {
    let mut state = make_state(None);
    state.keep_persist(3);
    let (waits_for, _) = state.begin_persist();
    assert_eq!(waits_for, Some(3));
    assert_eq!(state.begin_persist().0, None);
    assert!(state.fail_persist().notify);
    assert_eq!(
        state.last_auth_error().as_deref(),
        Some("Failed to save ChatGPT accounts. Please try again.")
    );
}

#[test]
fn late_loads_are_ignored() {
    let mut state = make_state(None);
    state.auth_generation = 1;
    let loaded = Accounts::decode(None, Ok(make_fresh_credentials())).expect("accounts");
    assert!(!state.apply_loaded(Some(loaded)).refresh_catalog);
    assert!(!state.is_authenticated());
}

#[test]
fn accounts_are_selected_removed_and_reset() {
    let mut state = make_state(None);
    for id in ["b", "a", "c"] {
        let mut credentials = make_fresh_credentials();
        credentials.account_id = Some(id.into());
        credentials.email = Some(format!("{id}@example.com"));
        state.accounts.insert(credentials);
    }
    assert_eq!(state.email(), Some("c@example.com"));
    assert!(!state.select_account("nobody".to_string()).persist);
    assert_eq!(state.accounts.selected, "c");
    let catalog = state.model_catalog_generation;
    assert!(state.select_account("b".to_string()).refresh_catalog);
    assert_eq!(state.accounts.selected, "b");
    assert_ne!(state.model_catalog_generation, catalog);

    let effects = state.remove_account("b");
    assert!(effects.refresh_catalog && effects.persist);
    assert_eq!(state.accounts.selected, "a");
    assert!(!state.remove_account("c").refresh_catalog);
    state.remove_account("a");
    assert_eq!(state.accounts.selected, "");
    assert!(!state.is_authenticated());

    state.accounts.insert(make_fresh_credentials());
    let mut account = state.accounts.accounts.remove("legacy").expect("account");
    account.quota_until_ms = u64::MAX;
    account.status = "Plan quota reached".to_string();
    state.accounts.accounts.insert("legacy".to_string(), account);
    assert_eq!(state.accounts()[0].status, "Plan quota reached");
    assert!(!state.reset_account_availability("nobody").persist);
    assert!(state.reset_account_availability("legacy").persist);
    assert!(state.accounts.accounts.get("legacy").expect("account").available("m"));
    assert_eq!(state.accounts()[0].status, "");
    let mut account = state.accounts.accounts.remove("legacy").expect("account");
    account.needs_reauth = true;
    account.quota_until_ms = 7;
    state.accounts.accounts.insert("legacy".to_string(), account);
    assert!(!state.reset_account_availability("legacy").persist);
    assert_eq!(state.accounts.accounts.get("legacy").expect("account").quota_until_ms, 7);
}

#[test]
fn statuses_end_with_their_limits() {
    let mut state = make_state(Some(make_fresh_credentials()));
    let mut show = |status: &str, unavailable: u64, quota: u64, now: u64| {
        let mut account = state.accounts.accounts.remove("legacy").expect("account");
        account.status = status.to_string();
        account.unavailable_until_ms = unavailable;
        account.quota_until_ms = quota;
        state.accounts.accounts.insert("legacy".to_string(), account);
        state.accounts_at(now)[0].status.clone()
    };
    assert_eq!(show("Rate limited", 10, 0, 9), "Rate limited");
    assert_eq!(show("Rate limited", 10, 0, 10), "");
    assert_eq!(show("", 0, 10, 9), "Plan quota reached");
    assert_eq!(show("Plan quota reached", 0, 10, 10), "");
    assert_eq!(show("Missing permission for m", 0, 0, 0), "Missing permission for m");
}

#[test]
fn settings_show_the_accounts() {
    let mut state = make_state(None);
    let empty = configuration(&state, true);
    assert!(empty.cards.is_empty());
    assert_eq!(empty.policy_label, None);
    assert_eq!(empty.sign_in_label, "Sign In");
    assert_eq!(empty.description, None);
    assert!(!empty.sign_in_full_width);

    let mut credentials = make_fresh_credentials();
    credentials.email = Some("me@example.com".into());
    credentials.account_id = Some("id".into());
    state.accounts.insert(credentials);
    let mut account = state.accounts.accounts.remove("id").expect("account");
    account.quota_until_ms = 50;
    state.accounts.accounts.insert("id".to_string(), account);
    let shown = configuration_at(&state, false, 49);
    assert_eq!(shown.sign_in_label, "Add Account");
    assert!(!shown.sign_in_disabled);
    assert_eq!(shown.policy_label.as_deref(), Some("Account switching: On error"));
    assert!(shown.description.is_some());
    let card = &shown.cards[0];
    assert_eq!(card.card_id, "account-id");
    assert_eq!(card.label, "me@example.com");
    assert_eq!(card.select_id, "select-id");
    assert_eq!(card.select_label, "Default account");
    assert!(card.select_disabled);
    let row = card.row.as_ref().expect("row");
    assert_eq!(row.status, "Plan quota reached");
    assert_eq!(row.reauth_id, "reauth-id");
    assert_eq!(row.reset_id.as_deref(), Some("reset-id"));
    assert!(!row.reauth_disabled);

    state.sign_in(1);
    state.configure_switch_policy(Some(AccountSwitchPolicy::Manual));
    let busy = configuration_at(&state, true, 50);
    assert_eq!(busy.sign_in_label, "Signing in…");
    assert!(busy.sign_in_disabled && busy.cancellable);
    assert!(busy.cards[0].row.is_none());
    assert_eq!(busy.policy_label.as_deref(), Some("Account switching: Manual"));
}
