use chabeau::session::{
    load_character_for_session, session_model, CharacterCard, CharacterData, ProviderSession,
    SessionContext,
};

fn empty_session() -> SessionContext {
    SessionContext::uninitialized("Refine this.".to_string(), "REFINE:".to_string())
}

fn card_named(name: &str, description: &str, personality: &str, first_mes: &str) -> CharacterCard {
    CharacterCard {
        spec: "chara_card_v2".to_string(),
        spec_version: "2.0".to_string(),
        data: CharacterData {
            name: name.to_string(),
            description: description.to_string(),
            personality: personality.to_string(),
            scenario: "Testing".to_string(),
            first_mes: first_mes.to_string(),
            mes_example: String::new(),
            creator_notes: None,
            system_prompt: None,
            post_history_instructions: None,
            alternate_greetings: None,
            tags: None,
            creator: None,
            character_version: None,
        },
    }
}

#[test]
fn session_context_set_character() {
    let mut session = empty_session();
    let card = card_named("Test", "Test character", "Friendly", "Hello!");

    session.set_character(card.clone());
    assert!(session.active_character.is_some());
    assert_eq!(session.get_character().unwrap().data.name, "Test");
    assert!(!session.character_greeting_shown);
}

#[test]
fn session_context_clear_character() {
    let mut session = empty_session();
    session.active_character = Some(card_named("Test", "Test character", "Friendly", "Hello!"));
    session.character_greeting_shown = true;

    session.clear_character();
    assert!(session.active_character.is_none());
    assert!(!session.character_greeting_shown);
}

#[test]
fn session_context_should_show_greeting() {
    let mut session = empty_session();
    session.active_character = Some(card_named("Test", "Test character", "Friendly", "Hello!"));
    session.character_greeting_shown = false;

    assert!(session.should_show_greeting());

    session.mark_greeting_shown();
    assert!(!session.should_show_greeting());
}

#[test]
fn session_context_should_not_show_empty_greeting() {
    let mut session = empty_session();
    session.active_character = Some(card_named("Test", "Test character", "Friendly", "   "));
    session.character_greeting_shown = false;

    assert!(!session.should_show_greeting());
}

#[test]
fn session_context_get_character_returns_none_initially() {
    let session = empty_session();

    assert!(session.get_character().is_none());
    assert!(!session.should_show_greeting());
}

#[test]
fn session_context_greeting_lifecycle() {
    let mut session = empty_session();

    assert!(!session.should_show_greeting());

    let card = card_named("Test", "Test character", "Friendly", "Hello there!");
    session.set_character(card);

    assert!(session.should_show_greeting());

    session.mark_greeting_shown();
    assert!(!session.should_show_greeting());

    session.clear_character();
    assert!(!session.should_show_greeting());
}

#[test]
fn session_context_reselecting_same_character_preserves_greeting_flag() {
    let mut session = empty_session();
    let card = card_named("Test", "Test character", "Friendly", "Hello there!");

    session.set_character(card.clone());
    assert!(session.should_show_greeting());
    session.mark_greeting_shown();
    assert!(!session.should_show_greeting());

    session.set_character(card);

    assert!(!session.should_show_greeting());
    assert!(session.character_greeting_shown);
}

#[test]
fn session_context_selecting_different_character_resets_greeting_flag() {
    let mut session = empty_session();
    let card1 = card_named("Test1", "Test character 1", "Friendly", "Hello from Test1!");
    let card2 = card_named("Test2", "Test character 2", "Helpful", "Hello from Test2!");

    session.set_character(card1);
    session.mark_greeting_shown();
    assert!(!session.should_show_greeting());

    session.set_character(card2);

    assert!(session.should_show_greeting());
    assert!(!session.character_greeting_shown);
}

#[test]
fn load_character_for_session_no_character() {
    let outcome = load_character_for_session(None, Ok(None), None, "openai", "gpt-4")
        .expect("load_character_for_session");

    assert!(outcome.character.is_none());
    assert!(outcome.errors.is_empty());
}

#[test]
fn load_character_for_session_reports_default_failure() {
    let outcome = load_character_for_session(
        None,
        Err("file missing".to_string()),
        Some("Alice"),
        "openai",
        "gpt-4",
    )
    .expect("outcome");
    assert!(outcome.character.is_none());
    assert_eq!(
        outcome.errors,
        vec!["Failed to load default character 'Alice' for openai:gpt-4: file missing".to_string()]
    );
}

#[test]
fn load_character_for_session_cli_error_is_returned() {
    let result = load_character_for_session(
        Some(Err("no such card".to_string())),
        Ok(None),
        None,
        "openai",
        "gpt-4",
    );
    assert_eq!(result.err(), Some("no such card".to_string()));
}

#[test]
fn prepare_with_auth_uses_pre_resolved_session() {
    let provider_session = ProviderSession {
        api_key: "test-key".to_string(),
        base_url: "https://example.invalid".to_string(),
        provider_id: "test-provider".to_string(),
        provider_display_name: "Test Provider".to_string(),
    };

    let session = SessionContext::with_provider(
        ProviderSession {
            api_key: provider_session.api_key.clone(),
            base_url: provider_session.base_url.clone(),
            provider_id: provider_session.provider_id.clone(),
            provider_display_name: provider_session.provider_display_name.clone(),
        },
        "default".to_string(),
        None,
        "Refine".to_string(),
        "REFINE:".to_string(),
        None,
    );

    assert_eq!(session.api_key, provider_session.api_key);
    assert_eq!(session.base_url, provider_session.base_url);
    assert_eq!(session.provider_name, provider_session.provider_id);
    assert_eq!(session.provider_display_name, provider_session.provider_display_name);
    assert!(!session.startup_env_only);
    assert!(session.active_character.is_none());
    assert!(!session.character_greeting_shown);
}

#[test]
fn session_model_prefers_requested_then_configured_default() {
    assert_eq!(session_model("gpt-4".to_string(), Some("other".to_string())), "gpt-4");
    assert_eq!(session_model("default".to_string(), Some("other".to_string())), "other");
    assert_eq!(session_model("default".to_string(), None), "");
}
