use chabeau::picker::{
    CharacterPickerState, ModelPickerState, PickerController, PickerData, PickerItem, PickerMode,
    PickerSession, PickerState, ProviderPickerState, SortMode, ThemePickerState,
    TURN_OFF_CHARACTER_ID, TURN_OFF_PERSONA_ID,
};
use chabeau::picker_actions::{DefaultSave, PickerMovement, PickerOutcome, SelectionRequest};
use chabeau::actions::PickerAction;
use chabeau::picker_meta::ThemeSpec;
use chabeau::picker_open::{Persona, Preset};
use chabeau::session::{CharacterCard, CharacterData, SessionContext};
use chabeau::theme::Theme;

fn session_context() -> SessionContext {
    let mut s = SessionContext::uninitialized("Refine".to_string(), "REFINE:".to_string());
    s.provider_name = "test".to_string();
    s.model = "test-model".to_string();
    s
}

fn item(id: &str, label: &str, metadata: Option<&str>, sort_key: Option<&str>) -> PickerItem {
    PickerItem {
        id: id.to_string(),
        label: label.to_string(),
        metadata: metadata.map(|m| m.to_string()),
        inspect_metadata: None,
        sort_key: sort_key.map(|k| k.to_string()),
    }
}

fn theme(id: &str, name: &str) -> ThemeSpec {
    ThemeSpec {
        id: id.to_string(),
        display_name: name.to_string(),
        background: None,
        selection_highlight: None,
        title: None,
        streaming_indicator: None,
        user_prefix: None,
        user_text: None,
        assistant_text: None,
        system_text: None,
        app_info_prefix: None,
        app_info_prefix_style: None,
        app_info_text: None,
        app_warning_prefix: None,
        app_warning_prefix_style: None,
        app_warning_text: None,
        app_error_prefix: None,
        app_error_prefix_style: None,
        app_error_text: None,
        input_border: None,
        input_title: None,
        input_text: None,
        input_cursor_modifiers: None,
        cursor_color: None,
        md_h1: None,
        md_h2: None,
        md_h3: None,
        md_h4: None,
        md_h5: None,
        md_h6: None,
        md_paragraph: None,
        md_inline_code: None,
        md_link: None,
        md_rule: None,
        md_blockquote_text: None,
        md_list_marker: None,
        md_codeblock_text: None,
        md_codeblock_bg: None,
    }
}

fn card(name: &str, description: &str) -> CharacterCard {
    CharacterCard {
        spec: "chara_card_v2".to_string(),
        spec_version: "2.0".to_string(),
        data: CharacterData {
            name: name.to_string(),
            description: description.to_string(),
            personality: "Friendly".to_string(),
            scenario: "Testing".to_string(),
            first_mes: "Hello!".to_string(),
            mes_example: String::new(),
            creator_notes: None,
            system_prompt: None,
            post_history_instructions: None,
            alternate_greetings: None,
            tags: None,
            creator: None,
            character_version: None,
        },
    }
}

fn persona(id: &str, name: &str, bio: Option<&str>) -> Persona {
    Persona { id: id.to_string(), display_name: name.to_string(), bio: bio.map(|b| b.to_string()) }
}

fn character_picker(items: Vec<PickerItem>) -> PickerController {
    let mut c = PickerController::new();
    c.picker_session = Some(PickerSession {
        state: PickerState::new("Pick Character", items.clone(), 0),
        data: PickerData::Character(CharacterPickerState {
            search_filter: String::new(),
            all_items: items,
        }),
    });
    c
}

fn items_of(c: &PickerController) -> &Vec<PickerItem> {
    &c.session().expect("picker open").state.items
}

fn selected_of(c: &PickerController) -> &PickerItem {
    let s = c.session().expect("picker open");
    &s.state.items[s.state.selected]
}

#[test]
fn theme_picker_highlights_active_theme_over_default() {
    let mut c = PickerController::new();
    let builtin = vec![theme("dark", "Dark"), theme("light", "Light")];
    c.open_theme_picker(&builtin, &Vec::new(), None, Some("light"), Theme::DarkDefault);

    assert_eq!(selected_of(&c).id, "light");
}

#[test]
fn model_picker_title_uses_az_when_no_dates() {
    let items = vec![item("a-model", "a-model", None, None), item("z-model", "z-model", None, None)];
    let mut state = PickerState::new("Pick Model", items.clone(), 0);
    state.sort_mode = SortMode::Name;
    let mut c = PickerController::new();
    c.picker_session = Some(PickerSession {
        state,
        data: PickerData::Model(ModelPickerState {
            search_filter: String::new(),
            all_items: items,
            before_model: None,
            has_dates: false,
        }),
    });

    c.update_title();

    assert!(c.state().unwrap().title.contains("Sort by: A-Z"));
}

#[test]
fn provider_model_cancel_reverts_base_url_and_state() {
    let mut s = session_context();
    s.provider_name = "newprov".into();
    s.provider_display_name = "NewProv".into();
    s.model = "new-model".into();
    s.api_key = "new-key".into();
    s.base_url = "https://api.newprov.test/v1".into();
    let mut c = PickerController::new();
    c.in_provider_model_transition = true;
    c.provider_model_transition_state = Some((
        "oldprov".into(),
        "OldProv".into(),
        "old-model".into(),
        "old-key".into(),
        "https://api.oldprov.test/v1".into(),
    ));

    c.revert_model_preview(&mut s);

    assert_eq!(s.provider_name, "oldprov");
    assert_eq!(s.provider_display_name, "OldProv");
    assert_eq!(s.model, "old-model");
    assert_eq!(s.api_key, "old-key");
    assert_eq!(s.base_url, "https://api.oldprov.test/v1");
    assert!(!c.in_provider_model_transition);
    assert!(c.provider_model_transition_state.is_none());
}

#[test]
fn default_sort_mode_helper_behaviour() {
    let theme_session = PickerSession {
        state: PickerState::new("Pick Theme", vec![], 0),
        data: PickerData::Theme(ThemePickerState {
            search_filter: String::new(),
            all_items: Vec::new(),
            before_theme: None,
            before_theme_id: None,
        }),
    };
    assert!(matches!(theme_session.default_sort_mode(), SortMode::Name));

    let provider_session = PickerSession {
        state: PickerState::new("Pick Provider", vec![], 0),
        data: PickerData::Provider(ProviderPickerState {
            search_filter: String::new(),
            all_items: Vec::new(),
            before_provider: None,
        }),
    };
    assert!(matches!(provider_session.default_sort_mode(), SortMode::Name));

    let mut model_session = PickerSession {
        state: PickerState::new("Pick Model", vec![], 0),
        data: PickerData::Model(ModelPickerState {
            search_filter: String::new(),
            all_items: Vec::new(),
            before_model: None,
            has_dates: true,
        }),
    };
    assert!(matches!(model_session.default_sort_mode(), SortMode::Date));
    if let PickerData::Model(state) = &mut model_session.data {
        state.has_dates = false;
    }
    assert!(matches!(model_session.default_sort_mode(), SortMode::Name));
}

#[test]
fn test_turn_off_character_entry_added_when_character_active() {
    let mut s = session_context();
    s.set_character(card("TestChar", "Test"));
    let mut c = PickerController::new();

    let result = c.open_character_picker(vec![card("TestChar", "Test")], &s, None);

    assert!(result.is_ok());
    let items = items_of(&c);
    assert!(items.len() >= 2);
    assert_eq!(items[0].id, TURN_OFF_CHARACTER_ID);
    assert_eq!(items[0].label, "[Turn off character mode]");
}

#[test]
fn test_turn_off_character_entry_not_added_when_no_character() {
    let s = session_context();
    assert!(s.active_character.is_none());
    let mut c = PickerController::new();

    let result = c.open_character_picker(vec![card("TestChar", "Test")], &s, None);

    assert!(result.is_ok());
    assert!(!items_of(&c).iter().any(|it| it.id == TURN_OFF_CHARACTER_ID));
}

#[test]
fn test_turn_off_character_stays_at_top_after_sort() {
    let mut s = session_context();
    s.set_character(card("Alice", "Test"));
    let mut c = PickerController::new();
    let cards = vec![card("Alice", "Test"), card("Bob", "Test"), card("Charlie", "Test")];

    let result = c.open_character_picker(cards, &s, None);
    assert!(result.is_ok());
    let before = items_of(&c).len();
    assert!(before >= 4);

    c.sort_items();

    let items = items_of(&c);
    assert_eq!(items[0].id, TURN_OFF_CHARACTER_ID);
    assert_eq!(items[0].label, "[Turn off character mode]");
    assert_eq!(items.len(), before);
}

#[test]
fn test_turn_off_persona_stays_at_top_after_sort() {
    let personas = vec![
        persona("alpha", "Alpha", Some("Alpha bio")),
        persona("beta", "Beta", Some("Beta bio")),
        persona("gamma", "Gamma", Some("Gamma bio")),
    ];
    let mut c = PickerController::new();

    let result = c.open_persona_picker(&personas, Some("alpha"), None, &session_context());
    assert!(result.is_ok());
    let before = items_of(&c).len();
    assert!(before >= 2);

    c.sort_items();

    let items = items_of(&c);
    assert_eq!(items[0].id, TURN_OFF_PERSONA_ID);
    assert_eq!(items[0].label, "[Turn off persona]");
    assert_eq!(items.len(), before);
}

#[test]
fn test_character_picker_highlights_active_character() {
    let mut s = session_context();
    s.set_character(card("Beta", "Test character Beta"));
    let mut c = PickerController::new();

    c.open_character_picker(
        vec![card("Alpha", "Alpha description"), card("Beta", "Beta description")],
        &s,
        None,
    )
    .unwrap();

    assert_eq!(selected_of(&c).id, "Beta");
}

#[test]
fn test_persona_picker_highlights_active_persona() {
    let personas =
        vec![persona("alpha", "Alpha", Some("Alpha bio")), persona("beta", "Beta", Some("Beta bio"))];
    let mut c = PickerController::new();

    c.open_persona_picker(&personas, Some("beta"), None, &session_context()).unwrap();

    assert_eq!(selected_of(&c).id, "beta");
}

#[test]
fn test_preset_picker_highlights_active_preset() {
    let presets = vec![
        Preset { id: "focus".to_string(), pre: "Focus".to_string(), post: String::new() },
        Preset { id: "casual".to_string(), pre: "Casual".to_string(), post: String::new() },
    ];
    let mut c = PickerController::new();

    c.open_preset_picker(&presets, Some("casual"), None).unwrap();

    assert_eq!(selected_of(&c).id, "casual");
}

#[test]
fn test_persona_picker_sanitizes_bio_metadata() {
    let personas = vec![persona("neat", "Neat", Some("First line\nSecond\tline"))];
    let mut c = PickerController::new();

    c.open_persona_picker(&personas, None, None, &session_context()).unwrap();

    let entry = items_of(&c).iter().find(|it| it.id == "neat").expect("persona entry present");
    assert_eq!(entry.metadata.as_deref(), Some("First line Second line"));
}

#[test]
fn test_persona_picker_metadata_defaults_to_no_bio_when_empty() {
    let personas = vec![persona("blank", "Blank", Some("   \n\t"))];
    let mut c = PickerController::new();

    c.open_persona_picker(&personas, None, None, &session_context()).unwrap();

    let entry = items_of(&c).iter().find(|it| it.id == "blank").expect("persona entry present");
    assert_eq!(entry.metadata.as_deref(), Some("No bio"));
}

#[test]
fn test_persona_picker_default_label_format() {
    let personas = vec![persona("alice-dev", "Alice", Some("A developer persona"))];
    let mut c = PickerController::new();

    c.open_persona_picker(&personas, None, Some("alice-dev"), &session_context()).unwrap();

    assert_eq!(c.current_mode(), Some(PickerMode::Persona));
    let alice = items_of(&c).iter().find(|it| it.id == "alice-dev").expect("Alice persona");
    assert!(alice.label.ends_with('*'));
    assert_eq!(alice.label, "Alice (alice-dev)*");
}

#[test]
fn test_persona_picker_metadata_includes_character_name() {
    let personas = vec![persona("mentor", "Mentor", Some("Guide {{char}} with wisdom, {{user}}."))];
    let mut s = session_context();
    s.set_character(card("Aria", ""));
    let mut c = PickerController::new();

    c.open_persona_picker(&personas, None, None, &s).unwrap();

    let mentor = items_of(&c).iter().find(|it| it.id == "mentor").expect("Mentor persona");
    let metadata = mentor.metadata.as_ref().expect("Mentor persona should have metadata");
    assert!(metadata.contains("Guide Aria with wisdom, Mentor."));
}

#[test]
fn character_picker_navigation_works() {
    let mut c = character_picker(vec![
        item("alice", "Alice", Some("A helpful assistant"), Some("Alice")),
        item("bob", "Bob", Some("A friendly character"), Some("Bob")),
        item("charlie", "Charlie", Some("An expert advisor"), Some("Charlie")),
    ]);

    assert_eq!(c.state().unwrap().selected, 0);
    c.move_selection(false, PickerMovement::Down);
    assert_eq!(c.state().unwrap().selected, 1);
    c.move_selection(false, PickerMovement::Up);
    assert_eq!(c.state().unwrap().selected, 0);
}

#[test]
fn character_picker_escape_closes_picker() {
    let mut c = character_picker(vec![item("alice", "Alice", Some("A helpful assistant"), Some("Alice"))]);
    let mut s = session_context();
    assert!(c.session().is_some());

    c.escape(&mut s, false);

    assert!(c.session().is_none());
}

fn check_default_marked_with_asterisk() {
    let c = character_picker(vec![
        item("alice", "alice*", Some("A helpful assistant"), Some("alice")),
        item("bob", "bob", Some("Another character"), Some("bob")),
    ]);

    let selected = c.state().unwrap().get_selected_item().unwrap();
    assert_eq!(selected.label, "alice*");
}

#[test]
fn actions_character_picker_marks_default_with_asterisk() {
    check_default_marked_with_asterisk();
}

#[test]
fn picker_character_picker_marks_default_with_asterisk() {
    check_default_marked_with_asterisk();
}

#[test]
fn character_picker_closes_after_selection() {
    let mut c = character_picker(vec![item("alice", "Alice", Some("A helpful assistant"), Some("Alice"))]);
    assert!(c.session().is_some());

    let request = c.selection_request(false, false);
    assert!(matches!(request, SelectionRequest::Character { ref name, set_as_default: false } if name == "alice"));
    let mut s = session_context();
    let status = c.finish_character_selection(&mut s, Ok(card("Alice", "A helpful assistant")), &DefaultSave::NotRequested);

    assert!(c.session().is_none());
    assert_eq!(status, "Character set: Alice");
    assert_eq!(s.active_character.as_ref().map(|c| c.data.name.as_str()), Some("Alice"));
}

#[test]
fn character_selection_error_keeps_character_and_closes() {
    let mut c = character_picker(vec![item("bob", "Bob", None, None)]);
    let mut s = session_context();
    let status = c.finish_character_selection(&mut s, Err("not found".to_string()), &DefaultSave::NotRequested);
    assert!(c.session().is_none());
    assert_eq!(status, "Error loading character: not found");
    assert!(s.active_character.is_none());
}

#[test]
fn character_selection_saved_as_default_reports_provider_and_model() {
    let mut c = character_picker(vec![item("alice", "Alice", None, None)]);
    let mut s = session_context();
    let status = c.finish_character_selection(&mut s, Ok(card("Alice", "x")), &DefaultSave::Saved);
    assert_eq!(status, "Character set: Alice (saved as default for test:test-model)");
}

#[test]
fn persona_and_preset_selections_close_the_picker() {
    let s = session_context();
    let mut c = character_picker(vec![item("mentor", "Mentor", None, None)]);
    let status = c.finish_persona_selection(&s, Ok("Mentor".to_string()), &DefaultSave::SaveFailed("disk full".to_string()));
    assert!(c.session().is_none());
    assert_eq!(status, "Persona activated: Mentor (failed to save as default: disk full)");

    let mut c = character_picker(vec![item("focus", "Focus", None, None)]);
    let status = c.finish_persona_selection(&s, Err("unknown persona".to_string()), &DefaultSave::NotRequested);
    assert!(c.session().is_none());
    assert_eq!(status, "Error activating persona: unknown persona");

    let mut c = character_picker(vec![item("focus", "Focus", None, None)]);
    let status = c.finish_preset_selection(&s, "focus", &Ok(()), &DefaultSave::NotRequested);
    assert!(c.session().is_none());
    assert_eq!(status, "Preset activated: focus");

    let mut c = character_picker(vec![item("focus", "Focus", None, None)]);
    assert_eq!(c.finish_preset_selection(&s, "focus", &Err("bad".to_string()), &DefaultSave::NotRequested), "Preset error: bad");

    let mut c = character_picker(vec![item("x", "X", None, None)]);
    assert_eq!(c.turn_off_persona(), "Persona deactivated");
    assert!(c.session().is_none());
    let mut c = character_picker(vec![item("x", "X", None, None)]);
    assert_eq!(c.turn_off_preset(), "Preset deactivated");
    assert!(c.session().is_none());
}

fn check_model_escape_reverts_provider_transition() {
    let mut s = session_context();
    s.provider_name = "new-prov".into();
    s.provider_display_name = "New Provider".into();
    s.model = "new-model".into();
    s.api_key = "new-key".into();
    s.base_url = "https://api.new".into();
    let mut c = PickerController::new();
    c.in_provider_model_transition = true;
    c.provider_model_transition_state = Some((
        "old-prov".into(),
        "Old Provider".into(),
        "old-model".into(),
        "old-key".into(),
        "https://api.old".into(),
    ));
    let items = vec![item("new-model", "New Model", None, None)];
    c.picker_session = Some(PickerSession {
        state: PickerState::new("Pick Model", items.clone(), 0),
        data: PickerData::Model(ModelPickerState {
            search_filter: String::new(),
            all_items: items,
            before_model: Some("old-model".into()),
            has_dates: false,
        }),
    });

    let plan = c.escape(&mut s, false);

    assert_eq!(s.provider_name, "old-prov");
    assert_eq!(s.provider_display_name, "Old Provider");
    assert_eq!(s.model, "old-model");
    assert_eq!(s.api_key, "old-key");
    assert_eq!(s.base_url, "https://api.old");
    assert!(!c.in_provider_model_transition);
    assert!(c.provider_model_transition_state.is_none());
    assert!(c.session().is_none());
    assert_eq!(plan.status.as_deref(), Some("Selection cancelled"));
}

#[test]
fn actions_model_picker_escape_reverts_provider_transition() {
    check_model_escape_reverts_provider_transition();
}

#[test]
fn picker_model_picker_escape_reverts_provider_transition() {
    check_model_escape_reverts_provider_transition();
}

fn check_theme_escape_reverts_preview() {
    let mut c = PickerController::new();
    let builtin = vec![theme("dark", "Dark"), theme("light", "Light")];
    c.open_theme_picker(&builtin, &Vec::new(), None, Some("dark"), Theme::Builtin("dark".into()));

    let preview = c.move_selection(false, PickerMovement::Down);
    assert_eq!(preview.as_deref(), Some("light"));

    let plan = c.escape(&mut session_context(), false);

    assert!(matches!(plan.restore_theme, Some(Theme::Builtin(ref id)) if id == "dark"));
    assert!(c.session().is_none());
}

#[test]
fn actions_theme_picker_escape_reverts_preview() {
    check_theme_escape_reverts_preview();
}

#[test]
fn picker_theme_picker_escape_reverts_preview() {
    check_theme_escape_reverts_preview();
}

fn ids(c: &PickerController) -> Vec<String> {
    items_of(c).iter().map(|i| i.id.clone()).collect()
}

#[test]
fn sorting_twice_gives_the_same_order() {
    let mut c = character_picker(vec![
        item("charlie", "Charlie", None, Some("Charlie")),
        item("alice", "Alice", None, Some("Alice")),
        item("bob", "Bob", None, Some("Bob")),
    ]);
    c.sort_items();
    let once = ids(&c);
    let selected = c.state().unwrap().selected;
    c.sort_items();
    assert_eq!(ids(&c), once);
    assert_eq!(c.state().unwrap().selected, selected);
}

fn set_character_filter(c: &mut PickerController, filter: &str) {
    if let Some(PickerSession { data: PickerData::Character(ref mut st), .. }) = c.picker_session {
        st.search_filter = filter.to_string();
    }
}

#[test]
fn longer_filter_never_adds_matches() {
    let mut c = character_picker(vec![
        item("alice", "Alice", Some("A helpful assistant"), None),
        item("alfred", "Alfred", Some("Butler"), None),
        item("bob", "Bob", Some("A friendly character"), None),
    ]);
    set_character_filter(&mut c, "al");
    c.filter_characters();
    let shorter = ids(&c);
    set_character_filter(&mut c, "ali");
    c.filter_characters();
    let longer = ids(&c);
    assert!(longer.iter().all(|id| shorter.contains(id)));
    assert_eq!(longer, vec!["alice".to_string()]);
}

#[test]
fn picker_actions_are_routed_to_the_picker() {
    let mut c = character_picker(vec![
        item("alice", "Alice", None, None),
        item("bob", "Bob", None, None),
    ]);
    let mut s = session_context();
    let out = c.apply_picker_action(&mut s, PickerAction::PickerMoveDown, false, false);
    assert!(matches!(out, PickerOutcome::Updated { preview_theme: None }));
    assert_eq!(c.state().unwrap().selected, 1);

    let out = c.apply_picker_action(&mut s, PickerAction::PickerApplySelection { persistent: true }, false, false);
    assert!(matches!(out, PickerOutcome::Apply(SelectionRequest::Character { ref name, set_as_default: true }) if name == "bob"));

    let out = c.apply_picker_action(&mut s, PickerAction::PickerTypeChar { ch: 'a' }, false, false);
    assert!(matches!(out, PickerOutcome::Updated { .. }));
    assert_eq!(ids(&c), vec!["alice".to_string()]);

    let out = c.apply_picker_action(
        &mut s,
        PickerAction::ModelPickerLoadFailed { error: "offline".to_string() },
        false,
        false,
    );
    assert!(matches!(out, PickerOutcome::Status(ref m) if m == "Model picker error: offline"));

    let out = c.apply_picker_action(&mut s, PickerAction::PickerEscape, false, false);
    assert!(matches!(out, PickerOutcome::Escaped(_)));
    assert!(c.session().is_none());
}
