use chabeau::picker::{
    CharacterPickerState, ModelPickerState, PersonaPickerState, PickerController, PickerData,
    PickerItem, PickerSession, PickerState, PresetPickerState, SortMode, TURN_OFF_CHARACTER_ID,
    TURN_OFF_PERSONA_ID, TURN_OFF_PRESET_ID,
};

fn picker_item(id: &str, label: &str, metadata: Option<&str>) -> PickerItem {
    let metadata_string = metadata.map(|value| value.to_string());
    PickerItem {
        id: id.to_string(),
        label: label.to_string(),
        metadata: metadata_string.clone(),
        inspect_metadata: metadata_string,
        sort_key: None,
    }
}

#[test]
fn test_filter_models_resets_selection_and_matches_case_insensitively() {
    let mut controller = PickerController::new();
    let items = vec![
        picker_item("gpt-4", "GPT-4", None),
        picker_item("gpt-3.5", "GPT-3.5", None),
        picker_item("llama-3", "Llama 3", None),
    ];

    let mut picker_state = PickerState::new("Pick Model", items.clone(), 2);
    picker_state.sort_mode = SortMode::Name;

    let mut session = PickerSession {
        state: picker_state,
        data: PickerData::Model(ModelPickerState {
            search_filter: "GPT".to_string(),
            all_items: items,
            before_model: None,
            has_dates: false,
        }),
    };
    session.state.sort_mode = session.default_sort_mode();

    controller.picker_session = Some(session);
    controller.filter_models();

    let session = controller.session().expect("model picker session");
    assert_eq!(session.state.selected, 0);
    assert_eq!(session.state.items.len(), 2);
    let ids: Vec<&str> = session
        .state
        .items
        .iter()
        .map(|item| item.id.as_str())
        .collect();
    assert!(ids.contains(&"gpt-4"));
    assert!(ids.contains(&"gpt-3.5"));
}

#[test]
fn test_filter_characters_preserves_special_entry_and_selection_bounds() {
    let mut controller = PickerController::new();
    let items = vec![
        picker_item(
            TURN_OFF_CHARACTER_ID,
            "[Turn off character mode]",
            Some("Disable character"),
        ),
        picker_item("alice", "Alice", Some("Friendly adventurer")),
        picker_item("gamma", "Gamma", Some("Galactic explorer")),
    ];

    let mut picker_state = PickerState::new("Pick Character", items.clone(), 2);
    picker_state.sort_mode = SortMode::Name;

    let mut session = PickerSession {
        state: picker_state,
        data: PickerData::Character(CharacterPickerState {
            search_filter: "GAMMA".to_string(),
            all_items: items,
        }),
    };
    session.state.sort_mode = session.default_sort_mode();

    controller.picker_session = Some(session);
    controller.filter_characters();

    let session = controller.session().expect("character picker session");
    assert_eq!(session.state.selected, 0);
    assert_eq!(session.state.items.len(), 2);
    assert_eq!(session.state.items[0].id, TURN_OFF_CHARACTER_ID);
    assert!(session.state.items.iter().any(|item| item.id == "gamma"));
}

#[test]
fn test_filter_personas_preserves_special_entry_and_selection_bounds() {
    let mut controller = PickerController::new();
    let items = vec![
        picker_item(
            TURN_OFF_PERSONA_ID,
            "[Turn off persona]",
            Some("Deactivate persona"),
        ),
        picker_item("mentor", "Mentor", Some("Helpful adviser")),
        picker_item("artist", "Artist", Some("Creative mind")),
    ];

    let mut picker_state = PickerState::new("Pick Persona", items.clone(), 2);
    picker_state.sort_mode = SortMode::Name;

    let mut session = PickerSession {
        state: picker_state,
        data: PickerData::Persona(PersonaPickerState {
            search_filter: "ADVISER".to_string(),
            all_items: items,
        }),
    };
    session.state.sort_mode = session.default_sort_mode();

    controller.picker_session = Some(session);
    controller.filter_personas();

    let session = controller.session().expect("persona picker session");
    assert_eq!(session.state.selected, 0);
    assert_eq!(session.state.items.len(), 2);
    assert_eq!(session.state.items[0].id, TURN_OFF_PERSONA_ID);
    assert!(session.state.items.iter().any(|item| item.id == "mentor"));
}

#[test]
fn test_filter_presets_preserves_special_entry_and_selection_bounds() {
    let mut controller = PickerController::new();
    let items = vec![
        picker_item(
            TURN_OFF_PRESET_ID,
            "[Turn off preset]",
            Some("Deactivate preset"),
        ),
        picker_item("focus", "Focus Mode", Some("Deep work profile")),
        picker_item("chatty", "Chatty", Some("Casual conversation")),
    ];

    let mut picker_state = PickerState::new("Pick Preset", items.clone(), 2);
    picker_state.sort_mode = SortMode::Name;

    let mut session = PickerSession {
        state: picker_state,
        data: PickerData::Preset(PresetPickerState {
            search_filter: "FOCUS".to_string(),
            all_items: items,
        }),
    };
    session.state.sort_mode = session.default_sort_mode();

    controller.picker_session = Some(session);
    controller.filter_presets();

    let session = controller.session().expect("preset picker session");
    assert_eq!(session.state.selected, 0);
    assert_eq!(session.state.items.len(), 2);
    assert_eq!(session.state.items[0].id, TURN_OFF_PRESET_ID);
    assert!(session.state.items.iter().any(|item| item.id == "focus"));
}
