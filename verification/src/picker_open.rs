//! Building the entries of each picker and opening it.

use vstd::prelude::*;
use crate::picker::{
    CharacterPickerState, PersonaPickerState, PresetPickerState, ProviderPickerState,
    TURN_OFF_CHARACTER_ID, TURN_OFF_PERSONA_ID, TURN_OFF_PRESET_ID,
    PickerController, PickerData, PickerItem, PickerMode, PickerSession, PickerState,
    ThemePickerState, duplicate_items, find_preferred, first_preferred, id_is_preferred,
    lemma_first_preferred, started_with,
};
use crate::picker_meta::{
    BuiltinProvider, CustomProvider, ThemeSource, ThemeSpec, character_inspect, character_lines,
    inspect_text, provider_lines, provider_metadata_builtin, provider_metadata_custom,
    provider_summary_parts, summary_text, theme_head_lines, theme_metadata, theme_sections,
    theme_summary_parts,
};
use crate::session::{CharacterCard, SessionContext};
use crate::text::{
    ascii_lower_seq, concat2, concat3, eq_ignore_ascii_case, inspect_clean, join_strings,
    join_with, push_str, replace_all, replace_str, sanitize_picker_metadata,
    sanitize_picker_metadata_for_inspect, sanitized_metadata, str_eq, str_is_empty,
    str_to_string, strings_view, trim, trim_seq,
};
use crate::theme::Theme;

verus! {

/// A view of an optional string.
pub open spec fn opt_view(s: Option<String>) -> Option<Seq<char>> {
    match s {
        Some(v) => Some(v@),
        None => None,
    }
}

pub open spec fn opt_str_view(s: Option<&str>) -> Option<Seq<char>> {
    match s {
        Some(v) => Some(v@),
        None => None,
    }
}

/// Whether `default_id` names `id`, ignoring ASCII case.
pub open spec fn is_default_ci(default_id: Option<Seq<char>>, id: Seq<char>) -> bool {
    default_id matches Some(d) && ascii_lower_seq(d) == ascii_lower_seq(id)
}

/// `base`, with a star when it is the default.
pub open spec fn starred(base: Seq<char>, is_default: bool) -> Seq<char> {
    if is_default {
        base + "*"@
    } else {
        base
    }
}

/// `it` is the picker entry for theme `t`.
pub open spec fn theme_item_spec(
    it: PickerItem,
    t: ThemeSpec,
    source: ThemeSource,
    default_id: Option<Seq<char>>,
) -> bool {
    let is_default = is_default_ci(default_id, t.id@);
    let base = if source == ThemeSource::Custom {
        t.display_name@ + " (custom)"@
    } else {
        t.display_name@
    };
    &&& it.id@ == t.id@
    &&& it.label@ == starred(base, is_default)
    &&& it.metadata matches Some(m) && m@ == summary_text(
        theme_summary_parts(t, source, is_default),
    )
    &&& it.inspect_metadata matches Some(m) && m@ == inspect_text(
        theme_sections(theme_head_lines(t, source, is_default), t),
    )
    &&& it.sort_key matches Some(k) && k@ == t.display_name@
}

/// `items` are the entries of the built-in themes followed by those of the
/// custom themes.
pub open spec fn theme_items_spec(
    items: Seq<PickerItem>,
    builtin: Seq<ThemeSpec>,
    custom: Seq<ThemeSpec>,
    default_id: Option<Seq<char>>,
) -> bool {
    &&& items.len() == builtin.len() + custom.len()
    &&& forall|k: int|
        0 <= k < builtin.len() ==> theme_item_spec(
            #[trigger] items[k],
            builtin[k],
            ThemeSource::Builtin,
            default_id,
        )
    &&& forall|k: int|
        0 <= k < custom.len() ==> theme_item_spec(
            #[trigger] items[builtin.len() + k],
            custom[k],
            ThemeSource::Custom,
            default_id,
        )
}

fn is_default_exec(default_id: Option<&str>, id: &str) -> (r: bool)
    ensures
        r == is_default_ci(opt_str_view(default_id), id@),
{
    match default_id {
        Some(d) => eq_ignore_ascii_case(d, id),
        None => false,
    }
}

fn theme_item(t: &ThemeSpec, source: ThemeSource, default_id: Option<&str>) -> (r: PickerItem)
    ensures
        theme_item_spec(r, *t, source, opt_str_view(default_id)),
{
    let is_default = is_default_exec(default_id, t.id.as_str());
    let base = match source {
        ThemeSource::Custom => concat2(t.display_name.as_str(), " (custom)"),
        ThemeSource::Builtin => t.display_name.clone(),
    };
    let label = if is_default {
        concat2(base.as_str(), "*")
    } else {
        base
    };
    let (metadata, inspect) = theme_metadata(t, source, is_default);
    PickerItem {
        id: t.id.clone(),
        label,
        metadata: Some(metadata),
        inspect_metadata: Some(inspect),
        sort_key: Some(t.display_name.clone()),
    }
}

/// The selection a picker opens with: the first entry with the preferred id,
/// else the first entry.
pub open spec fn initial_selection(
    mode: PickerMode,
    items: Seq<PickerItem>,
    preferred: Option<Seq<char>>,
) -> usize {
    match preferred {
        Some(p) => match first_preferred(mode, items, p) {
            Some(k) => k as usize,
            None => 0,
        },
        None => 0,
    }
}

pub fn find_initial(mode: PickerMode, items: &Vec<PickerItem>, preferred: Option<&str>) -> (r: usize)
    ensures
        r == initial_selection(mode, items@, opt_str_view(preferred)),
{
    match preferred {
        Some(p) => match find_preferred(mode, items, p) {
            Some(k) => {
                proof {
                    lemma_first_preferred(mode, items@, p@, k as int);
                }
                k
            },
            None => {
                proof {
                    if first_preferred(mode, items@, p@) is Some {
                        let k = choose|k: int|
                            0 <= k < items@.len() && id_is_preferred(
                                mode,
                                #[trigger] items@[k].id@,
                                p@,
                            );
                        assert(!id_is_preferred(mode, items@[k].id@, p@));
                    }
                }
                0
            },
        },
        None => 0,
    }
}

impl PickerController {
    /// Opens the theme picker over the built-in themes, then the custom ones.
    /// The default theme is starred; the active theme (else the default) is
    /// selected; the theme in use is saved so that cancelling restores it.
    pub fn open_theme_picker(
        &mut self,
        builtin: &Vec<ThemeSpec>,
        custom: &Vec<ThemeSpec>,
        default_theme_id: Option<&str>,
        current_theme_id: Option<&str>,
        current_theme: Theme,
    )
        ensures
            final(self).picker_session matches Some(a) && a.data matches PickerData::Theme(ts) && {
                let active = match current_theme_id {
                    Some(c) => Some(c@),
                    None => opt_str_view(default_theme_id),
                };
                &&& ts.search_filter@.len() == 0
                &&& theme_items_spec(ts.all_items@, builtin@, custom@, opt_str_view(default_theme_id))
                &&& ts.before_theme == Some(current_theme)
                &&& opt_view(ts.before_theme_id) == opt_str_view(default_theme_id)
                &&& started_with(
                    *old(self),
                    a.data,
                    ts.all_items@,
                    initial_selection(PickerMode::Theme, ts.all_items@, active),
                    active,
                    *final(self),
                )
            },
    {
        let mut items: Vec<PickerItem> = Vec::new();
        let mut i: usize = 0;
        while i < builtin.len()
            invariant
                i <= builtin@.len(),
                items@.len() == i,
                forall|k: int|
                    0 <= k < i ==> theme_item_spec(
                        #[trigger] items@[k],
                        builtin@[k],
                        ThemeSource::Builtin,
                        opt_str_view(default_theme_id),
                    ),
            decreases builtin.len() - i,
        {
            items.push(theme_item(&builtin[i], ThemeSource::Builtin, default_theme_id));
            i = i + 1;
        }
        let mut j: usize = 0;
        while j < custom.len()
            invariant
                j <= custom@.len(),
                items@.len() == builtin@.len() + j,
                forall|k: int|
                    0 <= k < builtin@.len() ==> theme_item_spec(
                        #[trigger] items@[k],
                        builtin@[k],
                        ThemeSource::Builtin,
                        opt_str_view(default_theme_id),
                    ),
                forall|k: int|
                    0 <= k < j ==> theme_item_spec(
                        #[trigger] items@[builtin@.len() + k],
                        custom@[k],
                        ThemeSource::Custom,
                        opt_str_view(default_theme_id),
                    ),
            decreases custom.len() - j,
        {
            let ghost before = items@;
            items.push(theme_item(&custom[j], ThemeSource::Custom, default_theme_id));
            assert(forall|k: int| 0 <= k < before.len() ==> items@[k] == before[k]);
            j = j + 1;
        }
        let active: Option<&str> = match current_theme_id {
            Some(c) => Some(c),
            None => default_theme_id,
        };
        let selected = find_initial(PickerMode::Theme, &items, active);
        let shown = duplicate_items(&items);
        let state = PickerState::new("Pick Theme", shown, selected);
        let before_theme_id = match default_theme_id {
            Some(d) => Some(str_to_string(d)),
            None => None,
        };
        let session = PickerSession {
            state,
            data: PickerData::Theme(
                ThemePickerState {
                    search_filter: String::new(),
                    all_items: items,
                    before_theme: Some(current_theme),
                    before_theme_id,
                },
            ),
        };
        let preferred = match active {
            Some(a) => Some(str_to_string(a)),
            None => None,
        };
        self.start_picker_session(session, preferred);
    }
}


// ---------------------------------------------------------------------------
// Fixed entries
// ---------------------------------------------------------------------------

/// `it` is an entry with the given id, label and note, and no sort key.
pub open spec fn fixed_item(it: PickerItem, id: Seq<char>, label: Seq<char>, note: Seq<char>) -> bool {
    &&& it.id@ == id
    &&& it.label@ == label
    &&& it.metadata matches Some(m) && m@ == note
    &&& it.inspect_metadata matches Some(m) && m@ == note
    &&& it.sort_key is None
}

fn fixed_entry(id: &str, label: &str, note: &str) -> (r: PickerItem)
    ensures
        fixed_item(r, id@, label@, note@),
{
    PickerItem {
        id: str_to_string(id),
        label: str_to_string(label),
        metadata: Some(str_to_string(note)),
        inspect_metadata: Some(str_to_string(note)),
        sort_key: None,
    }
}

fn opt_eq(a: Option<&str>, b: &str) -> (r: bool)
    ensures
        r == (opt_str_view(a) == Some(b@)),
{
    match a {
        Some(x) => str_eq(x, b),
        None => false,
    }
}

// ---------------------------------------------------------------------------
// Characters
// ---------------------------------------------------------------------------

/// `it` is the entry of character card `card`.
pub open spec fn character_item_spec(
    it: PickerItem,
    card: CharacterCard,
    default_name: Option<Seq<char>>,
) -> bool {
    let name = card.data.name@;
    let desc = sanitized_metadata(card.data.description@);
    &&& it.id@ == name
    &&& it.label@ == starred(name, default_name == Some(name))
    &&& it.metadata matches Some(m) && m@ == (if desc.len() == 0 {
        "No description"@
    } else {
        desc
    })
    &&& it.inspect_metadata matches Some(m) && m@ == inspect_text(character_lines(card))
    &&& it.sort_key matches Some(k) && k@ == name
}

/// `items` are the character entries, after the entry that turns character
/// mode off when `with_turn_off`.
pub open spec fn character_items_spec(
    items: Seq<PickerItem>,
    cards: Seq<CharacterCard>,
    default_name: Option<Seq<char>>,
    with_turn_off: bool,
) -> bool {
    let off: int = if with_turn_off {
        1
    } else {
        0
    };
    &&& items.len() == cards.len() + off
    &&& with_turn_off ==> fixed_item(
        items[0],
        TURN_OFF_CHARACTER_ID@,
        "[Turn off character mode]"@,
        "Disable character and return to normal mode"@,
    )
    &&& forall|k: int|
        0 <= k < cards.len() ==> character_item_spec(#[trigger] items[k + off], cards[k], default_name)
}

fn character_item(card: &CharacterCard, default_name: Option<&str>) -> (r: PickerItem)
    ensures
        character_item_spec(r, *card, opt_str_view(default_name)),
{
    let name = card.data.name.as_str();
    let sanitized = sanitize_picker_metadata(card.data.description.as_str());
    let metadata = if str_is_empty(sanitized.as_str()) {
        str_to_string("No description")
    } else {
        sanitized
    };
    let label = if opt_eq(default_name, name) {
        concat2(name, "*")
    } else {
        str_to_string(name)
    };
    PickerItem {
        id: str_to_string(name),
        label,
        metadata: Some(metadata),
        inspect_metadata: Some(character_inspect(card)),
        sort_key: Some(str_to_string(name)),
    }
}

/// The message when there is no character card to pick.
pub open spec fn no_cards_message() -> Seq<char> {
    "No character cards found. Use 'chabeau import <file>' to import cards."@
}

/// The name of the session's active character.
pub open spec fn active_character_name(s: SessionContext) -> Option<Seq<char>> {
    match s.active_character {
        Some(c) => Some(c.data.name@),
        None => None,
    }
}

impl PickerController {
    /// Opens the character picker over `cards`, in the order given. The
    /// default character for the session's provider and model is starred;
    /// while a character is active an entry that turns character mode off
    /// comes first, and the active character is selected. Without cards it
    /// is refused and nothing changes.
    pub fn open_character_picker(
        &mut self,
        cards: Vec<CharacterCard>,
        session_context: &SessionContext,
        default_character: Option<&str>,
    ) -> (r: Result<(), String>)
        ensures
            match r {
                Err(e) => cards@.len() == 0 && e@ == no_cards_message() && *final(self) == *old(self),
                Ok(()) => cards@.len() > 0 && (final(self).picker_session matches Some(a)
                    && a.data matches PickerData::Character(cs) && {
                    let active = active_character_name(*session_context);
                    &&& cs.search_filter@.len() == 0
                    &&& character_items_spec(
                        cs.all_items@,
                        cards@,
                        opt_str_view(default_character),
                        session_context.active_character is Some,
                    )
                    &&& started_with(
                        *old(self),
                        a.data,
                        cs.all_items@,
                        initial_selection(PickerMode::Character, cs.all_items@, active),
                        active,
                        *final(self),
                    )
                }),
            },
    {
        if cards.len() == 0 {
            return Err(str_to_string("No character cards found. Use 'chabeau import <file>' to import cards."));
        }
        let with_turn_off = session_context.active_character.is_some();
        let ghost off: int = if with_turn_off {
            1
        } else {
            0
        };
        let mut items: Vec<PickerItem> = Vec::new();
        if with_turn_off {
            items.push(
                fixed_entry(
                    TURN_OFF_CHARACTER_ID,
                    "[Turn off character mode]",
                    "Disable character and return to normal mode",
                ),
            );
        }
        let mut i: usize = 0;
        while i < cards.len()
            invariant
                i <= cards@.len(),
                off == (if with_turn_off {
                    1int
                } else {
                    0int
                }),
                items@.len() == i + off,
                with_turn_off ==> fixed_item(
                    items@[0],
                    TURN_OFF_CHARACTER_ID@,
                    "[Turn off character mode]"@,
                    "Disable character and return to normal mode"@,
                ),
                forall|k: int|
                    0 <= k < i ==> character_item_spec(
                        #[trigger] items@[k + off],
                        cards@[k],
                        opt_str_view(default_character),
                    ),
            decreases cards.len() - i,
        {
            let ghost before = items@;
            items.push(character_item(&cards[i], default_character));
            assert(forall|k: int| 0 <= k < before.len() ==> items@[k] == before[k]);
            i = i + 1;
        }
        let active: Option<&str> = match session_context.get_character() {
            Some(c) => Some(c.data.name.as_str()),
            None => None,
        };
        let selected = find_initial(PickerMode::Character, &items, active);
        let shown = duplicate_items(&items);
        let state = PickerState::new("Pick Character", shown, selected);
        let session = PickerSession {
            state,
            data: PickerData::Character(
                CharacterPickerState { search_filter: String::new(), all_items: items },
            ),
        };
        let preferred = match active {
            Some(a) => Some(str_to_string(a)),
            None => None,
        };
        self.start_picker_session(session, preferred);
        Ok(())
    }
}

// ---------------------------------------------------------------------------
// Personas
// ---------------------------------------------------------------------------

/// A persona the user can speak as.
pub struct Persona {
    pub id: String,
    pub display_name: String,
    pub bio: Option<String>,
}

/// The bio of `p` with `{{char}}` and then `{{user}}` filled in.
pub open spec fn persona_bio(p: Persona, char_name: Seq<char>) -> Option<Seq<char>> {
    match p.bio {
        Some(b) => Some(
            replace_all(replace_all(b@, "{{char}}"@, char_name), "{{user}}"@, p.display_name@),
        ),
        None => None,
    }
}

/// The one-line and the inspect text of a persona entry: the filled-in bio,
/// or "No bio" when there is none or it is blank.
pub open spec fn persona_texts(p: Persona, char_name: Seq<char>) -> (Seq<char>, Seq<char>) {
    match persona_bio(p, char_name) {
        Some(b) => if sanitized_metadata(b).len() > 0 {
            (sanitized_metadata(b), inspect_clean(b))
        } else {
            ("No bio"@, "No bio"@)
        },
        None => ("No bio"@, "No bio"@),
    }
}

/// `it` is the entry of persona `p`.
pub open spec fn persona_item_spec(
    it: PickerItem,
    p: Persona,
    default_id: Option<Seq<char>>,
    char_name: Seq<char>,
) -> bool {
    let (m, i) = persona_texts(p, char_name);
    &&& it.id@ == p.id@
    &&& it.label@ == starred(p.display_name@ + " ("@ + p.id@ + ")"@, default_id == Some(p.id@))
    &&& it.metadata matches Some(x) && x@ == m
    &&& it.inspect_metadata matches Some(x) && x@ == i
    &&& it.sort_key matches Some(k) && k@ == p.display_name@
}

/// `items` are the persona entries, after the entry that deactivates the
/// persona when `with_turn_off`.
pub open spec fn persona_items_spec(
    items: Seq<PickerItem>,
    personas: Seq<Persona>,
    default_id: Option<Seq<char>>,
    char_name: Seq<char>,
    with_turn_off: bool,
) -> bool {
    let off: int = if with_turn_off {
        1
    } else {
        0
    };
    &&& items.len() == personas.len() + off
    &&& with_turn_off ==> fixed_item(
        items[0],
        TURN_OFF_PERSONA_ID@,
        "[Turn off persona]"@,
        "Deactivate current persona and return to normal mode"@,
    )
    &&& forall|k: int|
        0 <= k < personas.len() ==> persona_item_spec(
            #[trigger] items[k + off],
            personas[k],
            default_id,
            char_name,
        )
}

fn persona_item(p: &Persona, default_id: Option<&str>, char_name: &str) -> (r: PickerItem)
    ensures
        persona_item_spec(r, *p, opt_str_view(default_id), char_name@),
{
    let mut label = concat3(p.display_name.as_str(), " (", p.id.as_str());
    push_str(&mut label, ")");
    if opt_eq(default_id, p.id.as_str()) {
        push_str(&mut label, "*");
    }
    let ghost texts = persona_texts(*p, char_name@);
    let (metadata, inspect) = match &p.bio {
        Some(bio) => {
            proof {
                reveal_strlit("{{char}}");
                reveal_strlit("{{user}}");
            }
            let with_char = replace_str(bio.as_str(), "{{char}}", char_name);
            let substituted = replace_str(with_char.as_str(), "{{user}}", p.display_name.as_str());
            let sanitized = sanitize_picker_metadata(substituted.as_str());
            if str_is_empty(sanitized.as_str()) {
                (str_to_string("No bio"), str_to_string("No bio"))
            } else {
                (sanitized, sanitize_picker_metadata_for_inspect(substituted.as_str()))
            }
        },
        None => (str_to_string("No bio"), str_to_string("No bio")),
    };
    PickerItem {
        id: p.id.clone(),
        label,
        metadata: Some(metadata),
        inspect_metadata: Some(inspect),
        sort_key: Some(p.display_name.clone()),
    }
}

/// The name `{{char}}` stands for in a persona's bio.
pub open spec fn bio_char_name(s: SessionContext) -> Seq<char> {
    match s.active_character {
        Some(c) => c.data.name@,
        None => "Assistant"@,
    }
}

/// The message when there is no persona to pick.
pub open spec fn no_personas_message() -> Seq<char> {
    "No personas found. Add personas to your config.toml file."@
}

impl PickerController {
    /// Opens the persona picker over `personas`. The default persona for the
    /// session's provider and model is starred; while a persona is active an
    /// entry that deactivates it comes first, and the active persona is
    /// selected. Bios name the active character (else "Assistant") and the
    /// persona. Without personas it is refused and nothing changes.
    pub fn open_persona_picker(
        &mut self,
        personas: &Vec<Persona>,
        active_persona_id: Option<&str>,
        default_persona: Option<&str>,
        session_context: &SessionContext,
    ) -> (r: Result<(), String>)
        ensures
            match r {
                Err(e) => personas@.len() == 0 && e@ == no_personas_message() && *final(self)
                    == *old(self),
                Ok(()) => personas@.len() > 0 && (final(self).picker_session matches Some(a)
                    && a.data matches PickerData::Persona(ps) && {
                    let active = opt_str_view(active_persona_id);
                    &&& ps.search_filter@.len() == 0
                    &&& persona_items_spec(
                        ps.all_items@,
                        personas@,
                        opt_str_view(default_persona),
                        bio_char_name(*session_context),
                        active_persona_id is Some,
                    )
                    &&& started_with(
                        *old(self),
                        a.data,
                        ps.all_items@,
                        initial_selection(PickerMode::Persona, ps.all_items@, active),
                        active,
                        *final(self),
                    )
                }),
            },
    {
        if personas.len() == 0 {
            return Err(str_to_string("No personas found. Add personas to your config.toml file."));
        }
        let char_name: &str = match session_context.get_character() {
            Some(c) => c.data.name.as_str(),
            None => "Assistant",
        };
        let with_turn_off = active_persona_id.is_some();
        let ghost off: int = if with_turn_off {
            1
        } else {
            0
        };
        let mut items: Vec<PickerItem> = Vec::new();
        if with_turn_off {
            items.push(
                fixed_entry(
                    TURN_OFF_PERSONA_ID,
                    "[Turn off persona]",
                    "Deactivate current persona and return to normal mode",
                ),
            );
        }
        let mut i: usize = 0;
        while i < personas.len()
            invariant
                i <= personas@.len(),
                char_name@ == bio_char_name(*session_context),
                off == (if with_turn_off {
                    1int
                } else {
                    0int
                }),
                items@.len() == i + off,
                with_turn_off ==> fixed_item(
                    items@[0],
                    TURN_OFF_PERSONA_ID@,
                    "[Turn off persona]"@,
                    "Deactivate current persona and return to normal mode"@,
                ),
                forall|k: int|
                    0 <= k < i ==> persona_item_spec(
                        #[trigger] items@[k + off],
                        personas@[k],
                        opt_str_view(default_persona),
                        char_name@,
                    ),
            decreases personas.len() - i,
        {
            let ghost before = items@;
            items.push(persona_item(&personas[i], default_persona, char_name));
            assert(forall|k: int| 0 <= k < before.len() ==> items@[k] == before[k]);
            i = i + 1;
        }
        let selected = find_initial(PickerMode::Persona, &items, active_persona_id);
        let shown = duplicate_items(&items);
        let state = PickerState::new("Pick Persona", shown, selected);
        let session = PickerSession {
            state,
            data: PickerData::Persona(
                PersonaPickerState { search_filter: String::new(), all_items: items },
            ),
        };
        let preferred = match active_persona_id {
            Some(a) => Some(str_to_string(a)),
            None => None,
        };
        self.start_picker_session(session, preferred);
        Ok(())
    }
}

// ---------------------------------------------------------------------------
// Presets
// ---------------------------------------------------------------------------

/// A preset: instructions put before and after the conversation.
pub struct Preset {
    pub id: String,
    pub pre: String,
    pub post: String,
}

/// The one-line part that a preset's `text` gives under `label`, if its
/// trimmed form has anything left to show.
pub open spec fn preset_part(text: Seq<char>, label: Seq<char>) -> Seq<Seq<char>> {
    let t = trim_seq(text);
    if t.len() > 0 && sanitized_metadata(t).len() > 0 {
        seq![label + ": "@ + sanitized_metadata(t)]
    } else {
        seq![]
    }
}

/// The inspect part that a preset's `text` gives under `label`.
pub open spec fn preset_inspect_part(text: Seq<char>, label: Seq<char>) -> Seq<Seq<char>> {
    let t = trim_seq(text);
    if t.len() > 0 && sanitized_metadata(t).len() > 0 {
        seq![label + ":\n"@ + inspect_clean(t)]
    } else {
        seq![]
    }
}

/// The parts joined with `sep`, or "No instructions" when there are none.
pub open spec fn parts_or_none(parts: Seq<Seq<char>>, sep: Seq<char>) -> Seq<char> {
    if parts.len() == 0 {
        "No instructions"@
    } else {
        join_with(parts, sep)
    }
}

/// `it` is the entry of preset `p`.
pub open spec fn preset_item_spec(it: PickerItem, p: Preset, default_id: Option<Seq<char>>) -> bool {
    &&& it.id@ == p.id@
    &&& it.label@ == starred(p.id@, default_id == Some(p.id@))
    &&& it.metadata matches Some(x) && x@ == parts_or_none(
        preset_part(p.pre@, "Pre"@) + preset_part(p.post@, "Post"@),
        " \u{2022} "@,
    )
    &&& it.inspect_metadata matches Some(x) && x@ == parts_or_none(
        preset_inspect_part(p.pre@, "Pre"@) + preset_inspect_part(p.post@, "Post"@),
        "\n\n"@,
    )
    &&& it.sort_key matches Some(k) && k@ == p.id@
}

/// `items` are the preset entries, after the entry that deactivates the
/// preset when `with_turn_off`.
pub open spec fn preset_items_spec(
    items: Seq<PickerItem>,
    presets: Seq<Preset>,
    default_id: Option<Seq<char>>,
    with_turn_off: bool,
) -> bool {
    let off: int = if with_turn_off {
        1
    } else {
        0
    };
    &&& items.len() == presets.len() + off
    &&& with_turn_off ==> fixed_item(
        items[0],
        TURN_OFF_PRESET_ID@,
        "[Turn off preset]"@,
        "Deactivate current preset"@,
    )
    &&& forall|k: int|
        0 <= k < presets.len() ==> preset_item_spec(#[trigger] items[k + off], presets[k], default_id)
}

fn push_preset_part(
    parts: &mut Vec<String>,
    inspect_parts: &mut Vec<String>,
    text: &str,
    label: &str,
)
    ensures
        strings_view(final(parts)@) == strings_view(old(parts)@) + preset_part(text@, label@),
        strings_view(final(inspect_parts)@) == strings_view(old(inspect_parts)@)
            + preset_inspect_part(text@, label@),
{
    let t = trim(text);
    if !str_is_empty(t.as_str()) {
        let sanitized = sanitize_picker_metadata(t.as_str());
        if !str_is_empty(sanitized.as_str()) {
            let ghost p0 = strings_view(parts@);
            let ghost i0 = strings_view(inspect_parts@);
            parts.push(concat3(label, ": ", sanitized.as_str()));
            let inspect = sanitize_picker_metadata_for_inspect(t.as_str());
            inspect_parts.push(concat3(label, ":\n", inspect.as_str()));
            assert(strings_view(parts@) =~= p0 + preset_part(text@, label@));
            assert(strings_view(inspect_parts@) =~= i0 + preset_inspect_part(text@, label@));
            return;
        }
    }
    assert(strings_view(parts@) =~= strings_view(old(parts)@) + preset_part(text@, label@));
    assert(strings_view(inspect_parts@) =~= strings_view(old(inspect_parts)@)
        + preset_inspect_part(text@, label@));
}

fn preset_item(p: &Preset, default_id: Option<&str>) -> (r: PickerItem)
    ensures
        preset_item_spec(r, *p, opt_str_view(default_id)),
{
    let label = if opt_eq(default_id, p.id.as_str()) {
        concat2(p.id.as_str(), "*")
    } else {
        p.id.clone()
    };
    let mut parts: Vec<String> = Vec::new();
    let mut inspect_parts: Vec<String> = Vec::new();
    assert(strings_view(parts@) =~= Seq::<Seq<char>>::empty());
    assert(strings_view(inspect_parts@) =~= Seq::<Seq<char>>::empty());
    push_preset_part(&mut parts, &mut inspect_parts, p.pre.as_str(), "Pre");
    push_preset_part(&mut parts, &mut inspect_parts, p.post.as_str(), "Post");
    let metadata = if parts.len() == 0 {
        str_to_string("No instructions")
    } else {
        join_strings(&parts, " \u{2022} ")
    };
    let inspect = if inspect_parts.len() == 0 {
        str_to_string("No instructions")
    } else {
        join_strings(&inspect_parts, "\n\n")
    };
    PickerItem {
        id: p.id.clone(),
        label,
        metadata: Some(metadata),
        inspect_metadata: Some(inspect),
        sort_key: Some(p.id.clone()),
    }
}

/// The message when there is no preset to pick.
pub open spec fn no_presets_message() -> Seq<char> {
    "No presets found. Add presets to your config.toml file."@
}

impl PickerController {
    /// Opens the preset picker over `presets`. The default preset for the
    /// session's provider and model is starred; while a preset is active an
    /// entry that deactivates it comes first, and the active preset is
    /// selected. Without presets it is refused and nothing changes.
    pub fn open_preset_picker(
        &mut self,
        presets: &Vec<Preset>,
        active_preset_id: Option<&str>,
        default_preset: Option<&str>,
    ) -> (r: Result<(), String>)
        ensures
            match r {
                Err(e) => presets@.len() == 0 && e@ == no_presets_message() && *final(self)
                    == *old(self),
                Ok(()) => presets@.len() > 0 && (final(self).picker_session matches Some(a)
                    && a.data matches PickerData::Preset(ps) && {
                    let active = opt_str_view(active_preset_id);
                    &&& ps.search_filter@.len() == 0
                    &&& preset_items_spec(
                        ps.all_items@,
                        presets@,
                        opt_str_view(default_preset),
                        active_preset_id is Some,
                    )
                    &&& started_with(
                        *old(self),
                        a.data,
                        ps.all_items@,
                        initial_selection(PickerMode::Preset, ps.all_items@, active),
                        active,
                        *final(self),
                    )
                }),
            },
    {
        if presets.len() == 0 {
            return Err(str_to_string("No presets found. Add presets to your config.toml file."));
        }
        let with_turn_off = active_preset_id.is_some();
        let ghost off: int = if with_turn_off {
            1
        } else {
            0
        };
        let mut items: Vec<PickerItem> = Vec::new();
        if with_turn_off {
            items.push(fixed_entry(TURN_OFF_PRESET_ID, "[Turn off preset]", "Deactivate current preset"));
        }
        let mut i: usize = 0;
        while i < presets.len()
            invariant
                i <= presets@.len(),
                off == (if with_turn_off {
                    1int
                } else {
                    0int
                }),
                items@.len() == i + off,
                with_turn_off ==> fixed_item(
                    items@[0],
                    TURN_OFF_PRESET_ID@,
                    "[Turn off preset]"@,
                    "Deactivate current preset"@,
                ),
                forall|k: int|
                    0 <= k < i ==> preset_item_spec(
                        #[trigger] items@[k + off],
                        presets@[k],
                        opt_str_view(default_preset),
                    ),
            decreases presets.len() - i,
        {
            let ghost before = items@;
            items.push(preset_item(&presets[i], default_preset));
            assert(forall|k: int| 0 <= k < before.len() ==> items@[k] == before[k]);
            i = i + 1;
        }
        let selected = find_initial(PickerMode::Preset, &items, active_preset_id);
        let shown = duplicate_items(&items);
        let state = PickerState::new("Pick Preset", shown, selected);
        let session = PickerSession {
            state,
            data: PickerData::Preset(
                PresetPickerState { search_filter: String::new(), all_items: items },
            ),
        };
        let preferred = match active_preset_id {
            Some(a) => Some(str_to_string(a)),
            None => None,
        };
        self.start_picker_session(session, preferred);
        Ok(())
    }
}

// ---------------------------------------------------------------------------
// Providers
// ---------------------------------------------------------------------------

/// A provider from the configuration file as the credential store lists it,
/// with its full entry when the configuration has one.
pub struct CustomProviderListing {
    pub id: String,
    pub display_name: String,
    pub base_url: String,
    pub has_token: bool,
    pub details: Option<CustomProvider>,
}

/// The built-in providers that have a token, in order.
pub open spec fn tokened_builtin(s: Seq<(BuiltinProvider, bool)>) -> Seq<BuiltinProvider>
    decreases s.len(),
{
    if s.len() == 0 {
        seq![]
    } else {
        let rest = tokened_builtin(s.drop_last());
        if s.last().1 {
            rest.push(s.last().0)
        } else {
            rest
        }
    }
}

/// The configured providers that have a token, in order.
pub open spec fn tokened_custom(s: Seq<CustomProviderListing>) -> Seq<CustomProviderListing>
    decreases s.len(),
{
    if s.len() == 0 {
        seq![]
    } else {
        let rest = tokened_custom(s.drop_last());
        if s.last().has_token {
            rest.push(s.last())
        } else {
            rest
        }
    }
}

/// The entry a listed provider is described by: its full entry, else one
/// made from the listing with no authentication mode.
pub open spec fn custom_details(l: CustomProviderListing) -> CustomProvider {
    match l.details {
        Some(d) => d,
        None => CustomProvider {
            id: l.id,
            display_name: l.display_name,
            base_url: l.base_url,
            mode: None,
        },
    }
}

/// `it` is the entry of built-in provider `p`.
pub open spec fn builtin_provider_item_spec(
    it: PickerItem,
    p: BuiltinProvider,
    default_id: Option<Seq<char>>,
) -> bool {
    let is_default = is_default_ci(default_id, p.id@);
    &&& it.id@ == p.id@
    &&& it.label@ == starred(p.display_name@, is_default)
    &&& it.metadata matches Some(m) && m@ == summary_text(
        provider_summary_parts(p.id@, p.base_url@, "Built-in provider"@, is_default),
    )
    &&& it.inspect_metadata matches Some(m) && m@ == inspect_text(
        provider_lines(
            p.display_name@,
            p.id@,
            p.base_url@,
            "Built-in provider"@,
            Some(p.auth_mode@),
            is_default,
        ),
    )
    &&& it.sort_key matches Some(k) && k@ == p.display_name@
}

/// `it` is the entry of configured provider `l`.
pub open spec fn custom_provider_item_spec(
    it: PickerItem,
    l: CustomProviderListing,
    default_id: Option<Seq<char>>,
) -> bool {
    let is_default = is_default_ci(default_id, l.id@);
    let d = custom_details(l);
    &&& it.id@ == l.id@
    &&& it.label@ == starred(l.display_name@ + " (custom)"@, is_default)
    &&& it.metadata matches Some(m) && m@ == summary_text(
        provider_summary_parts(d.id@, d.base_url@, "Custom provider (config.toml)"@, is_default),
    )
    &&& it.inspect_metadata matches Some(m) && m@ == inspect_text(
        provider_lines(
            d.display_name@,
            d.id@,
            d.base_url@,
            "Custom provider (config.toml)"@,
            match d.mode {
                Some(x) => Some(x@),
                None => None,
            },
            is_default,
        ),
    )
    &&& it.sort_key matches Some(k) && k@ == l.display_name@
}

/// `items` are the entries of the built-in providers with a token, then of
/// the configured providers with a token.
pub open spec fn provider_items_spec(
    items: Seq<PickerItem>,
    builtin: Seq<(BuiltinProvider, bool)>,
    custom: Seq<CustomProviderListing>,
    default_id: Option<Seq<char>>,
) -> bool {
    let b = tokened_builtin(builtin);
    let c = tokened_custom(custom);
    &&& items.len() == b.len() + c.len()
    &&& forall|k: int|
        0 <= k < b.len() ==> builtin_provider_item_spec(#[trigger] items[k], b[k], default_id)
    &&& forall|k: int|
        0 <= k < c.len() ==> custom_provider_item_spec(#[trigger] items[b.len() + k], c[k], default_id)
}

fn builtin_provider_item(p: &BuiltinProvider, default_id: Option<&str>) -> (r: PickerItem)
    ensures
        builtin_provider_item_spec(r, *p, opt_str_view(default_id)),
{
    let is_default = is_default_exec(default_id, p.id.as_str());
    let label = if is_default {
        concat2(p.display_name.as_str(), "*")
    } else {
        p.display_name.clone()
    };
    let (metadata, inspect) = provider_metadata_builtin(p, is_default);
    PickerItem {
        id: p.id.clone(),
        label,
        metadata: Some(metadata),
        inspect_metadata: Some(inspect),
        sort_key: Some(p.display_name.clone()),
    }
}

fn custom_provider_item(l: &CustomProviderListing, default_id: Option<&str>) -> (r: PickerItem)
    ensures
        custom_provider_item_spec(r, *l, opt_str_view(default_id)),
{
    let is_default = is_default_exec(default_id, l.id.as_str());
    let label = if is_default {
        concat2(l.display_name.as_str(), " (custom)*")
    } else {
        concat2(l.display_name.as_str(), " (custom)")
    };
    proof {
        assert((l.display_name@ + " (custom)"@) + "*"@ =~= l.display_name@ + " (custom)*"@) by {
            reveal_strlit(" (custom)");
            reveal_strlit(" (custom)*");
            reveal_strlit("*");
        }
    }
    let (metadata, inspect) = match &l.details {
        Some(d) => provider_metadata_custom(d, is_default),
        None => {
            let fallback = CustomProvider {
                id: l.id.clone(),
                display_name: l.display_name.clone(),
                base_url: l.base_url.clone(),
                mode: None,
            };
            provider_metadata_custom(&fallback, is_default)
        },
    };
    PickerItem {
        id: l.id.clone(),
        label,
        metadata: Some(metadata),
        inspect_metadata: Some(inspect),
        sort_key: Some(l.display_name.clone()),
    }
}

/// The message when no provider has a token.
pub open spec fn no_providers_message() -> Seq<char> {
    "No configured providers found. Run 'chabeau auth' to set up authentication."@
}

impl PickerController {
    /// Opens the provider picker over the providers that have a token:
    /// built-in ones first, then configured ones. The default provider is
    /// starred; the session's provider is selected and saved, with its
    /// display name, so that cancelling restores them. When no provider has
    /// a token it is refused and nothing changes.
    pub fn open_provider_picker(
        &mut self,
        session_context: &SessionContext,
        builtin: &Vec<(BuiltinProvider, bool)>,
        custom: &Vec<CustomProviderListing>,
        default_provider: Option<&str>,
    ) -> (r: Result<(), String>)
        ensures
            match r {
                Err(e) => tokened_builtin(builtin@).len() + tokened_custom(custom@).len() == 0
                    && e@ == no_providers_message() && *final(self) == *old(self),
                Ok(()) => tokened_builtin(builtin@).len() + tokened_custom(custom@).len() > 0 && (
                final(self).picker_session matches Some(a) && a.data matches PickerData::Provider(
                    ps,
                ) && {
                    let current = Some(session_context.provider_name@);
                    &&& ps.search_filter@.len() == 0
                    &&& ps.before_provider == Some(
                        (session_context.provider_name, session_context.provider_display_name),
                    )
                    &&& provider_items_spec(
                        ps.all_items@,
                        builtin@,
                        custom@,
                        opt_str_view(default_provider),
                    )
                    &&& started_with(
                        *old(self),
                        a.data,
                        ps.all_items@,
                        initial_selection(PickerMode::Provider, ps.all_items@, current),
                        current,
                        *final(self),
                    )
                }),
            },
    {
        let ghost dv = opt_str_view(default_provider);
        let mut items: Vec<PickerItem> = Vec::new();
        let mut i: usize = 0;
        while i < builtin.len()
            invariant
                i <= builtin@.len(),
                dv == opt_str_view(default_provider),
                items@.len() == tokened_builtin(builtin@.take(i as int)).len(),
                forall|k: int|
                    0 <= k < items@.len() ==> builtin_provider_item_spec(
                        #[trigger] items@[k],
                        tokened_builtin(builtin@.take(i as int))[k],
                        dv,
                    ),
            decreases builtin.len() - i,
        {
            assert(builtin@.take(i + 1).drop_last() =~= builtin@.take(i as int));
            assert(builtin@.take(i + 1).last() == builtin@[i as int]);
            let (p, has_token) = &builtin[i];
            if *has_token {
                items.push(builtin_provider_item(p, default_provider));
            }
            i = i + 1;
        }
        assert(builtin@.take(builtin@.len() as int) =~= builtin@);
        let ghost nb = items@.len();
        let mut j: usize = 0;
        while j < custom.len()
            invariant
                j <= custom@.len(),
                dv == opt_str_view(default_provider),
                nb == tokened_builtin(builtin@).len(),
                items@.len() == nb + tokened_custom(custom@.take(j as int)).len(),
                forall|k: int|
                    0 <= k < nb ==> builtin_provider_item_spec(
                        #[trigger] items@[k],
                        tokened_builtin(builtin@)[k],
                        dv,
                    ),
                forall|k: int|
                    0 <= k < tokened_custom(custom@.take(j as int)).len()
                        ==> custom_provider_item_spec(
                        #[trigger] items@[nb + k],
                        tokened_custom(custom@.take(j as int))[k],
                        dv,
                    ),
            decreases custom.len() - j,
        {
            assert(custom@.take(j + 1).drop_last() =~= custom@.take(j as int));
            assert(custom@.take(j + 1).last() == custom@[j as int]);
            let ghost before = items@;
            if custom[j].has_token {
                items.push(custom_provider_item(&custom[j], default_provider));
                assert(forall|k: int| 0 <= k < before.len() ==> items@[k] == before[k]);
            }
            j = j + 1;
        }
        assert(custom@.take(custom@.len() as int) =~= custom@);
        if items.len() == 0 {
            return Err(
                str_to_string(
                    "No configured providers found. Run 'chabeau auth' to set up authentication.",
                ),
            );
        }
        let current: Option<&str> = Some(session_context.provider_name.as_str());
        let selected = find_initial(PickerMode::Provider, &items, current);
        let shown = duplicate_items(&items);
        let state = PickerState::new("Pick Provider", shown, selected);
        let session = PickerSession {
            state,
            data: PickerData::Provider(
                ProviderPickerState {
                    search_filter: String::new(),
                    all_items: items,
                    before_provider: Some(
                        (
                            session_context.provider_name.clone(),
                            session_context.provider_display_name.clone(),
                        ),
                    ),
                },
            ),
        };
        self.start_picker_session(session, Some(session_context.provider_name.clone()));
        Ok(())
    }
}

} // verus!
