//! Picker sessions: the list the user picks a theme, model, provider,
//! character, persona or preset from, with filtering, ordering and a title
//! that describes both.

use vstd::prelude::*;
use crate::picker_sort::{ItemOrder, stable_sort, stably_sorted, is_stable_sort};
use crate::text::{ascii_lower_seq, eq_ignore_ascii_case, seq_contains, lowercase, to_lowercase, contains_str, decimal, push_decimal, push_str, str_eq, str_is_empty, str_to_string};
use crate::theme::Theme;
use crate::session::SessionContext;

verus! {

/// Id of the entry that turns character mode off.
pub const TURN_OFF_CHARACTER_ID: &'static str = "__turn_off_character__";

/// Id of the entry that deactivates the persona.
pub const TURN_OFF_PERSONA_ID: &'static str = "[turn_off_persona]";

/// Id of the entry that deactivates the preset.
pub const TURN_OFF_PRESET_ID: &'static str = "[turn_off_preset]";

/// One entry of a picker.
#[derive(Clone, Debug)]
pub struct PickerItem {
    pub id: String,
    pub label: String,
    pub metadata: Option<String>,
    pub inspect_metadata: Option<String>,
    pub sort_key: Option<String>,
}

/// How the entries of a picker are ordered.
#[derive(Clone, Copy, Debug, PartialEq, Eq, Structural)]
pub enum SortMode {
    Date,
    Name,
}

/// The sort mode after `m` in the cycle.
pub open spec fn next_sort_mode(m: SortMode) -> SortMode {
    match m {
        SortMode::Date => SortMode::Name,
        SortMode::Name => SortMode::Date,
    }
}

/// The visible state of a picker: title, entries in display order, the
/// selected position and the sort mode.
#[derive(Clone, Debug)]
pub struct PickerState {
    pub title: String,
    pub items: Vec<PickerItem>,
    pub selected: usize,
    pub sort_mode: SortMode,
}

/// A copy of an optional string.
pub fn copy_opt_string(s: &Option<String>) -> (r: Option<String>)
    ensures
        r == *s,
{
    match s {
        Some(v) => Some(v.clone()),
        None => None,
    }
}

impl PickerItem {
    /// A field-by-field copy.
    pub fn duplicate(&self) -> (r: PickerItem)
        ensures
            r == *self,
    {
        PickerItem {
            id: self.id.clone(),
            label: self.label.clone(),
            metadata: copy_opt_string(&self.metadata),
            inspect_metadata: copy_opt_string(&self.inspect_metadata),
            sort_key: copy_opt_string(&self.sort_key),
        }
    }
}

/// A copy of every entry.
pub fn duplicate_items(items: &Vec<PickerItem>) -> (r: Vec<PickerItem>)
    ensures
        r@ == items@,
{
    let mut out: Vec<PickerItem> = Vec::new();
    let mut i: usize = 0;
    while i < items.len()
        invariant
            i <= items@.len(),
            out@ == items@.take(i as int),
        decreases items.len() - i,
    {
        out.push(items[i].duplicate());
        assert(items@.take(i + 1) =~= items@.take(i as int).push(items@[i as int]));
        i = i + 1;
    }
    assert(items@.take(items@.len() as int) =~= items@);
    out
}

impl PickerState {
    /// A picker showing `items` with entry `selected` highlighted.
    pub fn new(title: &str, items: Vec<PickerItem>, selected: usize) -> (r: PickerState)
        ensures
            r.title@ == title@,
            r.items@ == items@,
            r.selected == selected,
            r.sort_mode == SortMode::Name,
    {
        PickerState { title: str_to_string(title), items, selected, sort_mode: SortMode::Name }
    }

    /// The highlighted entry, if the selection is within the list.
    pub fn get_selected_item(&self) -> (r: Option<&PickerItem>)
        ensures
            r is Some == (self.selected < self.items@.len()),
            r matches Some(it) ==> *it == self.items@[self.selected as int],
    {
        if self.selected < self.items.len() {
            Some(&self.items[self.selected])
        } else {
            None
        }
    }

    /// Id of the highlighted entry.
    pub fn selected_id(&self) -> (r: Option<&String>)
        ensures
            r is Some == (self.selected < self.items@.len()),
            r matches Some(id) ==> *id == self.items@[self.selected as int].id,
    {
        if self.selected < self.items.len() {
            Some(&self.items[self.selected].id)
        } else {
            None
        }
    }

    /// Selects the previous entry, staying on the first.
    pub fn move_up(&mut self)
        ensures
            *final(self) == (PickerState {
                selected: if old(self).selected > 0 {
                    (old(self).selected - 1) as usize
                } else {
                    old(self).selected
                },
                ..*old(self)
            }),
    {
        if self.selected > 0 {
            self.selected = self.selected - 1;
        }
    }

    /// Selects the next entry, staying on the last.
    pub fn move_down(&mut self)
        ensures
            *final(self) == (PickerState {
                selected: if old(self).selected + 1 < old(self).items@.len() {
                    (old(self).selected + 1) as usize
                } else {
                    old(self).selected
                },
                ..*old(self)
            }),
    {
        if self.selected < self.items.len() && self.selected + 1 < self.items.len() {
            self.selected = self.selected + 1;
        }
    }

    /// Selects the first entry.
    pub fn move_to_start(&mut self)
        ensures
            *final(self) == (PickerState { selected: 0, ..*old(self) }),
    {
        self.selected = 0;
    }

    /// Selects the last entry, if there is one.
    pub fn move_to_end(&mut self)
        ensures
            *final(self) == (PickerState {
                selected: if old(self).items@.len() > 0 {
                    (old(self).items@.len() - 1) as usize
                } else {
                    old(self).selected
                },
                ..*old(self)
            }),
    {
        if self.items.len() > 0 {
            self.selected = self.items.len() - 1;
        }
    }

    /// Switches between ordering by date and by name.
    pub fn cycle_sort_mode(&mut self)
        ensures
            *final(self) == (PickerState { sort_mode: next_sort_mode(old(self).sort_mode), ..*old(self) }),
    {
        self.sort_mode = match self.sort_mode {
            SortMode::Date => SortMode::Name,
            SortMode::Name => SortMode::Date,
        };
    }

    /// Inspect text of the highlighted entry.
    pub fn get_selected_inspect_metadata(&self) -> (r: Option<&String>)
        ensures
            r is Some == (self.selected < self.items@.len()
                && self.items@[self.selected as int].inspect_metadata is Some),
            r matches Some(m) ==> self.items@[self.selected as int].inspect_metadata == Some(*m),
    {
        if self.selected < self.items.len() {
            match &self.items[self.selected].inspect_metadata {
                Some(m) => Some(m),
                None => None,
            }
        } else {
            None
        }
    }
}

/// Which kind of thing a picker chooses.
#[derive(Clone, Copy, Debug, PartialEq, Eq, Structural)]
pub enum PickerMode {
    Theme,
    Model,
    Provider,
    Character,
    Persona,
    Preset,
}

pub struct ThemePickerState {
    pub search_filter: String,
    pub all_items: Vec<PickerItem>,
    pub before_theme: Option<Theme>,
    pub before_theme_id: Option<String>,
}

pub struct ModelPickerState {
    pub search_filter: String,
    pub all_items: Vec<PickerItem>,
    pub before_model: Option<String>,
    pub has_dates: bool,
}

pub struct ProviderPickerState {
    pub search_filter: String,
    pub all_items: Vec<PickerItem>,
    pub before_provider: Option<(String, String)>,
}

pub struct CharacterPickerState {
    pub search_filter: String,
    pub all_items: Vec<PickerItem>,
}

pub struct PersonaPickerState {
    pub search_filter: String,
    pub all_items: Vec<PickerItem>,
}

pub struct PresetPickerState {
    pub search_filter: String,
    pub all_items: Vec<PickerItem>,
}

/// Per-kind data of a picker: the filter text, every entry before
/// filtering, and what to restore when the picker is cancelled.
pub enum PickerData {
    Theme(ThemePickerState),
    Model(ModelPickerState),
    Provider(ProviderPickerState),
    Character(CharacterPickerState),
    Persona(PersonaPickerState),
    Preset(PresetPickerState),
}

impl PickerData {
    pub open spec fn mode_of(self) -> PickerMode {
        match self {
            PickerData::Theme(_) => PickerMode::Theme,
            PickerData::Model(_) => PickerMode::Model,
            PickerData::Provider(_) => PickerMode::Provider,
            PickerData::Character(_) => PickerMode::Character,
            PickerData::Persona(_) => PickerMode::Persona,
            PickerData::Preset(_) => PickerMode::Preset,
        }
    }

    /// Entries are ordered by name unless this is a model list with dates.
    pub open spec fn prefers_alphabetical_spec(self) -> bool {
        match self {
            PickerData::Model(state) => !state.has_dates,
            _ => true,
        }
    }

    pub open spec fn search_filter_spec(self) -> Seq<char> {
        match self {
            PickerData::Theme(s) => s.search_filter@,
            PickerData::Model(s) => s.search_filter@,
            PickerData::Provider(s) => s.search_filter@,
            PickerData::Character(s) => s.search_filter@,
            PickerData::Persona(s) => s.search_filter@,
            PickerData::Preset(s) => s.search_filter@,
        }
    }

    pub open spec fn all_items_spec(self) -> Seq<PickerItem> {
        match self {
            PickerData::Theme(s) => s.all_items@,
            PickerData::Model(s) => s.all_items@,
            PickerData::Provider(s) => s.all_items@,
            PickerData::Character(s) => s.all_items@,
            PickerData::Persona(s) => s.all_items@,
            PickerData::Preset(s) => s.all_items@,
        }
    }

    /// The kind of picker.
    pub fn mode(&self) -> (r: PickerMode)
        ensures
            r == self.mode_of(),
    {
        match self {
            PickerData::Theme(_) => PickerMode::Theme,
            PickerData::Model(_) => PickerMode::Model,
            PickerData::Provider(_) => PickerMode::Provider,
            PickerData::Character(_) => PickerMode::Character,
            PickerData::Persona(_) => PickerMode::Persona,
            PickerData::Preset(_) => PickerMode::Preset,
        }
    }

    /// Whether entries are ordered by name by default.
    pub fn prefers_alphabetical(&self) -> (r: bool)
        ensures
            r == self.prefers_alphabetical_spec(),
    {
        match self {
            PickerData::Model(state) => !state.has_dates,
            _ => true,
        }
    }

    /// Entry count above which the title invites the user to type a filter.
    pub fn filter_hint_threshold(&self) -> (r: usize)
        ensures
            r == filter_hint_threshold_for(self.mode_of()),
    {
        match self.mode() {
            PickerMode::Model => 20,
            _ => 10,
        }
    }

    /// Title of the picker before any decoration.
    pub fn base_title(&self) -> (r: &'static str)
        ensures
            r@ == base_title_for(self.mode_of()),
    {
        match self.mode() {
            PickerMode::Model => "Pick Model",
            PickerMode::Provider => "Pick Provider",
            PickerMode::Theme => "Pick Theme",
            PickerMode::Character => "Pick Character",
            PickerMode::Persona => "Pick Persona",
            PickerMode::Preset => "Pick Preset",
        }
    }

    /// The text typed to filter the entries.
    pub fn search_filter(&self) -> (r: &String)
        ensures
            r@ == self.search_filter_spec(),
    {
        match self {
            PickerData::Theme(state) => &state.search_filter,
            PickerData::Model(state) => &state.search_filter,
            PickerData::Provider(state) => &state.search_filter,
            PickerData::Character(state) => &state.search_filter,
            PickerData::Persona(state) => &state.search_filter,
            PickerData::Preset(state) => &state.search_filter,
        }
    }

    /// Every entry, before filtering.
    pub fn all_items(&self) -> (r: &Vec<PickerItem>)
        ensures
            r@ == self.all_items_spec(),
    {
        match self {
            PickerData::Theme(state) => &state.all_items,
            PickerData::Model(state) => &state.all_items,
            PickerData::Provider(state) => &state.all_items,
            PickerData::Character(state) => &state.all_items,
            PickerData::Persona(state) => &state.all_items,
            PickerData::Preset(state) => &state.all_items,
        }
    }
}

pub open spec fn filter_hint_threshold_for(mode: PickerMode) -> usize {
    if mode == PickerMode::Model {
        20
    } else {
        10
    }
}

pub open spec fn base_title_for(mode: PickerMode) -> Seq<char> {
    match mode {
        PickerMode::Model => "Pick Model"@,
        PickerMode::Provider => "Pick Provider"@,
        PickerMode::Theme => "Pick Theme"@,
        PickerMode::Character => "Pick Character"@,
        PickerMode::Persona => "Pick Persona"@,
        PickerMode::Preset => "Pick Preset"@,
    }
}

/// An open picker: what is shown and the data behind it.
pub struct PickerSession {
    pub state: PickerState,
    pub data: PickerData,
}

/// The sort mode a picker opens with.
pub open spec fn default_sort_mode_for(prefers_alpha: bool) -> SortMode {
    if prefers_alpha {
        SortMode::Name
    } else {
        SortMode::Date
    }
}

impl PickerSession {
    /// The kind of picker.
    pub fn mode(&self) -> (r: PickerMode)
        ensures
            r == self.data.mode_of(),
    {
        self.data.mode()
    }

    pub fn prefers_alphabetical(&self) -> (r: bool)
        ensures
            r == self.data.prefers_alphabetical_spec(),
    {
        self.data.prefers_alphabetical()
    }

    /// Name order for lists ordered by name, date order for dated models.
    pub fn default_sort_mode(&self) -> (r: SortMode)
        ensures
            r == default_sort_mode_for(self.data.prefers_alphabetical_spec()),
    {
        if self.prefers_alphabetical() {
            SortMode::Name
        } else {
            SortMode::Date
        }
    }

    pub fn filter_hint_threshold(&self) -> (r: usize)
        ensures
            r == filter_hint_threshold_for(self.data.mode_of()),
    {
        self.data.filter_hint_threshold()
    }

    pub fn base_title(&self) -> (r: &'static str)
        ensures
            r@ == base_title_for(self.data.mode_of()),
    {
        self.data.base_title()
    }

    pub fn search_filter(&self) -> (r: &String)
        ensures
            r@ == self.data.search_filter_spec(),
    {
        self.data.search_filter()
    }

    pub fn all_items(&self) -> (r: &Vec<PickerItem>)
        ensures
            r@ == self.data.all_items_spec(),
    {
        self.data.all_items()
    }
}

// ---------------------------------------------------------------------------
// Ordering, filtering and the title
// ---------------------------------------------------------------------------

/// Whether `id` is one of the "turn off" entries that stay on top.
pub open spec fn is_special_id(id: Seq<char>) -> bool {
    id == TURN_OFF_CHARACTER_ID@ || id == TURN_OFF_PERSONA_ID@ || id == TURN_OFF_PRESET_ID@
}

/// The "turn off" entries of `items`, in order.
pub open spec fn special_part(items: Seq<PickerItem>) -> Seq<PickerItem>
    decreases items.len(),
{
    if items.len() == 0 {
        seq![]
    } else if is_special_id(items.last().id@) {
        special_part(items.drop_last()).push(items.last())
    } else {
        special_part(items.drop_last())
    }
}

/// The other entries of `items`, in order.
pub open spec fn regular_part(items: Seq<PickerItem>) -> Seq<PickerItem>
    decreases items.len(),
{
    if items.len() == 0 {
        seq![]
    } else if is_special_id(items.last().id@) {
        regular_part(items.drop_last())
    } else {
        regular_part(items.drop_last()).push(items.last())
    }
}

/// The order regular entries are sorted by.
pub open spec fn item_order_for(prefers_alpha: bool, mode: SortMode) -> ItemOrder {
    if mode == SortMode::Name {
        ItemOrder::LabelAsc
    } else if prefers_alpha {
        ItemOrder::LabelDesc
    } else {
        ItemOrder::KeyDesc
    }
}

/// `out` is `items` rearranged for display: the "turn off" entries first in
/// their order, then the other entries stably sorted under `o`.
pub open spec fn arranged(o: ItemOrder, items: Seq<PickerItem>, out: Seq<PickerItem>) -> bool {
    exists|sorted: Seq<PickerItem>|
        #![trigger special_part(items) + sorted]
        stably_sorted(o, regular_part(items), sorted) && out == special_part(items) + sorted
}

/// Whether `id` is a "turn off" entry id.
pub fn is_special_item_id(id: &str) -> (r: bool)
    ensures
        r == is_special_id(id@),
{
    str_eq(id, TURN_OFF_CHARACTER_ID) || str_eq(id, TURN_OFF_PERSONA_ID) || str_eq(
        id,
        TURN_OFF_PRESET_ID,
    )
}

/// Puts the "turn off" entries first and sorts the others under `o`.
pub fn arrange_items(o: ItemOrder, items: Vec<PickerItem>) -> (r: Vec<PickerItem>)
    ensures
        arranged(o, items@, r@),
        r@.len() == items@.len(),
{
    let ghost input = items@;
    let mut rest = items;
    let mut special: Vec<PickerItem> = Vec::new();
    let mut regular: Vec<PickerItem> = Vec::new();
    let n = rest.len();
    let mut i: usize = 0;
    assert(input.take(0) =~= Seq::<PickerItem>::empty());
    assert(input.subrange(0, n as int) =~= input);
    while i < n
        invariant
            n == input.len(),
            i <= n,
            rest@ =~= input.subrange(i as int, n as int),
            special@ == special_part(input.take(i as int)),
            regular@ == regular_part(input.take(i as int)),
            special@.len() + regular@.len() == i,
        decreases n - i,
    {
        let x = rest.remove(0);
        assert(rest@ =~= input.subrange(i + 1, n as int));
        let ghost q = input.take(i + 1);
        assert(q.drop_last() =~= input.take(i as int));
        assert(q.last() == x);
        if is_special_item_id(x.id.as_str()) {
            special.push(x);
        } else {
            regular.push(x);
        }
        i = i + 1;
    }
    assert(input.take(n as int) =~= input);
    let sorted = stable_sort(o, regular);
    let ghost sv = sorted@;
    proof {
        let perm = choose|perm: Seq<int>| is_stable_sort(o, regular_part(input), sv, perm);
        assert(sv.len() == regular_part(input).len());
    }
    let mut out = special;
    let mut s2 = sorted;
    out.append(&mut s2);
    assert(out@ =~= special_part(input) + sv);
    out
}

impl PickerController {
    /// Whether the open picker orders by name; `false` with no picker open.
    pub fn prefers_alphabetical(&self) -> (r: bool)
        ensures
            r == (self.picker_session matches Some(s) && s.data.prefers_alphabetical_spec()),
    {
        match &self.picker_session {
            Some(session) => session.prefers_alphabetical(),
            None => false,
        }
    }

    /// Re-orders the open picker: "turn off" entries first, the rest sorted
    /// by the picker's sort mode; a selection past the end goes back to the
    /// first entry.
    pub fn sort_items(&mut self)
        ensures
            sorted_controller(*old(self), *final(self)),
    {
        let prefers_alpha = self.prefers_alphabetical();
        if let Some(session) = self.picker_session.as_mut() {
            let order = match session.state.sort_mode {
                SortMode::Name => ItemOrder::LabelAsc,
                SortMode::Date => if prefers_alpha {
                    ItemOrder::LabelDesc
                } else {
                    ItemOrder::KeyDesc
                },
            };
            let mut items: Vec<PickerItem> = Vec::new();
            std::mem::swap(&mut items, &mut session.state.items);
            let arranged_items = arrange_items(order, items);
            session.state.items = arranged_items;
            if session.state.selected >= session.state.items.len() {
                session.state.selected = 0;
            }
        }
    }
}

/// `after` is `before` with the open picker re-ordered by `sort_items`.
pub open spec fn sorted_controller(before: PickerController, after: PickerController) -> bool {
    &&& after.in_provider_model_transition == before.in_provider_model_transition
    &&& after.provider_model_transition_state == before.provider_model_transition_state
    &&& after.startup_requires_provider == before.startup_requires_provider
    &&& after.startup_requires_model == before.startup_requires_model
    &&& after.startup_multiple_providers_available == before.startup_multiple_providers_available
    &&& match before.picker_session {
        None => after.picker_session is None,
        Some(b) => after.picker_session matches Some(a) && {
            &&& a.data == b.data
            &&& a.state.title == b.state.title
            &&& a.state.sort_mode == b.state.sort_mode
            &&& arranged(
                item_order_for(b.data.prefers_alphabetical_spec(), b.state.sort_mode),
                b.state.items@,
                a.state.items@,
            )
            &&& a.state.selected == if b.state.selected >= b.state.items@.len() {
                0
            } else {
                b.state.selected
            }
        },
    }
}

/// Label of the sort order shown in the title.
pub open spec fn sort_text(prefers_alpha: bool, mode: SortMode) -> Seq<char> {
    if prefers_alpha {
        if mode == SortMode::Name {
            "A-Z"@
        } else {
            "Z-A"@
        }
    } else if mode == SortMode::Date {
        "date"@
    } else {
        "name"@
    }
}

/// The picker title for the given base, entry counts, filter and sort label.
pub open spec fn title_text(
    base: Seq<char>,
    item_count: nat,
    threshold: nat,
    filter: Seq<char>,
    shown: nat,
    sort: Seq<char>,
) -> Seq<char> {
    if filter.len() == 0 {
        if item_count > threshold {
            base + " ("@ + decimal(item_count) + " available - Sort by: "@ + sort
                + " - type to filter)"@
        } else {
            base + " (Sort by: "@ + sort + ")"@
        }
    } else {
        base + " (filter: '"@ + filter + "' - "@ + decimal(shown) + " matches - Sort by: "@ + sort
            + ")"@
    }
}

/// The title of an open picker session.
pub open spec fn session_title(s: PickerSession) -> Seq<char> {
    title_text(
        base_title_for(s.data.mode_of()),
        s.data.all_items_spec().len(),
        filter_hint_threshold_for(s.data.mode_of()) as nat,
        s.data.search_filter_spec(),
        s.state.items@.len(),
        sort_text(s.data.prefers_alphabetical_spec(), s.state.sort_mode),
    )
}

/// `after` is `before` with the title of the open picker recomputed.
pub open spec fn titled_controller(before: PickerController, after: PickerController) -> bool {
    &&& after.in_provider_model_transition == before.in_provider_model_transition
    &&& after.provider_model_transition_state == before.provider_model_transition_state
    &&& after.startup_requires_provider == before.startup_requires_provider
    &&& after.startup_requires_model == before.startup_requires_model
    &&& after.startup_multiple_providers_available == before.startup_multiple_providers_available
    &&& match before.picker_session {
        None => after.picker_session is None,
        Some(b) => after.picker_session matches Some(a) && {
            &&& a.data == b.data
            &&& a.state.items == b.state.items
            &&& a.state.selected == b.state.selected
            &&& a.state.sort_mode == b.state.sort_mode
            &&& a.state.title@ == session_title(b)
        },
    }
}

impl PickerController {
    /// Rewrites the title of the open picker from its kind, entry counts,
    /// filter and sort mode.
    pub fn update_title(&mut self)
        ensures
            titled_controller(*old(self), *final(self)),
    {
        if let Some(session) = self.picker_session.as_mut() {
            let prefers_alpha = session.prefers_alphabetical();
            let base_title = session.base_title();
            let item_count = session.all_items().len();
            let threshold = session.filter_hint_threshold();
            let filter_empty = str_is_empty(session.search_filter().as_str());
            let sort: &str = if prefers_alpha {
                match session.state.sort_mode {
                    SortMode::Name => "A-Z",
                    SortMode::Date => "Z-A",
                }
            } else {
                match session.state.sort_mode {
                    SortMode::Date => "date",
                    SortMode::Name => "name",
                }
            };
            let mut title = str_to_string(base_title);
            if filter_empty {
                if item_count > threshold {
                    push_str(&mut title, " (");
                    push_decimal(&mut title, item_count);
                    push_str(&mut title, " available - Sort by: ");
                    push_str(&mut title, sort);
                    push_str(&mut title, " - type to filter)");
                } else {
                    push_str(&mut title, " (Sort by: ");
                    push_str(&mut title, sort);
                    push_str(&mut title, ")");
                }
            } else {
                let shown = session.state.items.len();
                push_str(&mut title, " (filter: '");
                push_str(&mut title, session.search_filter().as_str());
                push_str(&mut title, "' - ");
                push_decimal(&mut title, shown);
                push_str(&mut title, " matches - Sort by: ");
                push_str(&mut title, sort);
                push_str(&mut title, ")");
            }
            session.state.title = title;
        }
    }
}

/// Owns the open picker and the flags of the provider/model selection flow.
pub struct PickerController {
    pub picker_session: Option<PickerSession>,
    pub in_provider_model_transition: bool,
    pub provider_model_transition_state: Option<(String, String, String, String, String)>,
    pub startup_requires_provider: bool,
    pub startup_requires_model: bool,
    pub startup_multiple_providers_available: bool,
}


/// Whether an entry matches the lowercase search `term`: by id, label or
/// one-line metadata, compared in lowercase; the `special` entry always
/// matches.
pub open spec fn item_matches(it: PickerItem, term: Seq<char>, special: Option<Seq<char>>) -> bool {
    ||| seq_contains(lowercase(it.id@), term)
    ||| seq_contains(lowercase(it.label@), term)
    ||| (it.metadata matches Some(m) && seq_contains(lowercase(m@), term))
    ||| (special matches Some(sid) && it.id@ == sid)
}

/// The entries of `items` that match `term`, in order.
pub open spec fn filter_matching(
    items: Seq<PickerItem>,
    term: Seq<char>,
    special: Option<Seq<char>>,
) -> Seq<PickerItem>
    decreases items.len(),
{
    if items.len() == 0 {
        seq![]
    } else if item_matches(items.last(), term, special) {
        filter_matching(items.drop_last(), term, special).push(items.last())
    } else {
        filter_matching(items.drop_last(), term, special)
    }
}

/// The entries shown for a filter text: all of them for an empty filter,
/// otherwise those matching its lowercase form.
pub open spec fn filtered_items(
    all: Seq<PickerItem>,
    filter: Seq<char>,
    special: Option<Seq<char>>,
) -> Seq<PickerItem> {
    let term = lowercase(filter);
    if term.len() == 0 {
        all
    } else {
        filter_matching(all, term, special)
    }
}

fn item_matches_exec(it: &PickerItem, term: &str, special: Option<&str>) -> (r: bool)
    ensures
        r == item_matches(*it, term@, match special {
            Some(s) => Some(s@),
            None => None,
        }),
{
    let id_lower = to_lowercase(it.id.as_str());
    if contains_str(id_lower.as_str(), term) {
        return true;
    }
    let label_lower = to_lowercase(it.label.as_str());
    if contains_str(label_lower.as_str(), term) {
        return true;
    }
    let meta_match = match &it.metadata {
        Some(m) => {
            let m_lower = to_lowercase(m.as_str());
            contains_str(m_lower.as_str(), term)
        },
        None => false,
    };
    if meta_match {
        return true;
    }
    match special {
        Some(sid) => str_eq(it.id.as_str(), sid),
        None => false,
    }
}

/// The entries shown for `filter` (see `filtered_items`).
pub fn filter_items(all: &Vec<PickerItem>, filter: &str, special: Option<&str>) -> (r: Vec<
    PickerItem,
>)
    ensures
        r@ == filtered_items(all@, filter@, match special {
            Some(s) => Some(s@),
            None => None,
        }),
{
    let ghost sp = match special {
        Some(s) => Some(s@),
        None => None,
    };
    let term = to_lowercase(filter);
    if str_is_empty(term.as_str()) {
        return duplicate_items(all);
    }
    let mut out: Vec<PickerItem> = Vec::new();
    let mut i: usize = 0;
    while i < all.len()
        invariant
            i <= all@.len(),
            term@ == lowercase(filter@),
            out@ == filter_matching(all@.take(i as int), term@, sp),
            sp == match special {
                Some(s) => Some(s@),
                None => None::<Seq<char>>,
            },
        decreases all.len() - i,
    {
        let ghost q = all@.take(i + 1);
        assert(q.drop_last() =~= all@.take(i as int));
        assert(q.last() == all@[i as int]);
        if item_matches_exec(&all[i], term.as_str(), special) {
            out.push(all[i].duplicate());
        }
        i = i + 1;
    }
    assert(all@.take(all@.len() as int) =~= all@);
    out
}

/// `after` is `before` with the open picker of kind `expected` re-filtered:
/// its entries are the filtered ones arranged for display, the selection is
/// reset when it falls past the end, and the title is recomputed. With no
/// picker of that kind open, nothing changes.
pub open spec fn filtered_controller(
    before: PickerController,
    after: PickerController,
    expected: PickerMode,
    special: Option<Seq<char>>,
) -> bool {
    match before.picker_session {
        Some(b) => if b.data.mode_of() == expected {
            let shown = filtered_items(b.data.all_items_spec(), b.data.search_filter_spec(), special);
            &&& after.in_provider_model_transition == before.in_provider_model_transition
            &&& after.provider_model_transition_state == before.provider_model_transition_state
            &&& after.startup_requires_provider == before.startup_requires_provider
            &&& after.startup_requires_model == before.startup_requires_model
            &&& after.startup_multiple_providers_available
                == before.startup_multiple_providers_available
            &&& after.picker_session matches Some(a) && {
                &&& a.data == b.data
                &&& a.state.sort_mode == b.state.sort_mode
                &&& arranged(
                    item_order_for(b.data.prefers_alphabetical_spec(), b.state.sort_mode),
                    shown,
                    a.state.items@,
                )
                &&& a.state.selected == if b.state.selected >= shown.len() {
                    0
                } else {
                    b.state.selected
                }
                &&& a.state.title@ == session_title(a)
            }
        } else {
            after == before
        },
        None => after == before,
    }
}

impl PickerController {
    fn filter_session_items(&mut self, expected_mode: PickerMode, special_id: Option<&str>)
        ensures
            filtered_controller(*old(self), *final(self), expected_mode, match special_id {
                Some(s) => Some(s@),
                None => None,
            }),
    {
        match self.picker_session.as_mut() {
            None => {
                return ;
            },
            Some(session) => {
                if session.mode() != expected_mode {
                    return ;
                }
                let shown = filter_items(session.all_items(), session.search_filter().as_str(), special_id);
                session.state.items = shown;
                if session.state.selected >= session.state.items.len() {
                    session.state.selected = 0;
                }
            },
        }
        self.sort_items();
        self.update_title();
    }

    /// Re-filters an open model picker.
    pub fn filter_models(&mut self)
        ensures
            filtered_controller(*old(self), *final(self), PickerMode::Model, None),
    {
        self.filter_session_items(PickerMode::Model, None);
    }

    /// Re-filters an open theme picker.
    pub fn filter_themes(&mut self)
        ensures
            filtered_controller(*old(self), *final(self), PickerMode::Theme, None),
    {
        self.filter_session_items(PickerMode::Theme, None);
    }

    /// Re-filters an open provider picker.
    pub fn filter_providers(&mut self)
        ensures
            filtered_controller(*old(self), *final(self), PickerMode::Provider, None),
    {
        self.filter_session_items(PickerMode::Provider, None);
    }

    /// Re-filters an open character picker, always keeping the entry that
    /// turns character mode off.
    pub fn filter_characters(&mut self)
        ensures
            filtered_controller(
                *old(self),
                *final(self),
                PickerMode::Character,
                Some(TURN_OFF_CHARACTER_ID@),
            ),
    {
        self.filter_session_items(PickerMode::Character, Some(TURN_OFF_CHARACTER_ID));
    }

    /// Re-filters an open persona picker, always keeping the entry that
    /// deactivates the persona.
    pub fn filter_personas(&mut self)
        ensures
            filtered_controller(
                *old(self),
                *final(self),
                PickerMode::Persona,
                Some(TURN_OFF_PERSONA_ID@),
            ),
    {
        self.filter_session_items(PickerMode::Persona, Some(TURN_OFF_PERSONA_ID));
    }

    /// Re-filters an open preset picker, always keeping the entry that
    /// deactivates the preset.
    pub fn filter_presets(&mut self)
        ensures
            filtered_controller(
                *old(self),
                *final(self),
                PickerMode::Preset,
                Some(TURN_OFF_PRESET_ID@),
            ),
    {
        self.filter_session_items(PickerMode::Preset, Some(TURN_OFF_PRESET_ID));
    }
}


// ---------------------------------------------------------------------------
// Opening, closing and cancelling
// ---------------------------------------------------------------------------

/// Whether entry id `id` is the preferred one: compared ignoring ASCII case
/// in a theme picker, exactly otherwise.
pub open spec fn id_is_preferred(mode: PickerMode, id: Seq<char>, preferred: Seq<char>) -> bool {
    if mode == PickerMode::Theme {
        ascii_lower_seq(id) == ascii_lower_seq(preferred)
    } else {
        id == preferred
    }
}

/// Position of the first entry whose id is the preferred one.
pub open spec fn first_preferred(
    mode: PickerMode,
    items: Seq<PickerItem>,
    preferred: Seq<char>,
) -> Option<int> {
    if exists|k: int| 0 <= k < items.len() && id_is_preferred(mode, #[trigger] items[k].id@, preferred) {
        Some(
            choose|k: int|
                0 <= k < items.len() && id_is_preferred(mode, #[trigger] items[k].id@, preferred)
                    && forall|m: int| 0 <= m < k ==> !id_is_preferred(mode, #[trigger] items[m].id@, preferred),
        )
    } else {
        None
    }
}

pub fn find_preferred(mode: PickerMode, items: &Vec<PickerItem>, preferred: &str) -> (r: Option<usize>)
    ensures
        match r {
            Some(k) => k < items@.len() && id_is_preferred(mode, items@[k as int].id@, preferred@)
                && forall|m: int| 0 <= m < k ==> !id_is_preferred(mode, #[trigger] items@[m].id@, preferred@),
            None => forall|m: int| 0 <= m < items@.len() ==> !id_is_preferred(mode, #[trigger] items@[m].id@, preferred@),
        },
{
    let mut i: usize = 0;
    while i < items.len()
        invariant
            i <= items@.len(),
            forall|m: int| 0 <= m < i ==> !id_is_preferred(mode, #[trigger] items@[m].id@, preferred@),
        decreases items.len() - i,
    {
        let hit = match mode {
            PickerMode::Theme => eq_ignore_ascii_case(items[i].id.as_str(), preferred),
            _ => str_eq(items[i].id.as_str(), preferred),
        };
        if hit {
            return Some(i);
        }
        i = i + 1;
    }
    None
}

pub proof fn lemma_first_preferred(mode: PickerMode, items: Seq<PickerItem>, preferred: Seq<char>, k: int)
    requires
        0 <= k < items.len(),
        id_is_preferred(mode, items[k].id@, preferred),
        forall|m: int| 0 <= m < k ==> !id_is_preferred(mode, #[trigger] items[m].id@, preferred),
    ensures
        first_preferred(mode, items, preferred) == Some(k),
{
    let c = choose|j: int|
        0 <= j < items.len() && id_is_preferred(mode, #[trigger] items[j].id@, preferred)
            && forall|m: int| 0 <= m < j ==> !id_is_preferred(mode, #[trigger] items[m].id@, preferred);
    if c < k {
        assert(!id_is_preferred(mode, items[c].id@, preferred));
    } else if c > k {
        assert(!id_is_preferred(mode, items[k].id@, preferred));
    }
}

/// `after` has `session` open as `start_picker_session` leaves it: default
/// sort mode, entries arranged, title set, and the preferred entry selected
/// when there is one; the transition flags are those of `before`.
pub open spec fn started(
    before: PickerController,
    session: PickerSession,
    preferred: Option<Seq<char>>,
    after: PickerController,
) -> bool {
    started_with(
        before,
        session.data,
        session.state.items@,
        session.state.selected,
        preferred,
        after,
    )
}

/// `started` for a session given by its data, entries and selection.
pub open spec fn started_with(
    before: PickerController,
    data: PickerData,
    items: Seq<PickerItem>,
    selected: usize,
    preferred: Option<Seq<char>>,
    after: PickerController,
) -> bool {
    let mode = data.mode_of();
    let sort_mode = default_sort_mode_for(data.prefers_alphabetical_spec());
    let kept = if selected >= items.len() {
        0
    } else {
        selected
    };
    &&& after.in_provider_model_transition == before.in_provider_model_transition
    &&& after.provider_model_transition_state == before.provider_model_transition_state
    &&& after.startup_requires_provider == before.startup_requires_provider
    &&& after.startup_requires_model == before.startup_requires_model
    &&& after.startup_multiple_providers_available == before.startup_multiple_providers_available
    &&& after.picker_session matches Some(a) && {
        &&& a.data == data
        &&& a.state.sort_mode == sort_mode
        &&& arranged(item_order_for(data.prefers_alphabetical_spec(), sort_mode), items, a.state.items@)
        &&& a.state.title@ == session_title(a)
        &&& a.state.selected == match preferred {
            Some(p) => match first_preferred(mode, a.state.items@, p) {
                Some(k) => k as usize,
                None => kept,
            },
            None => kept,
        }
    }
}

/// `c` with its open picker replaced.
pub open spec fn with_picker_session(c: PickerController, s: Option<PickerSession>) -> PickerController {
    PickerController { picker_session: s, ..c }
}

/// `s` with its visible state replaced.
pub open spec fn with_state(s: PickerSession, st: PickerState) -> PickerSession {
    PickerSession { state: st, ..s }
}

/// `c` with the provider-then-model flow ended.
pub open spec fn transition_cleared(c: PickerController) -> PickerController {
    PickerController {
        in_provider_model_transition: false,
        provider_model_transition_state: None,
        ..c
    }
}

/// `s` with the provider, display name, model, key and base URL saved in
/// `saved` put back, if any were saved.
pub open spec fn restored_session(
    s: SessionContext,
    saved: Option<(String, String, String, String, String)>,
) -> SessionContext {
    match saved {
        Some((p, d, m, k, u)) => SessionContext {
            provider_name: p,
            provider_display_name: d,
            model: m,
            api_key: k,
            base_url: u,
            ..s
        },
        None => s,
    }
}

impl PickerController {
    /// No picker open and no selection flow under way.
    pub fn new() -> (r: Self)
        ensures
            r.picker_session is None,
            !r.in_provider_model_transition,
            r.provider_model_transition_state is None,
            !r.startup_requires_provider,
            !r.startup_requires_model,
            !r.startup_multiple_providers_available,
    {
        PickerController {
            picker_session: None,
            in_provider_model_transition: false,
            provider_model_transition_state: None,
            startup_requires_provider: false,
            startup_requires_model: false,
            startup_multiple_providers_available: false,
        }
    }

    /// The open picker.
    pub fn session(&self) -> (r: Option<&PickerSession>)
        ensures
            r is Some == self.picker_session is Some,
            r matches Some(s) ==> *s == self.picker_session->0,
    {
        self.picker_session.as_ref()
    }

    /// The open picker, for editing in place.
    pub fn session_mut(&mut self) -> (r: Option<&mut PickerSession>)
        ensures
            r is Some == old(self).picker_session is Some,
            r matches Some(s) ==> *s == old(self).picker_session->0 && *final(self)
                == with_picker_session(*old(self), Some(*final(s))),
            r is None ==> *final(self) == *old(self),
    {
        self.picker_session.as_mut()
    }

    /// The kind of the open picker.
    pub fn current_mode(&self) -> (r: Option<PickerMode>)
        ensures
            r == match self.picker_session {
                Some(s) => Some(s.data.mode_of()),
                None => None,
            },
    {
        match &self.picker_session {
            Some(s) => Some(s.mode()),
            None => None,
        }
    }

    /// The visible state of the open picker.
    pub fn state(&self) -> (r: Option<&PickerState>)
        ensures
            r is Some == self.picker_session is Some,
            r matches Some(st) ==> *st == self.picker_session->0.state,
    {
        match &self.picker_session {
            Some(s) => Some(&s.state),
            None => None,
        }
    }

    /// The visible state of the open picker, for editing in place.
    pub fn state_mut(&mut self) -> (r: Option<&mut PickerState>)
        ensures
            r is Some == old(self).picker_session is Some,
            r matches Some(st) ==> *st == old(self).picker_session->0.state && *final(self)
                == with_picker_session(
                *old(self),
                Some(with_state(old(self).picker_session->0, *final(st))),
            ),
            r is None ==> *final(self) == *old(self),
    {
        match self.picker_session.as_mut() {
            Some(s) => Some(&mut s.state),
            None => None,
        }
    }

    /// Closes the picker; the selection flow flags stay.
    pub fn close(&mut self)
        ensures
            *final(self) == with_picker_session(*old(self), None),
    {
        self.picker_session = None;
    }

    /// Opens `session`: sort mode reset to the picker's default, entries
    /// arranged, title set, and `preferred_selection` selected when an entry
    /// has that id.
    pub fn start_picker_session(
        &mut self,
        session: PickerSession,
        preferred_selection: Option<String>,
    )
        ensures
            started(*old(self), session, match preferred_selection {
                Some(p) => Some(p@),
                None => None,
            }, *final(self)),
    {
        let mut session = session;
        let mode = session.mode();
        session.state.sort_mode = session.default_sort_mode();
        let ghost s2 = session;
        self.picker_session = Some(session);
        self.sort_items();
        self.update_title();
        if let Some(preferred) = preferred_selection {
            if let Some(s) = self.picker_session.as_mut() {
                if let Some(idx) = find_preferred(mode, &s.state.items, preferred.as_str()) {
                    s.state.selected = idx;
                    proof {
                        lemma_first_preferred(mode, s.state.items@, preferred@, idx as int);
                    }
                } else {
                    proof {
                        if first_preferred(mode, s.state.items@, preferred@) is Some {
                            let k = choose|k: int| 0 <= k < s.state.items@.len() && id_is_preferred(mode, #[trigger] s.state.items@[k].id@, preferred@);
                            assert(!id_is_preferred(mode, s.state.items@[k].id@, preferred@));
                        }
                    }
                }
            }
        }
    }

    /// Ends the provider-then-model flow without restoring anything.
    pub fn complete_provider_model_transition(&mut self)
        ensures
            *final(self) == transition_cleared(*old(self)),
    {
        self.in_provider_model_transition = false;
        self.provider_model_transition_state = None;
    }

    /// Cancels the provider-then-model flow: the provider, model, key and
    /// base URL saved when it began are restored to `session`.
    pub fn revert_provider_model_transition(&mut self, session: &mut SessionContext)
        ensures
            *final(self) == transition_cleared(*old(self)),
            *final(session) == restored_session(*old(session), old(self).provider_model_transition_state),
    {
        let saved = self.provider_model_transition_state.take();
        if let Some((prev_provider_name, prev_provider_display, prev_model, prev_api_key, prev_base_url)) = saved {
            session.provider_name = prev_provider_name;
            session.provider_display_name = prev_provider_display;
            session.model = prev_model;
            session.api_key = prev_api_key;
            session.base_url = prev_base_url;
        }
        self.in_provider_model_transition = false;
        self.provider_model_transition_state = None;
    }
}


/// `after` is `before` with the saved model and filter data of an open
/// model picker cleared; any other picker is unchanged.
pub open spec fn model_data_cleared(before: Option<PickerSession>, after: Option<PickerSession>) -> bool {
    match before {
        Some(ps) => match ps.data {
            PickerData::Model(_) => after matches Some(a) && a.state == ps.state && match a.data {
                PickerData::Model(m) => m.search_filter@.len() == 0 && m.all_items@.len() == 0
                    && m.before_model is None && !m.has_dates,
                _ => false,
            },
            _ => after == before,
        },
        None => after is None,
    }
}

/// `after` is `before` with the saved provider and filter data of an open
/// provider picker cleared; any other picker is unchanged.
pub open spec fn provider_data_cleared(before: Option<PickerSession>, after: Option<PickerSession>) -> bool {
    match before {
        Some(ps) => match ps.data {
            PickerData::Provider(_) => after matches Some(a) && a.state == ps.state && match a.data {
                PickerData::Provider(p) => p.search_filter@.len() == 0 && p.all_items@.len() == 0
                    && p.before_provider is None,
                _ => false,
            },
            _ => after == before,
        },
        None => after is None,
    }
}

/// The model saved when the open model picker started.
pub open spec fn saved_model(c: PickerController) -> Option<String> {
    match c.picker_session {
        Some(ps) => match ps.data {
            PickerData::Model(m) => m.before_model,
            _ => None,
        },
        None => None,
    }
}

/// The provider saved when the open provider picker started.
pub open spec fn saved_provider(c: PickerController) -> Option<(String, String)> {
    match c.picker_session {
        Some(ps) => match ps.data {
            PickerData::Provider(p) => p.before_provider,
            _ => None,
        },
        None => None,
    }
}

impl PickerController {
    /// Cancels a model picker: the model saved when it opened is put back in
    /// `session`, the picker's filter data is cleared, and a provider-then-
    /// model flow under way is reverted as well.
    pub fn revert_model_preview(&mut self, session: &mut SessionContext)
        ensures
            model_data_cleared(old(self).picker_session, final(self).picker_session),
            final(self).startup_requires_provider == old(self).startup_requires_provider,
            final(self).startup_requires_model == old(self).startup_requires_model,
            final(self).startup_multiple_providers_available
                == old(self).startup_multiple_providers_available,
            old(self).in_provider_model_transition ==> {
                &&& !final(self).in_provider_model_transition
                &&& final(self).provider_model_transition_state is None
                &&& *final(session) == restored_session(
                    model_reverted(*old(session), saved_model(*old(self))),
                    old(self).provider_model_transition_state,
                )
            },
            !old(self).in_provider_model_transition ==> {
                &&& !final(self).in_provider_model_transition
                &&& final(self).provider_model_transition_state
                    == old(self).provider_model_transition_state
                &&& *final(session) == model_reverted(*old(session), saved_model(*old(self)))
            },
    {
        let mut previous_model: Option<String> = None;
        if let Some(ps) = self.picker_session.as_mut() {
            if let PickerData::Model(state) = &mut ps.data {
                previous_model = copy_opt_string(&state.before_model);
                state.before_model = None;
                state.search_filter = String::new();
                state.all_items = Vec::new();
                state.has_dates = false;
            }
        }
        if let Some(prev) = previous_model {
            session.model = prev;
        }
        if self.in_provider_model_transition {
            self.revert_provider_model_transition(session);
        }
    }

    /// Cancels a provider picker: the provider saved when it opened is put
    /// back in `session` and the picker's filter data is cleared.
    pub fn revert_provider_preview(&mut self, session: &mut SessionContext)
        ensures
            provider_data_cleared(old(self).picker_session, final(self).picker_session),
            final(self).in_provider_model_transition == old(self).in_provider_model_transition,
            final(self).provider_model_transition_state == old(self).provider_model_transition_state,
            final(self).startup_requires_provider == old(self).startup_requires_provider,
            final(self).startup_requires_model == old(self).startup_requires_model,
            final(self).startup_multiple_providers_available
                == old(self).startup_multiple_providers_available,
            *final(session) == provider_reverted(*old(session), saved_provider(*old(self))),
    {
        let mut previous: Option<(String, String)> = None;
        if let Some(ps) = self.picker_session.as_mut() {
            if let PickerData::Provider(state) = &mut ps.data {
                previous = match &state.before_provider {
                    Some((a, b)) => Some((a.clone(), b.clone())),
                    None => None,
                };
                state.before_provider = None;
                state.search_filter = String::new();
                state.all_items = Vec::new();
            }
        }
        if let Some((prev_name, prev_display)) = previous {
            session.provider_name = prev_name;
            session.provider_display_name = prev_display;
        }
    }
}

/// `s` with its model replaced by the saved one, if any.
pub open spec fn model_reverted(s: SessionContext, saved: Option<String>) -> SessionContext {
    match saved {
        Some(m) => SessionContext { model: m, ..s },
        None => s,
    }
}

/// `s` with its provider replaced by the saved one, if any.
pub open spec fn provider_reverted(s: SessionContext, saved: Option<(String, String)>) -> SessionContext {
    match saved {
        Some((p, d)) => SessionContext { provider_name: p, provider_display_name: d, ..s },
        None => s,
    }
}

} // verus!
