//! What the picker keys do: typing and erasing filter text, moving the
//! selection, changing the order, inspecting an entry, cancelling, and the
//! requests and messages around applying or unsetting a default.
//!
//! Each step takes the picker state and the event and gives the new state
//! and what is left for the application to do (saving to the configuration,
//! loading cards, switching the theme on screen).

use vstd::prelude::*;
use crate::picker::{
    PickerController, PickerData, PickerMode, PickerSession, PickerState, SortMode,
    TURN_OFF_CHARACTER_ID, TURN_OFF_PERSONA_ID, TURN_OFF_PRESET_ID, arranged, base_title_for,
    filtered_controller, filtered_items, item_order_for, next_sort_mode, session_title,
    with_picker_session, with_state,
};
use crate::session::{CharacterCard, SessionContext};
use crate::actions::PickerAction as A;
use crate::text::{
    chars_of, concat2, concat3, ends_with_char, is_control, is_control_char, is_blank, push_str,
    str_eq, str_to_string, string_from_chars, trim_end, trim_end_seq, trim_seq, all_ws,
    lemma_trim_empty_iff_all_ws,
};
use crate::theme::Theme;

verus! {

// ---------------------------------------------------------------------------
// Filter text
// ---------------------------------------------------------------------------

/// The entry that filtering always keeps in a picker of kind `mode`.
pub open spec fn kept_entry(mode: PickerMode) -> Option<Seq<char>> {
    match mode {
        PickerMode::Character => Some(TURN_OFF_CHARACTER_ID@),
        PickerMode::Persona => Some(TURN_OFF_PERSONA_ID@),
        PickerMode::Preset => Some(TURN_OFF_PRESET_ID@),
        _ => None,
    }
}

/// `b` is `a` with only its filter text changed.
pub open spec fn same_but_filter(a: PickerData, b: PickerData) -> bool {
    match (a, b) {
        (PickerData::Theme(x), PickerData::Theme(y)) => y == (crate::picker::ThemePickerState {
            search_filter: y.search_filter,
            ..x
        }),
        (PickerData::Model(x), PickerData::Model(y)) => y == (crate::picker::ModelPickerState {
            search_filter: y.search_filter,
            ..x
        }),
        (PickerData::Provider(x), PickerData::Provider(y)) => y == (
        crate::picker::ProviderPickerState { search_filter: y.search_filter, ..x }),
        (PickerData::Character(x), PickerData::Character(y)) => y == (
        crate::picker::CharacterPickerState { search_filter: y.search_filter, ..x }),
        (PickerData::Persona(x), PickerData::Persona(y)) => y == (
        crate::picker::PersonaPickerState { search_filter: y.search_filter, ..x }),
        (PickerData::Preset(x), PickerData::Preset(y)) => y == (crate::picker::PresetPickerState {
            search_filter: y.search_filter,
            ..x
        }),
        _ => false,
    }
}

/// `after` is `before` with the open picker's filter text set to `filter`
/// and its entries filtered again: the matching entries arranged for
/// display, the selection reset when it falls past the end, and the title
/// recomputed.
pub open spec fn refiltered(before: PickerController, after: PickerController, filter: Seq<char>) -> bool {
    before.picker_session matches Some(b) && {
        let shown = filtered_items(b.data.all_items_spec(), filter, kept_entry(b.data.mode_of()));
        &&& after.in_provider_model_transition == before.in_provider_model_transition
        &&& after.provider_model_transition_state == before.provider_model_transition_state
        &&& after.startup_requires_provider == before.startup_requires_provider
        &&& after.startup_requires_model == before.startup_requires_model
        &&& after.startup_multiple_providers_available
            == before.startup_multiple_providers_available
        &&& after.picker_session matches Some(a) && {
            &&& same_but_filter(b.data, a.data)
            &&& a.data.search_filter_spec() == filter
            &&& a.state.sort_mode == b.state.sort_mode
            &&& arranged(
                item_order_for(b.data.prefers_alphabetical_spec(), b.state.sort_mode),
                shown,
                a.state.items@,
            )
            &&& a.state.selected == if b.state.selected >= shown.len() {
                0
            } else {
                b.state.selected
            }
            &&& a.state.title@ == session_title(a)
        }
    }
}

fn set_filter(data: &mut PickerData, filter: String)
    ensures
        same_but_filter(*old(data), *final(data)),
        final(data).search_filter_spec() == filter@,
{
    match data {
        PickerData::Theme(s) => s.search_filter = filter,
        PickerData::Model(s) => s.search_filter = filter,
        PickerData::Provider(s) => s.search_filter = filter,
        PickerData::Character(s) => s.search_filter = filter,
        PickerData::Persona(s) => s.search_filter = filter,
        PickerData::Preset(s) => s.search_filter = filter,
    }
}

impl PickerController {
    fn refilter(&mut self, mode: PickerMode)
        ensures
            filtered_controller(*old(self), *final(self), mode, kept_entry(mode)),
    {
        match mode {
            PickerMode::Model => self.filter_models(),
            PickerMode::Theme => self.filter_themes(),
            PickerMode::Provider => self.filter_providers(),
            PickerMode::Character => self.filter_characters(),
            PickerMode::Persona => self.filter_personas(),
            PickerMode::Preset => self.filter_presets(),
        }
    }

    fn replace_filter(&mut self, filter: String)
        requires
            old(self).picker_session is Some,
        ensures
            refiltered(*old(self), *final(self), filter@),
    {
        let mode = self.picker_session.as_ref().unwrap().mode();
        match self.picker_session.as_mut() {
            Some(s) => set_filter(&mut s.data, filter),
            None => {},
        }
        self.refilter(mode);
    }

    /// A typed character: appended to the filter text, which is applied
    /// again. Ignored while an entry is inspected, for control characters,
    /// and with no picker open.
    pub fn type_filter_char(&mut self, inspect_open: bool, ch: char)
        ensures
            if inspect_open || is_control_char(ch) || old(self).picker_session is None {
                *final(self) == *old(self)
            } else {
                refiltered(
                    *old(self),
                    *final(self),
                    old(self).picker_session->0.data.search_filter_spec().push(ch),
                )
            },
    {
        if inspect_open || is_control(ch) {
            return ;
        }
        match &self.picker_session {
            None => {
                return ;
            },
            Some(s) => {
                let mut f = s.search_filter().clone();
                crate::text::push_char(&mut f, ch);
                self.replace_filter(f);
            },
        }
    }

    /// Backspace: the last character of the filter text removed and the
    /// filter applied again. Ignored while an entry is inspected, with an
    /// empty filter, and with no picker open.
    pub fn erase_filter_char(&mut self, inspect_open: bool)
        ensures
            if inspect_open || old(self).picker_session is None
                || old(self).picker_session->0.data.search_filter_spec().len() == 0 {
                *final(self) == *old(self)
            } else {
                refiltered(
                    *old(self),
                    *final(self),
                    old(self).picker_session->0.data.search_filter_spec().drop_last(),
                )
            },
    {
        if inspect_open {
            return ;
        }
        match &self.picker_session {
            None => {
                return ;
            },
            Some(s) => {
                let v = chars_of(s.search_filter().as_str());
                if v.len() == 0 {
                    return ;
                }
                let mut f = String::new();
                crate::text::push_chars_range(&mut f, &v, 0, v.len() - 1);
                assert(f@ =~= v@.drop_last());
                self.replace_filter(f);
            },
        }
    }
}

// ---------------------------------------------------------------------------
// Order and selection
// ---------------------------------------------------------------------------

/// `after` is `before` with the open picker switched to the next sort mode,
/// its entries arranged for it and its title recomputed.
pub open spec fn resorted(before: PickerController, after: PickerController) -> bool {
    &&& after.in_provider_model_transition == before.in_provider_model_transition
    &&& after.provider_model_transition_state == before.provider_model_transition_state
    &&& after.startup_requires_provider == before.startup_requires_provider
    &&& after.startup_requires_model == before.startup_requires_model
    &&& after.startup_multiple_providers_available == before.startup_multiple_providers_available
    &&& match before.picker_session {
        None => after.picker_session is None,
        Some(b) => after.picker_session matches Some(a) && {
            let m = next_sort_mode(b.state.sort_mode);
            &&& a.data == b.data
            &&& a.state.sort_mode == m
            &&& arranged(
                item_order_for(b.data.prefers_alphabetical_spec(), m),
                b.state.items@,
                a.state.items@,
            )
            &&& a.state.selected == if b.state.selected >= b.state.items@.len() {
                0
            } else {
                b.state.selected
            }
            &&& a.state.title@ == session_title(a)
        },
    }
}

/// A selection key.
#[derive(Clone, Copy, Debug, PartialEq, Eq, Structural)]
pub enum PickerMovement {
    Up,
    Down,
    Start,
    End,
}

/// The selected position after `movement`: one up or down within the list,
/// the first entry, or the last one.
pub open spec fn moved_selection(st: PickerState, movement: PickerMovement) -> usize {
    match movement {
        PickerMovement::Up => if st.selected > 0 {
            (st.selected - 1) as usize
        } else {
            st.selected
        },
        PickerMovement::Down => if st.selected + 1 < st.items@.len() {
            (st.selected + 1) as usize
        } else {
            st.selected
        },
        PickerMovement::Start => 0,
        PickerMovement::End => if st.items@.len() > 0 {
            (st.items@.len() - 1) as usize
        } else {
            st.selected
        },
    }
}

pub open spec fn selection_moved(c0: PickerController, c1: PickerController, inspect_open: bool, movement: PickerMovement, r: Option<String>) -> bool {
    &&& (if inspect_open || c0.picker_session is None {
        c1 == c0 && r is None
    } else {
        let b = c0.picker_session->0;
        let st = PickerState { selected: moved_selection(b.state, movement), ..b.state };
        &&& c1 == with_picker_session(c0, Some(with_state(b, st)))
        &&& r == if b.data.mode_of() == PickerMode::Theme && st.selected < st.items@.len() {
            Some(st.items@[st.selected as int].id)
        } else {
            None::<String>
        }
    })
}

impl PickerController {
    /// Switches the open picker to the next sort mode. Ignored while an
    /// entry is inspected.
    pub fn cycle_sort(&mut self, inspect_open: bool)
        ensures
            inspect_open ==> *final(self) == *old(self),
            !inspect_open ==> resorted(*old(self), *final(self)),
    {
        if inspect_open {
            return ;
        }
        match self.picker_session.as_mut() {
            Some(s) => s.state.cycle_sort_mode(),
            None => {},
        }
        self.sort_items();
        self.update_title();
    }

    /// Moves the selection. In a theme picker the id of the newly selected
    /// theme comes back, to be previewed. Ignored while an entry is
    /// inspected.
    pub fn move_selection(&mut self, inspect_open: bool, movement: PickerMovement) -> (r: Option<
        String,
    >)
        ensures
            selection_moved(*old(self), *final(self), inspect_open, movement, r),
    {
        if inspect_open {
            return None;
        }
        match self.picker_session.as_mut() {
            None => None,
            Some(s) => {
                match movement {
                    PickerMovement::Up => s.state.move_up(),
                    PickerMovement::Down => s.state.move_down(),
                    PickerMovement::Start => s.state.move_to_start(),
                    PickerMovement::End => s.state.move_to_end(),
                }
                if s.mode() == PickerMode::Theme {
                    match s.state.selected_id() {
                        Some(id) => Some(id.clone()),
                        None => None,
                    }
                } else {
                    None
                }
            },
        }
    }
}

// ---------------------------------------------------------------------------
// Inspecting an entry
// ---------------------------------------------------------------------------

/// An entry's label without its default marker: a trailing `*` dropped,
/// then trailing whitespace.
pub open spec fn unstarred_label(label: Seq<char>) -> Seq<char> {
    if label.len() > 0 && label.last() == '*' {
        trim_end_seq(label.drop_last())
    } else {
        label
    }
}

/// What inspecting the selected entry does: the view to open (title and
/// text) and the status line.
pub struct PickerInspectPlan {
    pub open: Option<(String, String)>,
    pub status: Option<String>,
}

/// The status when the selected entry has nothing to show.
pub open spec fn nothing_to_inspect() -> Seq<char> {
    "Nothing to inspect for this item"@
}

/// The status while an entry is inspected.
pub open spec fn inspecting_status() -> Seq<char> {
    "Inspecting selection (Esc=Back to picker)"@
}

fn unstar(label: &str) -> (r: String)
    ensures
        r@ == unstarred_label(label@),
{
    if ends_with_char(label, '*') {
        let v = chars_of(label);
        let mut s = String::new();
        crate::text::push_chars_range(&mut s, &v, 0, v.len() - 1);
        assert(s@ =~= label@.drop_last());
        trim_end(s.as_str())
    } else {
        str_to_string(label)
    }
}

pub open spec fn inspect_planned(c: PickerController, r: PickerInspectPlan) -> bool {
    &&& (match c.picker_session {
        Some(s) if s.state.selected < s.state.items@.len() => {
            let it = s.state.items@[s.state.selected as int];
            match it.inspect_metadata {
                Some(text) if trim_seq(text@).len() > 0 => (r.open matches Some(o) && o.0@
                    == base_title_for(s.data.mode_of()) + " \u{2013} "@ + unstarred_label(
                    it.label@,
                ) && o.1 == text) && (r.status matches Some(m) && m@ == inspecting_status()),
                _ => r.open is None && (r.status matches Some(m) && m@ == nothing_to_inspect()),
            }
        },
        _ => r.open is None && r.status is None,
    })
}

impl PickerController {
    /// Inspecting the selected entry: its inspect text under the title
    /// "<picker> – <label>", or a status saying there is nothing to show
    /// when the text is missing or blank. Nothing happens without a
    /// selected entry.
    pub fn inspect_selection(&self) -> (r: PickerInspectPlan)
        ensures
            inspect_planned(*self, r),
    {
        let s = match &self.picker_session {
            Some(s) => s,
            None => {
                return PickerInspectPlan { open: None, status: None };
            },
        };
        let it = match s.state.get_selected_item() {
            Some(it) => it,
            None => {
                return PickerInspectPlan { open: None, status: None };
            },
        };
        let label = unstar(it.label.as_str());
        let title = concat3(s.base_title(), " \u{2013} ", label.as_str());
        match &it.inspect_metadata {
            Some(text) => {
                if is_blank(text.as_str()) {
                    PickerInspectPlan {
                        open: None,
                        status: Some(str_to_string("Nothing to inspect for this item")),
                    }
                } else {
                    PickerInspectPlan {
                        open: Some((title, text.clone())),
                        status: Some(str_to_string("Inspecting selection (Esc=Back to picker)")),
                    }
                }
            },
            None => PickerInspectPlan {
                open: None,
                status: Some(str_to_string("Nothing to inspect for this item")),
            },
        }
    }
}

// ---------------------------------------------------------------------------
// Cancelling
// ---------------------------------------------------------------------------

/// What is left for the application after Esc in a picker.
pub struct EscapePlan {
    /// Leave the inspect view (the picker stays open).
    pub close_inspect: bool,
    /// Put this theme back on screen.
    pub restore_theme: Option<Theme>,
    /// Open the provider picker.
    pub open_provider_picker: bool,
    /// Quit the application.
    pub request_exit: bool,
    /// Status line to show.
    pub status: Option<String>,
}

/// The status after leaving the inspect view.
pub open spec fn returned_to_picker() -> Seq<char> {
    "Returned to picker (Ctrl+O=Inspect again)"@
}

/// The controller after a theme preview is reverted: the theme picker's
/// saved theme, saved id, filter text and entries are cleared.
pub open spec fn theme_preview_cleared(before: PickerController, after: PickerController) -> bool {
    match before.picker_session {
        Some(b) => match b.data {
            PickerData::Theme(t) => after.picker_session matches Some(a) && a.data matches PickerData::Theme(u) && {
                &&& a.state == b.state
                &&& u.before_theme is None
                &&& u.before_theme_id is None
                &&& u.search_filter@.len() == 0
                &&& u.all_items@.len() == 0
                &&& after == with_picker_session(before, after.picker_session)
            },
            _ => after == before,
        },
        None => after == before,
    }
}

/// The theme the theme picker saved when it opened.
pub open spec fn saved_theme(c: PickerController) -> Option<Theme> {
    match c.picker_session {
        Some(s) => match s.data {
            PickerData::Theme(t) => t.before_theme,
            _ => None,
        },
        None => None,
    }
}

impl PickerController {
    /// Takes back the theme saved when the theme picker opened and clears
    /// what the picker kept; the theme comes back to be shown again.
    pub fn revert_theme_preview(&mut self) -> (r: Option<Theme>)
        ensures
            r == saved_theme(*old(self)),
            theme_preview_cleared(*old(self), *final(self)),
    {
        match self.picker_session.as_mut() {
            Some(s) => match &mut s.data {
                PickerData::Theme(t) => {
                    let prev = t.before_theme.take();
                    t.before_theme_id = None;
                    t.search_filter = String::new();
                    t.all_items = Vec::new();
                    prev
                },
                _ => None,
            },
            None => None,
        }
    }
}

/// Nothing for the application to do.
pub open spec fn no_followup(p: EscapePlan) -> bool {
    &&& !p.close_inspect
    &&& p.restore_theme is None
    &&& !p.open_provider_picker
    &&& !p.request_exit
}

fn empty_plan() -> (r: EscapePlan)
    ensures
        no_followup(r),
        r.status is None,
{
    EscapePlan {
        close_inspect: false,
        restore_theme: None,
        open_provider_picker: false,
        request_exit: false,
        status: None,
    }
}

/// The session after the provider is unset for a fresh pick at startup.
pub open spec fn provider_unset(before: SessionContext, after: SessionContext) -> bool {
    after == (SessionContext {
        provider_name: after.provider_name,
        provider_display_name: after.provider_display_name,
        api_key: after.api_key,
        base_url: after.base_url,
        ..before
    }) && after.provider_name@.len() == 0 && after.provider_display_name@
        == "(no provider selected)"@ && after.api_key@.len() == 0 && after.base_url@.len() == 0
}

pub open spec fn escaped(c0: PickerController, c1: PickerController, s0: SessionContext, s1: SessionContext, inspect_open: bool, r: EscapePlan) -> bool {
    &&& (inspect_open ==> r.close_inspect && r.restore_theme is None && !r.open_provider_picker
        && !r.request_exit && (r.status matches Some(m) && m@ == returned_to_picker())
        && c1 == c0 && s1 == s0)
    &&& (!inspect_open ==> !r.close_inspect)
    &&& (!inspect_open && c0.picker_session is None ==> no_followup(r) && r.status is None
        && c1 == c0 && s1 == s0)
    &&& (!inspect_open && c0.picker_session is Some ==> c1.picker_session is None)
    &&& (!inspect_open && (c0.picker_session matches Some(s) && s.data.mode_of()
        == PickerMode::Theme) ==> r.restore_theme == saved_theme(c0)
        && !r.open_provider_picker && !r.request_exit && r.status is None
        && s1 == s0
        && c1.in_provider_model_transition == c0.in_provider_model_transition
        && c1.provider_model_transition_state
        == c0.provider_model_transition_state && c1.startup_requires_model
        == c0.startup_requires_model && c1.startup_requires_provider
        == c0.startup_requires_provider)
    &&& (!inspect_open && (c0.picker_session matches Some(s) && s.data.mode_of()
        == PickerMode::Model) ==> r.restore_theme is None && if c0.startup_requires_model {
        if c0.startup_multiple_providers_available {
            &&& r.open_provider_picker && !r.request_exit && r.status is None
            &&& !c1.startup_requires_model && c1.startup_requires_provider
            &&& provider_unset(s0, s1)
        } else {
            &&& !r.open_provider_picker && r.request_exit && r.status is None
            &&& s1 == s0
        }
    } else {
        &&& !r.open_provider_picker && !r.request_exit
        &&& (r.status is Some <==> c0.in_provider_model_transition)
        &&& (r.status matches Some(m) ==> m@ == "Selection cancelled"@)
        &&& s1 == if c0.in_provider_model_transition {
            crate::picker::restored_session(
                crate::picker::model_reverted(s0, crate::picker::saved_model(c0)),
                c0.provider_model_transition_state,
            )
        } else {
            crate::picker::model_reverted(s0, crate::picker::saved_model(c0))
        }
        &&& !c1.in_provider_model_transition
        &&& c1.provider_model_transition_state == if c0.in_provider_model_transition {
            None
        } else {
            c0.provider_model_transition_state
        }
    })
    &&& (!inspect_open && (c0.picker_session matches Some(s) && s.data.mode_of()
        == PickerMode::Provider) ==> r.restore_theme is None && !r.open_provider_picker
        && r.status is None && if c0.startup_requires_provider {
        r.request_exit && s1 == s0
    } else {
        !r.request_exit && s1 == crate::picker::provider_reverted(
            s0,
            crate::picker::saved_provider(c0),
        )
    })
    &&& (!inspect_open && (c0.picker_session matches Some(s) && (s.data.mode_of()
        == PickerMode::Character || s.data.mode_of() == PickerMode::Persona
        || s.data.mode_of() == PickerMode::Preset)) ==> no_followup(r) && r.status is None
        && s1 == s0 && c1 == with_picker_session(c0, None))
}

impl PickerController {
    /// Esc in a picker. From the inspect view it goes back to the picker.
    /// Otherwise the picker closes, and what it previewed is undone: the
    /// theme (given back to be shown), the model (and a provider switch
    /// under way, with "Selection cancelled"), the provider. A model or
    /// provider that startup still needs is not skipped: without a model the
    /// provider is asked again when there are several, else the application
    /// quits; without a provider it quits.
    pub fn escape(&mut self, session: &mut SessionContext, inspect_open: bool) -> (r: EscapePlan)
        ensures
            escaped(*old(self), *final(self), *old(session), *final(session), inspect_open, r),
    {
        if inspect_open {
            return EscapePlan {
                close_inspect: true,
                restore_theme: None,
                open_provider_picker: false,
                request_exit: false,
                status: Some(str_to_string("Returned to picker (Ctrl+O=Inspect again)")),
            };
        }
        let mode = match self.current_mode() {
            Some(m) => m,
            None => {
                return empty_plan();
            },
        };
        let mut plan = empty_plan();
        match mode {
            PickerMode::Theme => {
                plan.restore_theme = self.revert_theme_preview();
                self.close();
            },
            PickerMode::Model => {
                if self.startup_requires_model {
                    self.close();
                    if self.startup_multiple_providers_available {
                        self.startup_requires_model = false;
                        self.startup_requires_provider = true;
                        session.provider_name = String::new();
                        session.provider_display_name = str_to_string("(no provider selected)");
                        session.api_key = String::new();
                        session.base_url = String::new();
                        plan.open_provider_picker = true;
                    } else {
                        plan.request_exit = true;
                    }
                } else {
                    let was_transitioning = self.in_provider_model_transition;
                    self.revert_model_preview(session);
                    if was_transitioning {
                        plan.status = Some(str_to_string("Selection cancelled"));
                    }
                    self.close();
                }
            },
            PickerMode::Provider => {
                if self.startup_requires_provider {
                    self.close();
                    plan.request_exit = true;
                } else {
                    self.revert_provider_preview(session);
                    self.close();
                }
            },
            _ => {
                self.close();
            },
        }
        plan
    }
}

// ---------------------------------------------------------------------------
// Applying the selection
// ---------------------------------------------------------------------------

/// What Enter in a picker asks the application to apply.
pub enum SelectionRequest {
    /// No picker is open.
    NoPicker,
    /// No entry is selected: the picker just closes.
    CloseOnly,
    Theme { id: String, persistent: bool },
    Model { id: String, persist_to_config: bool },
    Provider { id: String, persistent: bool },
    TurnOffCharacter,
    Character { name: String, set_as_default: bool },
    TurnOffPersona,
    Persona { id: String, set_as_default: bool },
    TurnOffPreset,
    Preset { id: String, set_as_default: bool },
}

/// The request for applying the selection of an open picker. A model is
/// saved to the configuration only when asked and the session was not
/// started from the environment alone.
pub open spec fn selection_request_spec(
    c: PickerController,
    persistent: bool,
    startup_env_only: bool,
    r: SelectionRequest,
) -> bool {
    match c.picker_session {
        None => r is NoPicker,
        Some(s) => if s.state.selected >= s.state.items@.len() {
            r is CloseOnly
        } else {
            let id = s.state.items@[s.state.selected as int].id;
            match s.data.mode_of() {
                PickerMode::Theme => r == SelectionRequest::Theme { id, persistent },
                PickerMode::Model => r == SelectionRequest::Model {
                    id,
                    persist_to_config: persistent && !startup_env_only,
                },
                PickerMode::Provider => r == SelectionRequest::Provider { id, persistent },
                PickerMode::Character => if id@ == TURN_OFF_CHARACTER_ID@ {
                    r is TurnOffCharacter
                } else {
                    r == SelectionRequest::Character { name: id, set_as_default: persistent }
                },
                PickerMode::Persona => if id@ == TURN_OFF_PERSONA_ID@ {
                    r is TurnOffPersona
                } else {
                    r == SelectionRequest::Persona { id, set_as_default: persistent }
                },
                PickerMode::Preset => if id@ == TURN_OFF_PRESET_ID@ {
                    r is TurnOffPreset
                } else {
                    r == SelectionRequest::Preset { id, set_as_default: persistent }
                },
            }
        },
    }
}

impl PickerController {
    /// What applying the selected entry means (see `SelectionRequest`).
    pub fn selection_request(&self, persistent: bool, startup_env_only: bool) -> (r:
        SelectionRequest)
        ensures
            selection_request_spec(*self, persistent, startup_env_only, r),
    {
        let s = match &self.picker_session {
            Some(s) => s,
            None => {
                return SelectionRequest::NoPicker;
            },
        };
        let id = match s.state.selected_id() {
            Some(id) => id.clone(),
            None => {
                return SelectionRequest::CloseOnly;
            },
        };
        match s.mode() {
            PickerMode::Theme => SelectionRequest::Theme { id, persistent },
            PickerMode::Model => SelectionRequest::Model {
                id,
                persist_to_config: persistent && !startup_env_only,
            },
            PickerMode::Provider => SelectionRequest::Provider { id, persistent },
            PickerMode::Character => if str_eq(id.as_str(), TURN_OFF_CHARACTER_ID) {
                SelectionRequest::TurnOffCharacter
            } else {
                SelectionRequest::Character { name: id, set_as_default: persistent }
            },
            PickerMode::Persona => if str_eq(id.as_str(), TURN_OFF_PERSONA_ID) {
                SelectionRequest::TurnOffPersona
            } else {
                SelectionRequest::Persona { id, set_as_default: persistent }
            },
            PickerMode::Preset => if str_eq(id.as_str(), TURN_OFF_PRESET_ID) {
                SelectionRequest::TurnOffPreset
            } else {
                SelectionRequest::Preset { id, set_as_default: persistent }
            },
        }
    }
}

/// The words after a value set from a picker.
pub open spec fn status_suffix(is_persistent: bool) -> Seq<char> {
    if is_persistent {
        " (saved to config)"@
    } else {
        " (session only)"@
    }
}

/// " (saved to config)" or " (session only)".
pub fn picker_status_suffix(is_persistent: bool) -> (r: &'static str)
    ensures
        r@ == status_suffix(is_persistent),
{
    if is_persistent {
        " (saved to config)"
    } else {
        " (session only)"
    }
}

/// `prefix + value + suffix` on success, `error_prefix + message` on failure.
pub open spec fn outcome_status(
    result: Result<(), String>,
    prefix: Seq<char>,
    value: Seq<char>,
    suffix: Seq<char>,
    error_prefix: Seq<char>,
) -> Seq<char> {
    match result {
        Ok(()) => prefix + value + suffix,
        Err(e) => error_prefix + e@,
    }
}

fn outcome_text(
    result: &Result<(), String>,
    prefix: &str,
    value: &str,
    suffix: &str,
    error_prefix: &str,
) -> (r: String)
    ensures
        r@ == outcome_status(*result, prefix@, value@, suffix@, error_prefix@),
{
    match result {
        Ok(()) => {
            let mut s = concat3(prefix, value, suffix);
            s
        },
        Err(e) => concat2(error_prefix, e.as_str()),
    }
}

/// The status after applying a theme.
pub fn theme_applied_status(id: &str, persistent: bool, result: &Result<(), String>) -> (r: String)
    ensures
        r@ == outcome_status(*result, "Theme set: "@, id@, status_suffix(persistent), "Theme error: "@),
{
    outcome_text(result, "Theme set: ", id, picker_status_suffix(persistent), "Theme error: ")
}

/// The status after applying a model.
pub fn model_applied_status(id: &str, persist_to_config: bool, result: &Result<(), String>) -> (r:
    String)
    ensures
        r@ == outcome_status(
            *result,
            "Model set: "@,
            id@,
            status_suffix(persist_to_config),
            "Model error: "@,
        ),
{
    outcome_text(result, "Model set: ", id, picker_status_suffix(persist_to_config), "Model error: ")
}

/// The status after applying a provider.
pub fn provider_applied_status(id: &str, persistent: bool, result: &Result<(), String>) -> (r:
    String)
    ensures
        r@ == outcome_status(
            *result,
            "Provider set: "@,
            id@,
            status_suffix(persistent),
            "Provider error: "@,
        ),
{
    outcome_text(result, "Provider set: ", id, picker_status_suffix(persistent), "Provider error: ")
}

/// The status when a model picker cannot be prepared.
pub fn model_picker_error_status(err: &str) -> (r: String)
    ensures
        r@ == "Model picker error: "@ + err@,
{
    concat2("Model picker error: ", err)
}

/// The status when the theme picker cannot be opened again.
pub fn theme_picker_error_status(err: &str) -> (r: String)
    ensures
        r@ == "Theme picker error: "@ + err@,
{
    concat2("Theme picker error: ", err)
}

/// What is left after a model or provider selection.
pub struct SelectionFollowup {
    pub status: String,
    /// Load the default character, persona and preset of the new model.
    pub load_defaults: bool,
    /// Ask for the model list of the new provider.
    pub request_model_picker: bool,
}

impl PickerController {
    /// Closes the picker after a model was applied with `result`. On success
    /// a provider switch under way is complete, startup no longer needs a
    /// model, and the defaults for the model are to be loaded.
    pub fn finish_model_selection(
        &mut self,
        id: &str,
        persist_to_config: bool,
        result: &Result<(), String>,
    ) -> (r: SelectionFollowup)
        ensures
            r.status@ == outcome_status(
                *result,
                "Model set: "@,
                id@,
                status_suffix(persist_to_config),
                "Model error: "@,
            ),
            r.load_defaults == result is Ok,
            !r.request_model_picker,
            final(self).picker_session is None,
            final(self).startup_requires_provider == old(self).startup_requires_provider,
            final(self).startup_multiple_providers_available
                == old(self).startup_multiple_providers_available,
            result is Ok ==> !final(self).in_provider_model_transition
                && final(self).provider_model_transition_state == (if old(
                self,
            ).in_provider_model_transition {
                None
            } else {
                old(self).provider_model_transition_state
            }) && !final(self).startup_requires_model,
            result is Err ==> final(self).in_provider_model_transition
                == old(self).in_provider_model_transition
                && final(self).provider_model_transition_state
                == old(self).provider_model_transition_state && final(self).startup_requires_model
                == old(self).startup_requires_model,
    {
        let status = model_applied_status(id, persist_to_config, result);
        let ok = result.is_ok();
        if ok {
            if self.in_provider_model_transition {
                self.complete_provider_model_transition();
            }
            if self.startup_requires_model {
                self.startup_requires_model = false;
            }
        }
        self.close();
        SelectionFollowup { status, load_defaults: ok, request_model_picker: false }
    }

    /// Closes the picker after a provider was applied with `result`. On
    /// success either the model list of the new provider is to be requested
    /// (startup then needs a model rather than a provider) or the defaults
    /// for the current model are to be loaded.
    pub fn finish_provider_selection(
        &mut self,
        id: &str,
        persistent: bool,
        result: &Result<(), String>,
        open_model_picker: bool,
    ) -> (r: SelectionFollowup)
        ensures
            r.status@ == outcome_status(
                *result,
                "Provider set: "@,
                id@,
                status_suffix(persistent),
                "Provider error: "@,
            ),
            r.request_model_picker == (result is Ok && open_model_picker),
            r.load_defaults == (result is Ok && !open_model_picker),
            final(self).picker_session is None,
            final(self).in_provider_model_transition == old(self).in_provider_model_transition,
            final(self).provider_model_transition_state == old(self).provider_model_transition_state,
            final(self).startup_multiple_providers_available
                == old(self).startup_multiple_providers_available,
            if result is Ok && open_model_picker && old(self).startup_requires_provider {
                !final(self).startup_requires_provider && final(self).startup_requires_model
            } else {
                final(self).startup_requires_provider == old(self).startup_requires_provider
                    && final(self).startup_requires_model == old(self).startup_requires_model
            },
    {
        let status = provider_applied_status(id, persistent, result);
        let ok = result.is_ok();
        self.close();
        if ok && open_model_picker && self.startup_requires_provider {
            self.startup_requires_provider = false;
            self.startup_requires_model = true;
        }
        SelectionFollowup {
            status,
            load_defaults: ok && !open_model_picker,
            request_model_picker: ok && open_model_picker,
        }
    }
}

/// What became of saving a pick as the default for the current provider and
/// model.
pub enum DefaultSave {
    /// Not asked for.
    NotRequested,
    Saved,
    /// The configuration could not be read.
    LoadFailed(String),
    /// The configuration could not be written.
    SaveFailed(String),
}

/// The words after a picked name about saving it as the default.
pub open spec fn default_save_suffix(save: DefaultSave, provider: Seq<char>, model: Seq<char>) -> Seq<char> {
    match save {
        DefaultSave::NotRequested => seq![],
        DefaultSave::Saved => " (saved as default for "@ + provider + ":"@ + model + ")"@,
        DefaultSave::LoadFailed(e) => " (failed to load config: "@ + e@ + ")"@,
        DefaultSave::SaveFailed(e) => " (failed to save as default: "@ + e@ + ")"@,
    }
}

fn default_save_text(save: &DefaultSave, provider: &str, model: &str) -> (r: String)
    ensures
        r@ == default_save_suffix(*save, provider@, model@),
{
    match save {
        DefaultSave::NotRequested => String::new(),
        DefaultSave::Saved => {
            let mut s = concat3(" (saved as default for ", provider, ":");
            push_str(&mut s, model);
            push_str(&mut s, ")");
            s
        },
        DefaultSave::LoadFailed(e) => concat3(" (failed to load config: ", e.as_str(), ")"),
        DefaultSave::SaveFailed(e) => concat3(" (failed to save as default: ", e.as_str(), ")"),
    }
}

/// The status after a character was set.
pub fn character_set_status(name: &str, save: &DefaultSave, provider: &str, model: &str) -> (r:
    String)
    ensures
        r@ == "Character set: "@ + name@ + default_save_suffix(*save, provider@, model@),
{
    let suffix = default_save_text(save, provider, model);
    concat3("Character set: ", name, suffix.as_str())
}

/// The status after a persona was activated.
pub fn persona_activated_status(name: &str, save: &DefaultSave, provider: &str, model: &str) -> (r:
    String)
    ensures
        r@ == "Persona activated: "@ + name@ + default_save_suffix(*save, provider@, model@),
{
    let suffix = default_save_text(save, provider, model);
    concat3("Persona activated: ", name, suffix.as_str())
}

/// The status after a preset was activated.
pub fn preset_activated_status(id: &str, save: &DefaultSave, provider: &str, model: &str) -> (r:
    String)
    ensures
        r@ == "Preset activated: "@ + id@ + default_save_suffix(*save, provider@, model@),
{
    let suffix = default_save_text(save, provider, model);
    concat3("Preset activated: ", id, suffix.as_str())
}

impl PickerController {
    /// The "turn off character mode" entry: the character is dropped and the
    /// picker closes.
    pub fn turn_off_character(&mut self, session: &mut SessionContext) -> (r: String)
        ensures
            r@ == "Character mode disabled"@,
            final(session).active_character is None,
            crate::session::same_but_character(*old(session), *final(session)),
            *final(self) == with_picker_session(*old(self), None),
    {
        session.clear_character();
        self.close();
        str_to_string("Character mode disabled")
    }

    /// Finishes picking a character. `resolved` is the card found for the
    /// picked name, or why none was; `save` is what became of saving it as
    /// the default for the current provider and model. A card becomes the
    /// active character (see `set_character`; the caller then shows its
    /// greeting if one is due), and the picker closes either way. The status
    /// comes back.
    pub fn finish_character_selection(
        &mut self,
        session: &mut SessionContext,
        resolved: Result<CharacterCard, String>,
        save: &DefaultSave,
    ) -> (r: String)
        ensures
            *final(self) == with_picker_session(*old(self), None),
            match resolved {
                Ok(card) => {
                    &&& crate::session::same_but_character(*old(session), *final(session))
                    &&& final(session).active_character == Some(card)
                    &&& final(session).character_greeting_shown == (
                    old(session).character_greeting_shown && (old(
                        session,
                    ).active_character matches Some(c) && c.data.name@ == card.data.name@))
                    &&& r@ == "Character set: "@ + card.data.name@ + default_save_suffix(
                        *save,
                        old(session).provider_name@,
                        old(session).model@,
                    )
                },
                Err(e) => *final(session) == *old(session) && r@ == "Error loading character: "@
                    + e@,
            },
    {
        let r = match resolved {
            Ok(card) => {
                let name = card.data.name.clone();
                let provider = session.provider_name.clone();
                let model = session.model.clone();
                session.set_character(card);
                character_set_status(name.as_str(), save, provider.as_str(), model.as_str())
            },
            Err(e) => concat2("Error loading character: ", e.as_str()),
        };
        self.close();
        r
    }

    /// Finishes picking a persona. `activated` is the display name of the
    /// persona made active, or why it could not be; `save` is what became of
    /// saving it as the default for the provider and model of `session`. The
    /// picker closes either way; the status comes back.
    pub fn finish_persona_selection(
        &mut self,
        session: &SessionContext,
        activated: Result<String, String>,
        save: &DefaultSave,
    ) -> (r: String)
        ensures
            *final(self) == with_picker_session(*old(self), None),
            r@ == match activated {
                Ok(name) => "Persona activated: "@ + name@ + default_save_suffix(
                    *save,
                    session.provider_name@,
                    session.model@,
                ),
                Err(e) => "Error activating persona: "@ + e@,
            },
    {
        let r = match &activated {
            Ok(name) => persona_activated_status(
                name.as_str(),
                save,
                session.provider_name.as_str(),
                session.model.as_str(),
            ),
            Err(e) => concat2("Error activating persona: ", e.as_str()),
        };
        self.close();
        r
    }

    /// Finishes picking the preset `id`. `activated` says whether it could
    /// be made active; `save` is what became of saving it as the default for
    /// the provider and model of `session`. The picker closes either way;
    /// the status comes back.
    pub fn finish_preset_selection(
        &mut self,
        session: &SessionContext,
        id: &str,
        activated: &Result<(), String>,
        save: &DefaultSave,
    ) -> (r: String)
        ensures
            *final(self) == with_picker_session(*old(self), None),
            r@ == match activated {
                Ok(()) => "Preset activated: "@ + id@ + default_save_suffix(
                    *save,
                    session.provider_name@,
                    session.model@,
                ),
                Err(e) => "Preset error: "@ + e@,
            },
    {
        let r = match activated {
            Ok(()) => preset_activated_status(
                id,
                save,
                session.provider_name.as_str(),
                session.model.as_str(),
            ),
            Err(e) => concat2("Preset error: ", e.as_str()),
        };
        self.close();
        r
    }

    /// The "turn off persona" entry: the picker closes; the caller drops
    /// the active persona.
    pub fn turn_off_persona(&mut self) -> (r: String)
        ensures
            r@ == "Persona deactivated"@,
            *final(self) == with_picker_session(*old(self), None),
    {
        self.close();
        str_to_string("Persona deactivated")
    }

    /// The "turn off preset" entry: the picker closes; the caller drops the
    /// active preset.
    pub fn turn_off_preset(&mut self) -> (r: String)
        ensures
            r@ == "Preset deactivated"@,
            *final(self) == with_picker_session(*old(self), None),
    {
        self.close();
        str_to_string("Preset deactivated")
    }
}

// ---------------------------------------------------------------------------
// Unsetting a default
// ---------------------------------------------------------------------------

/// What the Del key in a picker asks for.
pub enum UnsetDefaultRequest {
    /// No entry is selected: nothing happens.
    Nothing,
    /// The selected entry is not the default.
    NotDefault,
    /// Remove the default of this kind of picker; `id` is the entry's id.
    Unset { mode: PickerMode, id: String },
}

/// The status when Del is pressed on an entry that is not the default.
pub open spec fn not_default_status() -> Seq<char> {
    "Del key only works on default items (marked with *)"@
}

pub open spec fn unset_requested(c: PickerController, r: UnsetDefaultRequest) -> bool {
    &&& (match c.picker_session {
        Some(s) if s.state.selected < s.state.items@.len() => {
            let it = s.state.items@[s.state.selected as int];
            if it.label@.len() > 0 && it.label@.last() == '*' {
                r == UnsetDefaultRequest::Unset { mode: s.data.mode_of(), id: it.id }
            } else {
                r is NotDefault
            }
        },
        _ => r is Nothing,
    })
}

impl PickerController {
    /// Del in a picker: only the starred (default) entry can be unset.
    pub fn unset_default_request(&self) -> (r: UnsetDefaultRequest)
        ensures
            unset_requested(*self, r),
    {
        let s = match &self.picker_session {
            Some(s) => s,
            None => {
                return UnsetDefaultRequest::Nothing;
            },
        };
        match s.state.get_selected_item() {
            None => UnsetDefaultRequest::Nothing,
            Some(it) => if ends_with_char(it.label.as_str(), '*') {
                UnsetDefaultRequest::Unset { mode: s.mode(), id: it.id.clone() }
            } else {
                UnsetDefaultRequest::NotDefault
            },
        }
    }
}

/// The status after removing a default; on success the picker is to be
/// opened again.
pub fn unset_default_status(id: &str, result: &Result<(), String>) -> (r: String)
    ensures
        r@ == outcome_status(*result, "Removed default: "@, id@, seq![], "Error removing default: "@),
{
    proof {
        reveal_strlit("");
    }
    outcome_text(result, "Removed default: ", id, "", "Error removing default: ")
}

/// The status for Del on an entry that is not the default.
pub fn not_default_message() -> (r: String)
    ensures
        r@ == not_default_status(),
{
    str_to_string("Del key only works on default items (marked with *)")
}


// ---------------------------------------------------------------------------
// Taking a picker action
// ---------------------------------------------------------------------------

/// What a picker action leaves for the application to do.
pub enum PickerOutcome {
    /// The picker itself changed (selection, order or filter); for a theme
    /// picker, the theme to preview.
    Updated { preview_theme: Option<String> },
    /// Esc: what to undo or open next (see `escaped`).
    Escaped(EscapePlan),
    /// Enter: the selection to apply (see `selection_request_spec`).
    Apply(SelectionRequest),
    /// Del: the default to remove (see `unset_requested`).
    UnsetDefault(UnsetDefaultRequest),
    /// Inspecting the selected entry (see `inspect_planned`).
    Inspect(PickerInspectPlan),
    /// A model listing arrived (see `models_populated`); the status to show
    /// when it could not be used.
    ModelsShown { status: Option<String> },
    /// The status to show.
    Status(String),
    /// Scrolling the inspect view, which the caller holds.
    ForCaller,
}

/// Typing `ch` into the filter (see `type_filter_char`).
pub open spec fn char_typed(c0: PickerController, c1: PickerController, inspect_open: bool, ch: char) -> bool {
    if inspect_open || is_control_char(ch) || c0.picker_session is None {
        c1 == c0
    } else {
        refiltered(c0, c1, c0.picker_session->0.data.search_filter_spec().push(ch))
    }
}

/// Erasing the last filter character (see `erase_filter_char`).
pub open spec fn char_erased(c0: PickerController, c1: PickerController, inspect_open: bool) -> bool {
    if inspect_open || c0.picker_session is None || c0.picker_session->0.data.search_filter_spec().len()
        == 0 {
        c1 == c0
    } else {
        refiltered(c0, c1, c0.picker_session->0.data.search_filter_spec().drop_last())
    }
}

/// What taking `action` does to the picker and the session, and what it
/// leaves to the application (`inspect_open`: an entry is being inspected;
/// `startup_env_only`: the provider came from the environment alone).
pub open spec fn picker_action_taken(
    c0: PickerController,
    c1: PickerController,
    s0: SessionContext,
    s1: SessionContext,
    action: crate::actions::PickerAction,
    inspect_open: bool,
    startup_env_only: bool,
    r: PickerOutcome,
) -> bool {
    match action {
        A::PickerEscape => r matches PickerOutcome::Escaped(plan) && escaped(c0, c1, s0, s1, inspect_open, plan),
        A::PickerMoveUp => r matches PickerOutcome::Updated { preview_theme } && selection_moved(
            c0,
            c1,
            inspect_open,
            PickerMovement::Up,
            preview_theme,
        ) && s1 == s0,
        A::PickerMoveDown => r matches PickerOutcome::Updated { preview_theme } && selection_moved(
            c0,
            c1,
            inspect_open,
            PickerMovement::Down,
            preview_theme,
        ) && s1 == s0,
        A::PickerMoveToStart => r matches PickerOutcome::Updated { preview_theme } && selection_moved(
            c0,
            c1,
            inspect_open,
            PickerMovement::Start,
            preview_theme,
        ) && s1 == s0,
        A::PickerMoveToEnd => r matches PickerOutcome::Updated { preview_theme } && selection_moved(
            c0,
            c1,
            inspect_open,
            PickerMovement::End,
            preview_theme,
        ) && s1 == s0,
        A::PickerCycleSortMode => s1 == s0 && r == (PickerOutcome::Updated { preview_theme: None })
            && (inspect_open ==> c1 == c0) && (!inspect_open ==> resorted(c0, c1)),
        A::PickerApplySelection { persistent } => r matches PickerOutcome::Apply(q)
            && selection_request_spec(c0, persistent, startup_env_only, q) && s1 == s0 && c1 == c0,
        A::PickerUnsetDefault => r matches PickerOutcome::UnsetDefault(q) && unset_requested(c0, q)
            && s1 == s0 && c1 == c0,
        A::PickerBackspace => s1 == s0 && r == (PickerOutcome::Updated { preview_theme: None })
            && char_erased(c0, c1, inspect_open),
        A::PickerTypeChar { ch } => s1 == s0 && r == (PickerOutcome::Updated { preview_theme: None })
            && char_typed(c0, c1, inspect_open, ch),
        A::PickerInspectSelection => r matches PickerOutcome::Inspect(p) && inspect_planned(c0, p)
            && s1 == s0 && c1 == c0,
        A::PickerInspectScroll { .. } => s1 == s0 && c1 == c0 && r is ForCaller,
        A::PickerInspectScrollToStart => s1 == s0 && c1 == c0 && r is ForCaller,
        A::PickerInspectScrollToEnd => s1 == s0 && c1 == c0 && r is ForCaller,
        A::ModelPickerLoaded { default_model_for_provider, models_response } => s1 == s0 && exists|
            res: Result<(), String>,
        |
            #![trigger crate::model_picker::models_populated(c0, c1, s0, default_model_for_provider, models_response, res)]
            crate::model_picker::models_populated(
                c0,
                c1,
                s0,
                default_model_for_provider,
                models_response,
                res,
            ) && (r matches PickerOutcome::ModelsShown { status } && match res {
                Ok(()) => status is None,
                Err(e) => status matches Some(m) && m@ == "Model picker error: "@ + e@,
            }),
        A::ModelPickerLoadFailed { error } => (r matches PickerOutcome::Status(m) && m@
            == "Model picker error: "@ + error@) && s1 == s0 && c1 == c0,
    }
}

impl PickerController {
    /// Takes an action of the picker overlay (see `picker_action_taken`).
    pub fn apply_picker_action(
        &mut self,
        session: &mut SessionContext,
        action: crate::actions::PickerAction,
        inspect_open: bool,
        startup_env_only: bool,
    ) -> (r: PickerOutcome)
        ensures
            picker_action_taken(
                *old(self),
                *final(self),
                *old(session),
                *final(session),
                action,
                inspect_open,
                startup_env_only,
                r,
            ),
    {
            match action {
            A::PickerEscape => PickerOutcome::Escaped(self.escape(session, inspect_open)),
            A::PickerMoveUp => PickerOutcome::Updated {
                preview_theme: self.move_selection(inspect_open, PickerMovement::Up),
            },
            A::PickerMoveDown => PickerOutcome::Updated {
                preview_theme: self.move_selection(inspect_open, PickerMovement::Down),
            },
            A::PickerMoveToStart => PickerOutcome::Updated {
                preview_theme: self.move_selection(inspect_open, PickerMovement::Start),
            },
            A::PickerMoveToEnd => PickerOutcome::Updated {
                preview_theme: self.move_selection(inspect_open, PickerMovement::End),
            },
            A::PickerCycleSortMode => {
                self.cycle_sort(inspect_open);
                PickerOutcome::Updated { preview_theme: None }
            },
            A::PickerApplySelection { persistent } => PickerOutcome::Apply(
                self.selection_request(persistent, startup_env_only),
            ),
            A::PickerUnsetDefault => PickerOutcome::UnsetDefault(self.unset_default_request()),
            A::PickerBackspace => {
                self.erase_filter_char(inspect_open);
                PickerOutcome::Updated { preview_theme: None }
            },
            A::PickerTypeChar { ch } => {
                self.type_filter_char(inspect_open, ch);
                PickerOutcome::Updated { preview_theme: None }
            },
            A::PickerInspectSelection => PickerOutcome::Inspect(self.inspect_selection()),
            A::PickerInspectScroll { .. } => PickerOutcome::ForCaller,
            A::PickerInspectScrollToStart => PickerOutcome::ForCaller,
            A::PickerInspectScrollToEnd => PickerOutcome::ForCaller,
            A::ModelPickerLoaded { default_model_for_provider, models_response } => {
                let ghost d = default_model_for_provider;
                let ghost m = models_response;
                let res = self.populate_model_picker_from_response(
                    session,
                    default_model_for_provider,
                    models_response,
                );
                let status = match &res {
                    Ok(()) => None,
                    Err(e) => Some(model_picker_error_status(e.as_str())),
                };
                assert(crate::model_picker::models_populated(*old(self), *self, *session, d, m, res));
                PickerOutcome::ModelsShown { status }
            },
            A::ModelPickerLoadFailed { error } => PickerOutcome::Status(
                model_picker_error_status(error.as_str()),
            ),
        }
    }
}

} // verus!
