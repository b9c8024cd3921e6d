//! Properties that hold across the operations of the library.

use vstd::prelude::*;
use crate::json::{JsonValue, str_field_of};
use crate::mcp_prompt::with_value;
use crate::picker::{
    PickerController, PickerItem, PickerMode, PickerState, arranged, filter_matching, filtered_controller,
    filtered_items, is_special_id, item_order_for, next_sort_mode, regular_part, sorted_controller,
    special_part, item_matches,
};
use crate::picker_sort::{is_stable_sort, item_lt, stably_sorted, ItemOrder};
use crate::picker_actions::{
    PickerMovement, kept_entry, moved_selection, refiltered, resorted, same_but_filter,
};
use crate::session::ToolResultRecord;
use crate::tool_flow::{
    CallPlan, entries_of, lemma_split_on_nonempty, lemma_without_oldest_counts, opt_view, recall_result,
    recorded_result_index, ready_requests, refused_calls, trimmed_history,
};
use crate::session::ToolPayloadHistoryEntry;
use crate::text::{ascii_lower_seq, ascii_text, join_with, seq_contains, strings_view, trim_seq, lowercase};
use crate::conversation::{
    ConversationController, greeted, Message, TranscriptRole, refined, retried, regen_target,
    refine_history, refine_original, wire, last_filled_assistant, api_wire, blank, history_wire, without_trailing_blank_assistants,
};

use crate::mcp_servers::{McpServerInfo, PayloadRetention, offered_tool, payload_policy, tool_allowed};
use crate::stream_errors::disables_tools;
use crate::session::SessionContext;
use crate::prewrap::{PrewrapAction, PrewrapKey, prewrap_choice};
use crate::layout::input_scroll_spec;
use crate::stream_events::{event_stream, event_taken, stream_started, StreamEvent, StreamEventOutcome};
use crate::ui_state::{lemma_join_len, lemma_join_split, linear_cursor, textarea_for, TextareaLines};

verus! {

/// Switching the sort mode twice brings a picker back to the mode it had.
pub proof fn law_cycle_sort_twice_restores_mode(a: PickerController, b: PickerController, c: PickerController)
    requires
        a.picker_session is Some,
        resorted(a, b),
        resorted(b, c),
    ensures
        c.picker_session->0.state.sort_mode == a.picker_session->0.state.sort_mode,
{
}

/// Moving the selection of a non-empty picker keeps it on an entry.
pub proof fn law_selection_stays_in_list(st: PickerState, movement: PickerMovement)
    requires
        st.selected < st.items@.len(),
    ensures
        moved_selection(st, movement) < st.items@.len(),
{
}

/// Trimming the payload history of a server leaves it with as many entries
/// as the window allows, or all of them when it has fewer.
pub proof fn law_payload_window_bounds_history(
    h: Seq<ToolPayloadHistoryEntry>,
    server_id: Seq<char>,
    window: nat,
)
    ensures
        entries_of(trimmed_history(h, Some(server_id), window), server_id) == if entries_of(
            h,
            server_id,
        ) <= window {
            entries_of(h, server_id)
        } else {
            window
        },
{
    if entries_of(h, server_id) > window {
        lemma_without_oldest_counts(h, server_id, (entries_of(h, server_id) - window) as nat);
    }
}

/// An instant recall of a call whose result was just recorded, and recorded
/// for no other call of that id before, gives back that result's payload
/// and summary.
pub proof fn law_recall_reads_recorded_result(
    history: Seq<ToolResultRecord>,
    record: ToolResultRecord,
    arguments: Vec<(String, JsonValue)>,
    id: Seq<char>,
)
    requires
        id.len() > 0,
        trim_seq(id) == id,
        recorded_result_index(history, id) is None,
        opt_view(record.tool_call_id) == Some(id),
        str_field_of(arguments@, "tool_call_id"@) == Some(id),
    ensures
        recall_result(history.push(record), Some(arguments)) == Ok::<
            (Seq<char>, Seq<char>),
            Seq<char>,
        >((record.content@, record.summary@)),
{
    let h = history.push(record);
    let k = history.len() as int;
    assert(h[k] == record);
    assert forall|m: int| 0 <= m < k implies opt_view(#[trigger] h[m].tool_call_id) != Some(id) by {
        assert(h[m] == history[m]);
        if opt_view(h[m].tool_call_id) == Some(id) {
            assert(opt_view(history[m].tool_call_id) == Some(id));
        }
    }
    let c = choose|j: int|
        0 <= j < h.len() && opt_view(#[trigger] h[j].tool_call_id) == Some(id) && forall|m: int|
            0 <= m < j ==> opt_view(#[trigger] h[m].tool_call_id) != Some(id);
    if c < k {
        assert(opt_view(h[c].tool_call_id) != Some(id));
    } else if c > k {
        assert(opt_view(h[k].tool_call_id) != Some(id));
    }
    assert(recorded_result_index(h, id) == Some(k));
}

/// Every planned call of a turn is either queued or refused, never both
/// and never lost.
pub proof fn law_every_call_queued_or_refused(plans: Seq<CallPlan>)
    requires
        forall|k: int| 0 <= k < plans.len() ==> !(#[trigger] plans[k] is Validate),
    ensures
        ready_requests(plans).len() + refused_calls(plans).len() == plans.len(),
    decreases plans.len(),
{
    if plans.len() > 0 {
        let d = plans.drop_last();
        assert forall|k: int| 0 <= k < d.len() implies !(#[trigger] d[k] is Validate) by {
            assert(d[k] == plans[k]);
        }
        law_every_call_queued_or_refused(d);
        assert(!(plans[plans.len() - 1] is Validate));
    }
}

/// Whether no two entries share a name.
pub open spec fn names_unique(values: Seq<(String, String)>) -> bool {
    forall|i: int, j: int| 0 <= i < j < values.len() ==> #[trigger] values[i].0@ != #[trigger] values[j].0@
}

/// Setting a prompt argument keeps one value per argument name.
pub proof fn law_prompt_values_stay_unique(values: Seq<(String, String)>, name: String, value: String)
    requires
        names_unique(values),
    ensures
        names_unique(with_value(values, name, value)),
        forall|k: int| 0 <= k < with_value(values, name, value).len() ==> (#[trigger] with_value(values, name, value)[k]).0@ == name@
            || exists|m: int| 0 <= m < values.len() && values[m].0@ == with_value(values, name, value)[k].0@,
    decreases values.len(),
{
    let r = with_value(values, name, value);
    if values.len() == 0 {
    } else if values[0].0@ == name@ {
        let rest = values.drop_first();
        assert(r == seq![(values[0].0, value)] + rest);
        assert forall|i: int, j: int| 0 <= i < j < r.len() implies #[trigger] r[i].0@ != #[trigger] r[j].0@ by {
            assert(r[i].0@ == values[i].0@);
            assert(r[j].0@ == values[j].0@);
        }
        assert forall|k: int| 0 <= k < r.len() implies (#[trigger] r[k]).0@ == name@ || exists|m: int|
            0 <= m < values.len() && values[m].0@ == r[k].0@ by {
            assert(r[k].0@ == values[k].0@);
        }
    } else {
        let rest = values.drop_first();
        assert(names_unique(rest)) by {
            assert forall|i: int, j: int| 0 <= i < j < rest.len() implies #[trigger] rest[i].0@ != #[trigger] rest[j].0@ by {
                assert(rest[i] == values[i + 1]);
                assert(rest[j] == values[j + 1]);
            }
        }
        law_prompt_values_stay_unique(rest, name, value);
        let t = with_value(rest, name, value);
        assert(r == seq![values[0]] + t);
        assert forall|k: int| 0 <= k < r.len() implies (#[trigger] r[k]).0@ == name@ || exists|m: int|
            0 <= m < values.len() && values[m].0@ == r[k].0@ by {
            if k == 0 {
                assert(values[0].0@ == r[0].0@);
            } else {
                assert(r[k] == t[k - 1]);
                if t[k - 1].0@ != name@ {
                    let m = choose|m: int| 0 <= m < rest.len() && rest[m].0@ == t[k - 1].0@;
                    assert(values[m + 1].0@ == r[k].0@);
                }
            }
        }
        assert forall|i: int, j: int| 0 <= i < j < r.len() implies #[trigger] r[i].0@ != #[trigger] r[j].0@ by {
            if i == 0 {
                assert(r[j] == t[j - 1]);
                if t[j - 1].0@ == name@ {
                    assert(values[0].0@ != name@);
                } else {
                    let m = choose|m: int| 0 <= m < rest.len() && rest[m].0@ == t[j - 1].0@;
                    assert(rest[m] == values[m + 1]);
                }
            } else {
                assert(r[i] == t[i - 1]);
                assert(r[j] == t[j - 1]);
            }
        }
    }
}

/// Typing a character into a picker's filter and erasing it again gives
/// back the filter text the picker had, and the picker shows the entries
/// that text selects, arranged as before.
pub proof fn law_type_then_erase_restores_filter(
    a: PickerController,
    b: PickerController,
    c: PickerController,
    ch: char,
)
    requires
        a.picker_session is Some,
        refiltered(a, b, a.picker_session->0.data.search_filter_spec().push(ch)),
        refiltered(b, c, b.picker_session->0.data.search_filter_spec().drop_last()),
    ensures
        ({
            let sa = a.picker_session->0;
            let sc = c.picker_session->0;
            &&& sc.data.search_filter_spec() == sa.data.search_filter_spec()
            &&& same_but_filter(sa.data, sc.data)
            &&& sc.state.sort_mode == sa.state.sort_mode
            &&& arranged(
                item_order_for(sa.data.prefers_alphabetical_spec(), sa.state.sort_mode),
                filtered_items(
                    sa.data.all_items_spec(),
                    sa.data.search_filter_spec(),
                    kept_entry(sa.data.mode_of()),
                ),
                sc.state.items@,
            )
        }),
{
    let f = a.picker_session->0.data.search_filter_spec();
    assert(f.push(ch).drop_last() =~= f);
}

/// Every entry of a request is a system, user or assistant entry: messages
/// of the application, tool calls and tool results never leave the
/// transcript.
pub proof fn law_requests_carry_only_chat_roles(
    h: Seq<Message>,
    base: Seq<char>,
    additional: Option<Seq<char>>,
    post: Option<Seq<char>>,
)
    ensures
        forall|i: int|
            0 <= i < api_wire(h, base, additional, post).len() ==> {
                let role = (#[trigger] api_wire(h, base, additional, post)[i]).0;
                role == "system"@ || role == "user"@ || role == "assistant"@
            },
{
    lemma_history_roles(h);
}

proof fn lemma_history_roles(h: Seq<Message>)
    ensures
        forall|i: int|
            0 <= i < history_wire(h).len() ==> (#[trigger] history_wire(h)[i]).0 == "user"@
                || history_wire(h)[i].0 == "assistant"@,
    decreases h.len(),
{
    if h.len() > 0 {
        lemma_history_roles(h.drop_last());
        let rest = history_wire(h.drop_last());
        assert forall|i: int| 0 <= i < history_wire(h).len() implies (#[trigger] history_wire(
            h,
        )[i]).0 == "user"@ || history_wire(h)[i].0 == "assistant"@ by {
            if i < rest.len() {
                assert(history_wire(h)[i] == rest[i]);
            }
        }
    }
}

/// Dropping the blank assistant messages at the end of a transcript keeps a
/// prefix of it that no longer ends in one, and drops nothing else.
pub proof fn law_trailing_blank_assistants_stripped(h: Seq<Message>)
    ensures
        ({
            let s = without_trailing_blank_assistants(h);
            &&& s.len() <= h.len()
            &&& s == h.take(s.len() as int)
            &&& !(s.len() > 0 && s.last().role == TranscriptRole::Assistant && blank(s.last().content@))
            &&& forall|i: int|
                s.len() <= i < h.len() ==> (#[trigger] h[i]).role == TranscriptRole::Assistant
                    && blank(h[i].content@)
        }),
    decreases h.len(),
{
    if h.len() > 0 && h.last().role == TranscriptRole::Assistant && blank(h.last().content@) {
        law_trailing_blank_assistants_stripped(h.drop_last());
        let s = without_trailing_blank_assistants(h);
        assert(s == without_trailing_blank_assistants(h.drop_last()));
        assert(h.drop_last().take(s.len() as int) =~= h.take(s.len() as int));
        assert forall|i: int| s.len() <= i < h.len() implies (#[trigger] h[i]).role
            == TranscriptRole::Assistant && blank(h[i].content@) by {
            if i < h.len() - 1 {
                assert(h[i] == h.drop_last()[i]);
            }
        }
    } else {
        assert(h.take(h.len() as int) =~= h);
    }
}

/// Blank assistant messages at the end of a transcript never change the
/// request it yields.
pub proof fn law_trailing_blank_assistants_not_sent(h: Seq<Message>)
    ensures
        history_wire(without_trailing_blank_assistants(h)) == history_wire(h),
    decreases h.len(),
{
    if h.len() > 0 && h.last().role == TranscriptRole::Assistant && blank(h.last().content@) {
        law_trailing_blank_assistants_not_sent(h.drop_last());
    }
}

/// A character's greeting is shown at most once: showing it again right
/// after changes nothing.
pub proof fn law_greeting_shown_once(a: ConversationController, b: ConversationController, c: ConversationController)
    requires
        greeted(a, b),
        greeted(b, c),
    ensures
        c.ui.messages == b.ui.messages,
        c.session == b.session,
{
}

proof fn lemma_parts_len(items: Seq<PickerItem>)
    ensures
        special_part(items).len() + regular_part(items).len() == items.len(),
    decreases items.len(),
{
    if items.len() > 0 {
        lemma_parts_len(items.drop_last());
    }
}

proof fn lemma_special_first(items: Seq<PickerItem>)
    requires
        items.len() > 0,
        is_special_id(items[0].id@),
    ensures
        special_part(items).len() > 0,
        special_part(items)[0] == items[0],
    decreases items.len(),
{
    if items.len() > 1 {
        let d = items.drop_last();
        assert(d[0] == items[0]);
        lemma_special_first(d);
        let sd = special_part(d);
        if is_special_id(items.last().id@) {
            assert(special_part(items) == sd.push(items.last()));
            assert(sd.push(items.last())[0] == sd[0]);
        } else {
            assert(special_part(items) == sd);
        }
    } else {
        assert(special_part(items.drop_last()).len() == 0);
        assert(special_part(items) =~= seq![items[0]]);
    }
}

/// Sorting a picker keeps every entry, and a "turn off" entry at the top
/// stays at the top.
pub proof fn law_sort_keeps_turn_off_entry_first(a: PickerController, b: PickerController)
    requires
        a.picker_session is Some,
        sorted_controller(a, b),
    ensures
        b.picker_session is Some,
        b.picker_session->0.state.items@.len() == a.picker_session->0.state.items@.len(),
        ({
            let before = a.picker_session->0.state.items@;
            before.len() > 0 && is_special_id(before[0].id@) ==> b.picker_session->0.state.items@[0]
                == before[0]
        }),
{
    let s = a.picker_session->0;
    let items = s.state.items@;
    let out = b.picker_session->0.state.items@;
    let o = item_order_for(s.data.prefers_alphabetical_spec(), s.state.sort_mode);
    assert(arranged(o, items, out));
    let sorted = choose|sorted: Seq<PickerItem>|
        #![trigger special_part(items) + sorted]
        stably_sorted(o, regular_part(items), sorted) && out == special_part(items) + sorted;
    let perm = choose|perm: Seq<int>| is_stable_sort(o, regular_part(items), sorted, perm);
    assert(sorted.len() == regular_part(items).len());
    lemma_parts_len(items);
    if items.len() > 0 && is_special_id(items[0].id@) {
        lemma_special_first(items);
        assert(out[0] == special_part(items)[0]);
    }
}

proof fn lemma_filter_keeps_special(items: Seq<PickerItem>, term: Seq<char>, special: Seq<char>, k: int)
    requires
        0 <= k < items.len(),
        items[k].id@ == special,
    ensures
        filter_matching(items, term, Some(special)).contains(items[k]),
    decreases items.len(),
{
    let f = filter_matching(items, term, Some(special));
    if k == items.len() - 1 {
        assert(f.last() == items[k]);
    } else {
        let d = items.drop_last();
        assert(d[k] == items[k]);
        lemma_filter_keeps_special(d, term, special, k);
        let fd = filter_matching(d, term, Some(special));
        let j = choose|j: int| 0 <= j < fd.len() && fd[j] == items[k];
        if f.len() > fd.len() {
            assert(f == fd.push(items.last()));
            assert(f[j] == fd[j]);
        } else {
            assert(f == fd);
        }
    }
}

proof fn lemma_special_part_keeps(items: Seq<PickerItem>, k: int)
    requires
        0 <= k < items.len(),
        is_special_id(items[k].id@),
    ensures
        special_part(items).contains(items[k]),
    decreases items.len(),
{
    let sp = special_part(items);
    if k == items.len() - 1 {
        assert(sp.last() == items[k]);
    } else {
        let d = items.drop_last();
        assert(d[k] == items[k]);
        lemma_special_part_keeps(d, k);
        let sd = special_part(d);
        let j = choose|j: int| 0 <= j < sd.len() && sd[j] == items[k];
        if is_special_id(items.last().id@) {
            assert(sp == sd.push(items.last()));
            assert(sp[j] == sd[j]);
        } else {
            assert(sp == sd);
        }
    }
}

/// Filtering a picker leaves its selection on an entry (or at the top of an
/// empty list) and never drops the entry that turns the mode off.
pub proof fn law_filter_keeps_turn_off_entry(
    a: PickerController,
    b: PickerController,
    mode: PickerMode,
    special: Seq<char>,
    k: int,
)
    requires
        a.picker_session is Some,
        a.picker_session->0.data.mode_of() == mode,
        filtered_controller(a, b, mode, Some(special)),
        is_special_id(special),
        0 <= k < a.picker_session->0.data.all_items_spec().len(),
        a.picker_session->0.data.all_items_spec()[k].id@ == special,
    ensures
        b.picker_session is Some,
        ({
            let shown = b.picker_session->0.state.items@;
            let sel = b.picker_session->0.state.selected;
            &&& shown.len() == 0 ==> sel == 0
            &&& shown.len() > 0 ==> sel < shown.len()
            &&& shown.contains(a.picker_session->0.data.all_items_spec()[k])
        }),
{
    let s = a.picker_session->0;
    let all = s.data.all_items_spec();
    let filtered = filtered_items(all, s.data.search_filter_spec(), Some(special));
    let out = b.picker_session->0.state.items@;
    let o = item_order_for(s.data.prefers_alphabetical_spec(), s.state.sort_mode);
    assert(arranged(o, filtered, out));
    let sorted = choose|sorted: Seq<PickerItem>|
        #![trigger special_part(filtered) + sorted]
        stably_sorted(o, regular_part(filtered), sorted) && out == special_part(filtered) + sorted;
    let perm = choose|perm: Seq<int>| is_stable_sort(o, regular_part(filtered), sorted, perm);
    lemma_parts_len(filtered);
    assert(out.len() == filtered.len());
    let x = all[k];
    let term = lowercase(s.data.search_filter_spec());
    if term.len() == 0 {
        assert(filtered == all);
        assert(filtered[k] == x);
        assert(filtered.contains(x));
    } else {
        lemma_filter_keeps_special(all, term, special, k);
    }
    let j = choose|j: int| 0 <= j < filtered.len() && filtered[j] == x;
    lemma_special_part_keeps(filtered, j);
    let sp = special_part(filtered);
    let i = choose|i: int| 0 <= i < sp.len() && sp[i] == x;
    assert(out[i] == sp[i]);
}

/// Retrying right after a refinement sends the same request again: the
/// refinement's prompt over the original text of the refined reply.
pub proof fn law_retry_repeats_refinement(
    c0: ConversationController,
    c1: ConversationController,
    c2: ConversationController,
    prompt: String,
    r1: Option<Vec<crate::session::ChatMessage>>,
    r2: Option<Vec<crate::session::ChatMessage>>,
)
    requires
        last_filled_assistant(c0.ui.messages@) is Some,
        regen_target(c0) < c0.ui.messages@.len(),
        refined(c0, prompt, false, c1, r1),
        retried(c1, c2, r2),
    ensures
        r1 is Some,
        r2 is Some,
        wire(r2->0@) == wire(r1->0@),
{
    let h = c0.ui.messages@;
    let t = regen_target(c0);
    crate::conversation::lemma_last_filled_assistant(h);
    vstd::std_specs::vec::axiom_spec_len(&c0.ui.messages);
    assert(0 <= t <= usize::MAX);
    assert(c1.ui.messages@ == h);
    assert(regen_target(c1) == t);
    assert(c1.session.original_refining_content == Some(h[t].content));
    assert(c1.session.last_refine_prompt == Some(prompt));
    let h0 = h.take(if t + 1 <= h.len() { t + 1 } else { h.len() as int });
    assert(h0.last() == h[t]);
    assert(refine_history(h, t, refine_original(c0, false), false) == h0);
    if h[t].role == TranscriptRole::Assistant {
        assert(refine_history(h, t, refine_original(c1, true), true) =~= h0);
    }
}

/// Once a stream has started, whatever an earlier stream still reports is
/// dropped and changes nothing.
pub proof fn law_earlier_stream_events_are_dropped(
    c0: ConversationController,
    c1: ConversationController,
    id: u64,
    e: StreamEvent,
    log_failure: Option<String>,
    c2: ConversationController,
    r: StreamEventOutcome,
)
    requires
        stream_started(c0, c1, id),
        event_stream(e) <= c0.session.current_stream_id,
        event_taken(c1, c2, e, log_failure, r),
    ensures
        r is Stale,
        c2 == c1,
{
}

/// What the text area is loaded with for a text, taken back, is that text
/// with the cursor after its last character.
pub proof fn law_textarea_round_trip(t: TextareaLines, text: Seq<char>)
    requires
        textarea_for(t, text),
    ensures
        join_with(strings_view(t.lines@), seq!['\n']) == text,
        linear_cursor(strings_view(t.lines@), t.cursor_row as int, t.cursor_col as int)
            == text.len(),
{
    let ls = strings_view(t.lines@);
    if text.len() == 0 {
        assert(ls.len() == 0);
    } else {
        lemma_split_on_nonempty(text, '\n');
        lemma_join_split(text, '\n');
        lemma_join_len(ls);
    }
}


proof fn lemma_contains_prefix(hay: Seq<char>, a: Seq<char>, b: Seq<char>)
    requires
        a.is_prefix_of(b),
        seq_contains(hay, b),
    ensures
        seq_contains(hay, a),
{
    let i = choose|i: int|
        0 <= i && i + b.len() <= hay.len() && #[trigger] hay.subrange(i, i + b.len()) == b;
    assert(hay.subrange(i, i + a.len()) =~= b.subrange(0, a.len() as int));
    assert(b.subrange(0, a.len() as int) =~= a);
}

proof fn lemma_filter_matching_has(items: Seq<PickerItem>, term: Seq<char>, special: Option<Seq<char>>, it: PickerItem)
    ensures
        filter_matching(items, term, special).contains(it) <==> (items.contains(it) && item_matches(it, term, special)),
    decreases items.len(),
{
    if items.len() > 0 {
        let d = items.drop_last();
        lemma_filter_matching_has(d, term, special, it);
        assert(items =~= d.push(items.last()));
        if items.contains(it) && !d.contains(it) {
            let k = choose|k: int| 0 <= k < items.len() && items[k] == it;
            if k < items.len() - 1 {
                assert(d[k] == it);
            }
        }
        if d.contains(it) {
            let k = choose|k: int| 0 <= k < d.len() && d[k] == it;
            assert(items[k] == it);
        }
        let f = filter_matching(d, term, special);
        if item_matches(items.last(), term, special) {
            if f.push(items.last()).contains(it) && !f.contains(it) {
                let k = choose|k: int| 0 <= k < f.len() + 1 && f.push(items.last())[k] == it;
                if k < f.len() {
                    assert(f[k] == it);
                }
            }
            if f.contains(it) {
                let k = choose|k: int| 0 <= k < f.len() && f[k] == it;
                assert(f.push(items.last())[k] == it);
            }
            assert(f.push(items.last())[f.len() as int] == items.last());
        }
    }
}

/// Typing more of a filter never brings back an entry: whatever the longer
/// filter shows, the shorter one shows too, as long as lowercasing the
/// longer filter keeps the lowercase of the shorter one at its start.
pub proof fn law_longer_filter_never_adds_matches(
    all: Seq<PickerItem>,
    s: Seq<char>,
    t: Seq<char>,
    special: Option<Seq<char>>,
    it: PickerItem,
)
    requires
        lowercase(s).is_prefix_of(lowercase(s + t)),
        filtered_items(all, s + t, special).contains(it),
    ensures
        filtered_items(all, s, special).contains(it),
{
    let a = lowercase(s);
    let b = lowercase(s + t);
    lemma_filter_matching_has(all, b, special, it);
    if a.len() > 0 {
        assert(b.len() > 0);
        lemma_filter_matching_has(all, a, special, it);
        assert(all.contains(it));
        if seq_contains(lowercase(it.id@), b) {
            lemma_contains_prefix(lowercase(it.id@), a, b);
        }
        if seq_contains(lowercase(it.label@), b) {
            lemma_contains_prefix(lowercase(it.label@), a, b);
        }
        if it.metadata is Some && seq_contains(lowercase(it.metadata->0@), b) {
            lemma_contains_prefix(lowercase(it.metadata->0@), a, b);
        }
    }
}


/// Typing more of an ASCII filter never brings back an entry: whatever the
/// longer filter shows, the shorter one shows too.
pub proof fn law_longer_ascii_filter_never_adds_matches(
    all: Seq<PickerItem>,
    s: Seq<char>,
    t: Seq<char>,
    special: Option<Seq<char>>,
    it: PickerItem,
)
    requires
        ascii_text(s),
        ascii_text(t),
        filtered_items(all, s + t, special).contains(it),
    ensures
        filtered_items(all, s, special).contains(it),
{
    assert(ascii_text(s + t)) by {
        assert forall|i: int| 0 <= i < (s + t).len() implies ((#[trigger] (s + t)[i]) as u32) < 128 by {
            if i < s.len() {
                assert((s + t)[i] == s[i]);
            } else {
                assert((s + t)[i] == t[i - s.len()]);
            }
        }
    }
    assert(ascii_lower_seq(s + t) =~= ascii_lower_seq(s) + ascii_lower_seq(t));
    assert(ascii_lower_seq(s).is_prefix_of(ascii_lower_seq(s + t))) by {
        assert(ascii_lower_seq(s + t).take(s.len() as int) =~= ascii_lower_seq(s));
    }
    law_longer_filter_never_adds_matches(all, s, t, special, it);
}

proof fn lemma_parts_concat(x: Seq<PickerItem>, y: Seq<PickerItem>)
    ensures
        special_part(x + y) == special_part(x) + special_part(y),
        regular_part(x + y) == regular_part(x) + regular_part(y),
    decreases y.len(),
{
    if y.len() == 0 {
        assert(x + y =~= x);
        assert(special_part(x) + special_part(y) =~= special_part(x));
        assert(regular_part(x) + regular_part(y) =~= regular_part(x));
    } else {
        let yd = y.drop_last();
        lemma_parts_concat(x, yd);
        assert((x + y).drop_last() =~= x + yd);
        assert((x + y).last() == y.last());
        if is_special_id(y.last().id@) {
            assert(special_part(x) + special_part(y) =~= (special_part(x) + special_part(yd)).push(y.last()));
            assert(regular_part(x) + regular_part(y) =~= regular_part(x) + regular_part(yd));
        } else {
            assert(regular_part(x) + regular_part(y) =~= (regular_part(x) + regular_part(yd)).push(y.last()));
            assert(special_part(x) + special_part(y) =~= special_part(x) + special_part(yd));
        }
    }
}

proof fn lemma_parts_kinds(x: Seq<PickerItem>)
    ensures
        forall|i: int| 0 <= i < special_part(x).len() ==> is_special_id(#[trigger] special_part(x)[i].id@),
        forall|i: int| 0 <= i < regular_part(x).len() ==> !is_special_id(#[trigger] regular_part(x)[i].id@),
    decreases x.len(),
{
    if x.len() > 0 {
        lemma_parts_kinds(x.drop_last());
        let sd = special_part(x.drop_last());
        let rd = regular_part(x.drop_last());
        if is_special_id(x.last().id@) {
            assert forall|i: int| 0 <= i < special_part(x).len() implies is_special_id(#[trigger] special_part(x)[i].id@) by {
                if i < sd.len() {
                    assert(special_part(x)[i] == sd[i]);
                }
            }
        } else {
            assert forall|i: int| 0 <= i < regular_part(x).len() implies !is_special_id(#[trigger] regular_part(x)[i].id@) by {
                if i < rd.len() {
                    assert(regular_part(x)[i] == rd[i]);
                }
            }
        }
    }
}

proof fn lemma_parts_of_uniform(x: Seq<PickerItem>)
    ensures
        (forall|i: int| 0 <= i < x.len() ==> is_special_id(#[trigger] x[i].id@)) ==> special_part(x) == x
            && regular_part(x).len() == 0,
        (forall|i: int| 0 <= i < x.len() ==> !is_special_id(#[trigger] x[i].id@)) ==> regular_part(x) == x
            && special_part(x).len() == 0,
    decreases x.len(),
{
    if x.len() > 0 {
        let d = x.drop_last();
        lemma_parts_of_uniform(d);
        if forall|i: int| 0 <= i < x.len() ==> is_special_id(#[trigger] x[i].id@) {
            assert forall|i: int| 0 <= i < d.len() implies is_special_id(#[trigger] d[i].id@) by {
                assert(d[i] == x[i]);
            }
            assert(is_special_id(x[x.len() - 1].id@));
            assert(special_part(x) =~= x);
        }
        if forall|i: int| 0 <= i < x.len() ==> !is_special_id(#[trigger] x[i].id@) {
            assert forall|i: int| 0 <= i < d.len() implies !is_special_id(#[trigger] d[i].id@) by {
                assert(d[i] == x[i]);
            }
            assert(!is_special_id(x[x.len() - 1].id@));
            assert(regular_part(x) =~= x);
        }
    }
}

proof fn lemma_increasing_perm_is_identity(perm: Seq<int>, n: int, i: int)
    requires
        perm.len() == n,
        forall|k: int| 0 <= k < n ==> 0 <= #[trigger] perm[k] < n,
        forall|a: int, b: int| 0 <= a < b < n ==> #[trigger] perm[a] < #[trigger] perm[b],
        0 <= i < n,
    ensures
        perm[i] == i,
{
    assert forall|k: int| 0 <= k < n implies #[trigger] perm[k] >= k by {
        lemma_perm_at_least(perm, n, k);
    }
    assert forall|k: int| 0 <= k < n implies #[trigger] perm[k] <= k by {
        lemma_perm_at_most(perm, n, k);
    }
}

proof fn lemma_perm_at_least(perm: Seq<int>, n: int, k: int)
    requires
        perm.len() == n,
        forall|j: int| 0 <= j < n ==> 0 <= #[trigger] perm[j] < n,
        forall|a: int, b: int| 0 <= a < b < n ==> #[trigger] perm[a] < #[trigger] perm[b],
        0 <= k < n,
    ensures
        perm[k] >= k,
    decreases k,
{
    if k > 0 {
        lemma_perm_at_least(perm, n, k - 1);
        assert(perm[k - 1] < perm[k]);
    }
}

proof fn lemma_perm_at_most(perm: Seq<int>, n: int, k: int)
    requires
        perm.len() == n,
        forall|j: int| 0 <= j < n ==> 0 <= #[trigger] perm[j] < n,
        forall|a: int, b: int| 0 <= a < b < n ==> #[trigger] perm[a] < #[trigger] perm[b],
        0 <= k < n,
    ensures
        perm[k] <= k,
    decreases n - k,
{
    if k < n - 1 {
        lemma_perm_at_most(perm, n, k + 1);
        assert(perm[k] < perm[k + 1]);
    } else {
        assert(perm[k] < n);
    }
}

/// A stable sort of entries already in order changes nothing.
proof fn lemma_stable_sort_of_sorted(o: ItemOrder, input: Seq<PickerItem>, output: Seq<PickerItem>)
    requires
        forall|i: int, j: int| 0 <= i < j < input.len() ==> !item_lt(o, #[trigger] input[j], #[trigger] input[i]),
        stably_sorted(o, input, output),
    ensures
        output == input,
{
    let perm = choose|perm: Seq<int>| is_stable_sort(o, input, output, perm);
    let n = input.len() as int;
    assert forall|a: int, b: int| 0 <= a < b < n implies #[trigger] perm[a] < #[trigger] perm[b] by {
        if !item_lt(o, output[a], output[b]) {
        } else {
            if perm[b] < perm[a] {
                assert(!item_lt(o, input[perm[a]], input[perm[b]]));
            }
            assert(perm[a] != perm[b]);
        }
    }
    assert forall|i: int| 0 <= i < n implies output[i] == input[i] by {
        lemma_increasing_perm_is_identity(perm, n, i);
    }
    assert(output =~= input);
}

/// Sorting a picker twice leaves it as the first sort left it: the same
/// entries in the same order, the same selection, title, sort mode and
/// data.
pub proof fn law_sorting_twice_changes_nothing(a: PickerController, b: PickerController, c: PickerController)
    requires
        sorted_controller(a, b),
        sorted_controller(b, c),
    ensures
        a.picker_session is Some ==> ({
            let sb = b.picker_session->0;
            let sc = c.picker_session->0;
            &&& c.picker_session is Some
            &&& sc.state.items@ == sb.state.items@
            &&& sc.state.selected == sb.state.selected
            &&& sc.state.title == sb.state.title
            &&& sc.state.sort_mode == sb.state.sort_mode
            &&& sc.data == sb.data
        }),
        a.picker_session is None ==> c.picker_session is None,
        c.in_provider_model_transition == b.in_provider_model_transition,
        c.provider_model_transition_state == b.provider_model_transition_state,
        c.startup_requires_provider == b.startup_requires_provider,
        c.startup_requires_model == b.startup_requires_model,
        c.startup_multiple_providers_available == b.startup_multiple_providers_available,
{
    if a.picker_session is Some {
        let sa = a.picker_session->0;
        let sb = b.picker_session->0;
        let sc = c.picker_session->0;
        let items = sa.state.items@;
        let mid = sb.state.items@;
        let fin = sc.state.items@;
        let o = item_order_for(sa.data.prefers_alphabetical_spec(), sa.state.sort_mode);
        assert(o == item_order_for(sb.data.prefers_alphabetical_spec(), sb.state.sort_mode));
        let sorted1 = choose|sorted: Seq<PickerItem>|
            #![trigger special_part(items) + sorted]
            stably_sorted(o, regular_part(items), sorted) && mid == special_part(items) + sorted;
        let perm1 = choose|perm: Seq<int>| is_stable_sort(o, regular_part(items), sorted1, perm);
        lemma_parts_kinds(items);
        assert forall|i: int| 0 <= i < sorted1.len() implies !is_special_id(#[trigger] sorted1[i].id@) by {
            assert(sorted1[i] == regular_part(items)[perm1[i]]);
        }
        lemma_parts_of_uniform(special_part(items));
        lemma_parts_of_uniform(sorted1);
        lemma_parts_concat(special_part(items), sorted1);
        assert(special_part(mid) == special_part(items));
        assert(regular_part(mid) == sorted1);
        let sorted2 = choose|sorted: Seq<PickerItem>|
            #![trigger special_part(mid) + sorted]
            stably_sorted(o, regular_part(mid), sorted) && fin == special_part(mid) + sorted;
        lemma_stable_sort_of_sorted(o, sorted1, sorted2);
        assert(fin =~= mid);
        lemma_parts_len(items);
        assert(sorted1.len() == regular_part(items).len());
        assert(mid.len() == items.len());
    }
}

// ---------------------------------------------------------------------------
// Tool permissions, stream errors, cached lines, scrolling, payload policy
// ---------------------------------------------------------------------------

/// A server's allow-list lets through exactly the tools it names, ignoring
/// ASCII case; a server without one lets every tool through.
pub proof fn law_allow_list_admits_exactly_named_tools(s: McpServerInfo, name: Seq<char>)
    ensures
        s.allowed_tools is None ==> tool_allowed(s, name),
        s.allowed_tools is Some ==> (tool_allowed(s, name) <==> exists|k: int|
            0 <= k < s.allowed_tools->0@.len() && ascii_lower_seq(
                #[trigger] s.allowed_tools->0@[k]@,
            ) == ascii_lower_seq(name)),
{
}

/// A tool that a server lists and whose name its allow-list holds is
/// offered by that server.
pub proof fn law_listed_allowed_tool_is_offered(
    s: McpServerInfo,
    tools: Vec<String>,
    allowed: Vec<String>,
    j: int,
    k: int,
)
    requires
        s.tools == Some(tools),
        s.allowed_tools == Some(allowed),
        0 <= j < tools@.len(),
        0 <= k < allowed@.len(),
        allowed@[k]@ == tools@[j]@,
    ensures
        offered_tool(s, tools@[j]@) is Some,
{
    let name = tools@[j]@;
    let list = s.allowed_tools->0;
    assert(list == allowed);
    assert(crate::mcp_servers::eq_ci(list@[k]@, name));
    assert(tool_allowed(s, name));
    assert(crate::mcp_servers::eq_ci(tools@[j]@, name));
    assert(s.tools->0 == tools);
    assert(crate::mcp_servers::offers_at(s, s.tools->0@, j, name));
}

/// The words by which an error speaks of tool calling.
pub open spec fn tool_words() -> Seq<Seq<char>> {
    seq!["tools"@, "tool_calls"@, "tool call"@, "function_call"@, "function calling"@]
}

/// The words by which an error says something is not supported.
pub open spec fn refusal_words() -> Seq<Seq<char>> {
    seq![
        "not supported"@,
        "unsupported"@,
        "unknown field"@,
        "unknown parameter"@,
        "unrecognized"@,
        "unexpected field"@,
        "invalid parameter"@,
        "extra fields"@,
        "does not support"@,
    ]
}

/// With tools offered and not yet known to be unsupported, a stream error
/// whose lowercase speaks of tools and says they are not supported switches
/// tool calling off; one that does not speak of tools, or says nothing of
/// support, never does, and neither does any error once tools are off.
pub proof fn law_tool_refusals_switch_tools_off(
    s: SessionContext,
    message: Seq<char>,
    tool_word: Seq<char>,
    refusal: Seq<char>,
)
    ensures
        s.mcp_tools_enabled && !s.mcp_tools_unsupported && tool_words().contains(tool_word)
            && refusal_words().contains(refusal) && seq_contains(
            ascii_lower_seq(trim_seq(message)),
            tool_word,
        ) && seq_contains(ascii_lower_seq(trim_seq(message)), refusal) ==> disables_tools(s, message),
        (forall|i: int|
            0 <= i < tool_words().len() ==> !seq_contains(
                ascii_lower_seq(trim_seq(message)),
                #[trigger] tool_words()[i],
            )) ==> !disables_tools(s, message),
        (forall|i: int|
            0 <= i < refusal_words().len() ==> !seq_contains(
                ascii_lower_seq(trim_seq(message)),
                #[trigger] refusal_words()[i],
            )) ==> !disables_tools(s, message),
        !s.mcp_tools_enabled || s.mcp_tools_unsupported ==> !disables_tools(s, message),
{
    let l = ascii_lower_seq(trim_seq(message));
    if forall|i: int|
        0 <= i < refusal_words().len() ==> !seq_contains(l, #[trigger] refusal_words()[i]) {
        assert(!seq_contains(l, refusal_words()[0]));
        assert(!seq_contains(l, refusal_words()[1]));
        assert(!seq_contains(l, refusal_words()[2]));
        assert(!seq_contains(l, refusal_words()[3]));
        assert(!seq_contains(l, refusal_words()[4]));
        assert(!seq_contains(l, refusal_words()[5]));
        assert(!seq_contains(l, refusal_words()[6]));
        assert(!seq_contains(l, refusal_words()[7]));
        assert(!seq_contains(l, refusal_words()[8]));
    }
    if tool_words().contains(tool_word) && refusal_words().contains(refusal) {
        let a = choose|i: int| 0 <= i < tool_words().len() && tool_words()[i] == tool_word;
        let b = choose|i: int| 0 <= i < refusal_words().len() && refusal_words()[i] == refusal;
        assert(0 <= a < 5);
        assert(0 <= b < 9);
    }
    if forall|i: int|
        0 <= i < tool_words().len() ==> !seq_contains(l, #[trigger] tool_words()[i]) {
        assert(!seq_contains(l, tool_words()[0]));
        assert(!seq_contains(l, tool_words()[1]));
        assert(!seq_contains(l, tool_words()[2]));
        assert(!seq_contains(l, tool_words()[3]));
        assert(!seq_contains(l, tool_words()[4]));
    }
}

/// Kept lines are reused exactly when nothing they depend on changed; a
/// change of width, markdown, syntax highlighting, theme or message count
/// always wraps everything again; only a changed last message is wrapped
/// anew alone.
pub proof fn law_kept_lines_follow_their_key(cached: Option<PrewrapKey>, current: PrewrapKey, has_last_message: bool)
    ensures
        (prewrap_choice(cached, current, has_last_message) == PrewrapAction::Reuse) <==> cached
            == Some(current),
        cached matches Some(c) && (c.width != current.width || c.markdown_enabled
            != current.markdown_enabled || c.syntax_enabled != current.syntax_enabled
            || c.theme_sig != current.theme_sig || c.messages_len != current.messages_len)
            ==> prewrap_choice(cached, current, has_last_message) == PrewrapAction::Rebuild,
        cached is None ==> prewrap_choice(cached, current, has_last_message) == PrewrapAction::Rebuild,
        prewrap_choice(cached, current, has_last_message) == PrewrapAction::RewrapLast ==> has_last_message
            && cached == Some(PrewrapKey { last_msg_hash: cached->0.last_msg_hash, ..current })
            && cached->0.last_msg_hash != current.last_msg_hash,
{
}

/// After an edit the cursor line of the input area is in view, the view
/// never runs past the last line, and it moves as little as it must: a
/// cursor below the view becomes its last row, one above it its first
/// (when a full page fits below it), and one inside it (with a full page
/// below the top) moves nothing.
pub proof fn law_input_scroll_keeps_cursor_in_view(offset: u16, height: u16, total_lines: u16, cursor_line: u16)
    requires
        height > 0,
        total_lines > height,
        cursor_line < total_lines,
    ensures
        ({
            let r = input_scroll_spec(offset, height, total_lines, cursor_line);
            &&& 0 <= r <= cursor_line < r + height
            &&& r + height <= total_lines
            &&& cursor_line >= offset + height ==> r + height - 1 == cursor_line
            &&& cursor_line < offset && cursor_line + height <= total_lines ==> r == cursor_line
            &&& offset <= cursor_line < offset + height && offset + height <= total_lines ==> r == offset
        }),
{
}

/// Results from a configured server are kept as that server's settings
/// say; results from no server or an unknown one only for the turn.
pub proof fn law_payload_policy_is_the_servers(servers: Seq<McpServerInfo>, id: Seq<char>, k: int)
    ensures
        0 <= k < servers.len() && servers[k].id@ == id && (forall|m: int|
            0 <= m < k ==> #[trigger] servers[m].id@ != id) ==> payload_policy(servers, Some(id)) == (
            servers[k].tool_payloads,
            servers[k].tool_payload_window,
        ),
        (forall|m: int| 0 <= m < servers.len() ==> #[trigger] servers[m].id@ != id) ==> payload_policy(
            servers,
            Some(id),
        ) == (PayloadRetention::Turn, 0usize),
        payload_policy(servers, None) == (PayloadRetention::Turn, 0usize),
{
    if 0 <= k < servers.len() && servers[k].id@ == id && (forall|m: int|
        0 <= m < k ==> #[trigger] servers[m].id@ != id) {
        let c = choose|c: int|
            0 <= c < servers.len() && #[trigger] servers[c].id@ == id && forall|m: int|
                0 <= m < c ==> #[trigger] servers[m].id@ != id;
        if c < k {
            assert(servers[c].id@ != id);
        } else if c > k {
            assert(servers[k].id@ != id);
        }
    }
}

} // verus!
