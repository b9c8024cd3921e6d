//! The model picker's entries, built from a provider's model listing.

use vstd::prelude::*;
use std::fmt::Write;
use crate::picker::{
    ModelPickerState, PickerController, PickerData, PickerItem, PickerMode, PickerSession,
    PickerState, duplicate_items, started_with,
};
use crate::picker_open::{find_initial, initial_selection, is_default_ci, opt_str_view, starred};
use crate::session::SessionContext;
use crate::text::{
    concat2, concat3, decimal, eq_ignore_ascii_case, push_decimal_u64, push_str, str_eq,
    str_is_empty, u64_zero_padded20, utf8_len, utf8_len_exceeds, zero_padded,
};

verus! {

/// A model as a provider lists it.
pub struct Model {
    pub id: String,
    pub display_name: Option<String>,
    pub created: Option<u64>,
    pub created_at: Option<String>,
    pub owned_by: Option<String>,
}

/// A provider's model listing.
pub struct ModelsResponse {
    pub data: Vec<Model>,
}

/// The text `chrono` writes for the instant `secs` seconds after the Unix
/// epoch, in UTC, with the format string `pattern`.
pub uninterp spec fn utc_text(secs: i64, pattern: Seq<char>) -> Seq<char>;

/// The pattern the model entries show creation times with.
pub open spec fn minute_pattern() -> Seq<char> {
    "%Y-%m-%d %H:%M UTC"@
}

/// The civil date (year, month, day) of day `z` counted from 1970-01-01 in
/// the proleptic Gregorian calendar, for `z >= -719468` (from 0000-03-01 on).
pub open spec fn civil_date(z: int) -> (int, int, int) {
    let shifted = z + 719468;
    let era = shifted / 146097;
    let doe = shifted - era * 146097;
    let yoe = (doe - doe / 1460 + doe / 36524 - doe / 146096) / 365;
    let doy = doe - (365 * yoe + yoe / 4 - yoe / 100);
    let mp = (5 * doy + 2) / 153;
    let d = doy - (153 * mp + 2) / 5 + 1;
    let m = if mp < 10 {
        mp + 3
    } else {
        mp - 9
    };
    let y = yoe + era * 400 + if m <= 2 {
        1int
    } else {
        0int
    };
    (y, m, d)
}

/// `n` in decimal, zero-padded to `width` digits.
pub open spec fn padded(n: int, width: nat) -> Seq<char> {
    zero_padded(decimal(n as nat), width)
}

/// What `%Y-%m-%d %H:%M UTC` writes for the instant `secs` seconds after
/// the epoch, for `secs` from 0 to before the year 10000: the year in four
/// digits, then month, day, hour and minute in two, all zero-padded.
pub open spec fn minute_text(secs: int) -> Seq<char> {
    let (y, m, d) = civil_date(secs / 86400);
    let rem = secs % 86400;
    padded(y, 4) + "-"@ + padded(m, 2) + "-"@ + padded(d, 2) + " "@ + padded(rem / 3600, 2) + ":"@
        + padded((rem % 3600) / 60, 2) + " UTC"@
}

/// `chrono::DateTime::<Utc>::from_timestamp(secs, 0)`, written with the
/// format string `pattern`; nothing when chrono gives no instant or the
/// pattern does not format. chrono gives no instant only when the day count
/// leaves `i32` or its date range (years -262143 to 262142), so every count
/// from 1 to 32_503_679_999 (before the year 3000) has one, and the pattern
/// `%Y-%m-%d %H:%M UTC` holds only items chrono knows: `%Y` writes a year
/// from 0 to 9999 in four zero-padded digits, `%m`, `%d`, `%H` and `%M`
/// write two, and the rest is copied. Other patterns are left to the name
/// `utc_text`.
#[verifier::external_body]
fn format_utc(secs: i64, pattern: &str) -> (r: Option<String>)
    ensures
        0 < secs < 32_503_680_000 && pattern@ == minute_pattern() ==> r is Some,
        r matches Some(t) ==> (0 < secs < 32_503_680_000 && pattern@ == minute_pattern() ==> t@
            == minute_text(secs as int)),
        r matches Some(t) ==> t@ == utc_text(secs, pattern@),
{
    let instant = chrono::DateTime::<chrono::Utc>::from_timestamp(secs, 0)?;
    let mut out = String::new();
    write!(out, "{}", instant.format(pattern)).ok()?;
    Some(out)
}

/// A `created_at` text that looks like a date: more than four bytes, with a
/// `-` or a `/`.
pub open spec fn date_like(s: Seq<char>) -> bool {
    utf8_len(s) > 4 && (s.contains('-') || s.contains('/'))
}

/// Whether a model carries a creation date.
pub open spec fn model_has_date(m: Model) -> bool {
    ||| m.created matches Some(c) && c > 0
    ||| m.created_at matches Some(s) && date_like(s@)
}

/// Whether any model of the listing carries a creation date.
pub open spec fn models_have_dates(models: Seq<Model>) -> bool {
    exists|k: int| 0 <= k < models.len() && model_has_date(#[trigger] models[k])
}

/// A creation time in seconds: values above ten billion are milliseconds.
pub open spec fn timestamp_secs(created: u64) -> u64 {
    if created > 10_000_000_000 {
        (created / 1000) as u64
    } else {
        created
    }
}

/// Whether a `created` value is read as a timestamp at all.
pub open spec fn created_readable(created: u64) -> bool {
    0 < created && created < u64::MAX / 1000
}

/// Whether a readable `created` value falls before the year 3000.
pub open spec fn created_in_range(created: u64) -> bool {
    0 < timestamp_secs(created) && timestamp_secs(created) < 32_503_680_000
}

/// The formatted creation time that the entry of `m` shows, if any.
pub open spec fn model_stamp(m: Model) -> Option<Seq<char>> {
    match m.created {
        Some(c) => if created_readable(c) && created_in_range(c) {
            Some(minute_text(timestamp_secs(c) as int))
        } else {
            None
        },
        None => None,
    }
}

/// The metadata line of the entry of `m`, given the formatted creation time
/// `stamp` that is shown when `created` is in range.
pub open spec fn model_metadata(m: Model, stamp: Option<Seq<char>>) -> Option<Seq<char>> {
    match m.created {
        Some(c) => if created_readable(c) {
            if created_in_range(c) {
                match stamp {
                    Some(t) => Some("Created: "@ + t),
                    None => None,
                }
            } else {
                Some("Created: "@ + decimal(c as nat) + " (invalid timestamp)"@)
            }
        } else {
            None
        },
        None => match m.created_at {
            Some(s) => if s@.len() == 0 {
                None
            } else if date_like(s@) {
                Some("Created: "@ + s@)
            } else {
                Some("Created: "@ + s@ + " (unrecognized format)"@)
            },
            None => match m.owned_by {
                Some(o) => if o@.len() > 0 && o@ != "system"@ {
                    Some("Owner: "@ + o@)
                } else {
                    None
                },
                None => None,
            },
        },
    }
}

/// The label of the entry of `m`: the id, with the display name in
/// brackets when it says something else, starred for the default model.
pub open spec fn model_label(m: Model, default_model: Option<Seq<char>>) -> Seq<char> {
    let base = match m.display_name {
        Some(d) => if d@ != m.id@ && d@.len() > 0 {
            m.id@ + " ("@ + d@ + ")"@
        } else {
            m.id@
        },
        None => m.id@,
    };
    starred(base, is_default_ci(default_model, m.id@))
}

/// The sort key of the entry of `m`: the zero-padded creation time when the
/// listing has dates.
pub open spec fn model_sort_key(m: Model, has_dates: bool) -> Option<Seq<char>> {
    if has_dates {
        match m.created {
            Some(c) => if c > 0 {
                Some(zero_padded(decimal(c as nat), 20))
            } else {
                None
            },
            None => None,
        }
    } else {
        None
    }
}

pub open spec fn opt_string_view(s: Option<String>) -> Option<Seq<char>> {
    match s {
        Some(v) => Some(v@),
        None => None,
    }
}

/// `it` is the entry of model `m`, with `stamp` as its formatted creation time.
pub open spec fn model_item_spec(
    it: PickerItem,
    m: Model,
    default_model: Option<Seq<char>>,
    has_dates: bool,
    stamp: Option<Seq<char>>,
) -> bool {
    &&& it.id@ == m.id@
    &&& it.label@ == model_label(m, default_model)
    &&& opt_string_view(it.metadata) == model_metadata(m, stamp)
    &&& it.inspect_metadata == it.metadata
    &&& opt_string_view(it.sort_key) == model_sort_key(m, has_dates)
}

fn opt_as_str(s: &Option<String>) -> (r: Option<&str>)
    ensures
        opt_str_view(r) == opt_string_view(*s),
{
    match s {
        Some(v) => Some(v.as_str()),
        None => None,
    }
}

fn is_date_like(s: &str) -> (r: bool)
    ensures
        r == date_like(s@),
{
    utf8_len_exceeds(s, 4) && (contains_char(s, '-') || contains_char(s, '/'))
}

fn contains_char(s: &str, c: char) -> (r: bool)
    ensures
        r == s@.contains(c),
{
    let v = crate::text::chars_of(s);
    let mut i: usize = 0;
    while i < v.len()
        invariant
            i <= v@.len(),
            v@ == s@,
            forall|k: int| 0 <= k < i ==> v@[k] != c,
        decreases v.len() - i,
    {
        if v[i] == c {
            assert(v@[i as int] == c);
            return true;
        }
        i = i + 1;
    }
    false
}

fn has_date(m: &Model) -> (r: bool)
    ensures
        r == model_has_date(*m),
{
    let by_created = match m.created {
        Some(c) => c > 0,
        None => false,
    };
    by_created || match &m.created_at {
        Some(s) => is_date_like(s.as_str()),
        None => false,
    }
}

fn any_dates(models: &Vec<Model>) -> (r: bool)
    ensures
        r == models_have_dates(models@),
{
    let mut i: usize = 0;
    while i < models.len()
        invariant
            i <= models@.len(),
            forall|k: int| 0 <= k < i ==> !model_has_date(#[trigger] models@[k]),
        decreases models.len() - i,
    {
        if has_date(&models[i]) {
            return true;
        }
        i = i + 1;
    }
    false
}

fn model_metadata_text(m: &Model, stamp: Option<String>) -> (r: Option<String>)
    ensures
        opt_string_view(r) == model_metadata(*m, opt_string_view(stamp)),
{
    match m.created {
        Some(c) => {
            if 0 < c && c < u64::MAX / 1000 {
                let secs = if c > 10_000_000_000 {
                    c / 1000
                } else {
                    c
                };
                if 0 < secs && secs < 32_503_680_000 {
                    match stamp {
                        Some(t) => Some(concat2("Created: ", t.as_str())),
                        None => None,
                    }
                } else {
                    let mut out = String::new();
                    push_str(&mut out, "Created: ");
                    push_decimal_u64(&mut out, c);
                    push_str(&mut out, " (invalid timestamp)");
                    Some(out)
                }
            } else {
                None
            }
        },
        None => match &m.created_at {
            Some(s) => {
                if str_is_empty(s.as_str()) {
                    None
                } else if is_date_like(s.as_str()) {
                    Some(concat2("Created: ", s.as_str()))
                } else {
                    Some(concat3("Created: ", s.as_str(), " (unrecognized format)"))
                }
            },
            None => match &m.owned_by {
                Some(o) => {
                    if !str_is_empty(o.as_str()) && !str_eq(o.as_str(), "system") {
                        Some(concat2("Owner: ", o.as_str()))
                    } else {
                        None
                    }
                },
                None => None,
            },
        },
    }
}

/// The picker entry of model `m`. `stamp` is the creation time as
/// `%Y-%m-%d %H:%M UTC` text, shown when `created` is a timestamp before the
/// year 3000.
pub fn model_picker_item(
    m: &Model,
    default_model: Option<&str>,
    has_dates: bool,
    stamp: Option<String>,
) -> (r: PickerItem)
    ensures
        model_item_spec(r, *m, opt_str_view(default_model), has_dates, opt_string_view(stamp)),
{
    let mut label = match &m.display_name {
        Some(d) => {
            if !str_eq(d.as_str(), m.id.as_str()) && !str_is_empty(d.as_str()) {
                let mut l = concat3(m.id.as_str(), " (", d.as_str());
                push_str(&mut l, ")");
                l
            } else {
                m.id.clone()
            }
        },
        None => m.id.clone(),
    };
    let is_default = match default_model {
        Some(d) => eq_ignore_ascii_case(d, m.id.as_str()),
        None => false,
    };
    if is_default {
        push_str(&mut label, "*");
    }
    let metadata = model_metadata_text(m, stamp);
    let inspect_metadata = crate::picker::copy_opt_string(&metadata);
    let sort_key = if has_dates {
        match m.created {
            Some(c) => if c > 0 {
                Some(u64_zero_padded20(c))
            } else {
                None
            },
            None => None,
        }
    } else {
        None
    };
    PickerItem { id: m.id.clone(), label, metadata, inspect_metadata, sort_key }
}

fn model_stamp_text(m: &Model) -> (r: Option<String>)
    ensures
        opt_string_view(r) == model_stamp(*m),
{
    match m.created {
        Some(c) => {
            if 0 < c && c < u64::MAX / 1000 {
                let secs = if c > 10_000_000_000 {
                    c / 1000
                } else {
                    c
                };
                if 0 < secs && secs < 32_503_680_000 {
                    format_utc(secs as i64, "%Y-%m-%d %H:%M UTC")
                } else {
                    None
                }
            } else {
                None
            }
        },
        None => None,
    }
}

/// `items` are the entries of `models`, in order.
pub open spec fn model_items_spec(
    items: Seq<PickerItem>,
    models: Seq<Model>,
    default_model: Option<Seq<char>>,
    has_dates: bool,
) -> bool {
    &&& items.len() == models.len()
    &&& forall|k: int|
        0 <= k < models.len() ==> model_item_spec(
            #[trigger] items[k],
            models[k],
            default_model,
            has_dates,
            model_stamp(models[k]),
        )
}

/// The message when a provider lists no model.
pub open spec fn no_models_message() -> Seq<char> {
    "No models available from this provider"@
}

pub open spec fn models_populated(c0: PickerController, c1: PickerController, session_context: SessionContext, default_model_for_provider: Option<String>, models_response: ModelsResponse, r: Result<(), String>) -> bool {
    &&& (match r {
        Err(e) => models_response.data@.len() == 0 && e@ == no_models_message()
            && c1 == c0,
        Ok(()) => models_response.data@.len() > 0 && (c1.picker_session matches Some(
            a,
        ) && a.data matches PickerData::Model(ms) && {
            let current = Some(session_context.model@);
            &&& ms.search_filter@.len() == 0
            &&& ms.has_dates == models_have_dates(models_response.data@)
            &&& ms.before_model == Some(session_context.model)
            &&& model_items_spec(
                ms.all_items@,
                models_response.data@,
                opt_string_view(default_model_for_provider),
                ms.has_dates,
            )
            &&& started_with(
                c0,
                a.data,
                ms.all_items@,
                initial_selection(PickerMode::Model, ms.all_items@, current),
                current,
                c1,
            )
        }),
    })
}

impl PickerController {
    /// Opens the model picker over a provider's listing, in the order given.
    /// The provider's default model is starred, the session's model is
    /// selected and saved so that cancelling restores it. An empty listing
    /// is refused and nothing changes.
    pub fn populate_model_picker_from_response(
        &mut self,
        session_context: &SessionContext,
        default_model_for_provider: Option<String>,
        models_response: ModelsResponse,
    ) -> (r: Result<(), String>)
        ensures
            models_populated(*old(self), *final(self), *session_context, default_model_for_provider, models_response, r),
    {
        let models = models_response.data;
        if models.len() == 0 {
            return Err(crate::text::str_to_string("No models available from this provider"));
        }
        let has_dates = any_dates(&models);
        let default_model = opt_as_str(&default_model_for_provider);
        let mut items: Vec<PickerItem> = Vec::new();
        let mut i: usize = 0;
        while i < models.len()
            invariant
                i <= models@.len(),
                items@.len() == i,
                opt_str_view(default_model) == opt_string_view(default_model_for_provider),
                forall|k: int|
                    0 <= k < i ==> model_item_spec(
                        #[trigger] items@[k],
                        models@[k],
                        opt_string_view(default_model_for_provider),
                        has_dates,
                        model_stamp(models@[k]),
                    ),
            decreases models.len() - i,
        {
            let stamp = model_stamp_text(&models[i]);
            items.push(model_picker_item(&models[i], default_model, has_dates, stamp));
            i = i + 1;
        }
        let current: Option<&str> = Some(session_context.model.as_str());
        let selected = find_initial(PickerMode::Model, &items, current);
        let shown = duplicate_items(&items);
        let state = PickerState::new("Pick Model", shown, selected);
        let session = PickerSession {
            state,
            data: PickerData::Model(
                ModelPickerState {
                    search_filter: String::new(),
                    all_items: items,
                    before_model: Some(session_context.model.clone()),
                    has_dates,
                },
            ),
        };
        self.start_picker_session(session, Some(session_context.model.clone()));
        Ok(())
    }
}

} // verus!
