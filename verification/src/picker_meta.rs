//! The one-line summaries and multi-line inspect texts shown for theme,
//! provider and character picker entries.

use vstd::prelude::*;
use crate::session::CharacterCard;
use crate::picker::copy_opt_string;
use crate::text::{
    concat2, inspect_clean, is_blank, join_strings, join_with, lines_of, lines_spec,
    metadata_char, normalize_ws, sanitized_metadata, push_str, sanitize_picker_metadata,
    sanitize_picker_metadata_for_inspect, str_to_string, strings_view, trim, trim_end,
    trim_end_seq, trim_seq, all_ws, lemma_trim_empty_iff_all_ws,
};

verus! {

/// The colours and styles a theme defines, by name; unset entries are
/// `None`.
pub struct ThemeSpec {
    pub id: String,
    pub display_name: String,
    pub background: Option<String>,
    pub selection_highlight: Option<String>,
    pub title: Option<String>,
    pub streaming_indicator: Option<String>,
    pub user_prefix: Option<String>,
    pub user_text: Option<String>,
    pub assistant_text: Option<String>,
    pub system_text: Option<String>,
    pub app_info_prefix: Option<String>,
    pub app_info_prefix_style: Option<String>,
    pub app_info_text: Option<String>,
    pub app_warning_prefix: Option<String>,
    pub app_warning_prefix_style: Option<String>,
    pub app_warning_text: Option<String>,
    pub app_error_prefix: Option<String>,
    pub app_error_prefix_style: Option<String>,
    pub app_error_text: Option<String>,
    pub input_border: Option<String>,
    pub input_title: Option<String>,
    pub input_text: Option<String>,
    pub input_cursor_modifiers: Option<String>,
    pub cursor_color: Option<String>,
    pub md_h1: Option<String>,
    pub md_h2: Option<String>,
    pub md_h3: Option<String>,
    pub md_h4: Option<String>,
    pub md_h5: Option<String>,
    pub md_h6: Option<String>,
    pub md_paragraph: Option<String>,
    pub md_inline_code: Option<String>,
    pub md_link: Option<String>,
    pub md_rule: Option<String>,
    pub md_blockquote_text: Option<String>,
    pub md_list_marker: Option<String>,
    pub md_codeblock_text: Option<String>,
    pub md_codeblock_bg: Option<String>,
}

/// A provider shipped with the application.
pub struct BuiltinProvider {
    pub id: String,
    pub display_name: String,
    pub base_url: String,
    pub auth_mode: String,
}

/// A provider defined in the configuration file.
pub struct CustomProvider {
    pub id: String,
    pub display_name: String,
    pub base_url: String,
    pub mode: Option<String>,
}

/// Where a theme comes from.
#[derive(Clone, Copy, Debug, PartialEq, Eq, Structural)]
pub enum ThemeSource {
    Builtin,
    Custom,
}

impl ThemeSource {
    pub open spec fn label_spec(self) -> Seq<char> {
        match self {
            ThemeSource::Builtin => "Built-in theme"@,
            ThemeSource::Custom => "Custom theme (config.toml)"@,
        }
    }

    pub fn label(self) -> (r: &'static str)
        ensures
            r@ == self.label_spec(),
    {
        match self {
            ThemeSource::Builtin => "Built-in theme",
            ThemeSource::Custom => "Custom theme (config.toml)",
        }
    }
}

// ---------------------------------------------------------------------------
// Inspect text assembly
// ---------------------------------------------------------------------------

/// `lines` without its trailing blank lines.
pub open spec fn trim_trailing_blank(lines: Seq<Seq<char>>) -> Seq<Seq<char>>
    decreases lines.len(),
{
    if lines.len() > 0 && trim_seq(lines.last()).len() == 0 {
        trim_trailing_blank(lines.drop_last())
    } else {
        lines
    }
}

/// Inspect text from lines: trailing blank lines dropped, lines joined with
/// newlines, then cleaned for the inspect view.
pub open spec fn inspect_text(lines: Seq<Seq<char>>) -> Seq<char> {
    inspect_clean(join_with(trim_trailing_blank(lines), seq!['\n']))
}

/// Drops trailing blank lines.
pub fn trim_trailing_blank_lines(lines: Vec<String>) -> (r: Vec<String>)
    ensures
        strings_view(r@) == trim_trailing_blank(strings_view(lines@)),
{
    let ghost original = strings_view(lines@);
    let mut lines = lines;
    while lines.len() > 0 && is_blank(lines[lines.len() - 1].as_str())
        invariant
            trim_trailing_blank(strings_view(lines@)) == trim_trailing_blank(original),
        decreases lines.len(),
    {
        let ghost before = strings_view(lines@);
        proof {
            lemma_trim_empty_iff_all_ws(lines@[lines@.len() - 1]@);
        }
        let _ = lines.pop();
        assert(strings_view(lines@) =~= before.drop_last());
    }
    proof {
        if lines@.len() > 0 {
            lemma_trim_empty_iff_all_ws(lines@[lines@.len() - 1]@);
        }
    }
    lines
}

/// Joins lines into the text the inspect view shows.
pub fn build_inspect_text(lines: Vec<String>) -> (r: String)
    ensures
        r@ == inspect_text(strings_view(lines@)),
{
    let trimmed = trim_trailing_blank_lines(lines);
    let joined = join_strings(&trimmed, "\n");
    assert("\n"@ == seq!['\n']) by {
        reveal_strlit("\n");
    }
    sanitize_picker_metadata_for_inspect(joined.as_str())
}

/// The one-line summary built from its parts.
pub open spec fn summary_text(parts: Seq<Seq<char>>) -> Seq<char> {
    sanitized_metadata(join_with(parts, " \u{2022} "@))
}

// ---------------------------------------------------------------------------
// Theme sections
// ---------------------------------------------------------------------------

/// The `  label: value` lines of a section, for the values that are set.
pub open spec fn section_lines(labels: Seq<Seq<char>>, values: Seq<Option<String>>) -> Seq<
    Seq<char>,
>
    recommends
        labels.len() == values.len(),
    decreases labels.len(),
{
    if labels.len() == 0 || values.len() == 0 {
        seq![]
    } else {
        let p = section_lines(labels.drop_last(), values.drop_last());
        match values.last() {
            Some(v) => p.push("  "@ + labels.last() + ": "@ + v@),
            None => p,
        }
    }
}

/// A section: its heading over its lines, or nothing when no value is set.
pub open spec fn theme_section(
    heading: Seq<char>,
    labels: Seq<Seq<char>>,
    values: Seq<Option<String>>,
) -> Option<Seq<char>> {
    let ls = section_lines(labels, values);
    if ls.len() == 0 {
        None
    } else {
        Some(join_with(seq![heading] + ls, seq!['\n']))
    }
}

/// `lines` with a section appended: a blank separator unless the last line is
/// already empty, then the section's lines.
pub open spec fn with_section(
    lines: Seq<Seq<char>>,
    heading: Seq<char>,
    labels: Seq<Seq<char>>,
    values: Seq<Option<String>>,
) -> Seq<Seq<char>> {
    match theme_section(heading, labels, values) {
        Some(section) => {
            let sep = if lines.len() > 0 && lines.last().len() == 0 {
                lines
            } else {
                lines.push(seq![])
            };
            sep + lines_spec(section)
        },
        None => lines,
    }
}

pub open spec fn str_views(v: Seq<&str>) -> Seq<Seq<char>> {
    v.map_values(|s: &str| s@)
}

fn build_theme_section(heading: &str, labels: &Vec<&str>, values: &Vec<Option<String>>) -> (r:
    Option<String>)
    requires
        labels@.len() == values@.len(),
    ensures
        match r {
            Some(s) => theme_section(heading@, str_views(labels@), values@) == Some(s@),
            None => theme_section(heading@, str_views(labels@), values@) is None,
        },
{
    let mut section_lines_v: Vec<String> = Vec::new();
    let mut i: usize = 0;
    while i < labels.len()
        invariant
            i <= labels@.len(),
            labels@.len() == values@.len(),
            strings_view(section_lines_v@) == section_lines(
                str_views(labels@.take(i as int)),
                values@.take(i as int),
            ),
        decreases labels.len() - i,
    {
        let ghost lt = str_views(labels@.take(i + 1));
        let ghost vt = values@.take(i + 1);
        assert(lt.drop_last() =~= str_views(labels@.take(i as int)));
        assert(vt.drop_last() =~= values@.take(i as int));
        assert(lt.last() == labels@[i as int]@);
        assert(vt.last() == values@[i as int]);
        if let Some(value) = &values[i] {
            let mut line = str_to_string("  ");
            push_str(&mut line, labels[i]);
            push_str(&mut line, ": ");
            push_str(&mut line, value.as_str());
            let ghost before = strings_view(section_lines_v@);
            section_lines_v.push(line);
            assert(strings_view(section_lines_v@) =~= before.push(line@));
        }
        i = i + 1;
    }
    assert(labels@.take(labels@.len() as int) =~= labels@);
    assert(values@.take(values@.len() as int) =~= values@);
    if section_lines_v.len() == 0 {
        return None;
    }
    let mut result: Vec<String> = Vec::new();
    result.push(str_to_string(heading));
    let ghost sl = strings_view(section_lines_v@);
    result.append(&mut section_lines_v);
    assert(strings_view(result@) =~= seq![heading@] + sl);
    let joined = join_strings(&result, "\n");
    assert("\n"@ == seq!['\n']) by {
        reveal_strlit("\n");
    }
    Some(joined)
}

/// Appends the views of `extra` to `lines`.
fn extend_lines(lines: &mut Vec<String>, extra: Vec<String>)
    ensures
        strings_view(final(lines)@) == strings_view(old(lines)@) + strings_view(extra@),
{
    let mut extra = extra;
    let ghost e = strings_view(extra@);
    lines.append(&mut extra);
    assert(strings_view(final(lines)@) =~= strings_view(old(lines)@) + e);
}

fn append_theme_section(
    lines: &mut Vec<String>,
    heading: &str,
    labels: &Vec<&str>,
    values: &Vec<Option<String>>,
)
    requires
        labels@.len() == values@.len(),
    ensures
        strings_view(final(lines)@) == with_section(
            strings_view(old(lines)@),
            heading@,
            str_views(labels@),
            values@,
        ),
{
    if let Some(section) = build_theme_section(heading, labels, values) {
        let last_empty = lines.len() > 0 && crate::text::str_is_empty(
            lines[lines.len() - 1].as_str(),
        );
        if !last_empty {
            let ghost before = strings_view(lines@);
            lines.push(String::new());
            assert(strings_view(lines@) =~= before.push(seq![]));
        }
        let split = lines_of(section.as_str());
        extend_lines(lines, split);
    }
}

/// The five sections of a theme's inspect text, after a blank line.
pub open spec fn theme_sections(lines: Seq<Seq<char>>, spec: ThemeSpec) -> Seq<Seq<char>> {
    let l0 = lines.push(seq![]);
    let l1 = with_section(
        l0,
        "General"@,
        seq!["Background"@, "Selection highlight"@, "Title"@, "Streaming indicator"@],
        seq![spec.background, spec.selection_highlight, spec.title, spec.streaming_indicator],
    );
    let l2 = with_section(
        l1,
        "Chat"@,
        seq!["User prefix"@, "User text"@, "Assistant text"@, "System text"@],
        seq![spec.user_prefix, spec.user_text, spec.assistant_text, spec.system_text],
    );
    let l3 = with_section(
        l2,
        "App messages"@,
        seq![
            "Info prefix"@,
            "Info prefix style"@,
            "Info text"@,
            "Warning prefix"@,
            "Warning prefix style"@,
            "Warning text"@,
            "Error prefix"@,
            "Error prefix style"@,
            "Error text"@,
        ],
        seq![
            spec.app_info_prefix,
            spec.app_info_prefix_style,
            spec.app_info_text,
            spec.app_warning_prefix,
            spec.app_warning_prefix_style,
            spec.app_warning_text,
            spec.app_error_prefix,
            spec.app_error_prefix_style,
            spec.app_error_text,
        ],
    );
    let l4 = with_section(
        l3,
        "Input"@,
        seq!["Border"@, "Title"@, "Text"@, "Cursor modifiers"@, "Cursor color"@],
        seq![
            spec.input_border,
            spec.input_title,
            spec.input_text,
            spec.input_cursor_modifiers,
            spec.cursor_color,
        ],
    );
    with_section(
        l4,
        "Markdown"@,
        seq![
            "Heading 1"@,
            "Heading 2"@,
            "Heading 3"@,
            "Heading 4"@,
            "Heading 5"@,
            "Heading 6"@,
            "Paragraph"@,
            "Inline code"@,
            "Link"@,
            "Rule"@,
            "Blockquote"@,
            "List marker"@,
            "Code block text"@,
            "Code block background"@,
        ],
        seq![
            spec.md_h1,
            spec.md_h2,
            spec.md_h3,
            spec.md_h4,
            spec.md_h5,
            spec.md_h6,
            spec.md_paragraph,
            spec.md_inline_code,
            spec.md_link,
            spec.md_rule,
            spec.md_blockquote_text,
            spec.md_list_marker,
            spec.md_codeblock_text,
            spec.md_codeblock_bg,
        ],
    )
}

/// Appends the theme's sections (see `theme_sections`).
pub fn append_theme_sections(lines: &mut Vec<String>, spec: &ThemeSpec)
    ensures
        strings_view(final(lines)@) == theme_sections(strings_view(old(lines)@), *spec),
{
    let ghost before = strings_view(lines@);
    lines.push(String::new());
    assert(strings_view(lines@) =~= before.push(seq![]));

    let labels = vec!["Background", "Selection highlight", "Title", "Streaming indicator"];
    let values = vec![copy_opt_string(&spec.background), copy_opt_string(&spec.selection_highlight), copy_opt_string(&spec.title), copy_opt_string(&spec.streaming_indicator)];
    assert(str_views(labels@) =~= seq!["Background"@, "Selection highlight"@, "Title"@, "Streaming indicator"@]);
    assert(values@ =~= seq![spec.background, spec.selection_highlight, spec.title, spec.streaming_indicator]);
    append_theme_section(lines, "General", &labels, &values);

    let labels = vec!["User prefix", "User text", "Assistant text", "System text"];
    let values = vec![copy_opt_string(&spec.user_prefix), copy_opt_string(&spec.user_text), copy_opt_string(&spec.assistant_text), copy_opt_string(&spec.system_text)];
    assert(str_views(labels@) =~= seq!["User prefix"@, "User text"@, "Assistant text"@, "System text"@]);
    assert(values@ =~= seq![spec.user_prefix, spec.user_text, spec.assistant_text, spec.system_text]);
    append_theme_section(lines, "Chat", &labels, &values);

    let labels = vec![
        "Info prefix",
        "Info prefix style",
        "Info text",
        "Warning prefix",
        "Warning prefix style",
        "Warning text",
        "Error prefix",
        "Error prefix style",
        "Error text",
    ];
    let values = vec![
        copy_opt_string(&spec.app_info_prefix),
        copy_opt_string(&spec.app_info_prefix_style),
        copy_opt_string(&spec.app_info_text),
        copy_opt_string(&spec.app_warning_prefix),
        copy_opt_string(&spec.app_warning_prefix_style),
        copy_opt_string(&spec.app_warning_text),
        copy_opt_string(&spec.app_error_prefix),
        copy_opt_string(&spec.app_error_prefix_style),
        copy_opt_string(&spec.app_error_text),
    ];
    assert(str_views(labels@) =~= seq![
        "Info prefix"@,
        "Info prefix style"@,
        "Info text"@,
        "Warning prefix"@,
        "Warning prefix style"@,
        "Warning text"@,
        "Error prefix"@,
        "Error prefix style"@,
        "Error text"@,
    ]);
    assert(values@ =~= seq![
        spec.app_info_prefix,
        spec.app_info_prefix_style,
        spec.app_info_text,
        spec.app_warning_prefix,
        spec.app_warning_prefix_style,
        spec.app_warning_text,
        spec.app_error_prefix,
        spec.app_error_prefix_style,
        spec.app_error_text,
    ]);
    append_theme_section(lines, "App messages", &labels, &values);

    let labels = vec!["Border", "Title", "Text", "Cursor modifiers", "Cursor color"];
    let values = vec![
        copy_opt_string(&spec.input_border),
        copy_opt_string(&spec.input_title),
        copy_opt_string(&spec.input_text),
        copy_opt_string(&spec.input_cursor_modifiers),
        copy_opt_string(&spec.cursor_color),
    ];
    assert(str_views(labels@) =~= seq!["Border"@, "Title"@, "Text"@, "Cursor modifiers"@, "Cursor color"@]);
    assert(values@ =~= seq![
        spec.input_border,
        spec.input_title,
        spec.input_text,
        spec.input_cursor_modifiers,
        spec.cursor_color,
    ]);
    append_theme_section(lines, "Input", &labels, &values);

    let labels = vec![
        "Heading 1",
        "Heading 2",
        "Heading 3",
        "Heading 4",
        "Heading 5",
        "Heading 6",
        "Paragraph",
        "Inline code",
        "Link",
        "Rule",
        "Blockquote",
        "List marker",
        "Code block text",
        "Code block background",
    ];
    let values = vec![
        copy_opt_string(&spec.md_h1),
        copy_opt_string(&spec.md_h2),
        copy_opt_string(&spec.md_h3),
        copy_opt_string(&spec.md_h4),
        copy_opt_string(&spec.md_h5),
        copy_opt_string(&spec.md_h6),
        copy_opt_string(&spec.md_paragraph),
        copy_opt_string(&spec.md_inline_code),
        copy_opt_string(&spec.md_link),
        copy_opt_string(&spec.md_rule),
        copy_opt_string(&spec.md_blockquote_text),
        copy_opt_string(&spec.md_list_marker),
        copy_opt_string(&spec.md_codeblock_text),
        copy_opt_string(&spec.md_codeblock_bg),
    ];
    assert(str_views(labels@) =~= seq![
        "Heading 1"@,
        "Heading 2"@,
        "Heading 3"@,
        "Heading 4"@,
        "Heading 5"@,
        "Heading 6"@,
        "Paragraph"@,
        "Inline code"@,
        "Link"@,
        "Rule"@,
        "Blockquote"@,
        "List marker"@,
        "Code block text"@,
        "Code block background"@,
    ]);
    assert(values@ =~= seq![
        spec.md_h1,
        spec.md_h2,
        spec.md_h3,
        spec.md_h4,
        spec.md_h5,
        spec.md_h6,
        spec.md_paragraph,
        spec.md_inline_code,
        spec.md_link,
        spec.md_rule,
        spec.md_blockquote_text,
        spec.md_list_marker,
        spec.md_codeblock_text,
        spec.md_codeblock_bg,
    ]);
    append_theme_section(lines, "Markdown", &labels, &values);
}


// ---------------------------------------------------------------------------
// Theme and provider metadata
// ---------------------------------------------------------------------------

/// The parts of a theme's one-line summary.
pub open spec fn theme_summary_parts(spec: ThemeSpec, source: ThemeSource, is_default: bool) -> Seq<
    Seq<char>,
> {
    let base = seq![source.label_spec(), "ID: "@ + spec.id@];
    if is_default {
        base.push("Default from config"@)
    } else {
        base
    }
}

/// The head lines of a theme's inspect text.
pub open spec fn theme_head_lines(spec: ThemeSpec, source: ThemeSource, is_default: bool) -> Seq<
    Seq<char>,
> {
    let base = seq![
        "Theme: "@ + spec.display_name@ + " (ID: "@ + spec.id@ + ")"@,
        "Source: "@ + source.label_spec(),
    ];
    if is_default {
        base.push("Status: Default theme from config"@)
    } else {
        base
    }
}

pub fn push_line(lines: &mut Vec<String>, line: String)
    ensures
        strings_view(final(lines)@) == strings_view(old(lines)@).push(line@),
{
    lines.push(line);
    assert(strings_view(final(lines)@) =~= strings_view(old(lines)@).push(line@));
}

/// The one-line summary and the inspect text of a theme entry.
pub fn theme_metadata(spec: &ThemeSpec, source: ThemeSource, is_default: bool) -> (r: (
    String,
    String,
))
    ensures
        r.0@ == summary_text(theme_summary_parts(*spec, source, is_default)),
        r.1@ == inspect_text(theme_sections(theme_head_lines(*spec, source, is_default), *spec)),
{
    let mut parts: Vec<String> = Vec::new();
    push_line(&mut parts, str_to_string(source.label()));
    push_line(&mut parts, concat2("ID: ", spec.id.as_str()));
    if is_default {
        push_line(&mut parts, str_to_string("Default from config"));
    }
    assert(strings_view(parts@) =~= theme_summary_parts(*spec, source, is_default));
    let joined = join_strings(&parts, " \u{2022} ");
    let summary = sanitize_picker_metadata(joined.as_str());

    let mut lines: Vec<String> = Vec::new();
    let mut first = concat2("Theme: ", spec.display_name.as_str());
    push_str(&mut first, " (ID: ");
    push_str(&mut first, spec.id.as_str());
    push_str(&mut first, ")");
    push_line(&mut lines, first);
    push_line(&mut lines, concat2("Source: ", source.label()));
    if is_default {
        push_line(&mut lines, str_to_string("Status: Default theme from config"));
    }
    assert(strings_view(lines@) =~= theme_head_lines(*spec, source, is_default));
    append_theme_sections(&mut lines, spec);
    let inspect = build_inspect_text(lines);
    (summary, inspect)
}

/// The parts of a provider's one-line summary.
pub open spec fn provider_summary_parts(
    id: Seq<char>,
    base_url: Seq<char>,
    source: Seq<char>,
    is_default: bool,
) -> Seq<Seq<char>> {
    let base = seq![source, "ID: "@ + id, base_url];
    if is_default {
        base.push("Default from config"@)
    } else {
        base
    }
}

/// The lines of a provider's inspect text.
pub open spec fn provider_lines(
    display_name: Seq<char>,
    id: Seq<char>,
    base_url: Seq<char>,
    source: Seq<char>,
    auth_mode: Option<Seq<char>>,
    is_default: bool,
) -> Seq<Seq<char>> {
    let base = seq![
        "Provider: "@ + display_name,
        "ID: "@ + id,
        "Source: "@ + source,
        "Base URL: "@ + base_url,
    ];
    let with_mode = match auth_mode {
        Some(m) => base.push("Authentication mode: "@ + m),
        None => base,
    };
    if is_default {
        with_mode.push("Status: Default provider from config"@)
    } else {
        with_mode
    }
}

/// The one-line summary and the inspect text of a provider entry.
pub fn provider_metadata(
    display_name: &str,
    id: &str,
    base_url: &str,
    source: &str,
    auth_mode: Option<&str>,
    is_default: bool,
) -> (r: (String, String))
    ensures
        r.0@ == summary_text(provider_summary_parts(id@, base_url@, source@, is_default)),
        r.1@ == inspect_text(
            provider_lines(display_name@, id@, base_url@, source@, match auth_mode {
                Some(m) => Some(m@),
                None => None,
            }, is_default),
        ),
{
    let mut parts: Vec<String> = Vec::new();
    push_line(&mut parts, str_to_string(source));
    push_line(&mut parts, concat2("ID: ", id));
    push_line(&mut parts, str_to_string(base_url));
    if is_default {
        push_line(&mut parts, str_to_string("Default from config"));
    }
    assert(strings_view(parts@) =~= provider_summary_parts(id@, base_url@, source@, is_default));
    let joined = join_strings(&parts, " \u{2022} ");
    let summary = sanitize_picker_metadata(joined.as_str());

    let mut lines: Vec<String> = Vec::new();
    push_line(&mut lines, concat2("Provider: ", display_name));
    push_line(&mut lines, concat2("ID: ", id));
    push_line(&mut lines, concat2("Source: ", source));
    push_line(&mut lines, concat2("Base URL: ", base_url));
    if let Some(mode) = auth_mode {
        push_line(&mut lines, concat2("Authentication mode: ", mode));
    }
    if is_default {
        push_line(&mut lines, str_to_string("Status: Default provider from config"));
    }
    assert(strings_view(lines@) =~= provider_lines(display_name@, id@, base_url@, source@, match auth_mode {
        Some(m) => Some(m@),
        None => None,
    }, is_default));
    let inspect = build_inspect_text(lines);
    (summary, inspect)
}

/// Metadata of a built-in provider entry.
pub fn provider_metadata_builtin(provider: &BuiltinProvider, is_default: bool) -> (r: (
    String,
    String,
))
    ensures
        r.0@ == summary_text(
            provider_summary_parts(provider.id@, provider.base_url@, "Built-in provider"@, is_default),
        ),
        r.1@ == inspect_text(
            provider_lines(
                provider.display_name@,
                provider.id@,
                provider.base_url@,
                "Built-in provider"@,
                Some(provider.auth_mode@),
                is_default,
            ),
        ),
{
    provider_metadata(
        provider.display_name.as_str(),
        provider.id.as_str(),
        provider.base_url.as_str(),
        "Built-in provider",
        Some(provider.auth_mode.as_str()),
        is_default,
    )
}

/// Metadata of a provider entry from the configuration file.
pub fn provider_metadata_custom(provider: &CustomProvider, is_default: bool) -> (r: (
    String,
    String,
))
    ensures
        r.0@ == summary_text(
            provider_summary_parts(
                provider.id@,
                provider.base_url@,
                "Custom provider (config.toml)"@,
                is_default,
            ),
        ),
        r.1@ == inspect_text(
            provider_lines(
                provider.display_name@,
                provider.id@,
                provider.base_url@,
                "Custom provider (config.toml)"@,
                match provider.mode {
                    Some(m) => Some(m@),
                    None => None,
                },
                is_default,
            ),
        ),
{
    let mode: Option<&str> = match &provider.mode {
        Some(m) => Some(m.as_str()),
        None => None,
    };
    provider_metadata(
        provider.display_name.as_str(),
        provider.id.as_str(),
        provider.base_url.as_str(),
        "Custom provider (config.toml)",
        mode,
        is_default,
    )
}


// ---------------------------------------------------------------------------
// Character inspect text
// ---------------------------------------------------------------------------

/// Each line prefixed, its trailing whitespace removed; the first line gets
/// `first`, the others `rest`.
pub open spec fn prefixed_lines(ls: Seq<Seq<char>>, first: Seq<char>, rest: Seq<char>) -> Seq<
    Seq<char>,
> {
    Seq::new(
        ls.len(),
        |i: int|
            if i == 0 {
                first + trim_end_seq(ls[i])
            } else {
                rest + trim_end_seq(ls[i])
            },
    )
}

/// `lines` followed by a block: blank line, `heading:`, then the lines of the
/// trimmed content indented; nothing when the content is blank.
pub open spec fn with_block(lines: Seq<Seq<char>>, heading: Seq<char>, content: Seq<char>) -> Seq<
    Seq<char>,
> {
    let t = trim_seq(content);
    if t.len() == 0 {
        lines
    } else {
        lines + seq![seq![], heading + ":"@] + prefixed_lines(lines_spec(t), "  "@, "  "@)
    }
}

pub open spec fn with_optional_block(
    lines: Seq<Seq<char>>,
    heading: Seq<char>,
    content: Option<String>,
) -> Seq<Seq<char>> {
    match content {
        Some(c) => with_block(lines, heading, c@),
        None => lines,
    }
}

/// The trimmed, non-blank items, in order.
pub open spec fn nonblank_trimmed(items: Seq<Seq<char>>) -> Seq<Seq<char>>
    decreases items.len(),
{
    if items.len() == 0 {
        seq![]
    } else if trim_seq(items.last()).len() == 0 {
        nonblank_trimmed(items.drop_last())
    } else {
        nonblank_trimmed(items.drop_last()).push(trim_seq(items.last()))
    }
}

/// The lines of each item as a bullet: `  - ` before its first line and four
/// spaces before the others.
pub open spec fn bullet_lines(items: Seq<Seq<char>>) -> Seq<Seq<char>>
    decreases items.len(),
{
    if items.len() == 0 {
        seq![]
    } else {
        bullet_lines(items.drop_last()) + prefixed_lines(lines_spec(items.last()), "  - "@, "    "@)
    }
}

/// `lines` followed by a bullet list of the non-blank items, if any.
pub open spec fn with_list(
    lines: Seq<Seq<char>>,
    heading: Seq<char>,
    items: Option<Vec<String>>,
) -> Seq<Seq<char>> {
    match items {
        Some(v) => {
            let f = nonblank_trimmed(strings_view(v@));
            if f.len() == 0 {
                lines
            } else {
                lines + seq![seq![], heading + ":"@] + bullet_lines(f)
            }
        },
        None => lines,
    }
}

/// `lines` followed by a blank line and `label` + trimmed value, when the
/// value is set and not blank.
pub open spec fn with_trimmed_field(lines: Seq<Seq<char>>, label: Seq<char>, value: Option<String>) -> Seq<
    Seq<char>,
> {
    match value {
        Some(v) => if trim_seq(v@).len() == 0 {
            lines
        } else {
            lines + seq![seq![], label + trim_seq(v@)]
        },
        None => lines,
    }
}

/// `lines` followed by the tag line, when there are tags.
pub open spec fn with_tags(lines: Seq<Seq<char>>, tags: Option<Vec<String>>) -> Seq<Seq<char>> {
    match tags {
        Some(t) => if t@.len() == 0 {
            lines
        } else {
            lines + seq![seq![], "Tags: "@ + join_with(strings_view(t@), ", "@)]
        },
        None => lines,
    }
}

/// All lines of a character's inspect text.
pub open spec fn character_lines(card: CharacterCard) -> Seq<Seq<char>> {
    let d = card.data;
    let l0 = seq![
        "Character: "@ + d.name@,
        "Spec: "@ + card.spec@ + " (version "@ + card.spec_version@ + ")"@,
    ];
    let l1 = with_block(l0, "Description"@, d.description@);
    let l2 = with_block(l1, "Personality"@, d.personality@);
    let l3 = with_block(l2, "Scenario"@, d.scenario@);
    let l4 = with_block(l3, "First message"@, d.first_mes@);
    let l5 = with_block(l4, "Example dialogue"@, d.mes_example@);
    let l6 = with_optional_block(l5, "System prompt"@, d.system_prompt);
    let l7 = with_optional_block(l6, "Creator notes"@, d.creator_notes);
    let l8 = with_optional_block(l7, "Post-history instructions"@, d.post_history_instructions);
    let l9 = with_list(l8, "Alternate greetings"@, d.alternate_greetings);
    let l10 = with_tags(l9, d.tags);
    let l11 = with_trimmed_field(l10, "Creator: "@, d.creator);
    with_trimmed_field(l11, "Version: "@, d.character_version)
}

/// Appends the lines of `src`, prefixed as `prefixed_lines` says.
fn push_prefixed(lines: &mut Vec<String>, src: &Vec<String>, first: &str, rest: &str)
    ensures
        strings_view(final(lines)@) == strings_view(old(lines)@) + prefixed_lines(
            strings_view(src@),
            first@,
            rest@,
        ),
{
    let ghost start = strings_view(lines@);
    let ghost target = prefixed_lines(strings_view(src@), first@, rest@);
    let mut i: usize = 0;
    while i < src.len()
        invariant
            i <= src@.len(),
            target == prefixed_lines(strings_view(src@), first@, rest@),
            strings_view(lines@) == start + target.take(i as int),
        decreases src.len() - i,
    {
        let body = trim_end(src[i].as_str());
        let line = if i == 0 {
            concat2(first, body.as_str())
        } else {
            concat2(rest, body.as_str())
        };
        push_line(lines, line);
        assert(target.take(i + 1) =~= target.take(i as int).push(target[i as int]));
        assert(strings_view(lines@) =~= start + target.take(i + 1));
        i = i + 1;
    }
    assert(target.take(src@.len() as int) =~= target);
}

fn append_character_block(lines: &mut Vec<String>, heading: &str, content: &str)
    ensures
        strings_view(final(lines)@) == with_block(strings_view(old(lines)@), heading@, content@),
{
    let trimmed = trim(content);
    if crate::text::str_is_empty(trimmed.as_str()) {
        return ;
    }
    let ghost start = strings_view(lines@);
    push_line(lines, String::new());
    push_line(lines, concat2(heading, ":"));
    assert(strings_view(lines@) =~= start + seq![seq![], heading@ + ":"@]);
    let split = lines_of(trimmed.as_str());
    push_prefixed(lines, &split, "  ", "  ");
    assert(strings_view(lines@) =~= start + seq![seq![], heading@ + ":"@] + prefixed_lines(
        lines_spec(trim_seq(content@)),
        "  "@,
        "  "@,
    ));
}

fn append_character_block_optional(lines: &mut Vec<String>, heading: &str, content: &Option<String>)
    ensures
        strings_view(final(lines)@) == with_optional_block(
            strings_view(old(lines)@),
            heading@,
            *content,
        ),
{
    if let Some(c) = content {
        append_character_block(lines, heading, c.as_str());
    }
}

fn append_character_list(lines: &mut Vec<String>, heading: &str, items: &Option<Vec<String>>)
    ensures
        strings_view(final(lines)@) == with_list(strings_view(old(lines)@), heading@, *items),
{
    if let Some(items) = items {
        let mut filtered: Vec<String> = Vec::new();
        let mut i: usize = 0;
        while i < items.len()
            invariant
                i <= items@.len(),
                strings_view(filtered@) == nonblank_trimmed(strings_view(items@.take(i as int))),
            decreases items.len() - i,
        {
            let t = trim(items[i].as_str());
            let ghost q = strings_view(items@.take(i + 1));
            assert(q.drop_last() =~= strings_view(items@.take(i as int)));
            assert(q.last() == items@[i as int]@);
            if !crate::text::str_is_empty(t.as_str()) {
                push_line(&mut filtered, t);
            }
            i = i + 1;
        }
        assert(items@.take(items@.len() as int) =~= items@);
        if filtered.len() == 0 {
            return ;
        }
        let ghost start = strings_view(lines@);
        push_line(lines, String::new());
        push_line(lines, concat2(heading, ":"));
        let ghost f = strings_view(filtered@);
        let mut j: usize = 0;
        while j < filtered.len()
            invariant
                j <= filtered@.len(),
                f == strings_view(filtered@),
                strings_view(lines@) == start + seq![seq![], heading@ + ":"@] + bullet_lines(
                    f.take(j as int),
                ),
            decreases filtered.len() - j,
        {
            let split = lines_of(filtered[j].as_str());
            let ghost before = strings_view(lines@);
            push_prefixed(lines, &split, "  - ", "    ");
            assert(f.take(j + 1).drop_last() =~= f.take(j as int));
            assert(f.take(j + 1).last() == f[j as int]);
            assert(strings_view(lines@) =~= start + seq![seq![], heading@ + ":"@] + bullet_lines(
                f.take(j + 1),
            ));
            j = j + 1;
        }
        assert(f.take(f.len() as int) =~= f);
    }
}

fn append_trimmed_field(lines: &mut Vec<String>, label: &str, value: &Option<String>)
    ensures
        strings_view(final(lines)@) == with_trimmed_field(strings_view(old(lines)@), label@, *value),
{
    if let Some(v) = value {
        let t = trim(v.as_str());
        if !crate::text::str_is_empty(t.as_str()) {
            let ghost start = strings_view(lines@);
            push_line(lines, String::new());
            push_line(lines, concat2(label, t.as_str()));
            assert(strings_view(lines@) =~= start + seq![seq![], label@ + trim_seq(v@)]);
        }
    }
}

/// The inspect text of a character card: name and spec, the non-blank
/// descriptive blocks, alternate greetings, tags, creator and version.
pub fn character_inspect(card: &CharacterCard) -> (r: String)
    ensures
        r@ == inspect_text(character_lines(*card)),
{
    let d = &card.data;
    let mut lines: Vec<String> = Vec::new();
    push_line(&mut lines, concat2("Character: ", d.name.as_str()));
    let mut spec_line = concat2("Spec: ", card.spec.as_str());
    push_str(&mut spec_line, " (version ");
    push_str(&mut spec_line, card.spec_version.as_str());
    push_str(&mut spec_line, ")");
    push_line(&mut lines, spec_line);
    assert(strings_view(lines@) =~= seq![
        "Character: "@ + d.name@,
        "Spec: "@ + card.spec@ + " (version "@ + card.spec_version@ + ")"@,
    ]);
    append_character_block(&mut lines, "Description", d.description.as_str());
    append_character_block(&mut lines, "Personality", d.personality.as_str());
    append_character_block(&mut lines, "Scenario", d.scenario.as_str());
    append_character_block(&mut lines, "First message", d.first_mes.as_str());
    append_character_block(&mut lines, "Example dialogue", d.mes_example.as_str());
    append_character_block_optional(&mut lines, "System prompt", &d.system_prompt);
    append_character_block_optional(&mut lines, "Creator notes", &d.creator_notes);
    append_character_block_optional(
        &mut lines,
        "Post-history instructions",
        &d.post_history_instructions,
    );
    append_character_list(&mut lines, "Alternate greetings", &d.alternate_greetings);
    let ghost l9 = strings_view(lines@);
    if let Some(tags) = &d.tags {
        if tags.len() > 0 {
            let ghost start = strings_view(lines@);
            push_line(&mut lines, String::new());
            let joined = join_strings(tags, ", ");
            push_line(&mut lines, concat2("Tags: ", joined.as_str()));
            assert(strings_view(lines@) =~= start + seq![seq![], "Tags: "@ + joined@]);
        }
    }
    assert(strings_view(lines@) == with_tags(l9, d.tags));
    append_trimmed_field(&mut lines, "Creator: ", &d.creator);
    append_trimmed_field(&mut lines, "Version: ", &d.character_version);
    build_inspect_text(lines)
}

} // verus!
