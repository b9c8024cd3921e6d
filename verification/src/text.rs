//! Character classes and string algorithms over `Seq<char>` views.
//!
//! Strings are handled as sequences of Unicode scalar values; every exec
//! function here states its result through a spec function on those views.

use vstd::prelude::*;

verus! {

// ---------------------------------------------------------------------------
// Character classes
// ---------------------------------------------------------------------------

/// Characters in the Unicode general category `Cc` (control codes).
pub open spec fn is_control_char(c: char) -> bool {
    (c as u32) <= 0x1f || (0x7f <= (c as u32) && (c as u32) <= 0x9f)
}

/// `char::is_control`.
pub fn is_control(c: char) -> (r: bool)
    ensures
        r == is_control_char(c),
{
    let v = c as u32;
    v <= 0x1f || (0x7f <= v && v <= 0x9f)
}

/// Characters with the Unicode `White_Space` property.
pub open spec fn is_ws(c: char) -> bool {
    let v = c as u32;
    ||| 0x09 <= v && v <= 0x0d
    ||| v == 0x20
    ||| v == 0x85
    ||| v == 0xa0
    ||| v == 0x1680
    ||| 0x2000 <= v && v <= 0x200a
    ||| v == 0x2028
    ||| v == 0x2029
    ||| v == 0x202f
    ||| v == 0x205f
    ||| v == 0x3000
}

/// Returns whether `c` is a control character (general category `Cc`).
pub fn char_is_control(c: char) -> (r: bool)
    ensures
        r == is_control_char(c),
{
    let v = c as u32;
    v <= 0x1f || (0x7f <= v && v <= 0x9f)
}

/// Returns whether `c` has the Unicode `White_Space` property.
pub fn char_is_whitespace(c: char) -> (r: bool)
    ensures
        r == is_ws(c),
{
    let v = c as u32;
    (0x09 <= v && v <= 0x0d) || v == 0x20 || v == 0x85 || v == 0xa0 || v == 0x1680 || (0x2000
        <= v && v <= 0x200a) || v == 0x2028 || v == 0x2029 || v == 0x202f || v == 0x205f || v
        == 0x3000
}

/// ASCII lowercase of one character; other characters are unchanged.
pub open spec fn ascii_lower(c: char) -> char {
    if 'A' <= c && c <= 'Z' {
        ((c as u32) + 32) as char
    } else {
        c
    }
}

pub fn char_ascii_lower(c: char) -> (r: char)
    ensures
        r == ascii_lower(c),
{
    if 'A' <= c && c <= 'Z' {
        let v: u32 = (c as u32) + 32;
        assert(0x61 <= v <= 0x7a);
        assert(v as char == ((c as u32) + 32) as char);
        char_from_ascii(v)
    } else {
        c
    }
}

fn char_from_ascii(v: u32) -> (r: char)
    requires
        v < 0x80,
    ensures
        r == v as char,
{
    (v as u8) as char
}

/// ASCII lowercase of a whole sequence.
pub open spec fn ascii_lower_seq(s: Seq<char>) -> Seq<char> {
    s.map_values(|c: char| ascii_lower(c))
}

// ---------------------------------------------------------------------------
// Building and reading strings
// ---------------------------------------------------------------------------

/// Appends one character to a string (`String::push`).
#[verifier::external_body]
pub(crate) fn push_char(s: &mut String, c: char)
    ensures
        final(s)@ == old(s)@.push(c),
{
    s.push(c);
}

/// The characters of `s`, in order.
pub fn chars_of(s: &str) -> (r: Vec<char>)
    ensures
        r@ == s@,
{
    let mut out: Vec<char> = Vec::new();
    for c in it: s.chars()
        invariant
            out@ == it.seq().take(it.index() as int),
            it.seq() == s@,
    {
        out.push(c);
    }
    out
}

/// Appends the characters of `v[from..to]` to `out`.
pub fn push_chars_range(out: &mut String, v: &Vec<char>, from: usize, to: usize)
    requires
        from <= to <= v@.len(),
    ensures
        final(out)@ == old(out)@ + v@.subrange(from as int, to as int),
{
    let mut i = from;
    while i < to
        invariant
            from <= i <= to <= v@.len(),
            out@ == old(out)@ + v@.subrange(from as int, i as int),
        decreases to - i,
    {
        push_char(out, v[i]);
        assert(v@.subrange(from as int, (i + 1) as int) =~= v@.subrange(from as int, i as int).push(v@[i as int]));
        i = i + 1;
    }
}

/// A string made of the characters of `v`.
pub fn string_from_chars(v: &Vec<char>) -> (r: String)
    ensures
        r@ == v@,
{
    let mut out = String::new();
    push_chars_range(&mut out, v, 0, v.len());
    assert(v@.subrange(0, v@.len() as int) =~= v@);
    out
}

/// A copy of `s` as an owned string.
pub fn str_to_string(s: &str) -> (r: String)
    ensures
        r@ == s@,
{
    let v = chars_of(s);
    string_from_chars(&v)
}

/// Appends `t` to `out`.
pub fn push_str(out: &mut String, t: &str)
    ensures
        final(out)@ == old(out)@ + t@,
{
    let v = chars_of(t);
    push_chars_range(out, &v, 0, v.len());
    assert(v@.subrange(0, v@.len() as int) =~= v@);
}

/// `a` followed by `b`.
pub fn concat2(a: &str, b: &str) -> (r: String)
    ensures
        r@ == a@ + b@,
{
    let mut out = str_to_string(a);
    push_str(&mut out, b);
    out
}

/// `a`, `b` and `c` in sequence.
pub fn concat3(a: &str, b: &str, c: &str) -> (r: String)
    ensures
        r@ == a@ + b@ + c@,
{
    let mut out = concat2(a, b);
    push_str(&mut out, c);
    out
}

/// Whether two strings have the same characters.
pub fn str_eq(a: &str, b: &str) -> (r: bool)
    ensures
        r == (a@ == b@),
{
    let va = chars_of(a);
    let vb = chars_of(b);
    if va.len() != vb.len() {
        return false;
    }
    let mut i: usize = 0;
    while i < va.len()
        invariant
            va@ == a@,
            vb@ == b@,
            va@.len() == vb@.len(),
            i <= va@.len(),
            forall|k: int| 0 <= k < i ==> va@[k] == vb@[k],
        decreases va.len() - i,
    {
        if va[i] != vb[i] {
            return false;
        }
        i = i + 1;
    }
    assert(va@ =~= vb@);
    true
}

// ---------------------------------------------------------------------------
// Trimming
// ---------------------------------------------------------------------------

/// `s` without its leading whitespace.
pub open spec fn trim_start_seq(s: Seq<char>) -> Seq<char>
    decreases s.len(),
{
    if s.len() > 0 && is_ws(s[0]) {
        trim_start_seq(s.drop_first())
    } else {
        s
    }
}

/// `s` without its trailing whitespace.
pub open spec fn trim_end_seq(s: Seq<char>) -> Seq<char>
    decreases s.len(),
{
    if s.len() > 0 && is_ws(s.last()) {
        trim_end_seq(s.drop_last())
    } else {
        s
    }
}

/// `s` without leading and trailing whitespace (`str::trim`).
pub open spec fn trim_seq(s: Seq<char>) -> Seq<char> {
    trim_end_seq(trim_start_seq(s))
}

/// Whether every character of `s` is whitespace.
pub open spec fn all_ws(s: Seq<char>) -> bool {
    forall|k: int| 0 <= k < s.len() ==> is_ws(#[trigger] s[k])
}

pub proof fn lemma_trim_start_empty_iff_all_ws(s: Seq<char>)
    ensures
        (trim_start_seq(s).len() == 0) == all_ws(s),
    decreases s.len(),
{
    if s.len() > 0 && is_ws(s[0]) {
        lemma_trim_start_empty_iff_all_ws(s.drop_first());
        if all_ws(s.drop_first()) {
            assert forall|k: int| 0 <= k < s.len() implies is_ws(#[trigger] s[k]) by {
                if k > 0 {
                    assert(s[k] == s.drop_first()[k - 1]);
                }
            }
        }
        if all_ws(s) {
            assert forall|k: int| 0 <= k < s.drop_first().len() implies is_ws(
                #[trigger] s.drop_first()[k],
            ) by {
                assert(s.drop_first()[k] == s[k + 1]);
            }
        }
    }
}

pub proof fn lemma_trim_end_empty_iff_all_ws(s: Seq<char>)
    ensures
        (trim_end_seq(s).len() == 0) == all_ws(s),
    decreases s.len(),
{
    if s.len() > 0 && is_ws(s.last()) {
        lemma_trim_end_empty_iff_all_ws(s.drop_last());
        if all_ws(s.drop_last()) {
            assert forall|k: int| 0 <= k < s.len() implies is_ws(#[trigger] s[k]) by {
                if k < s.len() - 1 {
                    assert(s[k] == s.drop_last()[k]);
                }
            }
        }
        if all_ws(s) {
            assert forall|k: int| 0 <= k < s.drop_last().len() implies is_ws(
                #[trigger] s.drop_last()[k],
            ) by {
                assert(s.drop_last()[k] == s[k]);
            }
        }
    }
}

/// A trimmed sequence is empty exactly when the sequence is all whitespace.
pub proof fn lemma_trim_empty_iff_all_ws(s: Seq<char>)
    ensures
        (trim_seq(s).len() == 0) == all_ws(s),
{
    lemma_trim_start_empty_iff_all_ws(s);
    lemma_trim_end_empty_iff_all_ws(trim_start_seq(s));
    if trim_start_seq(s).len() == 0 {
        assert(trim_seq(s).len() == 0);
    } else {
        assert(!all_ws(trim_start_seq(s))) by {
            lemma_trim_start_first_not_ws(s);
        }
    }
}

proof fn lemma_trim_start_first_not_ws(s: Seq<char>)
    requires
        trim_start_seq(s).len() > 0,
    ensures
        !is_ws(trim_start_seq(s)[0]),
    decreases s.len(),
{
    if s.len() > 0 && is_ws(s[0]) {
        lemma_trim_start_first_not_ws(s.drop_first());
    }
}

/// Index of the first non-whitespace character of `v[from..to]`, or `to`.
fn skip_ws_forward(v: &Vec<char>, from: usize, to: usize) -> (i: usize)
    requires
        from <= to <= v@.len(),
    ensures
        from <= i <= to,
        trim_start_seq(v@.subrange(from as int, to as int)) == trim_start_seq(
            v@.subrange(i as int, to as int),
        ),
        i < to ==> !is_ws(v@[i as int]),
        forall|k: int| from <= k < i ==> is_ws(#[trigger] v@[k]),
{
    let mut i = from;
    while i < to && char_is_whitespace(v[i])
        invariant
            from <= i <= to <= v@.len(),
            trim_start_seq(v@.subrange(from as int, to as int)) == trim_start_seq(
                v@.subrange(i as int, to as int),
            ),
            forall|k: int| from <= k < i ==> is_ws(#[trigger] v@[k]),
        decreases to - i,
    {
        let ghost sub = v@.subrange(i as int, to as int);
        assert(sub[0] == v@[i as int]);
        assert(sub.drop_first() =~= v@.subrange(i + 1, to as int));
        i = i + 1;
    }
    i
}

/// Index one past the last non-whitespace character of `v[from..to]`, or `from`.
fn skip_ws_backward(v: &Vec<char>, from: usize, to: usize) -> (j: usize)
    requires
        from <= to <= v@.len(),
    ensures
        from <= j <= to,
        trim_end_seq(v@.subrange(from as int, to as int)) == v@.subrange(from as int, j as int),
        forall|k: int| j <= k < to ==> is_ws(#[trigger] v@[k]),
{
    let mut j = to;
    while j > from && char_is_whitespace(v[j - 1])
        invariant
            from <= j <= to <= v@.len(),
            trim_end_seq(v@.subrange(from as int, to as int)) == trim_end_seq(
                v@.subrange(from as int, j as int),
            ),
            forall|k: int| j <= k < to ==> is_ws(#[trigger] v@[k]),
        decreases j - from,
    {
        let ghost sub = v@.subrange(from as int, j as int);
        assert(sub.last() == v@[j - 1]);
        assert(sub.drop_last() =~= v@.subrange(from as int, j - 1));
        j = j - 1;
    }
    let ghost sub = v@.subrange(from as int, j as int);
    assert(trim_end_seq(sub) == sub);
    j
}

/// Bounds `(i, j)` of the trimmed part of `v`.
pub fn trim_bounds(v: &Vec<char>) -> (r: (usize, usize))
    ensures
        r.0 <= r.1 <= v@.len(),
        trim_seq(v@) == v@.subrange(r.0 as int, r.1 as int),
{
    let i = skip_ws_forward(v, 0, v.len());
    assert(v@.subrange(0, v@.len() as int) =~= v@);
    proof {
        lemma_trim_start_is_suffix(v@, i as int);
    }
    let j = skip_ws_backward(v, i, v.len());
    (i, j)
}

proof fn lemma_trim_start_is_suffix(s: Seq<char>, i: int)
    requires
        0 <= i <= s.len(),
        trim_start_seq(s) == trim_start_seq(s.subrange(i, s.len() as int)),
        i < s.len() ==> !is_ws(s[i]),
    ensures
        trim_start_seq(s) == s.subrange(i, s.len() as int),
{
    let t = s.subrange(i, s.len() as int);
    if t.len() > 0 {
        assert(t[0] == s[i]);
    }
}

/// `str::trim`: `s` without leading and trailing whitespace.
pub fn trim(s: &str) -> (r: String)
    ensures
        r@ == trim_seq(s@),
{
    let v = chars_of(s);
    let (i, j) = trim_bounds(&v);
    let mut out = String::new();
    push_chars_range(&mut out, &v, i, j);
    out
}

/// `str::trim_end`: `s` without trailing whitespace.
pub fn trim_end(s: &str) -> (r: String)
    ensures
        r@ == trim_end_seq(s@),
{
    let v = chars_of(s);
    let j = skip_ws_backward(&v, 0, v.len());
    assert(v@.subrange(0, v@.len() as int) =~= v@);
    let mut out = String::new();
    push_chars_range(&mut out, &v, 0, j);
    out
}

/// Whether `s` is empty or made only of whitespace (`s.trim().is_empty()`).
pub fn is_blank(s: &str) -> (r: bool)
    ensures
        r == all_ws(s@),
        r == (trim_seq(s@).len() == 0),
{
    let v = chars_of(s);
    let (i, j) = trim_bounds(&v);
    proof {
        lemma_trim_empty_iff_all_ws(s@);
    }
    i == j
}


// ---------------------------------------------------------------------------
// Words and joining
// ---------------------------------------------------------------------------

/// The maximal runs of non-whitespace characters of `s`, in order
/// (what `str::split_whitespace` yields).
pub open spec fn words(s: Seq<char>) -> Seq<Seq<char>>
    decreases s.len(),
{
    if s.len() == 0 {
        seq![]
    } else {
        let w = words(s.drop_last());
        let c = s.last();
        if is_ws(c) {
            w
        } else if s.len() >= 2 && !is_ws(s[s.len() - 2]) {
            w.update(w.len() - 1, w.last().push(c))
        } else {
            w.push(seq![c])
        }
    }
}

/// The parts of `parts` separated by `sep` (`[..].join(sep)`).
pub open spec fn join_with(parts: Seq<Seq<char>>, sep: Seq<char>) -> Seq<char>
    decreases parts.len(),
{
    if parts.len() == 0 {
        seq![]
    } else if parts.len() == 1 {
        parts[0]
    } else {
        join_with(parts.drop_last(), sep) + sep + parts.last()
    }
}

/// Words of `s` joined by single spaces: every whitespace run becomes one
/// space and the ends are trimmed.
pub open spec fn normalize_ws(s: Seq<char>) -> Seq<char> {
    join_with(words(s), seq![' '])
}

pub proof fn lemma_words_nonempty(s: Seq<char>)
    requires
        s.len() > 0,
        !is_ws(s.last()),
    ensures
        words(s).len() >= 1,
    decreases s.len(),
{
    if s.len() >= 2 && !is_ws(s[s.len() - 2]) {
        let d = s.drop_last();
        assert(d.last() == s[s.len() - 2]);
        lemma_words_nonempty(d);
    }
}

pub proof fn lemma_join_push(parts: Seq<Seq<char>>, sep: Seq<char>, x: Seq<char>)
    ensures
        join_with(parts.push(x), sep) == if parts.len() == 0 {
            x
        } else {
            join_with(parts, sep) + sep + x
        },
{
    assert(parts.push(x).drop_last() =~= parts);
}

pub proof fn lemma_join_extend_last(parts: Seq<Seq<char>>, sep: Seq<char>, c: char)
    requires
        parts.len() >= 1,
    ensures
        join_with(parts.update(parts.len() - 1, parts.last().push(c)), sep) == join_with(
            parts,
            sep,
        ).push(c),
{
    let u = parts.update(parts.len() - 1, parts.last().push(c));
    if parts.len() > 1 {
        assert(u.drop_last() =~= parts.drop_last());
        assert(join_with(u, sep) == join_with(parts.drop_last(), sep) + sep + parts.last().push(c));
        assert(join_with(u, sep) =~= join_with(parts, sep).push(c));
    }
}

/// Character substitution used for picker metadata: line breaks and control
/// characters become spaces.
pub open spec fn metadata_char(c: char) -> char {
    if c == '\n' || c == '\r' || is_control_char(c) {
        ' '
    } else {
        c
    }
}

/// Words of the characters of `v`, after applying `metadata_char` when
/// `map_controls` holds, joined by single spaces.
fn normalize_chars(v: &Vec<char>, map_controls: bool) -> (r: String)
    ensures
        map_controls ==> r@ == normalize_ws(v@.map_values(|c: char| metadata_char(c))),
        !map_controls ==> r@ == normalize_ws(v@),
{
    let ghost src = if map_controls {
        v@.map_values(|c: char| metadata_char(c))
    } else {
        v@
    };
    let mut out = String::new();
    let mut prev_word = false;
    let mut have_word = false;
    let mut i: usize = 0;
    while i < v.len()
        invariant
            i <= v@.len(),
            src.len() == v@.len(),
            src == (if map_controls { v@.map_values(|c: char| metadata_char(c)) } else { v@ }),
            out@ == join_with(words(src.take(i as int)), seq![' ']),
            prev_word == (i > 0 && !is_ws(src[i - 1])),
            have_word == (words(src.take(i as int)).len() > 0),
        decreases v.len() - i,
    {
        let raw = v[i];
        let c = if map_controls && (raw == '\n' || raw == '\r' || char_is_control(raw)) {
            ' '
        } else {
            raw
        };
        assert(c == src[i as int]);
        let ghost p = src.take(i as int);
        let ghost q = src.take(i + 1);
        assert(q.drop_last() =~= p);
        assert(q.last() == c);
        if char_is_whitespace(c) {
            prev_word = false;
        } else if prev_word {
            proof {
                assert(q[q.len() - 2] == src[i - 1]);
                assert(p.last() == src[i - 1]);
                lemma_words_nonempty(p);
                lemma_join_extend_last(words(p), seq![' '], c);
            }
            push_char(&mut out, c);
        } else {
            proof {
                if i > 0 {
                    assert(q[q.len() - 2] == src[i - 1]);
                }
                lemma_join_push(words(p), seq![' '], seq![c]);
            }
            if have_word {
                push_char(&mut out, ' ');
            } else {
                proof { lemma_join_empty_iff(words(p)); }
            }
            push_char(&mut out, c);
            prev_word = true;
            have_word = true;
            proof {
                if words(p).len() > 0 {
                    lemma_join_nonempty(words(p), p);
                    assert(out@ =~= join_with(words(p), seq![' ']) + seq![' '] + seq![c]);
                } else {
                    assert(out@ =~= seq![c]);
                }
            }
        }
        i = i + 1;
    }
    assert(src.take(v@.len() as int) =~= src);
    out
}

proof fn lemma_join_empty_iff(parts: Seq<Seq<char>>)
    ensures
        parts.len() == 0 ==> join_with(parts, seq![' ']).len() == 0,
{
}

/// Every word produced by `words` is non-empty, so a non-empty word list
/// joins to a non-empty sequence.
proof fn lemma_join_nonempty(parts: Seq<Seq<char>>, s: Seq<char>)
    requires
        parts == words(s),
        parts.len() > 0,
    ensures
        join_with(parts, seq![' ']).len() > 0,
{
    lemma_words_all_nonempty(s);
    lemma_join_len_pos(parts);
}

proof fn lemma_join_len_pos(parts: Seq<Seq<char>>)
    requires
        parts.len() > 0,
        parts.last().len() > 0,
    ensures
        join_with(parts, seq![' ']).len() > 0,
{
}

proof fn lemma_words_all_nonempty(s: Seq<char>)
    ensures
        forall|k: int| 0 <= k < words(s).len() ==> (#[trigger] words(s)[k]).len() > 0,
    decreases s.len(),
{
    if s.len() > 0 {
        let d = s.drop_last();
        lemma_words_all_nonempty(d);
        let w = words(d);
        let c = s.last();
        if is_ws(c) {
        } else if s.len() >= 2 && !is_ws(s[s.len() - 2]) {
            assert(d.last() == s[s.len() - 2]);
            lemma_words_nonempty(d);
            let u = w.update(w.len() - 1, w.last().push(c));
            assert forall|k: int| 0 <= k < u.len() implies (#[trigger] u[k]).len() > 0 by {
                if k < w.len() - 1 {
                    assert(u[k] == w[k]);
                }
            }
        } else {
            let u = w.push(seq![c]);
            assert forall|k: int| 0 <= k < u.len() implies (#[trigger] u[k]).len() > 0 by {
                if k < w.len() {
                    assert(u[k] == w[k]);
                }
            }
        }
    }
}

/// The one-line form of picker metadata: line breaks and control
/// characters become spaces, then runs of whitespace collapse to one space
/// and the ends are trimmed.
pub open spec fn sanitized_metadata(text: Seq<char>) -> Seq<char> {
    normalize_ws(text.map_values(|c: char| metadata_char(c)))
}

/// `split_whitespace().join(" ")` after turning line breaks and control
/// characters into spaces: the one-line form of picker metadata.
pub fn sanitize_picker_metadata(text: &str) -> (r: String)
    ensures
        r@ == sanitized_metadata(text@),
        clean_line(r@),
{
    proof {
        lemma_sanitized_metadata_clean(text@);
    }
    let v = chars_of(text);
    normalize_chars(&v, true)
}

/// Runs of whitespace collapsed to one space, with the ends trimmed.
pub fn collapse_whitespace(input: &str) -> (r: String)
    ensures
        r@ == normalize_ws(input@),
{
    let v = chars_of(input);
    normalize_chars(&v, false)
}


// ---------------------------------------------------------------------------
// Inspect text, abbreviation
// ---------------------------------------------------------------------------

/// Characters dropped from inspect text: carriage returns and every control
/// character other than the newline.
pub open spec fn inspect_drops(c: char) -> bool {
    c == '\r' || (is_control_char(c) && c != '\n')
}

/// `s` with the characters that `inspect_drops` names removed.
pub open spec fn strip_inspect_controls(s: Seq<char>) -> Seq<char>
    decreases s.len(),
{
    if s.len() == 0 {
        seq![]
    } else if inspect_drops(s.last()) {
        strip_inspect_controls(s.drop_last())
    } else {
        strip_inspect_controls(s.drop_last()).push(s.last())
    }
}

/// Inspect form of metadata: newlines kept, other control characters and
/// carriage returns removed, then trimmed.
pub open spec fn inspect_clean(s: Seq<char>) -> Seq<char> {
    trim_seq(strip_inspect_controls(s))
}

/// Metadata prepared for the inspect view: intentional newlines are kept,
/// every other control character and carriage returns are dropped, and the
/// result is trimmed.
pub fn sanitize_picker_metadata_for_inspect(text: &str) -> (r: String)
    ensures
        r@ == inspect_clean(text@),
{
    let v = chars_of(text);
    let mut kept: Vec<char> = Vec::new();
    let mut i: usize = 0;
    while i < v.len()
        invariant
            i <= v@.len(),
            v@ == text@,
            kept@ == strip_inspect_controls(v@.take(i as int)),
        decreases v.len() - i,
    {
        let c = v[i];
        let ghost q = v@.take(i + 1);
        assert(q.drop_last() =~= v@.take(i as int));
        assert(q.last() == c);
        if !(c == '\r' || (char_is_control(c) && c != '\n')) {
            kept.push(c);
        }
        i = i + 1;
    }
    assert(v@.take(v@.len() as int) =~= v@);
    let (a, b) = trim_bounds(&kept);
    let mut out = String::new();
    push_chars_range(&mut out, &kept, a, b);
    out
}

/// Longest tool-call value shown before it is cut.
pub const TOOL_CALL_VALUE_LIMIT: usize = 100;

/// `s` cut to its first `TOOL_CALL_VALUE_LIMIT` characters followed by an
/// ellipsis when it is longer than that.
pub open spec fn abbreviate_spec(s: Seq<char>) -> Seq<char> {
    if s.len() <= TOOL_CALL_VALUE_LIMIT {
        s
    } else {
        s.take(TOOL_CALL_VALUE_LIMIT as int).push('\u{2026}')
    }
}

/// Shortens a tool-call value for display.
pub fn abbreviate_tool_call_value(value: &str) -> (r: String)
    ensures
        r@ == abbreviate_spec(value@),
{
    let v = chars_of(value);
    if v.len() <= TOOL_CALL_VALUE_LIMIT {
        return string_from_chars(&v);
    }
    let mut out = String::new();
    push_chars_range(&mut out, &v, 0, TOOL_CALL_VALUE_LIMIT);
    push_char(&mut out, '\u{2026}');
    out
}

// ---------------------------------------------------------------------------
// Case, search and comparison
// ---------------------------------------------------------------------------

/// What `str::to_lowercase` returns for `s`: the full Unicode lowercase
/// mapping of every character.
pub uninterp spec fn unicode_lowercase(s: Seq<char>) -> Seq<char>;

/// Whether every character of `s` is ASCII.
pub open spec fn ascii_text(s: Seq<char>) -> bool {
    forall|i: int| 0 <= i < s.len() ==> (#[trigger] s[i] as u32) < 128
}

/// The lowercase of `s` as `str::to_lowercase` gives it: ASCII text
/// lowercased letter by letter, other text as named by `unicode_lowercase`.
pub open spec fn lowercase(s: Seq<char>) -> Seq<char> {
    if ascii_text(s) {
        ascii_lower_seq(s)
    } else {
        unicode_lowercase(s)
    }
}

/// `str::to_lowercase`. On ASCII text it maps `A` to `Z` to `a` to `z` and
/// keeps every other character, as `str::to_ascii_lowercase` does (whose
/// documentation sends callers to `to_lowercase` for the non-ASCII letters
/// besides); other results are named by `unicode_lowercase`: the Unicode
/// case tables are not written out here.
#[verifier::external_body]
pub(crate) fn to_lowercase(s: &str) -> (r: String)
    ensures
        r@ == (if ascii_text(s@) {
            ascii_lower_seq(s@)
        } else {
            unicode_lowercase(s@)
        }),
{
    s.to_lowercase()
}

/// `str::to_ascii_lowercase`.
pub fn to_ascii_lowercase(s: &str) -> (r: String)
    ensures
        r@ == ascii_lower_seq(s@),
{
    let v = chars_of(s);
    let mut out = String::new();
    let mut i: usize = 0;
    while i < v.len()
        invariant
            i <= v@.len(),
            v@ == s@,
            out@ == ascii_lower_seq(v@.take(i as int)),
        decreases v.len() - i,
    {
        push_char(&mut out, char_ascii_lower(v[i]));
        assert(ascii_lower_seq(v@.take(i + 1)) =~= ascii_lower_seq(v@.take(i as int)).push(ascii_lower(v@[i as int])));
        i = i + 1;
    }
    assert(v@.take(v@.len() as int) =~= v@);
    out
}

/// `a.eq_ignore_ascii_case(b)`.
pub fn eq_ignore_ascii_case(a: &str, b: &str) -> (r: bool)
    ensures
        r == (ascii_lower_seq(a@) == ascii_lower_seq(b@)),
{
    let va = chars_of(a);
    let vb = chars_of(b);
    if va.len() != vb.len() {
        assert(ascii_lower_seq(a@).len() != ascii_lower_seq(b@).len());
        return false;
    }
    let mut i: usize = 0;
    while i < va.len()
        invariant
            va@ == a@,
            vb@ == b@,
            va@.len() == vb@.len(),
            i <= va@.len(),
            forall|k: int| 0 <= k < i ==> ascii_lower(va@[k]) == ascii_lower(vb@[k]),
        decreases va.len() - i,
    {
        if char_ascii_lower(va[i]) != char_ascii_lower(vb[i]) {
            assert(ascii_lower_seq(a@)[i as int] != ascii_lower_seq(b@)[i as int]);
            return false;
        }
        i = i + 1;
    }
    assert(ascii_lower_seq(a@) =~= ascii_lower_seq(b@));
    true
}

/// Whether `needle` occurs in `hay` as a contiguous run.
pub open spec fn seq_contains(hay: Seq<char>, needle: Seq<char>) -> bool {
    exists|i: int|
        0 <= i && i + needle.len() <= hay.len() && #[trigger] hay.subrange(i, i + needle.len())
            == needle
}

fn matches_at(h: &Vec<char>, n: &Vec<char>, i: usize) -> (r: bool)
    requires
        i + n@.len() <= h@.len(),
    ensures
        r == (h@.subrange(i as int, i + n@.len()) == n@),
{
    let hl = h.len();
    let mut k: usize = 0;
    while k < n.len()
        invariant
            i + n@.len() <= h@.len(),
            hl == h@.len(),
            k <= n@.len(),
            forall|m: int| 0 <= m < k ==> h@[i + m] == n@[m],
        decreases n.len() - k,
    {
        assert(i + k < h@.len());
        if h[i + k] != n[k] {
            assert(h@.subrange(i as int, i + n@.len())[k as int] != n@[k as int]);
            return false;
        }
        k = k + 1;
    }
    assert(h@.subrange(i as int, i + n@.len()) =~= n@);
    true
}

/// `hay.contains(needle)` for string needles.
pub fn contains_str(hay: &str, needle: &str) -> (r: bool)
    ensures
        r == seq_contains(hay@, needle@),
{
    let h = chars_of(hay);
    let n = chars_of(needle);
    if n.len() > h.len() {
        return false;
    }
    let limit = h.len() - n.len();
    let mut i: usize = 0;
    while i < limit
        invariant
            h@ == hay@,
            n@ == needle@,
            n@.len() <= h@.len(),
            limit == h@.len() - n@.len(),
            i <= limit,
            forall|j: int| 0 <= j < i ==> #[trigger] h@.subrange(j, j + n@.len()) != n@,
        decreases limit - i,
    {
        if matches_at(&h, &n, i) {
            return true;
        }
        i = i + 1;
    }
    if matches_at(&h, &n, limit) {
        return true;
    }
    assert forall|j: int| 0 <= j && j + needle@.len() <= hay@.len() implies #[trigger] hay@.subrange(
        j,
        j + needle@.len(),
    ) != needle@ by {
        assert(j <= i);
    }
    false
}

/// Whether the last character of `s` is `c`.
pub fn ends_with_char(s: &str, c: char) -> (r: bool)
    ensures
        r == (s@.len() > 0 && s@.last() == c),
{
    let v = chars_of(s);
    v.len() > 0 && v[v.len() - 1] == c
}

// ---------------------------------------------------------------------------
// Numbers
// ---------------------------------------------------------------------------

/// The decimal digit for `d < 10`.
pub open spec fn digit_char(d: nat) -> char {
    ((d + 0x30) as u32) as char
}

/// Decimal representation of `n`, without leading zeros.
pub open spec fn decimal(n: nat) -> Seq<char>
    decreases n,
{
    if n < 10 {
        seq![digit_char(n)]
    } else {
        decimal(n / 10).push(digit_char(n % 10))
    }
}

fn push_digit(out: &mut String, d: usize)
    requires
        d < 10,
    ensures
        final(out)@ == old(out)@.push(digit_char(d as nat)),
{
    let c = char_from_ascii((d as u32) + 0x30);
    push_char(out, c);
}

/// Appends the decimal representation of `n` to `out`.
pub fn push_decimal(out: &mut String, n: usize)
    ensures
        final(out)@ == old(out)@ + decimal(n as nat),
    decreases n,
{
    if n < 10 {
        push_digit(out, n);
        assert(old(out)@.push(digit_char(n as nat)) =~= old(out)@ + decimal(n as nat));
    } else {
        push_decimal(out, n / 10);
        push_digit(out, n % 10);
        assert(final(out)@ =~= old(out)@ + decimal(n as nat));
    }
}

/// `n.to_string()` for `usize`.
pub fn usize_to_string(n: usize) -> (r: String)
    ensures
        r@ == decimal(n as nat),
{
    let mut out = String::new();
    push_decimal(&mut out, n);
    assert(out@ =~= decimal(n as nat));
    out
}

/// Appends the decimal representation of `n` to `out`.
pub fn push_decimal_u64(out: &mut String, n: u64)
    ensures
        final(out)@ == old(out)@ + decimal(n as nat),
    decreases n,
{
    if n < 10 {
        let c = char_from_ascii((n as u32) + 0x30);
        push_char(out, c);
        assert(old(out)@.push(digit_char(n as nat)) =~= old(out)@ + decimal(n as nat));
    } else {
        push_decimal_u64(out, n / 10);
        let d = n % 10;
        let c = char_from_ascii((d as u32) + 0x30);
        push_char(out, c);
        assert(final(out)@ =~= old(out)@ + decimal(n as nat));
    }
}

/// `n.to_string()` for `u64`.
pub fn u64_to_string(n: u64) -> (r: String)
    ensures
        r@ == decimal(n as nat),
{
    let mut out = String::new();
    push_decimal_u64(&mut out, n);
    assert(out@ =~= decimal(n as nat));
    out
}

/// `s` left-padded with `'0'` to `width` characters.
pub open spec fn zero_padded(s: Seq<char>, width: nat) -> Seq<char> {
    if s.len() >= width {
        s
    } else {
        Seq::new((width - s.len()) as nat, |i: int| '0') + s
    }
}

/// `format!("{:020}", n)`: the decimal digits of `n`, zero-padded to twenty.
pub fn u64_zero_padded20(n: u64) -> (r: String)
    ensures
        r@ == zero_padded(decimal(n as nat), 20),
{
    let digits = chars_of(u64_to_string(n).as_str());
    let mut out = String::new();
    if digits.len() < 20 {
        let pad: usize = 20 - digits.len();
        let mut i: usize = 0;
        while i < pad
            invariant
                i <= pad,
                out@ == Seq::new(i as nat, |k: int| '0'),
            decreases pad - i,
        {
            push_char(&mut out, '0');
            assert(out@ =~= Seq::new((i + 1) as nat, |k: int| '0'));
            i = i + 1;
        }
    }
    let ghost start = out@;
    push_chars_range(&mut out, &digits, 0, digits.len());
    assert(digits@.subrange(0, digits@.len() as int) =~= digits@);
    assert(out@ =~= zero_padded(decimal(n as nat), 20));
    out
}

/// Bytes that `c` takes in UTF-8.
pub open spec fn utf8_width(c: char) -> nat {
    let v = c as u32;
    if v < 0x80 {
        1
    } else if v < 0x800 {
        2
    } else if v < 0x10000 {
        3
    } else {
        4
    }
}

/// Bytes that `s` takes in UTF-8 (`str::len`).
pub open spec fn utf8_len(s: Seq<char>) -> nat
    decreases s.len(),
{
    if s.len() == 0 {
        0
    } else {
        utf8_len(s.drop_last()) + utf8_width(s.last())
    }
}

proof fn lemma_utf8_len_prefix(s: Seq<char>, i: int)
    requires
        0 <= i <= s.len(),
    ensures
        utf8_len(s.take(i)) <= utf8_len(s),
    decreases s.len() - i,
{
    if i < s.len() {
        lemma_utf8_len_prefix(s, i + 1);
        assert(s.take(i + 1).drop_last() =~= s.take(i));
    } else {
        assert(s.take(i) =~= s);
    }
}

/// Whether `s` takes more than `n` bytes in UTF-8.
pub fn utf8_len_exceeds(s: &str, n: usize) -> (r: bool)
    ensures
        r == (utf8_len(s@) > n),
{
    let v = chars_of(s);
    let mut acc: usize = 0;
    let mut i: usize = 0;
    while i < v.len()
        invariant
            i <= v@.len(),
            v@ == s@,
            acc == utf8_len(v@.take(i as int)),
            acc <= n,
        decreases v.len() - i,
    {
        let c = v[i];
        let w: usize = if (c as u32) < 0x80 {
            1
        } else if (c as u32) < 0x800 {
            2
        } else if (c as u32) < 0x10000 {
            3
        } else {
            4
        };
        assert(v@.take(i + 1).drop_last() =~= v@.take(i as int));
        if w > n - acc {
            proof {
                lemma_utf8_len_prefix(v@, i + 1);
            }
            return true;
        }
        acc = acc + w;
        i = i + 1;
    }
    assert(v@.take(i as int) =~= v@);
    false
}

/// Occurrences of a non-empty `pat` in `s`, leftmost first and not
/// overlapping, each replaced by `rep` (`str::replace`).
pub open spec fn replace_all(s: Seq<char>, pat: Seq<char>, rep: Seq<char>) -> Seq<char>
    decreases s.len(),
{
    if s.len() == 0 {
        seq![]
    } else if pat.len() > 0 && pat.len() <= s.len() && s.take(pat.len() as int) == pat {
        rep + replace_all(s.skip(pat.len() as int), pat, rep)
    } else {
        seq![s[0]] + replace_all(s.skip(1), pat, rep)
    }
}

fn pattern_at(v: &Vec<char>, i: usize, p: &Vec<char>) -> (r: bool)
    requires
        i <= v@.len(),
    ensures
        r == (p@.len() <= v@.len() - i && v@.skip(i as int).take(p@.len() as int) == p@),
{
    let vl = v.len();
    if p.len() > vl - i {
        return false;
    }
    let mut k: usize = 0;
    while k < p.len()
        invariant
            k <= p@.len(),
            vl == v@.len(),
            i <= v@.len(),
            p@.len() <= v@.len() - i,
            forall|m: int| 0 <= m < k ==> v@[i + m] == p@[m],
        decreases p.len() - k,
    {
        if v[i + k] != p[k] {
            assert(v@.skip(i as int).take(p@.len() as int)[k as int] != p@[k as int]);
            return false;
        }
        k = k + 1;
    }
    assert(v@.skip(i as int).take(p@.len() as int) =~= p@);
    true
}

/// `s.replace(pat, rep)` for a non-empty `pat` (the library only replaces
/// fixed placeholders).
pub(crate) fn replace_str(s: &str, pat: &str, rep: &str) -> (r: String)
    requires
        pat@.len() > 0,
    ensures
        r@ == replace_all(s@, pat@, rep@),
{
    let v = chars_of(s);
    let p = chars_of(pat);
    let mut out = String::new();
    let mut i: usize = 0;
    assert(v@.skip(0) =~= v@);
    assert(out@ + replace_all(v@, p@, rep@) =~= replace_all(v@, p@, rep@));
    while i < v.len()
        invariant
            i <= v@.len(),
            v@ == s@,
            p@ == pat@,
            p@.len() > 0,
            out@ + replace_all(v@.skip(i as int), p@, rep@) == replace_all(v@, p@, rep@),
        decreases v.len() - i,
    {
        let ghost rest = v@.skip(i as int);
        let ghost out0 = out@;
        if pattern_at(&v, i, &p) {
            assert(rest.skip(p@.len() as int) =~= v@.skip(i + p@.len()));
            assert(replace_all(rest, p@, rep@) == rep@ + replace_all(
                v@.skip(i + p@.len()),
                p@,
                rep@,
            ));
            push_str(&mut out, rep);
            assert(out@ + replace_all(v@.skip(i + p@.len()), p@, rep@) =~= out0 + replace_all(
                rest,
                p@,
                rep@,
            ));
            i = i + p.len();
        } else {
            assert(rest.skip(1) =~= v@.skip(i + 1));
            assert(rest[0] == v@[i as int]);
            assert(replace_all(rest, p@, rep@) == seq![v@[i as int]] + replace_all(
                v@.skip(i + 1),
                p@,
                rep@,
            ));
            push_char(&mut out, v[i]);
            assert(out@ + replace_all(v@.skip(i + 1), p@, rep@) =~= out0 + replace_all(
                rest,
                p@,
                rep@,
            ));
            i = i + 1;
        }
    }
    assert(v@.skip(i as int) =~= Seq::<char>::empty());
    assert(out@ + replace_all(v@.skip(i as int), p@, rep@) =~= out@);
    out
}


// ---------------------------------------------------------------------------
// Lines and lists of strings
// ---------------------------------------------------------------------------

/// The views of a sequence of strings.
pub open spec fn strings_view(v: Seq<String>) -> Seq<Seq<char>> {
    v.map_values(|x: String| x@)
}

/// The pieces of `s` between newline characters (one more piece than there
/// are newlines).
pub open spec fn split_newlines(s: Seq<char>) -> Seq<Seq<char>>
    decreases s.len(),
{
    if s.len() == 0 {
        seq![seq![]]
    } else {
        let p = split_newlines(s.drop_last());
        if s.last() == '\n' {
            p.push(seq![])
        } else {
            p.update(p.len() - 1, p.last().push(s.last()))
        }
    }
}

/// `x` without one trailing carriage return.
pub open spec fn strip_cr(x: Seq<char>) -> Seq<char> {
    if x.len() > 0 && x.last() == '\r' {
        x.drop_last()
    } else {
        x
    }
}

/// What `str::lines` yields: the text split at `\n`, a `\r` before each
/// `\n` removed, and no empty piece after a final newline.
pub open spec fn lines_spec(s: Seq<char>) -> Seq<Seq<char>> {
    if s.len() == 0 {
        seq![]
    } else {
        let p = split_newlines(s);
        if s.last() == '\n' {
            p.drop_last().map_values(|x: Seq<char>| strip_cr(x))
        } else {
            p.drop_last().map_values(|x: Seq<char>| strip_cr(x)).push(p.last())
        }
    }
}

pub proof fn lemma_split_newlines_nonempty(s: Seq<char>)
    ensures
        split_newlines(s).len() >= 1,
    decreases s.len(),
{
    if s.len() > 0 {
        lemma_split_newlines_nonempty(s.drop_last());
    }
}

/// `s.lines()` collected into owned strings.
pub fn lines_of(s: &str) -> (r: Vec<String>)
    ensures
        strings_view(r@) == lines_spec(s@),
{
    let v = chars_of(s);
    let mut done: Vec<String> = Vec::new();
    let mut cur: Vec<char> = Vec::new();
    let mut i: usize = 0;
    proof {
        assert(v@.take(0) =~= Seq::<char>::empty());
    }
    while i < v.len()
        invariant
            i <= v@.len(),
            v@ == s@,
            split_newlines(v@.take(i as int)).len() >= 1,
            strings_view(done@) == split_newlines(v@.take(i as int)).drop_last().map_values(
                |x: Seq<char>| strip_cr(x),
            ),
            cur@ == split_newlines(v@.take(i as int)).last(),
        decreases v.len() - i,
    {
        let c = v[i];
        let ghost p = split_newlines(v@.take(i as int));
        let ghost q = v@.take(i + 1);
        assert(q.drop_last() =~= v@.take(i as int));
        assert(q.last() == c);
        if c == '\n' {
            let piece = strip_trailing_cr(&cur);
            let ghost old_done = done@;
            done.push(piece);
            cur = Vec::new();
            proof {
                assert(strings_view(done@) =~= strings_view(old_done).push(strip_cr(p.last())));
                assert(p.map_values(|x: Seq<char>| strip_cr(x)) =~= p.drop_last().map_values(
                    |x: Seq<char>| strip_cr(x),
                ).push(strip_cr(p.last())));
                assert(split_newlines(q) == p.push(seq![]));
                assert(p.push(seq![]).drop_last() =~= p);
                assert(p =~= p.drop_last().push(p.last()));
                assert(strings_view(done@) =~= p.map_values(|x: Seq<char>| strip_cr(x)));
            }
        } else {
            cur.push(c);
            proof {
                let u = p.update(p.len() - 1, p.last().push(c));
                assert(split_newlines(q) == u);
                assert(u.drop_last() =~= p.drop_last());
            }
        }
        i = i + 1;
    }
    assert(v@.take(v@.len() as int) =~= v@);
    if v.len() == 0 {
        return Vec::new();
    }
    if v[v.len() - 1] == '\n' {
        done
    } else {
        let last = string_from_chars(&cur);
        let ghost old_done = done@;
        done.push(last);
        proof {
            let p = split_newlines(s@);
            assert(strings_view(done@) =~= strings_view(old_done).push(cur@));
            assert(strings_view(done@) =~= p.drop_last().map_values(|x: Seq<char>| strip_cr(x)).push(
                p.last(),
            ));
        }
        done
    }
}

fn strip_trailing_cr(cur: &Vec<char>) -> (r: String)
    ensures
        r@ == strip_cr(cur@),
{
    if cur.len() > 0 && cur[cur.len() - 1] == '\r' {
        let mut out = String::new();
        push_chars_range(&mut out, cur, 0, cur.len() - 1);
        assert(cur@.subrange(0, cur@.len() - 1) =~= cur@.drop_last());
        out
    } else {
        string_from_chars(cur)
    }
}

/// `parts.join(sep)`.
pub fn join_strings(parts: &Vec<String>, sep: &str) -> (r: String)
    ensures
        r@ == join_with(strings_view(parts@), sep@),
{
    let mut out = String::new();
    let mut i: usize = 0;
    while i < parts.len()
        invariant
            i <= parts@.len(),
            out@ == join_with(strings_view(parts@.take(i as int)), sep@),
        decreases parts.len() - i,
    {
        let ghost pv = strings_view(parts@.take(i as int));
        assert(strings_view(parts@.take(i + 1)) =~= pv.push(parts@[i as int]@));
        proof {
            lemma_join_push(pv, sep@, parts@[i as int]@);
        }
        if i > 0 {
            push_str(&mut out, sep);
        }
        push_str(&mut out, parts[i].as_str());
        i = i + 1;
    }
    assert(parts@.take(parts@.len() as int) =~= parts@);
    out
}


/// Whether `s` has no characters.
pub fn str_is_empty(s: &str) -> (r: bool)
    ensures
        r == (s@.len() == 0),
{
    let v = chars_of(s);
    v.len() == 0
}

/// A single clean line: no control characters, the only whitespace is the
/// space, never two in a row, and none at either end.
pub open spec fn clean_line(r: Seq<char>) -> bool {
    &&& forall|i: int| 0 <= i < r.len() ==> !is_control_char(#[trigger] r[i])
    &&& forall|i: int| 0 <= i < r.len() && is_ws(#[trigger] r[i]) ==> r[i] == ' '
    &&& forall|i: int, j: int|
        0 <= i && j == i + 1 && j < r.len() ==> !(is_ws(#[trigger] r[i]) && is_ws(#[trigger] r[j]))
    &&& r.len() > 0 ==> !is_ws(r[0]) && !is_ws(r[r.len() - 1])
}

/// Words of a text without control characters hold neither whitespace nor
/// control characters.
pub proof fn lemma_words_clean(s: Seq<char>)
    requires
        forall|i: int| 0 <= i < s.len() ==> !is_control_char(#[trigger] s[i]),
    ensures
        forall|k: int, j: int|
            0 <= k < words(s).len() && 0 <= j < words(s)[k].len() ==> !is_ws(
                #[trigger] words(s)[k][j],
            ) && !is_control_char(words(s)[k][j]),
    decreases s.len(),
{
    if s.len() > 0 {
        let d = s.drop_last();
        assert forall|i: int| 0 <= i < d.len() implies !is_control_char(#[trigger] d[i]) by {
            assert(d[i] == s[i]);
        }
        lemma_words_clean(d);
        let w = words(d);
        let c = s.last();
        assert(!is_control_char(s[s.len() - 1]));
        if is_ws(c) {
        } else if s.len() >= 2 && !is_ws(s[s.len() - 2]) {
            assert(d.last() == s[s.len() - 2]);
            lemma_words_nonempty(d);
            let u = w.update(w.len() - 1, w.last().push(c));
            assert forall|k: int, j: int| 0 <= k < u.len() && 0 <= j < u[k].len() implies !is_ws(
                #[trigger] u[k][j],
            ) && !is_control_char(u[k][j]) by {
                if k < w.len() - 1 {
                    assert(u[k] == w[k]);
                } else if j < w.last().len() {
                    assert(u[k][j] == w[w.len() - 1][j]);
                } else {
                    assert(u[k][j] == c);
                }
            }
        } else {
            let u = w.push(seq![c]);
            assert forall|k: int, j: int| 0 <= k < u.len() && 0 <= j < u[k].len() implies !is_ws(
                #[trigger] u[k][j],
            ) && !is_control_char(u[k][j]) by {
                if k < w.len() {
                    assert(u[k] == w[k]);
                } else {
                    assert(u[k][j] == c);
                }
            }
        }
    }
}

/// Non-empty words without whitespace or control characters, joined by
/// single spaces, make a clean line.
pub proof fn lemma_join_clean(parts: Seq<Seq<char>>)
    requires
        forall|k: int| 0 <= k < parts.len() ==> (#[trigger] parts[k]).len() > 0,
        forall|k: int, j: int|
            0 <= k < parts.len() && 0 <= j < parts[k].len() ==> !is_ws(#[trigger] parts[k][j])
                && !is_control_char(parts[k][j]),
    ensures
        clean_line(join_with(parts, seq![' '])),
        parts.len() > 0 ==> join_with(parts, seq![' ']).len() > 0,
    decreases parts.len(),
{
    if parts.len() == 1 {
        let r = join_with(parts, seq![' ']);
        assert(r == parts[0]);
        assert forall|i: int| 0 <= i < r.len() implies !is_control_char(#[trigger] r[i]) && !is_ws(r[i]) by {
            assert(r[i] == parts[0][i]);
        }
        assert(parts[0].len() > 0);
    } else if parts.len() > 1 {
        let init = parts.drop_last();
        assert forall|k: int| 0 <= k < init.len() implies (#[trigger] init[k]).len() > 0 by {
            assert(init[k] == parts[k]);
        }
        assert forall|k: int, j: int| 0 <= k < init.len() && 0 <= j < init[k].len() implies !is_ws(
            #[trigger] init[k][j],
        ) && !is_control_char(init[k][j]) by {
            assert(init[k] == parts[k]);
        }
        lemma_join_clean(init);
        let a = join_with(init, seq![' ']);
        let b = parts.last();
        assert(b == parts[parts.len() - 1]);
        assert(b.len() > 0);
        assert forall|j: int| 0 <= j < b.len() implies !is_ws(#[trigger] b[j]) && !is_control_char(b[j]) by {
            assert(b[j] == parts[parts.len() - 1][j]);
        }
        let r = join_with(parts, seq![' ']);
        assert(r == a + seq![' '] + b);
        let la = a.len() as int;
        assert(la > 0);
        assert(!is_ws(a[0]) && !is_ws(a[la - 1]));
        assert forall|i: int| 0 <= i < r.len() implies !is_control_char(#[trigger] r[i]) && (is_ws(r[i])
            ==> r[i] == ' ') by {
            if i < la {
                assert(r[i] == a[i]);
            } else if i == la {
                assert(r[i] == ' ');
            } else {
                assert(r[i] == b[i - la - 1]);
            }
        }
        assert forall|i: int, j: int| 0 <= i && j == i + 1 && j < r.len() implies !(is_ws(
            #[trigger] r[i],
        ) && is_ws(#[trigger] r[j])) by {
            if j < la {
                assert(r[i] == a[i] && r[j] == a[j]);
            } else if j == la {
                assert(r[i] == a[la - 1]);
            } else if i == la {
                assert(r[j] == b[0]);
            } else {
                assert(r[j] == b[j - la - 1]);
            }
        }
        assert(r[0] == a[0]);
        assert(r[r.len() - 1] == b[b.len() - 1]);
    }
}

/// The sanitized form of any metadata text is one clean line: line breaks
/// and other control characters are gone, and whitespace runs are single
/// spaces between words.
pub proof fn lemma_sanitized_metadata_clean(text: Seq<char>)
    ensures
        clean_line(sanitized_metadata(text)),
{
    let m = text.map_values(|c: char| metadata_char(c));
    assert forall|i: int| 0 <= i < m.len() implies !is_control_char(#[trigger] m[i]) by {
        assert(m[i] == metadata_char(text[i]));
    }
    lemma_words_clean(m);
    lemma_words_all_nonempty(m);
    lemma_join_clean(words(m));
}

} // verus!
