//! Which theme a session starts with.

use vstd::prelude::*;
use crate::text::str_eq;

verus! {

/// Light or dark terminal background.
#[derive(Clone, Copy, Debug, PartialEq, Eq, Structural)]
pub enum Appearance {
    Light,
    Dark,
}

/// The theme to build: one of the two defaults, a custom theme from the
/// configuration, a built-in theme, or a theme looked up by name.
#[derive(Clone, Debug)]
pub enum Theme {
    Light,
    DarkDefault,
    Custom(String),
    Builtin(String),
    Named(String),
}

/// The default theme for a terminal appearance.
pub fn theme_from_appearance(appearance: Appearance) -> (r: Theme)
    ensures
        appearance == Appearance::Light ==> r is Light,
        appearance == Appearance::Dark ==> r is DarkDefault,
{
    match appearance {
        Appearance::Light => Theme::Light,
        Appearance::Dark => Theme::DarkDefault,
    }
}

/// Whether some id of `ids` equals `name`.
pub open spec fn has_id(ids: Seq<String>, name: Seq<char>) -> bool {
    exists|k: int| 0 <= k < ids.len() && #[trigger] ids[k]@ == name
}

fn contains_id(ids: &Vec<String>, name: &str) -> (r: bool)
    ensures
        r == has_id(ids@, name@),
{
    let mut i: usize = 0;
    while i < ids.len()
        invariant
            i <= ids@.len(),
            forall|k: int| 0 <= k < i ==> #[trigger] ids@[k]@ != name@,
        decreases ids.len() - i,
    {
        if str_eq(ids[i].as_str(), name) {
            return true;
        }
        i = i + 1;
    }
    false
}

/// The theme a session starts with: the configured theme (a custom theme of
/// that id first, then a built-in one, else a theme looked up by that name);
/// without one, the default for the detected appearance, or the dark default.
pub fn resolve_theme(
    configured: Option<&str>,
    custom_theme_ids: &Vec<String>,
    builtin_theme_ids: &Vec<String>,
    detected: Option<Appearance>,
) -> (r: Theme)
    ensures
        match configured {
            Some(name) => if has_id(custom_theme_ids@, name@) {
                r matches Theme::Custom(id) && id@ == name@
            } else if has_id(builtin_theme_ids@, name@) {
                r matches Theme::Builtin(id) && id@ == name@
            } else {
                r matches Theme::Named(n) && n@ == name@
            },
            None => match detected {
                Some(Appearance::Light) => r is Light,
                _ => r is DarkDefault,
            },
        },
{
    match configured {
        Some(name) => {
            if contains_id(custom_theme_ids, name) {
                Theme::Custom(crate::text::str_to_string(name))
            } else if contains_id(builtin_theme_ids, name) {
                Theme::Builtin(crate::text::str_to_string(name))
            } else {
                Theme::Named(crate::text::str_to_string(name))
            }
        },
        None => match detected {
            Some(appearance) => theme_from_appearance(appearance),
            None => Theme::DarkDefault,
        },
    }
}

} // verus!
