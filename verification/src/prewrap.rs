//! When the wrapped transcript lines kept from the last frame can be used
//! again: as they are, with only the last message wrapped anew, or not at
//! all.

use vstd::prelude::*;

verus! {

/// What the wrapped lines depend on: the width, the markdown and syntax
/// switches, the theme (by a signature), the number of messages and the
/// last message (by a hash).
#[derive(Clone, Copy, Debug, PartialEq, Eq, Structural)]
pub struct PrewrapKey {
    pub width: u16,
    pub markdown_enabled: bool,
    pub syntax_enabled: bool,
    pub theme_sig: u64,
    pub messages_len: usize,
    pub last_msg_hash: u64,
}

/// What to do with the kept lines.
#[derive(Clone, Copy, Debug, PartialEq, Eq, Structural)]
pub enum PrewrapAction {
    /// They are up to date.
    Reuse,
    /// Only the last message changed: wrap it anew and put it in place of
    /// its old lines.
    RewrapLast,
    /// Wrap the whole transcript again.
    Rebuild,
}

/// The choice for kept lines made under `cached` (none kept) when the
/// transcript now stands at `current`.
pub open spec fn prewrap_choice(cached: Option<PrewrapKey>, current: PrewrapKey, has_last_message: bool) -> PrewrapAction {
    match cached {
        Some(c) => if c.width == current.width && c.markdown_enabled == current.markdown_enabled
            && c.syntax_enabled == current.syntax_enabled && c.theme_sig == current.theme_sig
            && c.messages_len == current.messages_len {
            if c.last_msg_hash == current.last_msg_hash {
                PrewrapAction::Reuse
            } else if has_last_message {
                PrewrapAction::RewrapLast
            } else {
                PrewrapAction::Rebuild
            }
        } else {
            PrewrapAction::Rebuild
        },
        None => PrewrapAction::Rebuild,
    }
}

/// Decides what to do with the kept lines (see `prewrap_choice`).
pub fn prewrap_decision(cached: Option<PrewrapKey>, current: PrewrapKey, has_last_message: bool) -> (r:
    PrewrapAction)
    ensures
        r == prewrap_choice(cached, current, has_last_message),
{
    match cached {
        Some(c) => {
            if c.width == current.width && c.markdown_enabled == current.markdown_enabled
                && c.syntax_enabled == current.syntax_enabled && c.theme_sig == current.theme_sig
                && c.messages_len == current.messages_len {
                if c.last_msg_hash == current.last_msg_hash {
                    PrewrapAction::Reuse
                } else if has_last_message {
                    PrewrapAction::RewrapLast
                } else {
                    PrewrapAction::Rebuild
                }
            } else {
                PrewrapAction::Rebuild
            }
        },
        None => PrewrapAction::Rebuild,
    }
}

/// The kept lines up to `start` (where the last message began), followed
/// by the last message wrapped anew.
pub fn replace_tail<T>(lines: Vec<T>, start: usize, tail: Vec<T>) -> (r: Vec<T>)
    requires
        start <= lines@.len(),
    ensures
        r@ == lines@.take(start as int) + tail@,
{
    let mut lines = lines;
    lines.truncate(start);
    let mut tail = tail;
    lines.append(&mut tail);
    lines
}

} // verus!
