use chabeau::prewrap::{prewrap_decision, replace_tail, PrewrapAction, PrewrapKey};

fn key(width: u16, messages_len: usize, last_msg_hash: u64) -> PrewrapKey {
    PrewrapKey {
        width,
        markdown_enabled: true,
        syntax_enabled: true,
        theme_sig: 7,
        messages_len,
        last_msg_hash,
    }
}

#[test]
fn prewrap_cache_reuse_no_changes() {
    let k = key(100, 50, 42);
    assert_eq!(prewrap_decision(Some(k), k, true), PrewrapAction::Reuse);
}

#[test]
fn prewrap_cache_invalidates_on_width_change() {
    assert_eq!(prewrap_decision(Some(key(80, 1, 3)), key(120, 1, 3), true), PrewrapAction::Rebuild);
}

#[test]
fn prewrap_rewraps_only_a_changed_last_message() {
    assert_eq!(prewrap_decision(Some(key(80, 2, 3)), key(80, 2, 4), true), PrewrapAction::RewrapLast);
    assert_eq!(prewrap_decision(Some(key(80, 2, 3)), key(80, 2, 4), false), PrewrapAction::Rebuild);
    assert_eq!(prewrap_decision(Some(key(80, 2, 3)), key(80, 3, 4), true), PrewrapAction::Rebuild);
    assert_eq!(prewrap_decision(None, key(80, 2, 3), true), PrewrapAction::Rebuild);
    let mut themed = key(80, 2, 3);
    themed.theme_sig = 8;
    assert_eq!(prewrap_decision(Some(key(80, 2, 3)), themed, true), PrewrapAction::Rebuild);
}

#[test]
fn replace_tail_keeps_earlier_lines() {
    let lines = vec!["a", "b", "old1", "old2"];
    assert_eq!(replace_tail(lines, 2, vec!["new"]), vec!["a", "b", "new"]);
}
