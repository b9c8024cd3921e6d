use chabeau::theme::{resolve_theme, theme_from_appearance, Appearance, Theme};

#[test]
fn theme_from_appearance_matches_light_theme() {
    let theme = theme_from_appearance(Appearance::Light);
    assert!(matches!(theme, Theme::Light));
}

#[test]
fn theme_from_appearance_matches_dark_theme() {
    let theme = theme_from_appearance(Appearance::Dark);
    assert!(matches!(theme, Theme::DarkDefault));
}

#[test]
fn resolve_theme_prefers_configured_theme() {
    let builtin = vec!["light".to_string(), "dark".to_string()];
    let resolved_theme = resolve_theme(Some("light"), &Vec::new(), &builtin, Some(Appearance::Dark));
    assert!(matches!(resolved_theme, Theme::Builtin(ref id) if id == "light"));
}

#[test]
fn resolve_theme_prefers_custom_over_builtin() {
    let custom = vec!["light".to_string()];
    let builtin = vec!["light".to_string()];
    let resolved = resolve_theme(Some("light"), &custom, &builtin, None);
    assert!(matches!(resolved, Theme::Custom(ref id) if id == "light"));
}

#[test]
fn resolve_theme_without_configuration_follows_appearance() {
    let none: Vec<String> = Vec::new();
    assert!(matches!(resolve_theme(None, &none, &none, Some(Appearance::Light)), Theme::Light));
    assert!(matches!(resolve_theme(None, &none, &none, None), Theme::DarkDefault));
}
