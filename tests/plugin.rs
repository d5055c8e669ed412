use hyprwindows::config::{init, Config, DEFAULT_MAX_ENTRIES};
use hyprwindows::desktop::{desktop_file_name, first_of, get_icon_name};
use hyprwindows::plugin::{candidates, handler, info, selector, to_match, HandleResult, WindowSelector};
use hyprwindows::ranking::{ScoredWindow, WindowInfo};

#[test]
fn missing_config_falls_back_to_five() {
    assert_eq!(init(None).max_entries, 5);
    assert_eq!(DEFAULT_MAX_ENTRIES, 5);
    assert_eq!(Config::default(), Config { max_entries: 5 });
}

#[test]
fn loaded_config_is_kept() {
    assert_eq!(init(Some(Config { max_entries: 2 })), Config { max_entries: 2 });
    assert_eq!(init(Some(Config { max_entries: 0 })).max_entries, 0);
}

#[test]
fn plugin_info_names_the_plugin() {
    let i = info();
    assert_eq!(i.name, "Windows");
    assert_eq!(i.icon, "window-symbolic");
}

#[test]
fn window_without_icon_is_still_listed() {
    let w = vec![
        WindowInfo { class: "Firefox".to_string() },
        WindowInfo { class: "kitty".to_string() },
    ];
    let ranked = vec![ScoredWindow { index: 1, score: 9 }, ScoredWindow { index: 0, score: 4 }];
    let c = candidates(&w, &ranked, vec![None, Some("firefox".to_string())]);
    assert_eq!(c.len(), 2);
    assert_eq!(c[0].title, "kitty");
    assert_eq!(c[0].icon, None);
    assert_eq!(c[1].title, "Firefox");
    assert_eq!(c[1].icon, Some("firefox".to_string()));
    assert!(c.iter().all(|m| m.description.is_none() && m.id.is_none() && !m.use_pango));
}

#[test]
fn selection_focuses_by_class_pattern_and_closes() {
    let m = to_match(&"firefox-esr".to_string(), None);
    match selector(&m) {
        WindowSelector::ClassRegularExpression(p) => assert_eq!(p, "firefox-esr"),
    }
    assert!(matches!(handler(true), HandleResult::Close));
    assert!(matches!(handler(false), HandleResult::Close));
}

#[test]
fn desktop_file_name_for_class() {
    assert_eq!(desktop_file_name("firefox"), "applications/firefox.desktop");
    assert_eq!(desktop_file_name(""), "applications/.desktop");
}

#[test]
fn icon_is_read_from_desktop_entry() {
    let text = b"[Desktop Entry]\nName=Firefox\nIcon=firefox\n";
    assert_eq!(get_icon_name(text), Some("firefox".to_string()));
}

#[test]
fn entry_without_icon_gives_none() {
    assert_eq!(get_icon_name(b"[Desktop Entry]\nName=Firefox\n"), None);
    assert_eq!(get_icon_name(b"[Other]\nIcon=firefox\n"), None);
    assert_eq!(get_icon_name(b""), None);
}

#[test]
fn first_of_values() {
    assert_eq!(first_of(Some(vec!["a".to_string(), "b".to_string()])), Some("a".to_string()));
    assert_eq!(first_of(Some(vec![])), None);
    assert_eq!(first_of(None), None);
}
