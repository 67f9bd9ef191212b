use openwhisper_shell::text::trim_quote_chars;
use openwhisper_shell::tray::{
    default_language_index, find_language, language_changed_event, language_code, language_label,
    language_notification_name, language_submenu_id, language_submenu_title, open_menu_id,
    open_menu_title, quit_menu_id, quit_menu_title, show_menu_on_left_click, tray_click_shows_window,
    tray_tooltip, LangMenu, MenuAction, MouseButton, MouseButtonState, LANGUAGE_COUNT,
};

fn checked_positions(menu: &LangMenu) -> Vec<usize> {
    let mut out = Vec::new();
    for i in 0..LANGUAGE_COUNT {
        if menu.is_checked(i) {
            out.push(i);
        }
    }
    out
}

#[test]
fn catalog_holds_the_thirteen_languages() {
    assert_eq!(LANGUAGE_COUNT, 13);
    let codes: Vec<&str> = (0..LANGUAGE_COUNT).map(language_code).collect();
    assert_eq!(
        codes,
        vec!["fr", "en", "es", "de", "it", "pt", "nl", "pl", "ru", "zh", "ja", "ko", "ar"]
    );
    assert_eq!(language_label(0), "Français");
    assert_eq!(language_label(8), "Русский");
    assert_eq!(language_label(9), "中文");
    assert_eq!(language_label(12), "العربية");
}

#[test]
fn find_language_maps_codes_to_positions() {
    assert_eq!(find_language("fr"), Some(0));
    assert_eq!(find_language("zh"), Some(9));
    assert_eq!(find_language("ar"), Some(12));
    assert_eq!(find_language("xx"), None);
    assert_eq!(find_language(""), None);
    assert_eq!(find_language("open"), None);
}

#[test]
fn fresh_menu_checks_the_default_language() {
    let menu = LangMenu::new();
    assert_eq!(checked_positions(&menu), vec![default_language_index()]);
    assert_eq!(language_code(default_language_index()), "fr");
}

#[test]
fn selecting_a_language_checks_exactly_that_entry() {
    let mut menu = LangMenu::new();
    let act = menu.handle_menu_event("de");
    assert_eq!(act, MenuAction::LanguageSelected { index: 3 });
    assert_eq!(checked_positions(&menu), vec![3]);
    // Selecting another language moves the single check mark.
    let act = menu.handle_menu_event("ko");
    assert_eq!(act, MenuAction::LanguageSelected { index: 11 });
    assert_eq!(checked_positions(&menu), vec![11]);
}

#[test]
fn open_quit_and_unknown_ids_leave_the_checks_alone() {
    let mut menu = LangMenu::new();
    menu.handle_menu_event("es");
    assert_eq!(menu.handle_menu_event("open"), MenuAction::ShowMainWindow);
    assert_eq!(checked_positions(&menu), vec![2]);
    assert_eq!(menu.handle_menu_event("quit"), MenuAction::Quit);
    assert_eq!(checked_positions(&menu), vec![2]);
    assert_eq!(menu.handle_menu_event("nonsense"), MenuAction::Ignored);
    assert_eq!(checked_positions(&menu), vec![2]);
}

#[test]
fn quoted_inbound_payload_checks_the_named_entry() {
    let mut menu = LangMenu::new();
    menu.handle_menu_event("ru");
    menu.apply_language_notification("\"de\"");
    assert_eq!(checked_positions(&menu), vec![3]);
}

#[test]
fn unquoted_inbound_payload_is_accepted_too() {
    let mut menu = LangMenu::new();
    menu.apply_language_notification("ja");
    assert_eq!(checked_positions(&menu), vec![10]);
}

#[test]
fn unknown_inbound_payload_unchecks_everything() {
    let mut menu = LangMenu::new();
    menu.apply_language_notification("\"klingon\"");
    assert_eq!(checked_positions(&menu), Vec::<usize>::new());
}

#[test]
fn trim_quote_chars_strips_surrounding_quotes_only() {
    assert_eq!(trim_quote_chars("\"de\""), "de");
    assert_eq!(trim_quote_chars("de"), "de");
    assert_eq!(trim_quote_chars("\"\""), "");
    assert_eq!(trim_quote_chars(""), "");
    assert_eq!(trim_quote_chars("a\"b"), "a\"b");
    assert_eq!(trim_quote_chars("\"\"\"x\""), "x");
}

#[test]
fn notification_names_match_the_protocol() {
    assert_eq!(language_changed_event(), "tray:language-changed");
    assert_eq!(language_notification_name(), "language-changed");
    assert_eq!(open_menu_id(), "open");
    assert_eq!(quit_menu_id(), "quit");
}

#[test]
fn menu_construction_strings() {
    assert_eq!(open_menu_title(), "Open window");
    assert_eq!(quit_menu_title(), "Quit");
    assert_eq!(language_submenu_id(), "language");
    assert_eq!(language_submenu_title(), "Language");
    assert_eq!(tray_tooltip(), "OpenWhisper");
    assert!(!show_menu_on_left_click());
}

#[test]
fn only_a_left_click_release_shows_the_window() {
    assert!(tray_click_shows_window(MouseButton::Left, MouseButtonState::Up));
    assert!(!tray_click_shows_window(MouseButton::Left, MouseButtonState::Down));
    assert!(!tray_click_shows_window(MouseButton::Right, MouseButtonState::Up));
    assert!(!tray_click_shows_window(MouseButton::Middle, MouseButtonState::Up));
}

#[test]
fn submenu_id_is_not_a_menu_action() {
    let mut menu = LangMenu::new();
    assert_eq!(menu.handle_menu_event("language"), MenuAction::Ignored);
    assert_eq!(checked_positions(&menu), vec![0]);
}
