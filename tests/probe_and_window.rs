use hwp_shell::probe::{service_is_up, OLLAMA_TAGS_URL, PROBE_TIMEOUT_SECS};
use hwp_shell::text::{chars_of, contains_text};
use hwp_shell::window::{menu_command, shortcut_action, MenuCommand, WindowAction};

#[test]
fn probe_target() {
    assert_eq!(OLLAMA_TAGS_URL, "http://localhost:11434/api/tags");
    assert_eq!(PROBE_TIMEOUT_SECS, 5);
}

#[test]
fn probe_success_statuses() {
    assert!(service_is_up(Some(200)));
    assert!(service_is_up(Some(204)));
    assert!(service_is_up(Some(299)));
}

#[test]
fn probe_failure_statuses() {
    assert!(!service_is_up(Some(199)));
    assert!(!service_is_up(Some(300)));
    assert!(!service_is_up(Some(404)));
    assert!(!service_is_up(Some(503)));
    assert!(!service_is_up(None));
}

#[test]
fn text_search() {
    assert!(contains_text("abc", ""));
    assert!(contains_text("", ""));
    assert!(!contains_text("", "a"));
    assert!(contains_text("한글 문서", "문서"));
    assert!(contains_text("abc", "abc"));
    assert!(!contains_text("ab", "abc"));
    assert!(contains_text("aab", "ab"));
    assert_eq!(chars_of("가a"), vec!['가', 'a']);
}

#[test]
fn menu_items() {
    assert_eq!(menu_command("quit"), MenuCommand::Quit);
    assert_eq!(menu_command("show"), MenuCommand::Show);
    assert_eq!(menu_command("Quit"), MenuCommand::Ignore);
    assert_eq!(menu_command(""), MenuCommand::Ignore);
}

#[test]
fn shortcut_toggles_window() {
    assert_eq!(shortcut_action(Some(true)), WindowAction::Hide);
    assert_eq!(shortcut_action(Some(false)), WindowAction::ShowAndFocus);
    assert_eq!(shortcut_action(None), WindowAction::ShowAndFocus);
}
