use caw_desktop::menu::{menu_command, same_chars, MenuCommand};
use caw_desktop::storage::{is_white_space_char, resolve_db_path, trim, worker_args};

#[test]
fn home_fallback_without_repository() {
    assert_eq!(resolve_db_path(None, Some("/home/u")), "/home/u/.caw/workflows.db");
}

#[test]
fn repository_root_preferred() {
    assert_eq!(resolve_db_path(Some("/repo"), Some("/home/u")), "/repo/.caw/workflows.db");
    assert_eq!(resolve_db_path(Some("/repo\n"), Some("/home/u")), "/repo/.caw/workflows.db");
}

#[test]
fn blank_repository_output_falls_back() {
    assert_eq!(resolve_db_path(Some(" \n"), Some("/home/u")), "/home/u/.caw/workflows.db");
    assert_eq!(resolve_db_path(Some(""), None), "/tmp/.caw/workflows.db");
}

#[test]
fn no_home_uses_tmp() {
    assert_eq!(resolve_db_path(None, None), "/tmp/.caw/workflows.db");
}

#[test]
fn trim_matches_std() {
    for s in ["", "  ", "abc", "  a b \n", "\t\u{3000}x\u{2009}", "\u{85}y\u{a0}", "ä ö"] {
        assert_eq!(trim(s), s.trim());
    }
    assert!(is_white_space_char('\u{2028}'));
    assert!(!is_white_space_char('\u{200B}'));
    assert!(!is_white_space_char('x'));
}

#[test]
fn launch_arguments() {
    assert_eq!(
        worker_args("/repo/.caw/workflows.db"),
        vec!["--server", "--transport", "http", "--port", "3100", "--db", "/repo/.caw/workflows.db"]
    );
}

#[test]
fn menu_dispatch() {
    assert_eq!(menu_command("settings"), MenuCommand::OpenSettings);
    assert_eq!(menu_command("help"), MenuCommand::OpenSettings);
    assert_eq!(menu_command("reload"), MenuCommand::Reload);
    assert_eq!(menu_command("fullscreen"), MenuCommand::ToggleFullscreen);
    assert_eq!(menu_command("zoom"), MenuCommand::ToggleZoom);
    assert_eq!(menu_command("zoo"), MenuCommand::Ignore);
    assert_eq!(menu_command(""), MenuCommand::Ignore);
    assert!(same_chars("ab", "ab"));
    assert!(!same_chars("ab", "abc"));
}
