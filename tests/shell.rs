use howlto::logging::{file_filter, stderr_filter};
use howlto::select::{action_result, list_command, list_width, session_ends, ActionKind, Item, Key, ListCommand};
use howlto::shell::{is_known_shell, Integration, Shell};

#[test]
fn known_shells() {
    assert!(is_known_shell("fish"));
    assert!(is_known_shell("-zsh"));
    assert!(is_known_shell("cmd.exe"));
    assert!(!is_known_shell("cargo"));
    assert!(!is_known_shell(""));
}

#[test]
fn integrations() {
    assert_eq!(Integration::from_name("fish"), Some(Integration::Fish));
    assert_eq!(Integration::from_name("bash"), Some(Integration::Fish));
    assert_eq!(Integration::from_name("zsh"), Some(Integration::Zsh));
    assert_eq!(Integration::from_name("nu"), None);
}

#[test]
fn shell_accessors() {
    let s = Shell::new("fish".to_string(), "/usr/bin/fish".to_string(), Some(Integration::Fish));
    assert_eq!(s.name(), "fish");
    assert_eq!(s.path(), "/usr/bin/fish");
    assert_eq!(s.integration(), Some(Integration::Fish));
}

#[test]
fn log_filters_drop_model_client() {
    assert!(!file_filter(Some("rig::agent")));
    assert!(!stderr_filter(Some("rig::providers::openai")));
    assert!(file_filter(Some("howlto::resolve")));
    assert!(stderr_filter(Some("rigger")));
    assert!(file_filter(None));
}

#[test]
fn selection() {
    let items = vec![Item::new("ls".to_string()), Item::new("pwd".to_string())];
    let a = action_result(&items, Some(1), ActionKind::Copy).unwrap();
    assert_eq!(a.command, "pwd");
    assert_eq!(a.kind, ActionKind::Copy);
    assert!(action_result(&items, Some(2), ActionKind::Copy).is_none());
    assert!(action_result(&items, None, ActionKind::Print).is_none());
}

#[test]
fn list_width_bounds() {
    assert_eq!(list_width(&vec![]), 45);
    assert_eq!(list_width(&vec![Item::new("x".repeat(60))]), 60);
    assert_eq!(list_width(&vec![Item::new("你".repeat(20))]), 60);
}

#[test]
fn session_end_rules() {
    assert!(session_ends(ActionKind::Copy, false, false));
    assert!(session_ends(ActionKind::Modify, false, false));
    assert!(!session_ends(ActionKind::Modify, true, false));
    assert!(session_ends(ActionKind::Modify, true, true));
}

#[test]
fn keys_map_to_list_commands() {
    assert_eq!(list_command(Key::Char('k'), true, false), Some(ListCommand::Up));
    assert_eq!(list_command(Key::Down, true, false), Some(ListCommand::Down));
    assert_eq!(list_command(Key::Char('q'), true, false), Some(ListCommand::Quit));
    assert_eq!(list_command(Key::Char('c'), false, true), Some(ListCommand::Quit));
    assert_eq!(list_command(Key::Char('c'), true, false), Some(ListCommand::Choose(ActionKind::Copy)));
    assert_eq!(list_command(Key::Enter, true, false), Some(ListCommand::Choose(ActionKind::Print)));
    assert_eq!(list_command(Key::Char('m'), false, false), None);
    assert_eq!(list_command(Key::Other, true, false), None);
}
