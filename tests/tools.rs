use howlto::command::{is_potentially_invalid_command, is_potentially_invalid_given};
use howlto::config::AgentConfig;
use howlto::tools::{
    default_read_lines, default_start_line, is_whitespace, tool_kind, FinishResponseArgs, ManArgs,
    TheFuck, ToolKind,
};

#[test]
fn tool_names_are_recognised() {
    assert_eq!(tool_kind("finish_response"), ToolKind::Finish);
    assert_eq!(tool_kind("help"), ToolKind::Help);
    assert_eq!(tool_kind("man"), ToolKind::Man);
    assert_eq!(tool_kind("tldr"), ToolKind::Tldr);
    assert_eq!(tool_kind("thefuck"), ToolKind::TheFuck);
    assert_eq!(tool_kind("helps"), ToolKind::Unknown);
    assert_eq!(tool_kind(""), ToolKind::Unknown);
}

#[test]
fn reading_defaults() {
    assert_eq!(default_start_line(), 0);
    assert_eq!(default_read_lines(), 50);
}

#[test]
fn finish_args_empty() {
    assert!(FinishResponseArgs::empty().results.is_empty());
}

#[test]
fn thefuck_keeps_shell_name() {
    assert_eq!(TheFuck::new("fish".to_string()).shell_name(), "fish");
}

fn man(entry: &str) -> ManArgs {
    ManArgs { section: None, entry: entry.to_string(), start_line: 0, read_lines: 50 }
}

#[test]
fn man_entry_checks() {
    assert_eq!(man("ffmpeg").check_entry(), Ok(()));
    assert_eq!(
        man("-rf").check_entry(),
        Err("invalid entry: -rf, entry should not start with '-' and should not contain whitespace"
            .to_string())
    );
    assert!(man("git commit").check_entry().is_err());
    assert!(man("a\u{3000}b").check_entry().is_err());
    assert!(man("a-b").check_entry().is_ok());
}

#[test]
fn whitespace_matches_std() {
    for c in ['\t', '\n', ' ', '\u{85}', '\u{a0}', '\u{2007}', '\u{3000}', 'a', '-', '\u{200b}'] {
        assert_eq!(is_whitespace(c), c.is_whitespace());
    }
}

#[test]
fn invalid_command_heuristic() {
    assert!(is_potentially_invalid_command(""));
    assert!(!is_potentially_invalid_command("ls -la"));
    assert!(is_potentially_invalid_command("列出所有文件"));
    assert!(is_potentially_invalid_given("列出", false));
    assert!(!is_potentially_invalid_given("列出", true));
    assert!(!is_potentially_invalid_given("ls", false));
    assert!(is_potentially_invalid_given("", true));
}

#[test]
fn enabled_tools_follow_config() {
    let mut config = AgentConfig::default();
    assert_eq!(
        config.enabled_tools(),
        vec![ToolKind::Man, ToolKind::Help, ToolKind::Tldr, ToolKind::Finish]
    );
    config.use_tool_man = false;
    config.use_tool_tldr = false;
    assert_eq!(config.enabled_tools(), vec![ToolKind::Help, ToolKind::Finish]);
}
