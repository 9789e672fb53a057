use howlto::config::{default_language, default_model, default_output_n, AgentConfig, ShellCommandGenConfig};
use howlto::profile::{Profiles, ShellComamndGenProfile};
use howlto::text::{contains_text, decimal_string, join_with_newlines, replace};

fn profile(generate: &str) -> ShellComamndGenProfile {
    let mut p = ShellComamndGenProfile::default();
    p.generate = generate.to_string();
    p
}

#[test]
fn generate_fills_every_placeholder() {
    let p = profile("{{os}}|{{shell}}|{{text_lang}}|{{max_tokens}}|{{output_n}}|{{shell}}");
    assert_eq!(p.generate("linux", "/bin/fish", "zh", Some(1024), 3), "linux|/bin/fish|zh|1024|3|/bin/fish");
    assert_eq!(p.generate("macos", "zsh", "en", None, 12), "macos|zsh|en|[none]|12|zsh");
}

#[test]
fn default_generate_prompt_has_no_placeholder_left() {
    let p = ShellComamndGenProfile::default();
    let s = p.generate("linux", "bash", "en", Some(0), 3);
    assert!(!s.contains("{{"));
    assert!(s.contains("You should generate 3 commands"));
    assert!(s.contains("max_tokens: `0`"));
}

#[test]
fn prompts_fill_their_placeholder() {
    let p = ShellComamndGenProfile::default();
    assert_eq!(p.modify("ls"), "Now help me modify the command:\n```\nls\n```\nwith my prompt below.");
    assert_eq!(p.attach("data"), "Some information are attached below:\ndata");
    assert!(p.check_help("a\nb").ends_with("Your previous output commands are:\na\nb"));
    assert!(p.check_valid("x").ends_with("\nx"));
    assert!(p.check_finish().starts_with("(SYSTEM) WARNING"));
    let profiles = Profiles::default();
    assert_eq!(profiles.shell_command_gen.check_finish(), p.check_finish());
}

#[test]
fn replace_is_leftmost_and_without_overlap() {
    assert_eq!(replace("aaa", "aa", "b"), "ba");
    assert_eq!(replace("xyz", "q", "b"), "xyz");
    assert_eq!(replace("", "q", "b"), "");
    assert_eq!(replace("你好你", "你", "x"), "x好x");
}

#[test]
fn decimals() {
    assert_eq!(decimal_string(0), "0");
    assert_eq!(decimal_string(7), "7");
    assert_eq!(decimal_string(1024), "1024");
    assert_eq!(decimal_string(u64::MAX), u64::MAX.to_string());
}

#[test]
fn joining_and_searching() {
    assert_eq!(join_with_newlines(&vec![]), "");
    assert_eq!(join_with_newlines(&vec!["a".to_string()]), "a");
    assert_eq!(join_with_newlines(&vec!["a".to_string(), "b".to_string()]), "a\nb");
    assert!(contains_text("/usr/bin/fish", "fish"));
    assert!(!contains_text("fis", "fish"));
    assert!(contains_text("abc", ""));
}

#[test]
fn config_defaults() {
    let a = AgentConfig::default();
    assert!(a.use_tool_man && a.use_tool_help && a.use_tool_tldr && a.cache);
    assert_eq!(a.language, "en");
    assert_eq!(a.shell_command_gen.output_n, 3);
    assert!(!ShellCommandGenConfig::default().wait_for_output_scrolling);
    assert_eq!(default_language(), "en");
    assert_eq!(default_model(), "gpt-4o-mini");
    assert_eq!(default_output_n(), 3);
}
