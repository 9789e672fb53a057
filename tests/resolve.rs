use howlto::message::{Message, Role};
use howlto::profile::ShellComamndGenProfile;
use howlto::resolve::{ModifyOption, ResolveStep, Resolver};
use howlto::round::{RoundResult, ToolCallState};
use howlto::tools::FinishResponseArgs;
use howlto::usage::Usage;

fn tools(help: bool) -> ToolCallState {
    ToolCallState { tldr: false, help, man: false }
}

fn round(help: bool, output: &str, commands: Option<Vec<&str>>, usage: Option<Usage>) -> RoundResult {
    RoundResult {
        tool_calls: tools(help),
        output: output.to_string(),
        usage,
        commands: commands.map(|c| FinishResponseArgs {
            results: c.into_iter().map(String::from).collect(),
        }),
    }
}

fn usage(n: u64) -> Usage {
    Usage { input_tokens: n, output_tokens: n, total_tokens: 2 * n }
}

#[test]
fn no_help_and_no_commands_runs_help_then_finish_checks() {
    let profile = ShellComamndGenProfile::default();
    let mut r = Resolver::new("list files".to_string(), None, None, &profile);
    assert_eq!(r.next_prompt(&profile).unwrap(), "list files");
    assert!(r.history().is_empty());
    assert!(!r.on_round(Some(round(false, "thinking", None, Some(usage(1))))));
    assert_eq!(r.step(), ResolveStep::CheckHelp);
    let check_help = r.next_prompt(&profile).unwrap();
    assert!(check_help.contains("You haven't call any help tool"));
    assert!(!r.on_round(Some(round(true, "checked", None, Some(usage(2))))));
    assert_eq!(r.step(), ResolveStep::CheckFinish);
    assert_eq!(r.next_prompt(&profile).unwrap(), profile.check_finish());
    assert!(!r.on_round(Some(round(false, "final", Some(vec!["ls -la"]), Some(usage(4))))));
    assert!(r.is_done());
    assert_eq!(r.next_prompt(&profile), None);
    assert_eq!(r.usage(), Some(usage(7)));
    let response = r.into_response();
    assert_eq!(response.commands, vec!["ls -la".to_string()]);
    let roles: Vec<Role> = response.messages.iter().map(|m| m.role).collect();
    assert_eq!(roles, vec![Role::User, Role::Assistant, Role::Assistant, Role::Assistant]);
    assert_eq!(response.messages[0].content, "list files");
    assert_eq!(response.messages[1].content, "thinking");
    assert_eq!(response.messages[2].content, "checked");
    assert_eq!(response.messages[3].content, "final");
}

#[test]
fn no_help_and_finish_check_still_empty() {
    let profile = ShellComamndGenProfile::default();
    let mut r = Resolver::new("p".to_string(), None, None, &profile);
    r.on_round(Some(round(false, "a", None, None)));
    r.on_round(Some(round(false, "b", None, None)));
    assert_eq!(r.step(), ResolveStep::CheckFinish);
    r.on_round(Some(round(false, "c", None, None)));
    assert!(r.is_done());
    let response = r.into_response();
    assert!(response.commands.is_empty());
    assert_eq!(response.messages.len(), 4);
}

#[test]
fn help_used_and_valid_commands_finish_at_once() {
    let profile = ShellComamndGenProfile::default();
    let mut r = Resolver::new("show disk usage".to_string(), None, None, &profile);
    assert!(!r.on_round(Some(round(true, "use du", Some(vec!["du -sh .", "df -h"]), Some(usage(5))))));
    assert!(r.is_done());
    assert_eq!(r.usage(), Some(usage(5)));
    let response = r.into_response();
    assert_eq!(response.commands, vec!["du -sh .".to_string(), "df -h".to_string()]);
    assert_eq!(response.messages.len(), 2);
}

#[test]
fn help_used_without_commands_asks_to_finish() {
    let profile = ShellComamndGenProfile::default();
    let mut r = Resolver::new("p".to_string(), None, None, &profile);
    r.on_round(Some(round(true, "a", None, None)));
    assert_eq!(r.step(), ResolveStep::CheckFinish);
}

#[test]
fn flagged_command_after_help_check_asks_for_validity() {
    let profile = ShellComamndGenProfile::default();
    let mut r = Resolver::new("p".to_string(), None, None, &profile);
    r.on_round(Some(round(false, "a", Some(vec!["ls"]), None)));
    assert_eq!(r.step(), ResolveStep::CheckHelp);
    assert!(r.next_prompt(&profile).unwrap().ends_with("\nls"));
    r.on_round(Some(round(false, "b", Some(vec!["ls", "列出文件"]), None)));
    assert_eq!(r.step(), ResolveStep::CheckValid);
    let prompt = r.next_prompt(&profile).unwrap();
    assert!(prompt.ends_with("ls\n列出文件"));
    r.on_round(Some(round(false, "c", Some(vec!["ls -1"]), None)));
    assert!(r.is_done());
    assert_eq!(r.into_response().commands, vec!["ls -1".to_string()]);
}

#[test]
fn empty_command_is_flagged() {
    let profile = ShellComamndGenProfile::default();
    let mut r = Resolver::new("p".to_string(), None, None, &profile);
    r.advance(Some(round(false, "a", Some(vec!["ls"]), None)), false);
    r.on_round(Some(round(false, "b", Some(vec![""]), None)));
    assert_eq!(r.step(), ResolveStep::CheckValid);
}

#[test]
fn validity_check_without_commands_asks_to_finish() {
    let profile = ShellComamndGenProfile::default();
    let mut r = Resolver::new("p".to_string(), None, None, &profile);
    r.advance(Some(round(false, "a", Some(vec!["x"]), None)), false);
    r.advance(Some(round(false, "b", Some(vec!["x"]), None)), true);
    assert_eq!(r.step(), ResolveStep::CheckValid);
    r.advance(Some(round(false, "c", None, None)), false);
    assert_eq!(r.step(), ResolveStep::CheckFinish);
    r.advance(Some(round(false, "d", None, None)), false);
    assert!(r.is_done());
}

#[test]
fn failed_primary_round_aborts() {
    let profile = ShellComamndGenProfile::default();
    let mut r = Resolver::new("p".to_string(), None, None, &profile);
    assert!(r.on_round(None));
    assert!(r.is_done());
    assert!(r.history().is_empty());
}

#[test]
fn failed_corrective_round_keeps_result() {
    let profile = ShellComamndGenProfile::default();
    let mut r = Resolver::new("p".to_string(), None, None, &profile);
    r.on_round(Some(round(false, "a", Some(vec!["ls"]), Some(usage(1)))));
    assert!(!r.on_round(None));
    assert!(r.is_done());
    assert_eq!(r.usage(), Some(usage(1)));
    let response = r.into_response();
    assert_eq!(response.commands, vec!["ls".to_string()]);
    assert_eq!(response.messages.len(), 2);
}

#[test]
fn modify_and_attach_build_the_context() {
    let profile = ShellComamndGenProfile::default();
    let past = vec![Message::user("old".to_string()), Message::assistant("reply".to_string())];
    let r = Resolver::new(
        "make it recursive".to_string(),
        Some(ModifyOption::new(past, "ls".to_string())),
        Some("file list".to_string()),
        &profile,
    );
    let h = r.history();
    assert_eq!(h.len(), 4);
    assert_eq!(h[0].content, "old");
    assert_eq!(h[1].content, "reply");
    assert_eq!(h[2].role, Role::User);
    assert_eq!(h[2].content, "Now help me modify the command:\n```\nls\n```\nwith my prompt below.");
    assert_eq!(h[3].content, "Some information are attached below:\nfile list");
}

#[test]
fn attach_alone_builds_the_context() {
    let profile = ShellComamndGenProfile::default();
    let r = Resolver::new("p".to_string(), None, Some("x".to_string()), &profile);
    assert_eq!(r.history().len(), 1);
    assert_eq!(r.history()[0].content, "Some information are attached below:\nx");
}
