//! Configuration values and their defaults.
use vstd::prelude::*;
use vstd::string::*;

use crate::tools::ToolKind;

verus! {

pub const DEFAULT_CONFIG_DIR: &'static str = "~/.config/howlto/";

pub const PROFILES_TOML_FILE: &'static str = "profiles.toml";

pub const CONFIG_TOML_FILE: &'static str = "config.toml";

pub const DEFAULT_LANGUAGE: &'static str = "en";

pub const DEFAULT_MODEL: &'static str = "gpt-4o-mini";

/// Whether the generator waits for the progress display to show all text.
pub fn default_wait_for_output_scrolling() -> (r: bool)
    ensures
        !r,
{
    false
}

/// Number of commands asked of the generator.
pub fn default_output_n() -> (r: u32)
    ensures
        r == 3,
{
    3
}

/// Language of the model's answers.
pub fn default_language() -> (r: String)
    ensures
        r@ == DEFAULT_LANGUAGE@,
{
    String::from_str(DEFAULT_LANGUAGE)
}

pub fn default_use_tool_man() -> (r: bool)
    ensures
        r,
{
    true
}

pub fn default_use_tool_help() -> (r: bool)
    ensures
        r,
{
    true
}

pub fn default_use_tool_tldr() -> (r: bool)
    ensures
        r,
{
    true
}

/// Model used when none is configured.
pub fn default_model() -> (r: String)
    ensures
        r@ == DEFAULT_MODEL@,
{
    String::from_str(DEFAULT_MODEL)
}

pub fn default_cache() -> (r: bool)
    ensures
        r,
{
    true
}

/// Settings of the shell command generator.
pub struct ShellCommandGenConfig {
    /// Number of commands asked for.
    pub output_n: u32,
    /// Whether a round waits until the progress display has shown all text.
    pub wait_for_output_scrolling: bool,
}

impl Default for ShellCommandGenConfig {
    fn default() -> (r: Self)
        ensures
            r.output_n == 3,
            !r.wait_for_output_scrolling,
    {
        ShellCommandGenConfig {
            output_n: default_output_n(),
            wait_for_output_scrolling: default_wait_for_output_scrolling(),
        }
    }
}

/// Settings of the agent.
pub struct AgentConfig {
    /// Offer the manual-page tool.
    pub use_tool_man: bool,
    /// Offer the `--help` tool.
    pub use_tool_help: bool,
    /// Offer the tldr tool.
    pub use_tool_tldr: bool,
    /// Keep conversations for reuse.
    pub cache: bool,
    /// Language of the model's answers.
    pub language: String,
    pub shell_command_gen: ShellCommandGenConfig,
}

impl Default for AgentConfig {
    fn default() -> (r: Self)
        ensures
            r.use_tool_man && r.use_tool_help && r.use_tool_tldr && r.cache,
            r.language@ == DEFAULT_LANGUAGE@,
            r.shell_command_gen.output_n == 3,
            !r.shell_command_gen.wait_for_output_scrolling,
    {
        AgentConfig {
            use_tool_man: default_use_tool_man(),
            use_tool_help: default_use_tool_help(),
            use_tool_tldr: default_use_tool_tldr(),
            cache: default_cache(),
            language: default_language(),
            shell_command_gen: ShellCommandGenConfig::default(),
        }
    }

}

impl AgentConfig {
    /// The tools offered to the model, in the order they are registered:
    /// the enabled help tools, then the finish tool, which is always there.
    pub fn enabled_tools(&self) -> (r: Vec<ToolKind>)
        ensures
            r@ == (if self.use_tool_man {
                seq![ToolKind::Man]
            } else {
                Seq::empty()
            }) + (if self.use_tool_help {
                seq![ToolKind::Help]
            } else {
                Seq::empty()
            }) + (if self.use_tool_tldr {
                seq![ToolKind::Tldr]
            } else {
                Seq::empty()
            }) + seq![ToolKind::Finish],
    {
        let mut tools: Vec<ToolKind> = Vec::new();
        if self.use_tool_man {
            tools.push(ToolKind::Man);
        }
        let ghost a = tools@;
        if self.use_tool_help {
            tools.push(ToolKind::Help);
        }
        let ghost b = tools@;
        if self.use_tool_tldr {
            tools.push(ToolKind::Tldr);
        }
        let ghost c = tools@;
        tools.push(ToolKind::Finish);
        assert(tools@ =~= (if self.use_tool_man {
            seq![ToolKind::Man]
        } else {
            Seq::empty()
        }) + (if self.use_tool_help {
            seq![ToolKind::Help]
        } else {
            Seq::empty()
        }) + (if self.use_tool_tldr {
            seq![ToolKind::Tldr]
        } else {
            Seq::empty()
        }) + seq![ToolKind::Finish]);
        tools
    }
}

} // verus!
