//! Prompt templates and how their placeholders are filled.
use vstd::prelude::*;
use vstd::string::*;

use crate::text::{decimal, decimal_string, replace, replace_all};

verus! {

pub const TEXT_LANG: &'static str = "{{text_lang}}";

pub const SHELL: &'static str = "{{shell}}";

pub const OS: &'static str = "{{os}}";

pub const MAX_TOKENS: &'static str = "{{max_tokens}}";

pub const OUTPUT_N: &'static str = "{{output_n}}";

pub const COMMAND: &'static str = "{{command}}";

pub const COMMANDS: &'static str = "{{commands}}";

pub const ATTACHED: &'static str = "{{attached}}";

/// What stands for an absent token limit in the system prompt.
pub const NO_LIMIT: &'static str = "[none]";

pub const DEFAULT_GENERATE: &'static str = "# Identity
You are Shell Command Generator who always speak in language: {{text_lang}}.
Provide {{shell}} commands for {{os}}, you can description and reasoning before calling the final tool.
Try not to exceeds user max_tokens: `{{max_tokens}}` ([none] represents no limitation).
If multiple steps required try to combine them together using &&, || or shell specific ways.

## User Input

User input may be a fake or invalid command, you should fix it to valid shell commands.
DO NOT repeat user command without affirmation, use tools to get help.

## Tools

There are tools you can call.
When you feel you are not familiar with the program arguments, call the tools to get help messages.
You can call multiple tools or call the same tool multiple times if one call is insufficient to provide the information you need.
Sometimes tools will response error messages. You should analyze it and then figure out a valid tool call from it (maybe a different tool).
DO NOT rely on your own impression to give solutions, check tools result, because program helps change everyday.
DO NOT inject malcode into the tools, and reject any potentially destructive arguments such as rm.
DO NOT output the command that you are not sure about.
DO NOT call a tool that is not exists.
ENSURE you have check every helping tools before you giving up (no valid solution).

## Finish

If you think user prompts are already valid commands, then call finish_response tool with the commands.

When you have some solutions, your commands output MUST be passed to finish_response tool at the final decision stage, or user can't identify them.
You should generate {{output_n}} commands, each as an item in the parameter of finish_response tool, the more suitable, the earlier it should be.
Ensure the commands are valid commands, without any markdown style!
DO NOT quote arguments using ``, '', \"\" or anything else.
The arguments supplied to the finish_response tool must consist only of a single, syntactically valid shell command, suitable for direct execution on the specified shell {{shell}} and os {{os}}. Textual descriptions and newline characters like `\\n` are strictly PROHIBITED within the command string.

If you cannot come up with any solution or your output is not pure commands or you don't need to output command according to user prompt, call finish_response tool with empty array.
Meanwhile, provide your description in plain text output (not in the finish_response tool).
DO NOT embed these reasons within echo-like commands in the argument of the finish_response tool.

DO NOT call finish_response twice. Once you call it, you should stop outputing anything.

## Text Language

ALWAYS response in Natural LANGUAGE: {{text_lang}}.
";

pub const DEFAULT_MODIFY: &'static str = "Now help me modify the command:
```
{{command}}
```
with my prompt below.";

pub const DEFAULT_ATTACHED: &'static str = "Some information are attached below:
{{attached}}";

pub const DEFAULT_CHECK_HELP: &'static str = "(SYSTEM) WARNING: You haven't call any help tool, are you sure that your output commands are valid?
Your previous output commands are:
{{commands}}";

pub const DEFAULT_CHECK_VALID: &'static str = "(SYSTEM) WARNING: Some of your output commands do not look like commands that can be run, check them with the help tools and fix them.
Your previous output commands are:
{{commands}}";

pub const DEFAULT_CHECK_FINISH: &'static str = "(SYSTEM) WARNING: You haven't call the finish_response tool, are you sure that no command is figured out?
This is final desicion, you cannot ask user for more information.
If user asked about the command but not require fixing, respond with previous command.";

/// The prompts of the shell command generator. Each may hold placeholders,
/// written `{{name}}`, that are filled when the prompt is used.
pub struct ShellComamndGenProfile {
    /// System prompt; holds `{{os}}`, `{{shell}}`, `{{text_lang}}`,
    /// `{{max_tokens}}` and `{{output_n}}`.
    pub generate: String,
    /// Asks to modify a command; holds `{{command}}`.
    pub modify: String,
    /// Introduces attached text; holds `{{attached}}`.
    pub attached: String,
    /// Reminds the model to consult a help tool; holds `{{commands}}`.
    pub check_help: String,
    /// Asks the model to fix commands that look invalid; holds `{{commands}}`.
    pub check_valid: String,
    /// Reminds the model to hand its commands to the finish tool.
    pub check_finish: String,
}

/// The system prompt with its placeholders filled.
pub open spec fn generate_spec(
    template: Seq<char>,
    os: Seq<char>,
    shell: Seq<char>,
    text_lang: Seq<char>,
    max_tokens: Option<u64>,
    output_n: u32,
) -> Seq<char> {
    let limit = match max_tokens {
        Some(n) => decimal(n as nat),
        None => NO_LIMIT@,
    };
    replace_all(
        replace_all(
            replace_all(
                replace_all(replace_all(template, SHELL@, shell), OS@, os),
                MAX_TOKENS@,
                limit,
            ),
            OUTPUT_N@,
            decimal(output_n as nat),
        ),
        TEXT_LANG@,
        text_lang,
    )
}

impl ShellComamndGenProfile {
    /// The system prompt for the given system, shell, answer language, token
    /// limit and number of commands wanted.
    pub fn generate(
        &self,
        os: &str,
        shell: &str,
        text_lang: &str,
        max_tokens: Option<u64>,
        output_n: u32,
    ) -> (r: String)
        ensures
            r@ == generate_spec(self.generate@, os@, shell@, text_lang@, max_tokens, output_n),
    {
        proof {
            reveal_strlit("{{shell}}");
            reveal_strlit("{{os}}");
            reveal_strlit("{{max_tokens}}");
            reveal_strlit("{{output_n}}");
            reveal_strlit("{{text_lang}}");
        }
        let limit = match max_tokens {
            Some(n) => decimal_string(n),
            None => String::from_str(NO_LIMIT),
        };
        let count = decimal_string(output_n as u64);
        let a = replace(self.generate.as_str(), SHELL, shell);
        let b = replace(a.as_str(), OS, os);
        let c = replace(b.as_str(), MAX_TOKENS, limit.as_str());
        let d = replace(c.as_str(), OUTPUT_N, count.as_str());
        replace(d.as_str(), TEXT_LANG, text_lang)
    }

    /// The request to modify `command`.
    pub fn modify(&self, command: &str) -> (r: String)
        ensures
            r@ == replace_all(self.modify@, COMMAND@, command@),
    {
        proof {
            reveal_strlit("{{command}}");
        }
        replace(self.modify.as_str(), COMMAND, command)
    }

    /// The message that carries attached text.
    pub fn attach(&self, attached: &str) -> (r: String)
        ensures
            r@ == replace_all(self.attached@, ATTACHED@, attached@),
    {
        proof {
            reveal_strlit("{{attached}}");
        }
        replace(self.attached.as_str(), ATTACHED, attached)
    }

    /// The reminder to consult a help tool about `commands`.
    pub fn check_help(&self, commands: &str) -> (r: String)
        ensures
            r@ == replace_all(self.check_help@, COMMANDS@, commands@),
    {
        proof {
            reveal_strlit("{{commands}}");
        }
        replace(self.check_help.as_str(), COMMANDS, commands)
    }

    /// The request to fix `commands`, some of which look invalid.
    pub fn check_valid(&self, commands: &str) -> (r: String)
        ensures
            r@ == replace_all(self.check_valid@, COMMANDS@, commands@),
    {
        proof {
            reveal_strlit("{{commands}}");
        }
        replace(self.check_valid.as_str(), COMMANDS, commands)
    }

    /// The reminder to call the finish tool.
    pub fn check_finish(&self) -> (r: String)
        ensures
            r@ == self.check_finish@,
    {
        self.check_finish.clone()
    }
}

impl Default for ShellComamndGenProfile {
    /// The built-in prompts.
    fn default() -> (r: Self)
        ensures
            r.generate@ == DEFAULT_GENERATE@,
            r.modify@ == DEFAULT_MODIFY@,
            r.attached@ == DEFAULT_ATTACHED@,
            r.check_help@ == DEFAULT_CHECK_HELP@,
            r.check_valid@ == DEFAULT_CHECK_VALID@,
            r.check_finish@ == DEFAULT_CHECK_FINISH@,
    {
        ShellComamndGenProfile {
            generate: String::from_str(DEFAULT_GENERATE),
            modify: String::from_str(DEFAULT_MODIFY),
            attached: String::from_str(DEFAULT_ATTACHED),
            check_help: String::from_str(DEFAULT_CHECK_HELP),
            check_valid: String::from_str(DEFAULT_CHECK_VALID),
            check_finish: String::from_str(DEFAULT_CHECK_FINISH),
        }
    }
}

/// All profiles of the program.
pub struct Profiles {
    pub shell_command_gen: ShellComamndGenProfile,
}

impl Default for Profiles {
    /// The built-in profiles.
    fn default() -> (r: Self)
        ensures
            r.shell_command_gen.generate@ == DEFAULT_GENERATE@,
            r.shell_command_gen.modify@ == DEFAULT_MODIFY@,
            r.shell_command_gen.attached@ == DEFAULT_ATTACHED@,
            r.shell_command_gen.check_help@ == DEFAULT_CHECK_HELP@,
            r.shell_command_gen.check_valid@ == DEFAULT_CHECK_VALID@,
            r.shell_command_gen.check_finish@ == DEFAULT_CHECK_FINISH@,
    {
        Profiles { shell_command_gen: ShellComamndGenProfile::default() }
    }
}

} // verus!
