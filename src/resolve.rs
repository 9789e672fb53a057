//! The corrective-pass state machine that turns one request into commands.
//!
//! A primary round asks the model for commands. Up to three corrective rounds
//! may follow: one reminding it to consult a help tool, one asking it to fix
//! commands that look invalid, and one reminding it to hand over its
//! commands. The program around the library runs each round and reports its
//! outcome; the [`Resolver`] decides what comes next.
use vstd::prelude::*;

use crate::command::{any_potentially_invalid, has_potentially_invalid_command};
use crate::message::{messages_view, Message, MessageView, Role};
use crate::profile::{ShellComamndGenProfile, ATTACHED, COMMAND, COMMANDS};
use crate::round::{commands_view, RoundResult, RoundResultView};
use crate::text::{join_lines, join_with_newlines, replace_all, strings_view};
use crate::tools::FinishResponseArgs;
use crate::usage::{usage_sum, usage_sum_spec, Usage};

verus! {

/// Where a resolve request stands.
#[derive(Debug, Clone, Copy, PartialEq, Eq, Structural)]
pub enum ResolveStep {
    /// The primary round is due.
    Generate,
    /// A round reminding the model to consult a help tool is due.
    CheckHelp,
    /// A round asking the model to fix commands that look invalid is due.
    CheckValid,
    /// A round reminding the model to hand over its commands is due.
    CheckFinish,
    /// No round is due.
    Done,
}

/// The step that follows a round taken at `step`, given whether the primary
/// round called a help tool, whether commands are at hand after the round,
/// and whether one of them looks invalid.
pub open spec fn next_step(step: ResolveStep, tool_used: bool, has_commands: bool, flagged: bool) -> ResolveStep {
    match step {
        ResolveStep::Generate => if !tool_used {
            ResolveStep::CheckHelp
        } else if !has_commands {
            ResolveStep::CheckFinish
        } else {
            ResolveStep::Done
        },
        ResolveStep::CheckHelp => if has_commands && flagged {
            ResolveStep::CheckValid
        } else if !has_commands {
            ResolveStep::CheckFinish
        } else {
            ResolveStep::Done
        },
        ResolveStep::CheckValid => if !has_commands {
            ResolveStep::CheckFinish
        } else {
            ResolveStep::Done
        },
        _ => ResolveStep::Done,
    }
}

/// How many rounds can still come from a step.
pub open spec fn rounds_left(step: ResolveStep) -> nat {
    match step {
        ResolveStep::Generate => 4,
        ResolveStep::CheckHelp => 3,
        ResolveStep::CheckValid => 2,
        ResolveStep::CheckFinish => 1,
        ResolveStep::Done => 0,
    }
}

/// The facts about a round that decide the next step.
pub struct RoundFacts {
    pub tool_used: bool,
    pub has_commands: bool,
    pub flagged: bool,
}

/// The step reached after rounds with the given facts, stopping at `Done`.
pub open spec fn run_steps(step: ResolveStep, rounds: Seq<RoundFacts>) -> ResolveStep
    decreases rounds.len(),
{
    if step == ResolveStep::Done || rounds.len() == 0 {
        step
    } else {
        run_steps(
            next_step(step, rounds[0].tool_used, rounds[0].has_commands, rounds[0].flagged),
            rounds.drop_first(),
        )
    }
}

/// Every round moves strictly closer to `Done`.
pub proof fn lemma_next_step_progress(step: ResolveStep, tool_used: bool, has_commands: bool, flagged: bool)
    requires
        step != ResolveStep::Done,
    ensures
        rounds_left(next_step(step, tool_used, has_commands, flagged)) < rounds_left(step),
{
}

/// Whatever each round brings, a request is done after the primary round and
/// at most three corrective rounds.
pub proof fn lemma_resolve_terminates(rounds: Seq<RoundFacts>)
    requires
        rounds.len() >= 4,
    ensures
        run_steps(ResolveStep::Generate, rounds) == ResolveStep::Done,
{
    lemma_run_steps_bounded(ResolveStep::Generate, rounds);
}

proof fn lemma_run_steps_bounded(step: ResolveStep, rounds: Seq<RoundFacts>)
    requires
        rounds.len() >= rounds_left(step),
    ensures
        run_steps(step, rounds) == ResolveStep::Done,
    decreases rounds.len(),
{
    if step != ResolveStep::Done {
        let f = rounds[0];
        lemma_next_step_progress(step, f.tool_used, f.has_commands, f.flagged);
        lemma_run_steps_bounded(next_step(step, f.tool_used, f.has_commands, f.flagged), rounds.drop_first());
    }
}

/// A past exchange and the command of it to modify.
pub struct ModifyOption {
    history: Vec<Message>,
    command: String,
}

impl ModifyOption {
    pub fn new(history: Vec<Message>, command: String) -> (r: Self)
        ensures
            messages_view(r.history()@) == messages_view(history@),
            r.command()@ == command@,
    {
        ModifyOption { history, command }
    }

    /// The past exchange.
    pub closed spec fn history(&self) -> Vec<Message> {
        self.history
    }

    /// The command to modify.
    pub closed spec fn command(&self) -> String {
        self.command
    }
}

/// What a resolve request hands back.
pub struct ScgAgentResponse {
    /// The conversation the commands came from.
    pub messages: Vec<Message>,
    /// The commands, best first; possibly none.
    pub commands: Vec<String>,
}

/// The state of a resolve request.
pub struct ResolverView {
    pub step: ResolveStep,
    pub prompt: Seq<char>,
    pub history: Seq<MessageView>,
    pub commands: Option<Seq<Seq<char>>>,
    pub usage: Option<Usage>,
}

/// Drives one request through its rounds.
pub struct Resolver {
    step: ResolveStep,
    prompt: String,
    history: Vec<Message>,
    commands: Option<FinishResponseArgs>,
    usage: Option<Usage>,
}

impl View for Resolver {
    type V = ResolverView;

    closed spec fn view(&self) -> ResolverView {
        ResolverView {
            step: self.step,
            prompt: self.prompt@,
            history: messages_view(self.history@),
            commands: commands_view(self.commands),
            usage: self.usage,
        }
    }
}

/// The context that a request starts from: when modifying, the past exchange
/// and the request to modify its command; then the attached text, if any.
pub open spec fn initial_history(
    profile: ShellComamndGenProfile,
    modify_option: Option<(Seq<MessageView>, Seq<char>)>,
    attached: Option<Seq<char>>,
) -> Seq<MessageView> {
    let attached_msgs = match attached {
        Some(a) => seq![
            MessageView { role: Role::User, content: replace_all(profile.attached@, ATTACHED@, a) },
        ],
        None => Seq::empty(),
    };
    match modify_option {
        Some((history, command)) => history.push(
            MessageView { role: Role::User, content: replace_all(profile.modify@, COMMAND@, command) },
        ) + attached_msgs,
        None => attached_msgs,
    }
}

/// The commands joined one per line, or nothing when there are none.
pub open spec fn commands_text(commands: Option<Seq<Seq<char>>>) -> Seq<char> {
    match commands {
        Some(c) => join_lines(c),
        None => Seq::empty(),
    }
}

/// The prompt of the round due at a state.
pub open spec fn prompt_of(v: ResolverView, profile: ShellComamndGenProfile) -> Option<Seq<char>> {
    match v.step {
        ResolveStep::Generate => Some(v.prompt),
        ResolveStep::CheckHelp => Some(
            replace_all(profile.check_help@, COMMANDS@, commands_text(v.commands)),
        ),
        ResolveStep::CheckValid => Some(
            replace_all(profile.check_valid@, COMMANDS@, commands_text(v.commands)),
        ),
        ResolveStep::CheckFinish => Some(profile.check_finish@),
        ResolveStep::Done => None,
    }
}

/// The state after the round due at `v`, given its outcome (`None` when it
/// failed) and whether one of the commands at hand afterwards looks invalid.
///
/// The primary round adds the prompt and the answer to the history and sets
/// the commands and usage; its failure ends the request. A corrective round
/// adds its answer to the history, replaces the commands and adds its usage;
/// its failure changes nothing but the step.
pub open spec fn advance_spec(v: ResolverView, outcome: Option<RoundResultView>, flagged: bool) -> ResolverView {
    match v.step {
        ResolveStep::Done => v,
        ResolveStep::Generate => match outcome {
            None => ResolverView { step: ResolveStep::Done, ..v },
            Some(o) => ResolverView {
                step: next_step(ResolveStep::Generate, o.tool_used, o.commands is Some, flagged),
                history: v.history.push(MessageView { role: Role::User, content: v.prompt }).push(
                    MessageView { role: Role::Assistant, content: o.output },
                ),
                commands: o.commands,
                usage: o.usage,
                ..v
            },
        },
        _ => match outcome {
            None => ResolverView {
                step: next_step(v.step, true, v.commands is Some, flagged),
                ..v
            },
            Some(o) => ResolverView {
                step: next_step(v.step, true, o.commands is Some, flagged),
                history: v.history.push(MessageView { role: Role::Assistant, content: o.output }),
                commands: o.commands,
                usage: usage_sum_spec(v.usage, o.usage),
                ..v
            },
        },
    }
}

/// The commands at hand after the round due at `v`.
pub open spec fn commands_after(v: ResolverView, outcome: Option<RoundResultView>) -> Option<Seq<Seq<char>>> {
    match outcome {
        Some(o) => o.commands,
        None => v.commands,
    }
}

/// An outcome as plain values.
pub open spec fn outcome_view(outcome: Option<RoundResult>) -> Option<RoundResultView> {
    match outcome {
        Some(o) => Some(o@),
        None => None,
    }
}

/// The state after the round due at `v`, when the help check's commands are
/// judged by the heuristic with `found` as the answers of the search-path
/// lookups.
pub open spec fn on_round_spec(v: ResolverView, outcome: Option<RoundResultView>, found: Seq<bool>) -> ResolverView {
    let after = commands_after(v, outcome);
    let flagged = v.step == ResolveStep::CheckHelp && after is Some && any_potentially_invalid(
        after->0,
        found,
    );
    advance_spec(v, outcome, flagged)
}

impl Resolver {
    /// A request for `prompt`, possibly modifying a command of a past
    /// exchange, possibly with attached text.
    pub fn new(
        prompt: String,
        modify_option: Option<ModifyOption>,
        attached: Option<String>,
        profile: &ShellComamndGenProfile,
    ) -> (r: Self)
        ensures
            r@ == (ResolverView {
                step: ResolveStep::Generate,
                prompt: prompt@,
                history: initial_history(
                    *profile,
                    match modify_option {
                        Some(m) => Some((messages_view(m.history()@), m.command()@)),
                        None => None,
                    },
                    match attached {
                        Some(a) => Some(a@),
                        None => None,
                    },
                ),
                commands: None,
                usage: None,
            }),
    {
        let ghost expected_before = match &modify_option {
            Some(m) => messages_view(m.history()@).push(
                MessageView {
                    role: Role::User,
                    content: replace_all(profile.modify@, COMMAND@, m.command()@),
                },
            ),
            None => Seq::<MessageView>::empty(),
        };
        let ghost expected_attached = match &attached {
            Some(a) => seq![
                MessageView { role: Role::User, content: replace_all(profile.attached@, ATTACHED@, a@) },
            ],
            None => Seq::<MessageView>::empty(),
        };
        let mut history: Vec<Message> = Vec::new();
        match modify_option {
            Some(m) => {
                let ModifyOption { history: past, command } = m;
                history = past;
                let request = profile.modify(command.as_str());
                history.push(Message::user(request));
                assert(messages_view(history@) =~= expected_before);
            },
            None => {
                assert(messages_view(history@) =~= expected_before);
            },
        }
        let ghost before = messages_view(history@);
        match attached {
            Some(a) => {
                let note = profile.attach(a.as_str());
                history.push(Message::user(note));
            },
            None => {},
        }
        assert(messages_view(history@) =~= before + expected_attached);
        Resolver { step: ResolveStep::Generate, prompt, history, commands: None, usage: None }
    }

    /// The step due.
    pub fn step(&self) -> (r: ResolveStep)
        ensures
            r == self@.step,
    {
        self.step
    }

    /// Whether no round is due.
    pub fn is_done(&self) -> (r: bool)
        ensures
            r == (self@.step == ResolveStep::Done),
    {
        self.step == ResolveStep::Done
    }

    /// The context to send with the round due.
    pub fn history(&self) -> (r: &Vec<Message>)
        ensures
            messages_view(r@) == self@.history,
    {
        &self.history
    }

    /// The prompt of the round due, or `None` when the request is done.
    pub fn next_prompt(&self, profile: &ShellComamndGenProfile) -> (r: Option<String>)
        ensures
            match r {
                Some(p) => prompt_of(self@, *profile) == Some(p@),
                None => prompt_of(self@, *profile) is None,
            },
    {
        match self.step {
            ResolveStep::Generate => Some(self.prompt.clone()),
            ResolveStep::CheckHelp => Some(profile.check_help(self.commands_text().as_str())),
            ResolveStep::CheckValid => Some(profile.check_valid(self.commands_text().as_str())),
            ResolveStep::CheckFinish => Some(profile.check_finish()),
            ResolveStep::Done => None,
        }
    }

    fn commands_text(&self) -> (r: String)
        ensures
            r@ == commands_text(self@.commands),
    {
        match &self.commands {
            Some(c) => join_with_newlines(&c.results),
            None => String::new(),
        }
    }

    /// Takes in the outcome of the round due (`None` when it failed), given
    /// whether one of the commands at hand afterwards looks invalid. Returns
    /// whether the request is aborted: the primary round failed.
    pub fn advance(&mut self, outcome: Option<RoundResult>, flagged: bool) -> (aborted: bool)
        ensures
            final(self)@ == advance_spec(old(self)@, outcome_view(outcome), flagged),
            aborted == (old(self)@.step == ResolveStep::Generate && outcome is None),
    {
        match self.step {
            ResolveStep::Done => false,
            ResolveStep::Generate => match outcome {
                None => {
                    self.step = ResolveStep::Done;
                    true
                },
                Some(o) => {
                    let RoundResult { tool_calls, output, usage, commands } = o;
                    let tool_used = !tool_calls.is_empty();
                    let has_commands = commands.is_some();
                    let prompt = self.prompt.clone();
                    self.history.push(Message::user(prompt));
                    self.history.push(Message::assistant(output));
                    self.commands = commands;
                    self.usage = usage;
                    self.step = Self::next(ResolveStep::Generate, tool_used, has_commands, flagged);
                    proof {
                        assert(messages_view(self.history@) =~= messages_view(old(self).history@).push(
                            MessageView { role: Role::User, content: old(self)@.prompt },
                        ).push(MessageView { role: Role::Assistant, content: o@.output }));
                    }
                    false
                },
            },
            _ => match outcome {
                None => {
                    let has_commands = self.commands.is_some();
                    self.step = Self::next(self.step, true, has_commands, flagged);
                    false
                },
                Some(o) => {
                    let RoundResult { tool_calls: _, output, usage, commands } = o;
                    let has_commands = commands.is_some();
                    self.history.push(Message::assistant(output));
                    self.commands = commands;
                    self.usage = usage_sum(self.usage, usage);
                    self.step = Self::next(self.step, true, has_commands, flagged);
                    proof {
                        assert(messages_view(self.history@) =~= messages_view(old(self).history@).push(
                            MessageView { role: Role::Assistant, content: o@.output },
                        ));
                    }
                    false
                },
            },
        }
    }

    fn next(step: ResolveStep, tool_used: bool, has_commands: bool, flagged: bool) -> (r: ResolveStep)
        ensures
            r == next_step(step, tool_used, has_commands, flagged),
    {
        match step {
            ResolveStep::Generate => if !tool_used {
                ResolveStep::CheckHelp
            } else if !has_commands {
                ResolveStep::CheckFinish
            } else {
                ResolveStep::Done
            },
            ResolveStep::CheckHelp => if has_commands && flagged {
                ResolveStep::CheckValid
            } else if !has_commands {
                ResolveStep::CheckFinish
            } else {
                ResolveStep::Done
            },
            ResolveStep::CheckValid => if !has_commands {
                ResolveStep::CheckFinish
            } else {
                ResolveStep::Done
            },
            _ => ResolveStep::Done,
        }
    }

    /// Takes in the outcome of the round due (`None` when it failed); after
    /// the help check, the commands at hand are run through the
    /// invalid-command heuristic, whose search-path lookups nothing here can
    /// foresee. Returns whether the request is aborted.
    pub fn on_round(&mut self, outcome: Option<RoundResult>) -> (aborted: bool)
        ensures
            exists|found: Seq<bool>|
                final(self)@ == #[trigger] on_round_spec(old(self)@, outcome_view(outcome), found),
            aborted == (old(self)@.step == ResolveStep::Generate && outcome is None),
    {
        let ghost mut witness: Seq<bool> = Seq::empty();
        let flagged = if self.step == ResolveStep::CheckHelp {
            let candidate = match &outcome {
                Some(o) => &o.commands,
                None => &self.commands,
            };
            match candidate {
                Some(c) => {
                    let f = has_potentially_invalid_command(&c.results);
                    proof {
                        witness = choose|found: Seq<bool>|
                            found.len() == c.results@.len() && f == any_potentially_invalid(
                                strings_view(c.results@),
                                found,
                            );
                    }
                    f
                },
                None => false,
            }
        } else {
            false
        };
        assert(on_round_spec(old(self)@, outcome_view(outcome), witness) == advance_spec(
            old(self)@,
            outcome_view(outcome),
            flagged,
        ));
        self.advance(outcome, flagged)
    }

    /// The conversation and the commands obtained, none if the model never
    /// handed any over.
    pub fn into_response(self) -> (r: ScgAgentResponse)
        ensures
            messages_view(r.messages@) == self@.history,
            strings_view(r.commands@) == match self@.commands {
                Some(c) => c,
                None => Seq::empty(),
            },
    {
        let commands = match self.commands {
            Some(c) => c.results,
            None => {
                let none: Vec<String> = Vec::new();
                assert(strings_view(none@) =~= Seq::<Seq<char>>::empty());
                none
            },
        };
        ScgAgentResponse { messages: self.history, commands }
    }

    /// The tokens spent so far, if the transport reported any.
    pub fn usage(&self) -> (r: Option<Usage>)
        ensures
            r == self@.usage,
    {
        self.usage
    }
}

} // verus!
