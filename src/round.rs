//! What one streamed round with the model amounts to.
use vstd::prelude::*;

use crate::tools::{tool_kind, tool_kind_of, FinishResponseArgs, ToolKind};
use crate::text::strings_view;
use crate::usage::Usage;

verus! {

/// Which help tools the model called during a round.
#[derive(Debug, Clone, Copy, PartialEq, Eq, Structural)]
pub struct ToolCallState {
    pub tldr: bool,
    pub help: bool,
    pub man: bool,
}

impl ToolCallState {
    /// No tool called.
    pub fn empty() -> (r: Self)
        ensures
            !r.tldr && !r.help && !r.man,
    {
        ToolCallState { tldr: false, help: false, man: false }
    }

    /// Whether no help tool was called.
    pub fn is_empty(&self) -> (r: bool)
        ensures
            r == !(self.tldr || self.help || self.man),
    {
        !(self.tldr || self.help || self.man)
    }
}

/// One item of the model's stream, as the transport delivers it.
pub enum StreamEvent {
    /// A fragment of the model's text.
    Text(String),
    /// A fragment of the model's reasoning.
    Reasoning(String),
    /// A tool call, with the commands of its arguments when they parse as
    /// the arguments of the finish tool.
    ToolCall { name: String, results: Option<Vec<String>> },
    /// The result of a tool, handed back to the model.
    ToolResult,
    /// The complete answer of the model, and the tokens it took when the
    /// transport reports them.
    FinalResponse { text: String, usage: Option<Usage> },
    /// Anything else.
    Other,
}

/// A round cannot go on.
#[derive(Debug, Clone, Copy, PartialEq, Eq, Structural)]
pub enum RoundError {
    /// The finish tool was called with arguments that are not a list of
    /// commands.
    MalformedFinish,
}

/// What has been learnt from a round so far.
pub struct RoundState {
    pub tool_calls: ToolCallState,
    pub commands: Option<FinishResponseArgs>,
    pub final_text: Option<String>,
    pub usage: Option<Usage>,
    /// The finish tool was called: the rest of the stream is not read.
    pub finished: bool,
}

/// The outcome of a round.
pub struct RoundResult {
    pub tool_calls: ToolCallState,
    /// The model's complete answer.
    pub output: String,
    pub usage: Option<Usage>,
    pub commands: Option<FinishResponseArgs>,
}

/// A round's outcome as plain values.
pub struct RoundResultView {
    /// Some help tool was called.
    pub tool_used: bool,
    pub output: Seq<char>,
    pub usage: Option<Usage>,
    pub commands: Option<Seq<Seq<char>>>,
}

/// The commands of a finish call, as characters.
pub open spec fn commands_view(c: Option<FinishResponseArgs>) -> Option<Seq<Seq<char>>> {
    match c {
        Some(a) => Some(strings_view(a.results@)),
        None => None,
    }
}

impl View for RoundResult {
    type V = RoundResultView;

    open spec fn view(&self) -> RoundResultView {
        RoundResultView {
            tool_used: self.tool_calls.tldr || self.tool_calls.help || self.tool_calls.man,
            output: self.output@,
            usage: self.usage,
            commands: commands_view(self.commands),
        }
    }
}

/// How one item of the stream changes what is known of a round, and what it
/// gives to show as progress.
pub open spec fn on_event_spec(s: RoundState, event: StreamEvent) -> (
    RoundState,
    Result<Option<String>, RoundError>,
) {
    if s.finished {
        (s, Ok(None))
    } else {
        match event {
            StreamEvent::Text(t) => (s, Ok(Some(t))),
            StreamEvent::Reasoning(t) => (s, Ok(Some(t))),
            StreamEvent::ToolCall { name, results } => {
                let kind = tool_kind_of(name@);
                if kind == ToolKind::Finish {
                    match results {
                        Some(rs) => (
                            RoundState {
                                commands: Some(FinishResponseArgs { results: rs }),
                                finished: true,
                                ..s
                            },
                            Ok(None),
                        ),
                        None => (s, Err(RoundError::MalformedFinish)),
                    }
                } else {
                    (
                        RoundState {
                            tool_calls: ToolCallState {
                                tldr: s.tool_calls.tldr || kind == ToolKind::Tldr,
                                help: s.tool_calls.help || kind == ToolKind::Help,
                                man: s.tool_calls.man || kind == ToolKind::Man,
                            },
                            ..s
                        },
                        Ok(None),
                    )
                }
            },
            StreamEvent::FinalResponse { text, usage } => (
                RoundState { final_text: Some(text), usage: usage, ..s },
                Ok(None),
            ),
            _ => (s, Ok(None)),
        }
    }
}

impl RoundState {
    /// Nothing learnt yet.
    pub fn new() -> (r: Self)
        ensures
            !r.tool_calls.tldr && !r.tool_calls.help && !r.tool_calls.man,
            r.commands is None,
            r.final_text is None,
            r.usage is None,
            !r.finished,
    {
        RoundState {
            tool_calls: ToolCallState::empty(),
            commands: None,
            final_text: None,
            usage: None,
            finished: false,
        }
    }

    /// Takes in one item of the stream and returns the text, if any, to show
    /// as progress. Once the finish tool has been called, items are ignored.
    pub fn on_event(&mut self, event: StreamEvent) -> (r: Result<Option<String>, RoundError>)
        ensures
            (*final(self), r) == on_event_spec(*old(self), event),
    {
        if self.finished {
            return Ok(None);
        }
        match event {
            StreamEvent::Text(t) => Ok(Some(t)),
            StreamEvent::Reasoning(t) => Ok(Some(t)),
            StreamEvent::ToolCall { name, results } => {
                let kind = tool_kind(name.as_str());
                match kind {
                    ToolKind::Finish => match results {
                        Some(rs) => {
                            self.commands = Some(FinishResponseArgs { results: rs });
                            self.finished = true;
                            Ok(None)
                        },
                        None => Err(RoundError::MalformedFinish),
                    },
                    ToolKind::Help => {
                        self.tool_calls.help = true;
                        Ok(None)
                    },
                    ToolKind::Man => {
                        self.tool_calls.man = true;
                        Ok(None)
                    },
                    ToolKind::Tldr => {
                        self.tool_calls.tldr = true;
                        Ok(None)
                    },
                    _ => Ok(None),
                }
            },
            StreamEvent::FinalResponse { text, usage } => {
                self.final_text = Some(text);
                self.usage = usage;
                Ok(None)
            },
            _ => Ok(None),
        }
    }

    /// The outcome of the round. `streamed` is all text streamed during the
    /// round; it stands for the answer when the complete answer never came,
    /// and the usage is then unknown.
    pub fn into_result(self, streamed: String) -> (r: RoundResult)
        ensures
            r.tool_calls == self.tool_calls,
            r.commands == self.commands,
            r.output == match self.final_text {
                Some(t) => t,
                None => streamed,
            },
            r.usage == match self.final_text {
                Some(_) => self.usage,
                None => None,
            },
    {
        match self.final_text {
            Some(t) => RoundResult {
                tool_calls: self.tool_calls,
                output: t,
                usage: self.usage,
                commands: self.commands,
            },
            None => RoundResult {
                tool_calls: self.tool_calls,
                output: streamed,
                usage: None,
                commands: self.commands,
            },
        }
    }
}

} // verus!
