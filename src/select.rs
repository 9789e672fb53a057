//! The choices offered once commands are proposed.
use vstd::prelude::*;
use vstd::string::*;
use vstd::utf8::encode_utf8;

verus! {

/// A proposed command shown in the list.
pub struct Item {
    pub command: String,
}

impl Item {
    pub fn new(command: String) -> (r: Self)
        ensures
            r.command@ == command@,
    {
        Item { command }
    }
}

/// What to do with a command.
#[derive(Debug, Clone, Copy, PartialEq, Eq, Structural)]
pub enum ActionKind {
    Copy,
    Execute,
    Modify,
    Print,
}

/// A command chosen and what to do with it.
pub struct Action {
    pub command: String,
    pub kind: ActionKind,
}

/// Narrowest width of the list, in columns.
pub const MINIMUM_TUI_WIDTH: usize = 45;

pub const HINT1: &'static str = "j/k: up/down | m: modify | c: copy";

pub const HINT2: &'static str = "e: execute | enter: print | q/esc: quit";

/// Length in UTF-8 bytes of the longest command of `items`.
pub open spec fn longest_command(items: Seq<Item>) -> nat
    decreases items.len(),
{
    if items.len() == 0 {
        0
    } else {
        let rest = longest_command(items.drop_last());
        let last_bytes = (encode_utf8(items.last().command@).len() as usize) as nat;
        if last_bytes > rest {
            last_bytes
        } else {
            rest
        }
    }
}

/// The larger of two numbers.
pub open spec fn larger(a: nat, b: nat) -> nat {
    if a > b {
        a
    } else {
        b
    }
}

/// Width of the list: wide enough for every command, for the hints with room
/// to spare, and never under the minimum.
pub fn list_width(items: &Vec<Item>) -> (r: usize)
    ensures
        r == larger(
            larger(
                larger(longest_command(items@), HINT1@.len() + 5),
                HINT2@.len() + 5,
            ),
            MINIMUM_TUI_WIDTH as nat,
        ),
{
    let n = items.len();
    let mut widest: usize = 0;
    let mut i: usize = 0;
    while i < n
        invariant
            n == items@.len(),
            i <= n,
            widest == longest_command(items@.take(i as int)),
        decreases n - i,
    {
        let text = items[i].command.as_str();
        let len = text.len();
        assert(len == encode_utf8(items@[i as int].command@).len() as usize);
        assert(items@.take(i + 1).drop_last() =~= items@.take(i as int));
        assert(items@.take(i + 1).last() == items@[i as int]);
        if len > widest {
            widest = len;
        }
        i = i + 1;
    }
    assert(items@.take(n as int) =~= items@);
    proof {
        reveal_strlit("j/k: up/down | m: modify | c: copy");
        reveal_strlit("e: execute | enter: print | q/esc: quit");
    }
    // Both hints are ASCII: one byte per character.
    let h1 = HINT1.unicode_len();
    let h2 = HINT2.unicode_len();
    let mut w = widest;
    if h1 < usize::MAX - 5 && h1 + 5 > w {
        w = h1 + 5;
    }
    if h2 < usize::MAX - 5 && h2 + 5 > w {
        w = h2 + 5;
    }
    if MINIMUM_TUI_WIDTH > w {
        w = MINIMUM_TUI_WIDTH;
    }
    w
}

/// The action on the selected item, if an item is selected.
pub fn action_result(items: &Vec<Item>, selected: Option<usize>, kind: ActionKind) -> (r: Option<Action>)
    ensures
        match selected {
            Some(i) if i < items@.len() => r matches Some(a) && a.command@ == items@[i as int].command@
                && a.kind == kind,
            _ => r is None,
        },
{
    match selected {
        Some(i) => if i < items.len() {
            Some(Action { command: items[i].command.clone(), kind })
        } else {
            None
        },
        None => None,
    }
}

/// Whether the session ends after an action: only a modification that was
/// made and still left commands to choose from brings the list back.
pub fn session_ends(kind: ActionKind, modified: bool, no_commands: bool) -> (r: bool)
    ensures
        r == (kind != ActionKind::Modify || !modified || no_commands),
{
    match kind {
        ActionKind::Modify => !modified || no_commands,
        _ => true,
    }
}

/// A key press, as far as the list cares.
#[derive(Debug, Clone, Copy, PartialEq, Eq, Structural)]
pub enum Key {
    Up,
    Down,
    Esc,
    Enter,
    Char(char),
    Other,
}

/// What a key press asks of the list.
#[derive(Debug, Clone, Copy, PartialEq, Eq, Structural)]
pub enum ListCommand {
    Up,
    Down,
    Quit,
    Choose(ActionKind),
}

/// The meaning of a key press: arrows or `k`/`w` and `j`/`s` move, Escape or
/// `q` (or Control-C) quit, Enter prints, `c` copies, `m` modifies and `e`
/// executes. Other keys, and keys held with modifiers, mean nothing.
pub open spec fn list_command_of(key: Key, no_modifiers: bool, control_only: bool) -> Option<ListCommand> {
    if no_modifiers {
        match key {
            Key::Up | Key::Char('k') | Key::Char('w') => Some(ListCommand::Up),
            Key::Down | Key::Char('j') | Key::Char('s') => Some(ListCommand::Down),
            Key::Esc | Key::Char('q') => Some(ListCommand::Quit),
            Key::Char('c') => Some(ListCommand::Choose(ActionKind::Copy)),
            Key::Char('m') => Some(ListCommand::Choose(ActionKind::Modify)),
            Key::Char('e') => Some(ListCommand::Choose(ActionKind::Execute)),
            Key::Enter => Some(ListCommand::Choose(ActionKind::Print)),
            _ => None,
        }
    } else if control_only && key == Key::Char('c') {
        Some(ListCommand::Quit)
    } else {
        None
    }
}

/// The meaning of a key press, given whether no modifier was held and
/// whether Control alone was held.
pub fn list_command(key: Key, no_modifiers: bool, control_only: bool) -> (r: Option<ListCommand>)
    ensures
        r == list_command_of(key, no_modifiers, control_only),
{
    if no_modifiers {
        match key {
            Key::Up | Key::Char('k') | Key::Char('w') => Some(ListCommand::Up),
            Key::Down | Key::Char('j') | Key::Char('s') => Some(ListCommand::Down),
            Key::Esc | Key::Char('q') => Some(ListCommand::Quit),
            Key::Char('c') => Some(ListCommand::Choose(ActionKind::Copy)),
            Key::Char('m') => Some(ListCommand::Choose(ActionKind::Modify)),
            Key::Char('e') => Some(ListCommand::Choose(ActionKind::Execute)),
            Key::Enter => Some(ListCommand::Choose(ActionKind::Print)),
            _ => None,
        }
    } else if control_only && key == Key::Char('c') {
        Some(ListCommand::Quit)
    } else {
        None
    }
}

} // verus!
