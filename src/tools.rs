//! The tools offered to the model: their names, their arguments, and the
//! checks made on those arguments before anything runs.
use vstd::prelude::*;
use vstd::string::*;

use crate::text::{chars_of, same_text, strings_view};

verus! {

/// Line of the tool output where reading starts when none is given.
pub fn default_start_line() -> (r: usize)
    ensures
        r == 0,
{
    0
}

/// Number of lines of tool output read when none is given.
pub fn default_read_lines() -> (r: usize)
    ensures
        r == 50,
{
    50
}

/// Reads the `--help` output of a program.
pub struct Help;

impl Help {
    pub const NAME: &'static str = "help";
}

/// Arguments of [`Help`].
pub struct HelpArgs {
    /// Program whose `--help` is read, by name on the search path or by path.
    pub program: String,
    /// Subcommands placed between the program and `--help`, outermost first.
    pub subcommands: Vec<String>,
    /// Lines skipped at the start of the output.
    pub start_line: usize,
    /// Lines read after the skipped ones.
    pub read_lines: usize,
}

/// Reads a manual page.
pub struct Man;

impl Man {
    pub const NAME: &'static str = "man";
}

/// Arguments of [`Man`].
pub struct ManArgs {
    /// Manual section, when the model names one.
    pub section: Option<usize>,
    /// Entry looked up.
    pub entry: String,
    /// Lines skipped at the start of the page.
    pub start_line: usize,
    /// Lines read after the skipped ones.
    pub read_lines: usize,
}

/// Reads a tldr page.
pub struct Tldr;

impl Tldr {
    pub const NAME: &'static str = "tldr";
}

/// Arguments of [`Tldr`].
pub struct TldrArgs {
    /// Page path, e.g. `["git", "commit"]`.
    pub page: Vec<String>,
}

/// Asks the `thefuck` program to correct a command for a given shell.
pub struct TheFuck {
    shell_name: String,
}

impl View for TheFuck {
    /// The name of the shell.
    type V = Seq<char>;

    closed spec fn view(&self) -> Seq<char> {
        self.shell_name@
    }
}

impl TheFuck {
    pub const NAME: &'static str = "thefuck";

    pub fn new(shell_name: String) -> (r: Self)
        ensures
            r@ == shell_name@,
    {
        TheFuck { shell_name }
    }

    /// Shell the corrections are made for.
    pub fn shell_name(&self) -> (r: &str)
        ensures
            r@ == self@,
    {
        self.shell_name.as_str()
    }
}

/// Arguments of [`TheFuck`].
pub struct TheFuckArgs {
    /// Command to correct.
    pub command: String,
}

/// The tool through which the model hands over its final commands.
pub struct FinishResponse;

impl FinishResponse {
    pub const NAME: &'static str = "finish_response";
}

/// Arguments of [`FinishResponse`]: the proposed commands, best first. An
/// empty list means that no command could be produced.
pub struct FinishResponseArgs {
    pub results: Vec<String>,
}

impl FinishResponseArgs {
    /// No command.
    pub fn empty() -> (r: Self)
        ensures
            r.results@.len() == 0,
    {
        FinishResponseArgs { results: Vec::new() }
    }
}

/// The error type of a tool that cannot fail.
pub type NoError = std::convert::Infallible;

/// What a tool call asks for, told by the tool's name.
#[derive(Debug, Clone, Copy, PartialEq, Eq, Structural)]
pub enum ToolKind {
    Finish,
    Help,
    Man,
    Tldr,
    TheFuck,
    Unknown,
}

/// The kind of tool that a name designates.
pub open spec fn tool_kind_of(name: Seq<char>) -> ToolKind {
    if name == FinishResponse::NAME@ {
        ToolKind::Finish
    } else if name == Help::NAME@ {
        ToolKind::Help
    } else if name == Man::NAME@ {
        ToolKind::Man
    } else if name == Tldr::NAME@ {
        ToolKind::Tldr
    } else if name == TheFuck::NAME@ {
        ToolKind::TheFuck
    } else {
        ToolKind::Unknown
    }
}

/// Tells which tool a call names.
pub fn tool_kind(name: &str) -> (r: ToolKind)
    ensures
        r == tool_kind_of(name@),
{
    if same_text(name, FinishResponse::NAME) {
        ToolKind::Finish
    } else if same_text(name, Help::NAME) {
        ToolKind::Help
    } else if same_text(name, Man::NAME) {
        ToolKind::Man
    } else if same_text(name, Tldr::NAME) {
        ToolKind::Tldr
    } else if same_text(name, TheFuck::NAME) {
        ToolKind::TheFuck
    } else {
        ToolKind::Unknown
    }
}

/// Characters with the Unicode `White_Space` property.
pub open spec fn is_white_space(c: char) -> bool {
    ('\t' <= c <= '\r') || c == ' ' || c == '\u{85}' || c == '\u{A0}' || c == '\u{1680}' || (
    '\u{2000}' <= c <= '\u{200A}') || c == '\u{2028}' || c == '\u{2029}' || c == '\u{202F}' || c
        == '\u{205F}' || c == '\u{3000}'
}

/// Whether `c` has the Unicode `White_Space` property.
pub fn is_whitespace(c: char) -> (r: bool)
    ensures
        r == is_white_space(c),
{
    ('\t' <= c && c <= '\r') || c == ' ' || c == '\u{85}' || c == '\u{A0}' || c == '\u{1680}' || (
    '\u{2000}' <= c && c <= '\u{200A}') || c == '\u{2028}' || c == '\u{2029}' || c == '\u{202F}'
        || c == '\u{205F}' || c == '\u{3000}'
}

/// Whether `s` holds a whitespace character.
pub fn contains_whitespace(s: &str) -> (r: bool)
    ensures
        r == exists|i: int| 0 <= i < s@.len() && is_white_space(#[trigger] s@[i]),
{
    let n = s.unicode_len();
    let mut i: usize = 0;
    while i < n
        invariant
            n == s@.len(),
            i <= n,
            forall|j: int| 0 <= j < i ==> !is_white_space(#[trigger] s@[j]),
        decreases n - i,
    {
        if is_whitespace(s.get_char(i)) {
            return true;
        }
        i = i + 1;
    }
    false
}

/// Whether a manual entry is refused: one that holds whitespace or starts
/// with `-` could smuggle options into the `man` command line.
pub open spec fn bad_man_entry(entry: Seq<char>) -> bool {
    (exists|i: int| 0 <= i < entry.len() && is_white_space(#[trigger] entry[i])) || (entry.len() > 0
        && entry[0] == '-')
}

/// The pieces of `s` between whitespace characters; there is always one
/// more piece than whitespace characters.
pub open spec fn split_ws(s: Seq<char>) -> Seq<Seq<char>>
    decreases s.len(),
{
    if s.len() == 0 {
        seq![Seq::empty()]
    } else {
        let p = split_ws(s.drop_last());
        if is_white_space(s.last()) {
            p.push(Seq::empty())
        } else {
            p.update(p.len() - 1, p.last().push(s.last()))
        }
    }
}

/// The pieces that are not empty, in order.
pub open spec fn non_empty(pieces: Seq<Seq<char>>) -> Seq<Seq<char>>
    decreases pieces.len(),
{
    if pieces.len() == 0 {
        Seq::empty()
    } else if pieces.last().len() > 0 {
        non_empty(pieces.drop_last()).push(pieces.last())
    } else {
        non_empty(pieces.drop_last())
    }
}

/// The words of `s`: its maximal runs of non-whitespace characters.
pub open spec fn words_of(s: Seq<char>) -> Seq<Seq<char>> {
    non_empty(split_ws(s))
}

/// The words of each entry, in order.
pub open spec fn page_words(page: Seq<Seq<char>>) -> Seq<Seq<char>>
    decreases page.len(),
{
    if page.len() == 0 {
        Seq::empty()
    } else {
        page_words(page.drop_last()) + words_of(page.last())
    }
}

/// Appends the words of `s` to `out`.
fn push_words(s: &str, out: &mut Vec<String>)
    ensures
        strings_view(final(out)@) == strings_view(old(out)@) + words_of(s@),
{
    let chars = chars_of(s);
    let n = chars.len();
    let mut cur: usize = 0;
    let mut i: usize = 0;
    let ghost base = strings_view(out@);
    let ghost mut pieces: Seq<Seq<char>> = Seq::empty();
    assert(s@.take(0) =~= Seq::<char>::empty());
    assert(s@.subrange(0, 0) =~= Seq::<char>::empty());
    while i < n
        invariant
            chars@ == s@,
            n == s@.len(),
            cur <= i <= n,
            split_ws(s@.take(i as int)) == pieces + seq![s@.subrange(cur as int, i as int)],
            strings_view(out@) == base + non_empty(pieces),
        decreases n - i,
    {
        let c = chars[i];
        assert(s@.take(i + 1).drop_last() =~= s@.take(i as int));
        assert(s@.take(i + 1).last() == c);
        let ghost word = s@.subrange(cur as int, i as int);
        if is_whitespace(c) {
            let ghost next = pieces.push(word);
            assert(next.drop_last() =~= pieces);
            if cur < i {
                let ghost before = out@;
                out.push(String::from_str(s.substring_char(cur, i)));
                assert(strings_view(out@) =~= strings_view(before).push(word));
                assert(base + non_empty(next) =~= (base + non_empty(pieces)).push(word));
            }
            assert(s@.subrange(i + 1, i + 1) =~= Seq::<char>::empty());
            assert(split_ws(s@.take(i + 1)) =~= next + seq![s@.subrange(i + 1, i + 1)]);
            proof {
                pieces = next;
            }
            cur = i + 1;
        } else {
            assert((pieces + seq![word]).update(pieces.len() as int, word.push(c)) =~= pieces + seq![
                word.push(c),
            ]);
            assert(word.push(c) =~= s@.subrange(cur as int, i + 1));
        }
        i = i + 1;
    }
    assert(s@.take(n as int) =~= s@);
    let ghost last = s@.subrange(cur as int, n as int);
    let ghost all = pieces.push(last);
    assert(all.drop_last() =~= pieces);
    assert(split_ws(s@) =~= all);
    if cur < n {
        let ghost before = out@;
        out.push(String::from_str(s.substring_char(cur, n)));
        assert(strings_view(out@) =~= strings_view(before).push(last));
        assert(base + non_empty(all) =~= (base + non_empty(pieces)).push(last));
    } else {
        assert(last.len() == 0);
    }
}

impl TldrArgs {
    /// The page path with each entry split into its words, as the `tldr`
    /// command line takes them.
    pub fn words(&self) -> (r: Vec<String>)
        ensures
            strings_view(r@) == page_words(strings_view(self.page@)),
    {
        let mut out: Vec<String> = Vec::new();
        let n = self.page.len();
        let mut k: usize = 0;
        while k < n
            invariant
                n == self.page@.len(),
                k <= n,
                strings_view(out@) == page_words(strings_view(self.page@.take(k as int))),
            decreases n - k,
        {
            assert(strings_view(self.page@.take(k + 1)).drop_last() =~= strings_view(self.page@.take(k as int)));
            push_words(self.page[k].as_str(), &mut out);
            k = k + 1;
        }
        assert(self.page@.take(n as int) =~= self.page@);
        out
    }
}

impl ManArgs {
    /// Checks the entry; on refusal the error is the message shown to the
    /// model.
    pub fn check_entry(&self) -> (r: Result<(), String>)
        ensures
            r is Err <==> bad_man_entry(self.entry@),
            r matches Err(m) ==> m@ == "invalid entry: "@ + self.entry@
                + ", entry should not start with '-' and should not contain whitespace"@,
    {
        let entry = self.entry.as_str();
        let starts_with_dash = entry.unicode_len() > 0 && entry.get_char(0) == '-';
        if contains_whitespace(entry) || starts_with_dash {
            let m = String::from_str("invalid entry: ").concat(entry).concat(
                ", entry should not start with '-' and should not contain whitespace",
            );
            Err(m)
        } else {
            Ok(())
        }
    }
}

} // verus!
