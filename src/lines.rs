//! Lines of tool output, and the reports the help tools hand back.
use vstd::prelude::*;
use vstd::string::*;

use crate::text::{chars_of, decimal, decimal_string};

verus! {

/// The pieces of `s` between newline characters; there is always one more
/// piece than newlines.
pub open spec fn split_lf(s: Seq<char>) -> Seq<Seq<char>>
    decreases s.len(),
{
    if s.len() == 0 {
        seq![Seq::empty()]
    } else {
        let p = split_lf(s.drop_last());
        if s.last() == '\n' {
            p.push(Seq::empty())
        } else {
            p.update(p.len() - 1, p.last().push(s.last()))
        }
    }
}

/// The lines of `s` before carriage returns are removed: a final newline
/// ends the last line rather than starting an empty one.
pub open spec fn raw_lines(s: Seq<char>) -> Seq<Seq<char>> {
    if s.len() == 0 {
        Seq::empty()
    } else if s.last() == '\n' {
        split_lf(s.drop_last())
    } else {
        split_lf(s)
    }
}

/// A line without the carriage return that may end it.
pub open spec fn strip_cr(l: Seq<char>) -> Seq<char> {
    if l.len() > 0 && l.last() == '\r' {
        l.drop_last()
    } else {
        l
    }
}

/// The lines of `s`, split as `str::lines` splits them: at each `\n`, with a
/// `\r` before it dropped.
pub open spec fn lines_of(s: Seq<char>) -> Seq<Seq<char>> {
    raw_lines(s).map_values(|l: Seq<char>| strip_cr(l))
}

/// The pieces one after the other.
pub open spec fn concat_all(pieces: Seq<Seq<char>>) -> Seq<char>
    decreases pieces.len(),
{
    if pieces.len() == 0 {
        Seq::empty()
    } else {
        concat_all(pieces.drop_last()) + pieces.last()
    }
}

/// Lines `start` to `start + count` (exclusive) of `s`, as far as they
/// exist, put together without separators.
pub open spec fn line_window(s: Seq<char>, start: nat, count: nat) -> Seq<char> {
    let n = lines_of(s).len();
    let lo = if start < n {
        start
    } else {
        n
    };
    let hi = if lo + count < n {
        lo + count
    } else {
        n
    };
    concat_all(lines_of(s).subrange(lo as int, hi as int))
}

proof fn lemma_update_last(done: Seq<Seq<char>>, x: Seq<char>, y: Seq<char>)
    ensures
        (done + seq![x]).update(done.len() as int, y) == done + seq![y],
{
    assert((done + seq![x]).update(done.len() as int, y) =~= done + seq![y]);
}

/// Start and end, in characters, of each raw line of `s`.
fn raw_line_bounds(s: &Vec<char>) -> (r: Vec<(usize, usize)>)
    ensures
        r@.len() == raw_lines(s@).len(),
        forall|k: int|
            0 <= k < r@.len() ==> (#[trigger] r@[k]).0 <= r@[k].1 <= s@.len() && s@.subrange(
                r@[k].0 as int,
                r@[k].1 as int,
            ) == raw_lines(s@)[k],
{
    let n = s.len();
    let mut bounds: Vec<(usize, usize)> = Vec::new();
    let mut cur: usize = 0;
    let mut i: usize = 0;
    assert(s@.take(0) =~= Seq::<char>::empty());
    assert(s@.subrange(0, 0) =~= Seq::<char>::empty());
    while i < n
        invariant
            n == s@.len(),
            cur <= i <= n,
            i > 0 && cur < i ==> s@[i - 1] != '\n',
            cur > 0 ==> cur == i || s@[i - 1] != '\n',
            cur > 0 ==> s@[cur - 1] == '\n',
            forall|k: int|
                0 <= k < bounds@.len() ==> (#[trigger] bounds@[k]).0 <= bounds@[k].1 <= cur,
            split_lf(s@.take(i as int)) == Seq::new(
                bounds@.len(),
                |k: int| s@.subrange(bounds@[k].0 as int, bounds@[k].1 as int),
            ) + seq![s@.subrange(cur as int, i as int)],
        decreases n - i,
    {
        let c = s[i];
        let ghost done = Seq::new(
            bounds@.len(),
            |k: int| s@.subrange(bounds@[k].0 as int, bounds@[k].1 as int),
        );
        assert(s@.take(i + 1).drop_last() =~= s@.take(i as int));
        assert(s@.take(i + 1).last() == c);
        if c == '\n' {
            bounds.push((cur, i));
            let ghost done2 = Seq::new(
                bounds@.len(),
                |k: int| s@.subrange(bounds@[k].0 as int, bounds@[k].1 as int),
            );
            assert(done2 =~= done + seq![s@.subrange(cur as int, i as int)]);
            assert(s@.subrange(i + 1, i + 1) =~= Seq::<char>::empty());
            assert(split_lf(s@.take(i + 1)) =~= done2 + seq![s@.subrange(i + 1, i + 1)]);
            cur = i + 1;
        } else {
            proof {
                lemma_update_last(done, s@.subrange(cur as int, i as int), s@.subrange(cur as int, i + 1));
                assert(s@.subrange(cur as int, i as int).push(c) =~= s@.subrange(cur as int, i + 1));
            }
        }
        i = i + 1;
    }
    assert(s@.take(n as int) =~= s@);
    let ghost done = Seq::new(
        bounds@.len(),
        |k: int| s@.subrange(bounds@[k].0 as int, bounds@[k].1 as int),
    );
    if cur < n {
        bounds.push((cur, n));
        assert(s@.last() != '\n');
        let ghost done2 = Seq::new(
            bounds@.len(),
            |k: int| s@.subrange(bounds@[k].0 as int, bounds@[k].1 as int),
        );
        assert(done2 =~= done + seq![s@.subrange(cur as int, n as int)]);
        assert(raw_lines(s@) == done2);
    } else {
        if n > 0 {
            assert(s@.last() == '\n');
            assert(s@.drop_last() =~= s@.take(n - 1));
            assert(split_lf(s@) == split_lf(s@.drop_last()).push(Seq::<char>::empty()));
            assert(s@.subrange(cur as int, n as int) =~= Seq::<char>::empty());
            assert(split_lf(s@) =~= done.push(Seq::<char>::empty()));
            assert(split_lf(s@).drop_last() =~= done);
            assert(split_lf(s@.drop_last()).push(Seq::<char>::empty()).drop_last() =~= split_lf(
                s@.drop_last(),
            ));
        } else {
            assert(raw_lines(s@) =~= done);
        }
    }
    bounds
}

/// Lines `start_line` to `start_line + read_lines` (exclusive) of `text`, put
/// together without separators.
pub fn line_window_of(text: &str, start_line: usize, read_lines: usize) -> (r: String)
    ensures
        r@ == line_window(text@, start_line as nat, read_lines as nat),
{
    let chars = chars_of(text);
    let bounds = raw_line_bounds(&chars);
    let ghost lines = lines_of(text@);
    let n = bounds.len();
    let lo = if start_line < n {
        start_line
    } else {
        n
    };
    let hi = if read_lines < n - lo {
        lo + read_lines
    } else {
        n
    };
    let mut out = String::new();
    let mut k: usize = lo;
    assert(lines.subrange(lo as int, lo as int) =~= Seq::<Seq<char>>::empty());
    while k < hi
        invariant
            chars@ == text@,
            n == bounds@.len() == lines.len(),
            lines == lines_of(text@),
            lo <= k <= hi <= n,
            forall|j: int|
                0 <= j < bounds@.len() ==> (#[trigger] bounds@[j]).0 <= bounds@[j].1 <= text@.len()
                    && text@.subrange(bounds@[j].0 as int, bounds@[j].1 as int) == raw_lines(text@)[j],
            out@ == concat_all(lines.subrange(lo as int, k as int)),
        decreases hi - k,
    {
        let (a, b) = bounds[k];
        let end = if b > a && chars[b - 1] == '\r' {
            b - 1
        } else {
            b
        };
        let piece = text.substring_char(a, end);
        proof {
            let raw = raw_lines(text@)[k as int];
            assert(lines[k as int] == strip_cr(raw));
            if b > a && chars@[b - 1] == '\r' {
                assert(raw.last() == '\r');
                assert(piece@ =~= raw.drop_last());
            } else {
                assert(piece@ =~= raw);
            }
            assert(lines.subrange(lo as int, k + 1).drop_last() =~= lines.subrange(lo as int, k as int));
        }
        out.append(piece);
        k = k + 1;
    }
    out
}

/// The last line number shown for a window: the line before
/// `start_line + read_lines`, that sum held within `usize`.
pub open spec fn last_line(start_line: usize, read_lines: usize) -> nat {
    let end = start_line + read_lines;
    let capped = if end > usize::MAX {
        usize::MAX as nat
    } else {
        end as nat
    };
    if capped == 0 {
        0
    } else {
        (capped - 1) as nat
    }
}

/// The header of one part of a report, e.g. `stdout(line: 0-49):`.
pub open spec fn report_header(name: Seq<char>, start_line: usize, read_lines: usize) -> Seq<char> {
    name + "(line: "@ + decimal(start_line as nat) + "-"@ + decimal(last_line(start_line, read_lines))
        + "):\n"@
}

/// The note that ends each part of a report.
pub const OMITTED: &'static str = "\n(lines after was omitted, change arguments to check)";

/// What the help and manual tools hand back: the chosen window of lines of
/// both output streams, each under a header with the line numbers.
pub open spec fn help_report_spec(start_line: usize, read_lines: usize, stdout: Seq<char>, stderr: Seq<char>) -> Seq<char> {
    report_header("stdout"@, start_line, read_lines) + line_window(stdout, start_line as nat, read_lines as nat)
        + OMITTED@ + "\n"@ + report_header("stderr"@, start_line, read_lines) + line_window(
        stderr,
        start_line as nat,
        read_lines as nat,
    ) + OMITTED@
}

fn header(name: &str, start_line: usize, read_lines: usize) -> (r: String)
    ensures
        r@ == report_header(name@, start_line, read_lines),
{
    let end = start_line.saturating_add(read_lines).saturating_sub(1);
    assert(end == last_line(start_line, read_lines));
    String::from_str(name).concat("(line: ").concat(decimal_string(start_line as u64).as_str()).concat(
        "-",
    ).concat(decimal_string(end as u64).as_str()).concat("):\n")
}

/// The report of the help and manual tools.
pub fn help_report(start_line: usize, read_lines: usize, stdout: &str, stderr: &str) -> (r: String)
    ensures
        r@ == help_report_spec(start_line, read_lines, stdout@, stderr@),
{
    let out = header("stdout", start_line, read_lines).concat(
        line_window_of(stdout, start_line, read_lines).as_str(),
    ).concat(OMITTED).concat("\n").concat(header("stderr", start_line, read_lines).as_str()).concat(
        line_window_of(stderr, start_line, read_lines).as_str(),
    ).concat(OMITTED);
    out
}

/// What the tldr and thefuck tools hand back: both output streams whole.
pub fn plain_report(stdout: &str, stderr: &str) -> (r: String)
    ensures
        r@ == "stdout:\n"@ + stdout@ + "\nstderr:\n"@ + stderr@,
{
    String::from_str("stdout:\n").concat(stdout).concat("\nstderr:\n").concat(stderr)
}

} // verus!
