//! A growing text log read through a fixed-width window.
use vstd::prelude::*;
use vstd::string::*;

use crate::width::{char_columns, char_width, columns};

verus! {

/// Number of leading characters of `s` whose columns add up to at most
/// `width`: characters are taken one by one until the next one would not fit.
pub open spec fn fit_prefix_len(s: Seq<char>, width: nat) -> nat
    decreases s.len(),
{
    if s.len() == 0 {
        0
    } else if char_columns(s[0]) <= width {
        1 + fit_prefix_len(s.drop_first(), (width - char_columns(s[0])) as nat)
    } else {
        0
    }
}

/// Number of trailing characters of `s` whose columns add up to at most
/// `width`: characters are taken from the end until the next one would not fit.
pub open spec fn fit_suffix_len(s: Seq<char>, width: nat) -> nat
    decreases s.len(),
{
    if s.len() == 0 {
        0
    } else if char_columns(s.last()) <= width {
        1 + fit_suffix_len(s.drop_last(), (width - char_columns(s.last())) as nat)
    } else {
        0
    }
}

/// The longest prefix of `s` that fits in `width` columns.
pub open spec fn head_window(s: Seq<char>, width: nat) -> Seq<char> {
    s.take(fit_prefix_len(s, width) as int)
}

/// The longest suffix of `s` that fits in `width` columns.
pub open spec fn tail_window(s: Seq<char>, width: nat) -> Seq<char> {
    s.skip(s.len() - fit_suffix_len(s, width))
}

/// The state of a [`ScrollingMessage`]: the window width, all text pushed so
/// far, and how many of its characters have been scrolled past.
pub struct ScrollingMessageView {
    pub scroll_width: nat,
    pub text: Seq<char>,
    pub cursor: nat,
}

/// The window shown for a state: the longest tail of the text read so far
/// that fits in the window width.
pub open spec fn window_of(v: ScrollingMessageView) -> Seq<char> {
    tail_window(v.text.take(v.cursor as int), v.scroll_width)
}

/// The state after scrolling by `step` columns: the cursor moves past the
/// longest run of unread characters that fits in `step` columns.
pub open spec fn scrolled(v: ScrollingMessageView, step: nat) -> ScrollingMessageView {
    ScrollingMessageView {
        cursor: v.cursor + fit_prefix_len(v.text.skip(v.cursor as int), step),
        ..v
    }
}

/// The state after scrolling by each of `steps` in turn.
pub open spec fn scrolled_by_all(v: ScrollingMessageView, steps: Seq<nat>) -> ScrollingMessageView
    decreases steps.len(),
{
    if steps.len() == 0 {
        v
    } else {
        scrolled_by_all(scrolled(v, steps[0]), steps.drop_first())
    }
}

pub proof fn lemma_fit_prefix_len_bound(s: Seq<char>, width: nat)
    ensures
        fit_prefix_len(s, width) <= s.len(),
    decreases s.len(),
{
    if s.len() > 0 && char_columns(s[0]) <= width {
        lemma_fit_prefix_len_bound(s.drop_first(), (width - char_columns(s[0])) as nat);
    }
}

pub proof fn lemma_fit_suffix_len_bound(s: Seq<char>, width: nat)
    ensures
        fit_suffix_len(s, width) <= s.len(),
    decreases s.len(),
{
    if s.len() > 0 && char_columns(s.last()) <= width {
        lemma_fit_suffix_len_bound(s.drop_last(), (width - char_columns(s.last())) as nat);
    }
}

/// The columns of a tail window never exceed its width.
pub proof fn lemma_tail_window_fits(s: Seq<char>, width: nat)
    ensures
        columns(tail_window(s, width)) <= width,
    decreases s.len(),
{
    lemma_fit_suffix_len_bound(s, width);
    if s.len() > 0 && char_columns(s.last()) <= width {
        let rest = (width - char_columns(s.last())) as nat;
        lemma_tail_window_fits(s.drop_last(), rest);
        lemma_fit_suffix_len_bound(s.drop_last(), rest);
        let w = tail_window(s, width);
        assert(w.drop_last() =~= tail_window(s.drop_last(), rest));
    } else {
        assert(tail_window(s, width) =~= Seq::<char>::empty());
    }
}

/// The columns of a head window never exceed its width.
pub proof fn lemma_head_window_fits(s: Seq<char>, width: nat)
    ensures
        columns(head_window(s, width)) <= width,
    decreases s.len(),
{
    lemma_fit_prefix_len_bound(s, width);
    if s.len() > 0 && char_columns(s[0]) <= width {
        let rest = (width - char_columns(s[0])) as nat;
        lemma_head_window_fits(s.drop_first(), rest);
        lemma_fit_prefix_len_bound(s.drop_first(), rest);
        assert(head_window(s, width) =~= seq![s[0]] + head_window(s.drop_first(), rest));
        lemma_columns_concat(seq![s[0]], head_window(s.drop_first(), rest));
        assert(seq![s[0]].drop_last() =~= Seq::<char>::empty());
        assert(columns(Seq::<char>::empty()) == 0);
        assert(seq![s[0]].last() == s[0]);
        assert(columns(seq![s[0]]) == char_columns(s[0]));
    } else {
        assert(head_window(s, width) =~= Seq::<char>::empty());
    }
}

/// Columns add up over concatenation.
pub proof fn lemma_columns_concat(a: Seq<char>, b: Seq<char>)
    ensures
        columns(a + b) == columns(a) + columns(b),
    decreases b.len(),
{
    if b.len() == 0 {
        assert(a + b =~= a);
    } else {
        lemma_columns_concat(a, b.drop_last());
        assert((a + b).drop_last() =~= a + b.drop_last());
    }
}

/// Length of the longest prefix of `s` fitting in `width` columns.
fn fitting_prefix_len(s: &str, width: usize) -> (k: usize)
    ensures
        k == fit_prefix_len(s@, width as nat),
{
    let n = s.unicode_len();
    let mut i: usize = 0;
    let mut left: usize = width;
    assert(s@.skip(0) =~= s@);
    while i < n
        invariant
            n == s@.len(),
            i <= n,
            left <= width,
            fit_prefix_len(s@, width as nat) == i + fit_prefix_len(s@.skip(i as int), left as nat),
        decreases n - i,
    {
        let w = char_width(s.get_char(i));
        let ghost tail = s@.skip(i as int);
        assert(tail[0] == s@[i as int]);
        assert(tail.drop_first() =~= s@.skip(i + 1));
        if w > left {
            return i;
        }
        left = left - w;
        i = i + 1;
    }
    assert(s@.skip(i as int).len() == 0);
    i
}

/// Length of the longest suffix of `s` fitting in `width` columns.
fn fitting_suffix_len(s: &str, width: usize) -> (k: usize)
    ensures
        k == fit_suffix_len(s@, width as nat),
        k <= s@.len(),
{
    let n = s.unicode_len();
    let mut k: usize = 0;
    let mut left: usize = width;
    assert(s@.take(n as int) =~= s@);
    while k < n
        invariant
            n == s@.len(),
            k <= n,
            left <= width,
            fit_suffix_len(s@, width as nat) == k + fit_suffix_len(s@.take(n - k), left as nat),
        decreases n - k,
    {
        let w = char_width(s.get_char(n - 1 - k));
        let ghost head = s@.take(n - k);
        assert(head.last() == s@[n - 1 - k]);
        assert(head.drop_last() =~= s@.take(n - k - 1));
        if w > left {
            return k;
        }
        left = left - w;
        k = k + 1;
    }
    assert(s@.take(n - k).len() == 0);
    k
}

/// A log of streamed text and a read cursor, shown through a window of fixed
/// width.
///
/// Text is only ever appended; the cursor only moves forward, whole
/// characters at a time, and never past the end of the text.
pub struct ScrollingMessage {
    scroll_width: usize,
    message: String,
    /// Number of characters of `message` already scrolled past.
    cursor: usize,
}

impl View for ScrollingMessage {
    type V = ScrollingMessageView;

    closed spec fn view(&self) -> ScrollingMessageView {
        ScrollingMessageView {
            scroll_width: self.scroll_width as nat,
            text: self.message@,
            cursor: self.cursor as nat,
        }
    }
}

impl ScrollingMessage {
    #[verifier::type_invariant]
    spec fn cursor_in_text(&self) -> bool {
        self.cursor <= self.message@.len()
    }

    /// An empty log shown through a window `scroll_width` columns wide.
    pub fn new(scroll_width: usize) -> (r: Self)
        ensures
            r@ == (ScrollingMessageView { scroll_width: scroll_width as nat, text: Seq::empty(), cursor: 0 }),
    {
        ScrollingMessage { scroll_width, message: String::new(), cursor: 0 }
    }

    /// All text pushed so far, whatever has been scrolled.
    pub fn message(&self) -> (r: String)
        ensures
            r@ == self@.text,
    {
        self.message.clone()
    }

    /// Appends `appendant` to the log; the cursor stays where it is.
    pub fn push(&mut self, appendant: &str)
        ensures
            final(self)@ == (ScrollingMessageView { text: old(self)@.text + appendant@, ..old(self)@ }),
    {
        proof {
            use_type_invariant(&*self);
        }
        let grown = self.message.clone().concat(appendant);
        self.message = grown;
    }

    /// Whether some pushed text has not been scrolled past yet.
    pub fn has_new_messages(&self) -> (r: bool)
        ensures
            r == (self@.cursor < self@.text.len()),
    {
        proof {
            use_type_invariant(self);
        }
        self.cursor < self.message.as_str().unicode_len()
    }

    /// The longest prefix of `s` that fits in `width` columns; a character
    /// is never cut.
    pub fn window_at_first(s: &str, width: usize) -> (r: &str)
        ensures
            r@ == head_window(s@, width as nat),
            columns(r@) <= width,
    {
        let k = fitting_prefix_len(s, width);
        proof {
            lemma_fit_prefix_len_bound(s@, width as nat);
            lemma_head_window_fits(s@, width as nat);
        }
        s.substring_char(0, k)
    }

    /// The longest suffix of `s` that fits in `width` columns; a character
    /// is never cut.
    pub fn window_at_last(s: &str, width: usize) -> (r: &str)
        ensures
            r@ == tail_window(s@, width as nat),
            columns(r@) <= width,
    {
        let n = s.unicode_len();
        let k = fitting_suffix_len(s, width);
        proof {
            lemma_tail_window_fits(s@, width as nat);
        }
        s.substring_char(n - k, n)
    }

    /// Moves the cursor past the longest run of unread characters that fits
    /// in `step` columns, then returns the longest tail of the text read so
    /// far that fits in the window.
    pub fn scroll(&mut self, step: usize) -> (window: String)
        ensures
            final(self)@ == scrolled(old(self)@, step as nat),
            window@ == window_of(final(self)@),
            columns(window@) <= old(self)@.scroll_width,
            old(self)@.cursor <= final(self)@.cursor <= final(self)@.text.len(),
    {
        proof {
            use_type_invariant(&*self);
        }
        let n = self.message.as_str().unicode_len();
        let unread = self.message.as_str().substring_char(self.cursor, n);
        let advance = fitting_prefix_len(unread, step);
        proof {
            lemma_fit_prefix_len_bound(unread@, step as nat);
        }
        self.cursor = self.cursor + advance;
        let read = self.message.as_str().substring_char(0, self.cursor);
        let window = Self::window_at_last(read, self.scroll_width);
        String::from_str(window)
    }
}

/// Scrolling never moves the cursor backwards nor past the end of the text,
/// whatever the sequence of steps.
pub proof fn lemma_scroll_cursor_monotone(v: ScrollingMessageView, steps: Seq<nat>)
    requires
        v.cursor <= v.text.len(),
    ensures
        v.cursor <= scrolled_by_all(v, steps).cursor <= v.text.len(),
        scrolled_by_all(v, steps).text == v.text,
    decreases steps.len(),
{
    if steps.len() > 0 {
        lemma_fit_prefix_len_bound(v.text.skip(v.cursor as int), steps[0]);
        lemma_scroll_cursor_monotone(scrolled(v, steps[0]), steps.drop_first());
    }
}

/// Every window shown fits in the window width and is made of whole
/// characters of the text read so far.
pub proof fn lemma_window_fits(v: ScrollingMessageView)
    requires
        v.cursor <= v.text.len(),
    ensures
        columns(window_of(v)) <= v.scroll_width,
        window_of(v).len() <= v.cursor,
        window_of(v) =~= v.text.subrange(v.cursor - window_of(v).len(), v.cursor as int),
{
    lemma_tail_window_fits(v.text.take(v.cursor as int), v.scroll_width);
    lemma_fit_suffix_len_bound(v.text.take(v.cursor as int), v.scroll_width);
}

/// Scrolling by zero columns shows again the window of the previous call,
/// unless the next unread character is itself zero columns wide (a control
/// or combining character), which a zero step still moves past.
pub proof fn lemma_scroll_zero_keeps_window(v: ScrollingMessageView)
    requires
        v.cursor <= v.text.len(),
        v.cursor < v.text.len() ==> char_columns(v.text[v.cursor as int]) > 0,
    ensures
        scrolled(v, 0) == v,
        window_of(scrolled(v, 0)) == window_of(v),
{
    let unread = v.text.skip(v.cursor as int);
    if unread.len() > 0 {
        assert(unread[0] == v.text[v.cursor as int]);
    }
    assert(fit_prefix_len(unread, 0) == 0);
}

} // verus!
