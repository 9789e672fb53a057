//! Small verified string operations used to fill prompt templates and to
//! check tool arguments.
use vstd::prelude::*;
use vstd::string::*;

verus! {

/// `s` with every occurrence of `pat`, scanned from the left and without
/// overlap, replaced by `with`.
pub open spec fn replace_all(s: Seq<char>, pat: Seq<char>, with: Seq<char>) -> Seq<char>
    decreases s.len(),
{
    if pat.len() == 0 || s.len() < pat.len() {
        s
    } else if s.take(pat.len() as int) == pat {
        with + replace_all(s.skip(pat.len() as int), pat, with)
    } else {
        seq![s[0]] + replace_all(s.drop_first(), pat, with)
    }
}

/// The decimal digit character for `d`.
pub open spec fn digit_char(d: nat) -> char {
    (48 + d) as char
}

/// The decimal representation of `n`, without leading zeros.
pub open spec fn decimal(n: nat) -> Seq<char>
    decreases n,
{
    if n < 10 {
        seq![digit_char(n)]
    } else {
        decimal(n / 10) + seq![digit_char(n % 10)]
    }
}

/// Whether `a` and `b` hold the same characters.
pub fn same_text(a: &str, b: &str) -> (r: bool)
    ensures
        r == (a@ == b@),
{
    let n = a.unicode_len();
    if n != b.unicode_len() {
        return false;
    }
    let mut i: usize = 0;
    while i < n
        invariant
            n == a@.len() == b@.len(),
            i <= n,
            a@.take(i as int) == b@.take(i as int),
        decreases n - i,
    {
        if a.get_char(i) != b.get_char(i) {
            return false;
        }
        assert(a@.take(i + 1) =~= a@.take(i as int).push(a@[i as int]));
        assert(b@.take(i + 1) =~= b@.take(i as int).push(b@[i as int]));
        i = i + 1;
    }
    assert(a@ =~= a@.take(n as int));
    assert(b@ =~= b@.take(n as int));
    true
}

/// Whether `pat` occurs in `s` at character index `i`.
fn occurs_at(s: &str, n: usize, i: usize, pat: &str, m: usize) -> (r: bool)
    requires
        n == s@.len(),
        m == pat@.len(),
        i <= n,
    ensures
        r == (i + m <= n && s@.subrange(i as int, i + m) == pat@),
{
    if m > n - i {
        return false;
    }
    let mut j: usize = 0;
    while j < m
        invariant
            n == s@.len(),
            m == pat@.len(),
            i + m <= n,
            j <= m,
            s@.subrange(i as int, i + j) == pat@.take(j as int),
        decreases m - j,
    {
        if s.get_char(i + j) != pat.get_char(j) {
            assert(s@.subrange(i as int, i + m)[j as int] != pat@[j as int]);
            return false;
        }
        assert(s@.subrange(i as int, i + j + 1) =~= s@.subrange(i as int, i + j).push(s@[i + j]));
        assert(pat@.take(j + 1) =~= pat@.take(j as int).push(pat@[j as int]));
        j = j + 1;
    }
    assert(pat@ =~= pat@.take(m as int));
    true
}

/// `s` with every occurrence of `pat` replaced by `with`, leftmost first.
pub fn replace(s: &str, pat: &str, with: &str) -> (r: String)
    requires
        pat@.len() > 0,
    ensures
        r@ == replace_all(s@, pat@, with@),
{
    let n = s.unicode_len();
    let m = pat.unicode_len();
    let mut out = String::new();
    let mut start: usize = 0;
    let mut i: usize = 0;
    assert(s@.skip(0) =~= s@);
    while i < n
        invariant
            n == s@.len(),
            m == pat@.len(),
            m > 0,
            start <= i <= n,
            replace_all(s@, pat@, with@) == out@ + s@.subrange(start as int, i as int)
                + replace_all(s@.skip(i as int), pat@, with@),
        decreases n - i,
    {
        let ghost rest = s@.skip(i as int);
        if occurs_at(s, n, i, pat, m) {
            assert(rest.take(m as int) =~= s@.subrange(i as int, i + m));
            assert(rest.skip(m as int) =~= s@.skip(i + m));
            let pending = s.substring_char(start, i);
            out.append(pending);
            out.append(with);
            assert(s@.subrange(i as int, i as int) =~= Seq::<char>::empty());
            assert(out@ + s@.subrange((i + m) as int, (i + m) as int) =~= out@);
            assert(replace_all(s@, pat@, with@) == out@ + s@.subrange(
                (i + m) as int,
                (i + m) as int,
            ) + replace_all(s@.skip(i + m), pat@, with@)) by {
                assert(replace_all(rest, pat@, with@) == with@ + replace_all(
                    s@.skip(i + m),
                    pat@,
                    with@,
                ));
            }
            i = i + m;
            start = i;
        } else {
            assert(rest.len() >= pat@.len() ==> rest.take(m as int) =~= s@.subrange(i as int, i + m));
            assert(rest.drop_first() =~= s@.skip(i + 1));
            assert(s@.subrange(start as int, i + 1) =~= s@.subrange(start as int, i as int) + seq![rest[0]]);
            i = i + 1;
        }
    }
    assert(s@.skip(n as int) =~= Seq::<char>::empty());
    let pending = s.substring_char(start, n);
    out.append(pending);
    assert(out@ =~= out@ + Seq::<char>::empty());
    out
}

/// The decimal representation of `n`.
pub fn decimal_string(n: u64) -> (r: String)
    ensures
        r@ == decimal(n as nat),
{
    let digits = "0123456789";
    proof {
        reveal_strlit("0123456789");
        assert(digits@[0] == digit_char(0));
        assert(digits@[1] == digit_char(1));
        assert(digits@[2] == digit_char(2));
        assert(digits@[3] == digit_char(3));
        assert(digits@[4] == digit_char(4));
        assert(digits@[5] == digit_char(5));
        assert(digits@[6] == digit_char(6));
        assert(digits@[7] == digit_char(7));
        assert(digits@[8] == digit_char(8));
        assert(digits@[9] == digit_char(9));
    }
    // Digits from the least significant one.
    let mut low_first: Vec<usize> = Vec::new();
    let mut rest: u64 = n;
    while rest >= 10
        invariant
            rest <= n,
            decimal(n as nat) == decimal(rest as nat) + Seq::new(
                low_first@.len(),
                |k: int| digit_char(low_first@[low_first@.len() - 1 - k] as nat),
            ),
            forall|k: int| 0 <= k < low_first@.len() ==> low_first@[k] < 10,
        decreases rest,
    {
        let d = (rest % 10) as usize;
        let ghost before = low_first@;
        low_first.push(d);
        let ghost tail_before = Seq::new(
            before.len(),
            |k: int| digit_char(before[before.len() - 1 - k] as nat),
        );
        let ghost tail_after = Seq::new(
            low_first@.len(),
            |k: int| digit_char(low_first@[low_first@.len() - 1 - k] as nat),
        );
        assert(tail_after =~= seq![digit_char(d as nat)] + tail_before);
        assert(decimal(rest as nat) == decimal((rest / 10) as nat) + seq![digit_char(
            (rest % 10) as nat,
        )]);
        rest = rest / 10;
    }
    let mut out = String::from_str(digits.substring_char(rest as usize, rest as usize + 1));
    let ghost all = low_first@;
    let mut k: usize = low_first.len();
    assert(decimal(rest as nat) =~= seq![digit_char(rest as nat)]);
    while k > 0
        invariant
            k <= all.len(),
            all == low_first@,
            forall|j: int| 0 <= j < all.len() ==> all[j] < 10,
            digits@.len() == 10,
            forall|j: int| 0 <= j < 10 ==> digits@[j] == digit_char(j as nat),
            decimal(n as nat) == out@ + Seq::new(k as nat, |j: int| digit_char(all[k - 1 - j] as nat)),
        decreases k,
    {
        let d = low_first[k - 1];
        let piece = digits.substring_char(d, d + 1);
        assert(piece@ =~= seq![digit_char(d as nat)]);
        let ghost before = Seq::new(k as nat, |j: int| digit_char(all[k - 1 - j] as nat));
        let ghost after = Seq::new((k - 1) as nat, |j: int| digit_char(all[k - 2 - j] as nat));
        assert(before =~= seq![digit_char(d as nat)] + after);
        out.append(piece);
        k = k - 1;
    }
    assert(Seq::new(0, |j: int| digit_char(all[-1 - j] as nat)) =~= Seq::<char>::empty());
    out
}

} // verus!

verus! {

/// The characters of each string.
pub open spec fn strings_view(v: Seq<String>) -> Seq<Seq<char>> {
    v.map_values(|s: String| s@)
}

/// The pieces joined with `sep` between each two.
pub open spec fn join_seqs(pieces: Seq<Seq<char>>, sep: Seq<char>) -> Seq<char>
    decreases pieces.len(),
{
    if pieces.len() == 0 {
        Seq::empty()
    } else if pieces.len() == 1 {
        pieces[0]
    } else {
        join_seqs(pieces.drop_last(), sep) + sep + pieces.last()
    }
}

/// The lines joined with a newline between each two.
pub open spec fn join_lines(lines: Seq<Seq<char>>) -> Seq<char> {
    join_seqs(lines, "\n"@)
}

/// Joins `pieces` with `sep` between each two.
pub fn join_with(pieces: &Vec<String>, sep: &str) -> (r: String)
    ensures
        r@ == join_seqs(strings_view(pieces@), sep@),
{
    let n = pieces.len();
    let mut out = String::new();
    let mut i: usize = 0;
    while i < n
        invariant
            n == pieces@.len(),
            i <= n,
            out@ == join_seqs(strings_view(pieces@.take(i as int)), sep@),
        decreases n - i,
    {
        let ghost before = strings_view(pieces@.take(i as int));
        let ghost after = strings_view(pieces@.take(i + 1));
        assert(after.drop_last() =~= before);
        assert(after.last() == pieces@[i as int]@);
        if i > 0 {
            out.append(sep);
        } else {
            assert(before.len() == 0);
            assert(out@ =~= Seq::<char>::empty());
        }
        out.append(pieces[i].as_str());
        i = i + 1;
    }
    assert(pieces@.take(n as int) =~= pieces@);
    out
}

/// Joins `lines` with a newline between each two.
pub fn join_with_newlines(lines: &Vec<String>) -> (r: String)
    ensures
        r@ == join_lines(strings_view(lines@)),
{
    join_with(lines, "\n")
}

} // verus!

verus! {

/// Whether `pat` occurs somewhere in `s`.
pub open spec fn contains_seq(s: Seq<char>, pat: Seq<char>) -> bool {
    exists|i: int| 0 <= i && i + pat.len() <= s.len() && #[trigger] s.subrange(i, i + pat.len()) == pat
}

/// Whether `pat` occurs in `s`.
pub fn contains_text(s: &str, pat: &str) -> (r: bool)
    ensures
        r == contains_seq(s@, pat@),
{
    let n = s.unicode_len();
    let m = pat.unicode_len();
    if m > n {
        return false;
    }
    let mut i: usize = 0;
    loop
        invariant
            n == s@.len(),
            m == pat@.len(),
            m <= n,
            i <= n - m,
            forall|j: int| 0 <= j < i && j + m <= n ==> #[trigger] s@.subrange(j, j + m) != pat@,
        decreases n - m - i,
    {
        if occurs_at(s, n, i, pat, m) {
            return true;
        }
        if i == n - m {
            return false;
        }
        i = i + 1;
    }
}

/// Whether `s` starts with `pat`.
pub fn starts_with_text(s: &str, pat: &str) -> (r: bool)
    ensures
        r == (pat@.len() <= s@.len() && s@.take(pat@.len() as int) == pat@),
{
    let n = s.unicode_len();
    let m = pat.unicode_len();
    let r = occurs_at(s, n, 0, pat, m);
    assert(s@.subrange(0, m as int) =~= s@.take(m as int));
    r
}

} // verus!

verus! {

/// The characters of `s`, one by one.
pub fn chars_of(s: &str) -> (r: Vec<char>)
    ensures
        r@ == s@,
{
    let mut out: Vec<char> = Vec::new();
    for c in it: s.chars()
        invariant
            out@ == it.seq().take(it.index() as int),
    {
        out.push(c);
    }
    out
}

} // verus!

verus! {

/// The standard base64 alphabet.
pub const BASE64_ALPHABET: &'static str = "ABCDEFGHIJKLMNOPQRSTUVWXYZabcdefghijklmnopqrstuvwxyz0123456789+/";

/// The base64 digit for a six-bit value.
pub open spec fn b64(v: int) -> char {
    BASE64_ALPHABET@[v]
}

/// Standard base64 with padding: each three bytes become four digits.
pub open spec fn base64(b: Seq<u8>) -> Seq<char>
    decreases b.len(),
{
    if b.len() == 0 {
        Seq::empty()
    } else if b.len() == 1 {
        seq![b64((b[0] as int) / 4), b64(((b[0] as int) % 4) * 16), '=', '=']
    } else if b.len() == 2 {
        seq![b64((b[0] as int) / 4), b64(((b[0] as int) % 4) * 16 + (b[1] as int) / 16), b64(((b[1] as int) % 16) * 4), '=']
    } else {
        seq![
            b64((b[0] as int) / 4),
            b64(((b[0] as int) % 4) * 16 + (b[1] as int) / 16),
            b64(((b[1] as int) % 16) * 4 + (b[2] as int) / 64),
            b64((b[2] as int) % 64),
        ] + base64(b.skip(3))
    }
}

fn b64_digit(v: u8) -> (r: &'static str)
    requires
        v < 64,
    ensures
        r@ == seq![b64(v as int)],
{
    proof {
        reveal_strlit("ABCDEFGHIJKLMNOPQRSTUVWXYZabcdefghijklmnopqrstuvwxyz0123456789+/");
    }
    let r = BASE64_ALPHABET.substring_char(v as usize, v as usize + 1);
    assert(r@ =~= seq![b64(v as int)]);
    r
}

/// `bytes` in standard base64 with padding.
pub fn base64_encode(bytes: &[u8]) -> (r: String)
    ensures
        r@ == base64(bytes@),
{
    let n = bytes.len();
    let mut out = String::new();
    let mut i: usize = 0;
    assert(bytes@.skip(0) =~= bytes@);
    while n - i >= 3
        invariant
            n == bytes@.len(),
            i <= n,
            base64(bytes@) == out@ + base64(bytes@.skip(i as int)),
        decreases n - i,
    {
        let b0 = bytes[i];
        let b1 = bytes[i + 1];
        let b2 = bytes[i + 2];
        let ghost rest = bytes@.skip(i as int);
        assert(rest[0] == b0 && rest[1] == b1 && rest[2] == b2);
        assert(rest.skip(3) =~= bytes@.skip(i + 3));
        let ghost before = out@;
        out.append(b64_digit(b0 / 4));
        out.append(b64_digit((b0 % 4) * 16 + b1 / 16));
        out.append(b64_digit((b1 % 16) * 4 + b2 / 64));
        out.append(b64_digit(b2 % 64));
        assert(out@ =~= before + seq![
            b64((b0 as int) / 4),
            b64(((b0 as int) % 4) * 16 + (b1 as int) / 16),
            b64(((b1 as int) % 16) * 4 + (b2 as int) / 64),
            b64((b2 as int) % 64),
        ]);
        i = i + 3;
    }
    let ghost rest = bytes@.skip(i as int);
    let ghost before = out@;
    if n - i == 1 {
        let b0 = bytes[i];
        assert(rest[0] == b0);
        out.append(b64_digit(b0 / 4));
        out.append(b64_digit((b0 % 4) * 16));
        out.append("==");
        proof {
            reveal_strlit("==");
        }
        assert(out@ =~= before + seq![b64((b0 as int) / 4), b64(((b0 as int) % 4) * 16), '=', '=']);
    } else if n - i == 2 {
        let b0 = bytes[i];
        let b1 = bytes[i + 1];
        assert(rest[0] == b0 && rest[1] == b1);
        out.append(b64_digit(b0 / 4));
        out.append(b64_digit((b0 % 4) * 16 + b1 / 16));
        out.append(b64_digit((b1 % 16) * 4));
        out.append("=");
        proof {
            reveal_strlit("=");
        }
        assert(out@ =~= before + seq![b64((b0 as int) / 4), b64(((b0 as int) % 4) * 16 + (b1 as int) / 16), b64(((b1 as int) % 16) * 4), '=']);
    } else {
        assert(out@ =~= before + Seq::<char>::empty());
    }
    out
}

} // verus!
