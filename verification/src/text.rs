//! Text building blocks: string comparison, decimal rendering of quantities
//! held in tenths, joining and repetition.
use vstd::prelude::*;

verus! {

/// The decimal digit `d` (taken modulo ten) as a character.
pub open spec fn digit_char(d: nat) -> char {
    let d = d % 10;
    if d == 0 {
        '0'
    } else if d == 1 {
        '1'
    } else if d == 2 {
        '2'
    } else if d == 3 {
        '3'
    } else if d == 4 {
        '4'
    } else if d == 5 {
        '5'
    } else if d == 6 {
        '6'
    } else if d == 7 {
        '7'
    } else if d == 8 {
        '8'
    } else {
        '9'
    }
}

/// The decimal representation of `n`, without leading zeros.
pub open spec fn decimal(n: nat) -> Seq<char>
    decreases n,
{
    if n < 10 {
        seq![digit_char(n)]
    } else {
        decimal(n / 10).push(digit_char(n % 10))
    }
}

/// A quantity given in tenths, written with exactly one decimal: 156 is "15.6".
pub open spec fn fixed_tenths(t: nat) -> Seq<char> {
    decimal(t / 10) + seq!['.', digit_char(t % 10)]
}

/// A quantity given in tenths, written in its shortest form: 160 is "16",
/// 25 is "2.5".
pub open spec fn short_tenths(t: nat) -> Seq<char> {
    if t % 10 == 0 {
        decimal(t / 10)
    } else {
        fixed_tenths(t)
    }
}

/// `parts` joined with `sep` between consecutive parts.
pub open spec fn join_with(parts: Seq<Seq<char>>, sep: Seq<char>) -> Seq<char>
    decreases parts.len(),
{
    if parts.len() == 0 {
        Seq::empty()
    } else if parts.len() == 1 {
        parts[0]
    } else {
        join_with(parts.drop_last(), sep) + sep + parts.last()
    }
}

/// `s` written `n` times in a row.
pub open spec fn repeated(s: Seq<char>, n: nat) -> Seq<char>
    decreases n,
{
    if n == 0 {
        Seq::empty()
    } else {
        repeated(s, (n - 1) as nat) + s
    }
}

/// The views of a sequence of strings.
pub open spec fn string_views(v: Seq<String>) -> Seq<Seq<char>> {
    v.map_values(|s: String| s@)
}

/// Compares two strings character by character.
pub fn str_equal(a: &str, b: &str) -> (r: bool)
    ensures
        r == (a@ == b@),
{
    let n = a.unicode_len();
    let m = b.unicode_len();
    if n != m {
        return false;
    }
    let mut i: usize = 0;
    while i < n
        invariant
            n == a@.len(),
            m == b@.len(),
            n == m,
            i <= n,
            forall|j: int| 0 <= j < i ==> a@[j] == b@[j],
        decreases n - i,
    {
        if a.get_char(i) != b.get_char(i) {
            return false;
        }
        i = i + 1;
    }
    assert(a@ =~= b@);
    true
}

fn digit_str(d: u128) -> (r: &'static str)
    requires
        d < 10,
    ensures
        r@ == seq![digit_char(d as nat)],
{
    if d == 0 {
        proof {
            reveal_strlit("0");
        }
        "0"
    } else if d == 1 {
        proof {
            reveal_strlit("1");
        }
        "1"
    } else if d == 2 {
        proof {
            reveal_strlit("2");
        }
        "2"
    } else if d == 3 {
        proof {
            reveal_strlit("3");
        }
        "3"
    } else if d == 4 {
        proof {
            reveal_strlit("4");
        }
        "4"
    } else if d == 5 {
        proof {
            reveal_strlit("5");
        }
        "5"
    } else if d == 6 {
        proof {
            reveal_strlit("6");
        }
        "6"
    } else if d == 7 {
        proof {
            reveal_strlit("7");
        }
        "7"
    } else if d == 8 {
        proof {
            reveal_strlit("8");
        }
        "8"
    } else {
        proof {
            reveal_strlit("9");
        }
        "9"
    }
}

/// Appends the decimal representation of `n` to `s`.
pub fn push_decimal(s: &mut String, n: u128)
    ensures
        final(s)@ == old(s)@ + decimal(n as nat),
    decreases n,
{
    if n < 10 {
        s.append(digit_str(n));
        assert(decimal(n as nat) == seq![digit_char(n as nat)]);
    } else {
        push_decimal(s, n / 10);
        s.append(digit_str(n % 10));
        assert(decimal(n as nat) == decimal((n / 10) as nat).push(digit_char((n % 10) as nat)));
        assert(final(s)@ =~= old(s)@ + decimal(n as nat));
    }
}

/// Appends a quantity given in tenths, with exactly one decimal.
pub fn push_fixed_tenths(s: &mut String, t: u128)
    ensures
        final(s)@ == old(s)@ + fixed_tenths(t as nat),
{
    push_decimal(s, t / 10);
    proof {
        reveal_strlit(".");
    }
    s.append(".");
    s.append(digit_str(t % 10));
    assert(final(s)@ =~= old(s)@ + fixed_tenths(t as nat));
}

/// Appends a quantity given in tenths, in its shortest form.
pub fn push_short_tenths(s: &mut String, t: u128)
    ensures
        final(s)@ == old(s)@ + short_tenths(t as nat),
{
    if t % 10 == 0 {
        push_decimal(s, t / 10);
    } else {
        push_fixed_tenths(s, t);
    }
}

/// A quantity given in tenths, written with exactly one decimal.
pub fn format_fixed_tenths(t: u128) -> (r: String)
    ensures
        r@ == fixed_tenths(t as nat),
{
    let mut s = String::new();
    push_fixed_tenths(&mut s, t);
    s
}

/// A quantity given in tenths, written in its shortest form.
pub fn format_short_tenths(t: u128) -> (r: String)
    ensures
        r@ == short_tenths(t as nat),
{
    let mut s = String::new();
    push_short_tenths(&mut s, t);
    s
}

/// Joins `parts` with `sep` between consecutive parts.
pub fn join(parts: &Vec<String>, sep: &str) -> (r: String)
    ensures
        r@ == join_with(string_views(parts@), sep@),
{
    let mut r = String::new();
    let n = parts.len();
    let mut i: usize = 0;
    while i < n
        invariant
            n == parts@.len(),
            i <= n,
            r@ == join_with(string_views(parts@.take(i as int)), sep@),
        decreases n - i,
    {
        let ghost before = string_views(parts@.take(i as int));
        assert(string_views(parts@.take(i + 1)).drop_last() =~= before);
        assert(string_views(parts@.take(i + 1)).last() == parts@[i as int]@);
        if i > 0 {
            r.append(sep);
        } else {
            assert(before.len() == 0);
        }
        r.append(parts[i].as_str());
        i = i + 1;
    }
    assert(parts@.take(n as int) =~= parts@);
    r
}

/// Appends `piece` to `s`, `n` times in a row.
pub fn push_repeated(s: &mut String, piece: &str, n: u128)
    ensures
        final(s)@ == old(s)@ + repeated(piece@, n as nat),
{
    let ghost start = s@;
    let mut i: u128 = 0;
    while i < n
        invariant
            i <= n,
            s@ == start + repeated(piece@, i as nat),
        decreases n - i,
    {
        s.append(piece);
        i = i + 1;
        assert(s@ =~= start + repeated(piece@, i as nat));
    }
}

/// `s` written `n` times in a row.
pub fn repeat_str(s: &str, n: usize) -> (r: String)
    ensures
        r@ == repeated(s@, n as nat),
{
    let mut r = String::new();
    let mut i: usize = 0;
    while i < n
        invariant
            i <= n,
            r@ == repeated(s@, i as nat),
        decreases n - i,
    {
        r.append(s);
        i = i + 1;
    }
    r
}

/// Position of the first line feed in `s`, or its length when there is none.
pub open spec fn line_end(s: Seq<char>) -> nat
    decreases s.len(),
{
    if s.len() == 0 {
        0
    } else if s[0] == '\n' {
        0
    } else {
        1 + line_end(s.drop_first())
    }
}

/// `line` without one final carriage return.
pub open spec fn strip_cr(line: Seq<char>) -> Seq<char> {
    if line.len() > 0 && line.last() == '\r' {
        line.drop_last()
    } else {
        line
    }
}

/// The lines of a text: the pieces between line feeds, each without the
/// carriage return that ends it when a line feed follows; a final line feed
/// starts no further line, and an empty text has no lines.
pub open spec fn text_lines(s: Seq<char>) -> Seq<Seq<char>>
    decreases s.len(),
{
    if s.len() == 0 {
        Seq::empty()
    } else {
        let e = line_end(s);
        if e < s.len() {
            seq![strip_cr(s.take(e as int))] + text_lines(s.skip(e + 1int))
        } else {
            seq![s]
        }
    }
}

proof fn lemma_line_end(s: Seq<char>, k: int)
    requires
        0 <= k <= s.len(),
        forall|i: int| 0 <= i < k ==> s[i] != '\n',
        k == s.len() || s[k] == '\n',
    ensures
        line_end(s) == k,
    decreases k,
{
    if k > 0 {
        lemma_line_end(s.drop_first(), k - 1);
    }
}

/// Splits a text into its lines (see [`text_lines`]).
pub fn split_lines(s: &str) -> (r: Vec<String>)
    ensures
        string_views(r@) == text_lines(s@),
{
    let n = s.unicode_len();
    let mut r: Vec<String> = Vec::new();
    let mut start: usize = 0;
    assert(s@.skip(0) =~= s@);
    while start < n
        invariant
            n == s@.len(),
            start <= n,
            string_views(r@) + text_lines(s@.skip(start as int)) == text_lines(s@),
        decreases n - start,
    {
        let mut e: usize = start;
        while e < n && s.get_char(e) != '\n'
            invariant
                n == s@.len(),
                start <= e <= n,
                forall|k: int| start <= k < e ==> s@[k] != '\n',
            decreases n - e,
        {
            e = e + 1;
        }
        let ghost rest = s@.skip(start as int);
        proof {
            lemma_line_end(rest, e - start);
        }
        let mut line_to = e;
        if e < n && e > start && s.get_char(e - 1) == '\r' {
            line_to = e - 1;
        }
        let line = String::from_str(s.substring_char(start, line_to));
        let ghost before = r@;
        r.push(line);
        assert(string_views(r@) =~= string_views(before).push(line@));
        if e < n {
            assert(rest.take(e - start) =~= s@.subrange(start as int, e as int));
            assert(rest.skip(e - start + 1) =~= s@.skip(e + 1));
            assert(line@ =~= strip_cr(rest.take(e - start)));
            assert(text_lines(rest) == seq![line@] + text_lines(s@.skip(e + 1)));
            assert(string_views(r@) + text_lines(s@.skip(e + 1)) =~= string_views(before) + text_lines(rest));
            start = e + 1;
        } else {
            assert(line@ =~= rest);
            assert(text_lines(rest) == seq![rest]);
            assert(s@.skip(n as int) =~= Seq::<char>::empty());
            assert(string_views(r@) + text_lines(s@.skip(n as int)) =~= string_views(before) + text_lines(rest));
            start = n;
        }
    }
    assert(s@.skip(n as int) =~= Seq::<char>::empty());
    assert(string_views(r@) =~= text_lines(s@));
    r
}

/// A signed quantity given in tenths, written with exactly one decimal.
pub open spec fn signed_fixed_tenths(t: int) -> Seq<char> {
    if t < 0 {
        "-"@ + fixed_tenths((-t) as nat)
    } else {
        fixed_tenths(t as nat)
    }
}

/// Appends a signed quantity given in tenths, with exactly one decimal.
pub fn push_signed_fixed_tenths(s: &mut String, t: i128)
    ensures
        final(s)@ == old(s)@ + signed_fixed_tenths(t as int),
{
    if t < 0 {
        let magnitude: u128 = ((-(t + 1)) as u128) + 1;
        s.append("-");
        push_fixed_tenths(s, magnitude);
        assert(final(s)@ =~= old(s)@ + signed_fixed_tenths(t as int));
    } else {
        push_fixed_tenths(s, t as u128);
    }
}

} // verus!
