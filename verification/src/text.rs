//! Text of numbers and lists, as it stands in error messages.
use vstd::prelude::*;

verus! {

/// The digit that stands for `n`, below ten.
pub open spec fn digit(n: nat) -> char {
    (48 + n) as char
}

/// `n` in decimal, without leading zeros.
pub open spec fn decimal(n: nat) -> Seq<char>
    decreases n,
{
    if n < 10 {
        seq![digit(n)]
    } else {
        decimal(n / 10).push(digit(n % 10))
    }
}

/// The digit `n`.
fn digit_text(n: u64) -> (s: &'static str)
    requires
        n < 10,
    ensures
        s@ == seq![digit(n as nat)],
{
    proof {
        reveal_strlit("0");
        reveal_strlit("1");
        reveal_strlit("2");
        reveal_strlit("3");
        reveal_strlit("4");
        reveal_strlit("5");
        reveal_strlit("6");
        reveal_strlit("7");
        reveal_strlit("8");
        reveal_strlit("9");
    }
    match n {
        0 => "0",
        1 => "1",
        2 => "2",
        3 => "3",
        4 => "4",
        5 => "5",
        6 => "6",
        7 => "7",
        8 => "8",
        _ => "9",
    }
}

/// `n` in decimal.
pub fn decimal_text(n: u64) -> (s: String)
    ensures
        s@ == decimal(n as nat),
    decreases n,
{
    if n < 10 {
        String::from_str(digit_text(n))
    } else {
        let mut s = decimal_text(n / 10);
        s.append(digit_text(n % 10));
        assert(s@ =~= decimal(n as nat));
        s
    }
}

/// `n` in decimal, with a minus before it when it is below zero.
pub open spec fn signed(n: int) -> Seq<char> {
    if n < 0 {
        "-"@ + decimal((-n) as nat)
    } else {
        decimal(n as nat)
    }
}

/// `n` in decimal, with a minus before it when it is below zero.
pub fn signed_text(n: i32) -> (s: String)
    ensures
        s@ == signed(n as int),
{
    if n < 0 {
        let mut s = String::from_str("-");
        s.append(decimal_text((-(n as i64)) as u64).as_str());
        s
    } else {
        decimal_text(n as u64)
    }
}

/// `text` without the `c`s at its end.
pub open spec fn trim_end(text: Seq<char>, c: char) -> Seq<char>
    decreases text.len(),
{
    if text.len() > 0 && text.last() == c {
        trim_end(text.drop_last(), c)
    } else {
        text
    }
}

/// A number's text without the zeros, and then the dots, at its end; left alone when it has no
/// dot.
pub open spec fn trimmed(text: Seq<char>) -> Seq<char> {
    if text.contains('.') {
        trim_end(trim_end(text, '0'), '.')
    } else {
        text
    }
}

/// What trimming keeps is a prefix that does not end in `c`, and what it drops is only `c`.
pub proof fn law_trim_end(text: Seq<char>, c: char)
    ensures
        trim_end(text, c).len() <= text.len(),
        trim_end(text, c) == text.take(trim_end(text, c).len() as int),
        trim_end(text, c).len() > 0 ==> trim_end(text, c).last() != c,
        forall|i: int| trim_end(text, c).len() <= i < text.len() ==> text[i] == c,
    decreases text.len(),
{
    if text.len() > 0 && text.last() == c {
        law_trim_end(text.drop_last(), c);
        let n = trim_end(text.drop_last(), c).len() as int;
        assert(text.drop_last().take(n) =~= text.take(n));
        assert forall|i: int| n <= i < text.len() implies text[i] == c by {
            if i < text.len() - 1 {
                assert(text.drop_last()[i] == c);
            }
        }
    } else {
        assert(text.take(text.len() as int) =~= text);
    }
}

/// How much of `text` is left when the `c`s at the end of its first `end` characters go.
fn trim_end_index(text: &str, end: usize, c: char) -> (r: usize)
    requires
        end <= text@.len(),
    ensures
        r <= end,
        text@.take(r as int) == trim_end(text@.take(end as int), c),
{
    let mut n: usize = end;
    while n > 0 && text.get_char(n - 1) == c
        invariant
            n <= end <= text@.len(),
            trim_end(text@.take(n as int), c) == trim_end(text@.take(end as int), c),
        ensures
            n <= end,
            n == 0 || text@[n - 1] != c,
            trim_end(text@.take(n as int), c) == trim_end(text@.take(end as int), c),
        decreases n,
    {
        assert(text@.take(n as int).drop_last() =~= text@.take(n - 1));
        n = n - 1;
    }
    n
}

/// Whether `c` occurs in `text`.
fn contains_char(text: &str, c: char) -> (b: bool)
    ensures
        b == text@.contains(c),
{
    let len: usize = text.unicode_len();
    let mut i: usize = 0;
    while i < len
        invariant
            i <= len,
            len == text@.len(),
            forall|j: int| 0 <= j < i ==> text@[j] != c,
        decreases len - i,
    {
        if text.get_char(i) == c {
            return true;
        }
        i = i + 1;
    }
    false
}

/// Drops trailing zeros, and a trailing dot, from a number written with a dot.
pub fn trim_zeros(text: &str) -> (r: &str)
    ensures
        r@ == trimmed(text@),
{
    if !contains_char(text, '.') {
        return text;
    }
    let len: usize = text.unicode_len();
    assert(text@.take(len as int) =~= text@);
    let without_zeros: usize = trim_end_index(text, len, '0');
    let without_dot: usize = trim_end_index(text, without_zeros, '.');
    assert(text@.subrange(0, without_dot as int) =~= text@.take(without_dot as int));
    text.substring_char(0, without_dot)
}

/// Whether `part` occurs in `text`.
pub open spec fn mentions(text: Seq<char>, part: Seq<char>) -> bool {
    exists|start: int|
        0 <= start && start + part.len() <= text.len() && #[trigger] text.subrange(
            start,
            start + part.len(),
        ) == part
}

} // verus!
