//! Text helpers over `str` and `String`, specified on their characters.

use vstd::prelude::*;
use vstd::string::*;
use vstd::utf8::*;

verus! {

/// `text` without the run of `c` at its end.
pub open spec fn trimmed_end(text: Seq<char>, c: char) -> Seq<char>
    decreases text.len(),
{
    if text.len() > 0 && text.last() == c {
        trimmed_end(text.drop_last(), c)
    } else {
        text
    }
}

/// The decimal digit for `d`, which is below ten.
pub open spec fn decimal_digit(d: nat) -> char {
    (('0' as nat) + d) as char
}

/// `n` in decimal, without leading zeros.
pub open spec fn decimal_text(n: nat) -> Seq<char>
    decreases n,
{
    if n < 10 {
        seq![decimal_digit(n)]
    } else {
        decimal_text(n / 10).push(decimal_digit(n % 10))
    }
}

/// The characters of an optional string.
pub open spec fn optional_text(text: Option<String>) -> Option<Seq<char>> {
    match text {
        Some(s) => Some(s@),
        None => None,
    }
}

/// Whether `part` stands in `text` from position `i` on.
pub open spec fn stands_at(text: Seq<char>, part: Seq<char>, i: int) -> bool {
    &&& 0 <= i <= text.len() - part.len()
    &&& text.subrange(i, i + part.len()) == part
}

/// Whether `part` stands anywhere in `text`.
pub open spec fn holds_part(text: Seq<char>, part: Seq<char>) -> bool {
    exists|i: int| stands_at(text, part, i)
}

/// Whether two texts are equal.
pub fn same(a: &str, b: &str) -> (r: bool)
    ensures
        r == (a@ == b@),
{
    broadcast use encode_utf8_decode_utf8;

    let left = a.as_bytes();
    let right = b.as_bytes();
    if left.len() != right.len() {
        return false;
    }
    let mut i: usize = 0;
    while i < left.len()
        invariant
            i <= left@.len(),
            left@.len() == right@.len(),
            left@ == encode_utf8(a@),
            right@ == encode_utf8(b@),
            forall|j: int| 0 <= j < i ==> left@[j] == right@[j],
        decreases left@.len() - i,
    {
        if left[i] != right[i] {
            return false;
        }
        i = i + 1;
    }
    assert(left@ =~= right@);
    assert(decode_utf8(encode_utf8(a@)) == decode_utf8(encode_utf8(b@)));
    true
}

/// Whether `text` begins with `prefix`.
pub fn starts_with(text: &str, prefix: &str) -> (r: bool)
    ensures
        r == prefix@.is_prefix_of(text@),
{
    let n = prefix.unicode_len();
    if text.unicode_len() < n {
        return false;
    }
    let head = text.substring_char(0, n);
    same(head, prefix)
}

/// Whether `part` stands anywhere in `text`.
pub fn contains(text: &str, part: &str) -> (r: bool)
    ensures
        r == holds_part(text@, part@),
{
    let n = part.unicode_len();
    let len = text.unicode_len();
    if len < n {
        return false;
    }
    let last: usize = len - n;
    let mut i: usize = 0;
    while i < last && !same(text.substring_char(i, i + n), part)
        invariant
            n == part@.len(),
            len == text@.len(),
            last + n == len,
            i <= last,
            forall|j: int| 0 <= j < i ==> !stands_at(text@, part@, j),
        decreases last - i,
    {
        i = i + 1;
    }
    let found = same(text.substring_char(i, i + n), part);
    assert(found == stands_at(text@, part@, i as int));
    found
}

/// `text` without the run of `c` at its end.
pub fn trim_end<'a>(text: &'a str, c: char) -> (r: &'a str)
    ensures
        r@ == trimmed_end(text@, c),
{
    let mut end: usize = text.unicode_len();
    assert(text@.subrange(0, end as int) =~= text@);
    while end > 0 && text.get_char(end - 1) == c
        invariant
            end <= text@.len(),
            trimmed_end(text@, c) == trimmed_end(text@.subrange(0, end as int), c),
        decreases end,
    {
        assert(text@.subrange(0, end as int).drop_last() =~= text@.subrange(0, end - 1));
        end = end - 1;
    }
    text.substring_char(0, end)
}

fn digit_text(d: u64) -> (r: &'static str)
    requires
        d < 10,
    ensures
        r@ == seq![decimal_digit(d as nat)],
{
    proof {
        reveal_strlit("0");
        reveal_strlit("1");
        reveal_strlit("2");
        reveal_strlit("3");
        reveal_strlit("4");
        reveal_strlit("5");
        reveal_strlit("6");
        reveal_strlit("7");
        reveal_strlit("8");
        reveal_strlit("9");
    }
    match d {
        0 => "0",
        1 => "1",
        2 => "2",
        3 => "3",
        4 => "4",
        5 => "5",
        6 => "6",
        7 => "7",
        8 => "8",
        _ => "9",
    }
}

/// `n` in decimal.
pub fn decimal(n: u64) -> (r: String)
    ensures
        r@ == decimal_text(n as nat),
    decreases n,
{
    if n < 10 {
        digit_text(n).to_owned()
    } else {
        let mut r = decimal(n / 10);
        let last = digit_text(n % 10);
        r.append(last);
        assert(decimal_text(n as nat / 10) + last@ =~= decimal_text(n as nat / 10).push(
            decimal_digit(n as nat % 10),
        ));
        r
    }
}

} // verus!
