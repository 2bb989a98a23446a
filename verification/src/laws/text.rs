//! Laws on texts, and the lemmas behind them.

use crate::json::{map_model, object_entries, text_member, value_model, JsonModel};
use crate::laws::terms::{
    decoded, digits_value, hex_value, holds_text, is_base, is_decimal, is_query_char, is_query_of,
    is_text, is_within,
};
use crate::percent::{hex_digit, is_unreserved, percent_byte, percent_bytes, percent_text};
use crate::text::{
    contains, decimal, decimal_digit, decimal_text, holds_part, same, stands_at, starts_with,
    trim_end, trimmed_end,
};
use vstd::prelude::*;
use vstd::utf8::*;

verus! {

/// Two texts are the same where their characters are.
pub proof fn law_same(a: &str, b: &str, r: bool)
    requires
        call_ensures(same, (a, b), r),
    ensures
        r <==> a@ == b@,
{
}

/// A text starts with another where it goes on after it.
pub proof fn law_starts_with(text: &str, prefix: &str, r: bool, after: Seq<char>)
    requires
        call_ensures(starts_with, (text, prefix), r),
    ensures
        text@ == prefix@ + after ==> r,
        r ==> text@ == prefix@ + text@.skip(prefix@.len() as int),
{
    if text@ == prefix@ + after {
        assert(text@.take(prefix@.len() as int) =~= prefix@);
    }
}

pub(crate) proof fn lemma_holds_part(text: Seq<char>, part: Seq<char>)
    ensures
        holds_part(text, part) <==> is_within(part, text),
{
    if holds_part(text, part) {
        let i = choose|i: int| stands_at(text, part, i);
        let before = text.take(i);
        let after = text.skip(i + part.len());
        assert(text =~= (before + part) + after);
    }
    if is_within(part, text) {
        let (before, after) = choose|before: Seq<char>, after: Seq<char>|
            text == #[trigger] (before + part + after);
        let i = before.len() as int;
        assert(text.subrange(i, i + part.len()) =~= part);
        assert(stands_at(text, part, i));
    }
}

/// A text contains another where something goes before it and something after it.
pub proof fn law_contains(text: &str, part: &str, r: bool)
    requires
        call_ensures(contains, (text, part), r),
    ensures
        r <==> is_within(part@, text@),
{
    lemma_holds_part(text@, part@);
}

pub(crate) proof fn lemma_trimmed_end(text: Seq<char>)
    ensures
        is_base(trimmed_end(text, '/'), text),
{
    lemma_trimmed(text, '/');
}

/// An address has one base.
pub(crate) proof fn lemma_one_base(a: Seq<char>, b: Seq<char>, server: Seq<char>)
    requires
        is_base(a, server),
        is_base(b, server),
    ensures
        a == b,
{
    if a.len() < b.len() {
        assert(b.last() == server[b.len() - 1]);
    } else if b.len() < a.len() {
        assert(a.last() == server[a.len() - 1]);
    }
}

/// Trimming takes away the character at the end as often as it stands there, and
/// nothing else.
pub proof fn law_trim_end(text: &str, c: char, r: &str)
    requires
        call_ensures(trim_end, (text, c), r),
    ensures
        r@.len() <= text@.len(),
        r@ == text@.take(r@.len() as int),
        forall|i: int| r@.len() <= i < text@.len() ==> #[trigger] text@[i] == c,
        r@.len() > 0 ==> r@.last() != c,
{
    lemma_trimmed(text@, c);
}

proof fn lemma_trimmed(text: Seq<char>, c: char)
    ensures
        trimmed_end(text, c).len() <= text.len(),
        trimmed_end(text, c) == text.take(trimmed_end(text, c).len() as int),
        forall|i: int|
            trimmed_end(text, c).len() <= i < text.len() ==> #[trigger] text[i] == c,
        trimmed_end(text, c).len() > 0 ==> trimmed_end(text, c).last() != c,
    decreases text.len(),
{
    let trimmed = trimmed_end(text, c);
    if text.len() > 0 && text.last() == c {
        lemma_trimmed(text.drop_last(), c);
        assert(trimmed =~= text.take(trimmed.len() as int));
        assert forall|i: int| trimmed.len() <= i < text.len() implies #[trigger] text[i] == c by {
            if i < text.len() - 1 {
                assert(text.drop_last()[i] == c);
            }
        }
    } else {
        assert(trimmed =~= text.take(trimmed.len() as int));
    }
}

pub(crate) proof fn lemma_decimal(n: nat)
    ensures
        is_decimal(decimal_text(n), n as int),
        n > 0 ==> decimal_text(n)[0] != '0',
    decreases n,
{
    let digits = decimal_text(n);
    reveal_with_fuel(digits_value, 2);
    if n < 10 {
        assert(digits.drop_last() =~= seq![]);
        assert(digits[0] == decimal_digit(n));
    } else {
        lemma_decimal(n / 10);
        let before = decimal_text(n / 10);
        assert(digits.drop_last() =~= before);
        assert(digits[0] == before[0]);
        assert(digits.last() == decimal_digit(n % 10));
        assert forall|i: int| 0 <= i < digits.len() implies '0' <= #[trigger] digits[i] <= '9' by {
            if i < before.len() {
                assert(digits[i] == before[i]);
            }
        }
    }
}

/// A number is written by its decimal digits, without leading zeros.
pub proof fn law_decimal(n: u64, r: String)
    requires
        call_ensures(decimal, (n,), r),
    ensures
        is_decimal(r@, n as int),
{
    lemma_decimal(n as nat);
}

proof fn lemma_decoded_byte(b: u8, rest: Seq<char>)
    ensures
        decoded(percent_byte(b) + rest) == seq![b] + decoded(rest),
        forall|i: int| 0 <= i < percent_byte(b).len() ==> is_query_char(#[trigger] percent_byte(b)[i]),
{
    let text = percent_byte(b) + rest;
    if is_unreserved(b) {
        assert(text[0] == b as char);
        assert(text.skip(1) =~= rest);
    } else {
        assert(text[0] == '%');
        assert(text[1] == hex_digit(b / 16));
        assert(text[2] == hex_digit(b % 16));
        assert(hex_value(hex_digit(b / 16)) == b / 16);
        assert(hex_value(hex_digit(b % 16)) == b % 16);
        assert(text.skip(3) =~= rest);
    }
}

proof fn lemma_decoded_bytes(bytes: Seq<u8>)
    ensures
        decoded(percent_bytes(bytes)) == bytes,
        forall|i: int|
            0 <= i < percent_bytes(bytes).len() ==> is_query_char(#[trigger] percent_bytes(bytes)[i]),
    decreases bytes.len(),
{
    if bytes.len() == 0 {
        assert(bytes =~= seq![]);
    } else {
        let rest = percent_bytes(bytes.drop_first());
        lemma_decoded_bytes(bytes.drop_first());
        lemma_decoded_byte(bytes[0], rest);
        assert(bytes =~= seq![bytes[0]] + bytes.drop_first());
        let text = percent_bytes(bytes);
        let n = percent_byte(bytes[0]).len();
        assert forall|i: int| 0 <= i < text.len() implies is_query_char(#[trigger] text[i]) by {
            if i < n {
                assert(text[i] == percent_byte(bytes[0])[i]);
            } else {
                assert(text[i] == rest[i - n]);
            }
        }
    }
}

pub(crate) proof fn lemma_query(text: Seq<char>)
    ensures
        is_query_of(percent_text(text), text),
{
    lemma_decoded_bytes(encode_utf8(text));
}

/// The text under a key is found where the value is an object that holds it there, and
/// only then.
pub proof fn law_text_member(
    value: &serde_json::Value,
    key: &str,
    r: Option<String>,
    text: Seq<char>,
)
    requires
        call_ensures(text_member, (value, key), r),
    ensures
        is_text(r, text) <==> holds_text(value_model(*value), key@, text),
{
}

/// The entries of an object are its own; any other value has none.
pub proof fn law_object_entries(
    value: &serde_json::Value,
    r: serde_json::Map<String, serde_json::Value>,
)
    requires
        call_ensures(object_entries, (value,), r),
    ensures
        value_model(*value) matches JsonModel::Record(map) ==> map_model(r) == map,
        !(value_model(*value) is Record) ==> map_model(r) == Map::<
            Seq<char>,
            JsonModel,
        >::empty(),
{
}

} // verus!
