//! Percent-encoding of the text that goes into a query string.

use vstd::prelude::*;
use vstd::utf8::*;

verus! {

/// A byte that stands for itself in a query string.
pub open spec fn is_unreserved(b: u8) -> bool {
    let c = b as char;
    ||| '0' <= c <= '9'
    ||| 'A' <= c <= 'Z'
    ||| 'a' <= c <= 'z'
    ||| c == '-'
    ||| c == '.'
    ||| c == '_'
    ||| c == '~'
}

/// The upper-case hexadecimal digit for `d`, which is below sixteen.
pub open spec fn hex_digit(d: u8) -> char {
    if d < 10 {
        (('0' as nat) + d) as char
    } else {
        (('A' as nat) + (d - 10)) as char
    }
}

/// A byte as it stands in a query string.
pub open spec fn percent_byte(b: u8) -> Seq<char> {
    if is_unreserved(b) {
        seq![b as char]
    } else {
        seq!['%', hex_digit(b / 16), hex_digit(b % 16)]
    }
}

/// Bytes as they stand in a query string, one after the other.
pub open spec fn percent_bytes(bytes: Seq<u8>) -> Seq<char>
    decreases bytes.len(),
{
    if bytes.len() == 0 {
        seq![]
    } else {
        percent_byte(bytes[0]) + percent_bytes(bytes.drop_first())
    }
}

/// A text as it stands in a query string: the bytes of its UTF-8 encoding.
pub open spec fn percent_text(text: Seq<char>) -> Seq<char> {
    percent_bytes(encode_utf8(text))
}

/// `urlencoding::encode`: every byte of the text's UTF-8 encoding but letters,
/// digits and `-`, `.`, `_`, `~` becomes `%` and two upper-case hexadecimal digits.
#[verifier::external_body]
pub(crate) fn encode(text: &str) -> (r: String)
    ensures
        r@ == percent_text(text@),
{
    urlencoding::encode(text).into_owned()
}

proof fn lemma_percent_byte_starts(a: u8, b: u8, left: Seq<char>, right: Seq<char>)
    requires
        percent_byte(a) + left == percent_byte(b) + right,
    ensures
        a == b,
        left == right,
{
    let x = percent_byte(a) + left;
    let y = percent_byte(b) + right;
    assert(x[0] == percent_byte(a)[0]);
    assert(y[0] == percent_byte(b)[0]);
    if is_unreserved(a) {
        assert(x[0] == a as char);
        assert(is_unreserved(b));
    } else {
        assert(x[0] == '%');
        assert(!is_unreserved(b));
        assert(x[1] == hex_digit(a / 16));
        assert(y[1] == hex_digit(b / 16));
        assert(x[2] == hex_digit(a % 16));
        assert(y[2] == hex_digit(b % 16));
        assert(a / 16 == b / 16);
        assert(a % 16 == b % 16);
    }
    let n = percent_byte(a).len() as int;
    assert(x.subrange(n, x.len() as int) =~= left);
    assert(y.subrange(n, y.len() as int) =~= right);
}

proof fn lemma_percent_bytes_distinct(a: Seq<u8>, b: Seq<u8>)
    requires
        percent_bytes(a) == percent_bytes(b),
    ensures
        a == b,
    decreases a.len(),
{
    if a.len() == 0 {
        if b.len() > 0 {
            assert(percent_bytes(b).len() > 0);
        }
        assert(a =~= b);
    } else {
        if b.len() == 0 {
            assert(percent_bytes(a).len() > 0);
        }
        lemma_percent_byte_starts(
            a[0],
            b[0],
            percent_bytes(a.drop_first()),
            percent_bytes(b.drop_first()),
        );
        lemma_percent_bytes_distinct(a.drop_first(), b.drop_first());
        assert(a =~= seq![a[0]] + a.drop_first());
        assert(b =~= seq![b[0]] + b.drop_first());
    }
}

/// Texts that differ stand differently in a query string.
pub proof fn law_percent_text_distinct(a: Seq<char>, b: Seq<char>)
    requires
        percent_text(a) == percent_text(b),
    ensures
        a == b,
{
    lemma_percent_bytes_distinct(encode_utf8(a), encode_utf8(b));
    encode_utf8_decode_utf8(a);
    encode_utf8_decode_utf8(b);
}

} // verus!
