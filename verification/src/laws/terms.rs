//! The words that the laws use.

use crate::json::JsonModel;
use crate::legacy::LegacyTransport;
use crate::service::Transport;
use vstd::prelude::*;

verus! {

/// `text` is what `found` holds.
pub open spec fn is_text(found: Option<String>, text: Seq<char>) -> bool {
    found matches Some(string) && string@ == text
}

/// `value` is an object whose entry under `key` is the string `text`.
pub open spec fn holds_text(value: JsonModel, key: Seq<char>, text: Seq<char>) -> bool {
    value matches JsonModel::Record(map) && map.contains_key(key) && map[key] == JsonModel::Text(
        text,
    )
}

/// `value` is no object whose entry under `key` is a string.
pub open spec fn lacks_text(value: JsonModel, key: Seq<char>) -> bool {
    forall|text: Seq<char>| !holds_text(value, key, text)
}

/// What a string of decimal digits stands for.
pub open spec fn digits_value(digits: Seq<char>) -> int
    decreases digits.len(),
{
    if digits.len() == 0 {
        0
    } else {
        10 * digits_value(digits.drop_last()) + (digits.last() as int - '0' as int)
    }
}

/// `digits` is the number `n` in decimal, without leading zeros.
pub open spec fn is_decimal(digits: Seq<char>, n: int) -> bool {
    &&& digits.len() > 0
    &&& forall|i: int| 0 <= i < digits.len() ==> '0' <= #[trigger] digits[i] <= '9'
    &&& digits[0] == '0' ==> digits.len() == 1
    &&& digits_value(digits) == n
}

/// `base` is the address `server` without the slashes at its end.
pub open spec fn is_base(base: Seq<char>, server: Seq<char>) -> bool {
    &&& base.len() <= server.len()
    &&& base == server.take(base.len() as int)
    &&& forall|i: int| base.len() <= i < server.len() ==> #[trigger] server[i] == '/'
    &&& base.len() > 0 ==> base.last() != '/'
}

/// The hexadecimal value of an upper-case digit.
pub open spec fn hex_value(digit: char) -> int {
    if '0' <= digit <= '9' {
        digit as int - '0' as int
    } else {
        digit as int - 'A' as int + 10
    }
}

/// The bytes that a percent-encoded text stands for.
pub open spec fn decoded(text: Seq<char>) -> Seq<u8>
    decreases text.len(),
{
    if text.len() == 0 {
        seq![]
    } else if text[0] == '%' && text.len() >= 3 {
        seq![(16 * hex_value(text[1]) + hex_value(text[2])) as u8] + decoded(text.skip(3))
    } else {
        seq![text[0] as u8] + decoded(text.skip(1))
    }
}

/// A character that may stand in the value of a query.
pub open spec fn is_query_char(c: char) -> bool {
    ||| '0' <= c <= '9'
    ||| 'A' <= c <= 'Z'
    ||| 'a' <= c <= 'z'
    ||| c == '-'
    ||| c == '.'
    ||| c == '_'
    ||| c == '~'
    ||| c == '%'
}

/// `query` stands for `text`: it percent-decodes to the UTF-8 encoding of `text`.
pub open spec fn is_query_of(query: Seq<char>, text: Seq<char>) -> bool {
    &&& decoded(query) == vstd::utf8::encode_utf8(text)
    &&& forall|i: int| 0 <= i < query.len() ==> is_query_char(#[trigger] query[i])
}

/// Two transports are alike in every field.
pub open spec fn same_transport(a: Transport, b: Transport) -> bool {
    &&& a.kind@ == b.kind@
    &&& a.host@ == b.host@
    &&& a.port == b.port
}

/// Two lists of transports are alike, one by one.
pub open spec fn same_transports(a: Seq<Transport>, b: Seq<Transport>) -> bool {
    &&& a.len() == b.len()
    &&& forall|i: int| 0 <= i < a.len() ==> same_transport(#[trigger] a[i], b[i])
}

/// The mesh transports among the given ones, in their order.
pub open spec fn only_mesh(transports: Seq<LegacyTransport>) -> Seq<LegacyTransport> {
    transports.filter(|t: LegacyTransport| t is Mesh)
}

/// `mapped` are mesh transports with the hosts and ports of the mesh transports among
/// `transports`, in their order.
pub open spec fn are_mesh_of(mapped: Seq<Transport>, transports: Seq<LegacyTransport>) -> bool {
    &&& mapped.len() == only_mesh(transports).len()
    &&& forall|i: int|
        0 <= i < mapped.len() ==> {
            &&& (#[trigger] mapped[i]).kind@ == "mesh"@
            &&& mapped[i].host@ == only_mesh(transports)[i]->host@
            &&& mapped[i].port == only_mesh(transports)[i]->port
        }
}

/// `part` stands somewhere in `text`.
pub open spec fn is_within(part: Seq<char>, text: Seq<char>) -> bool {
    exists|before: Seq<char>, after: Seq<char>| text == #[trigger] (before + part + after)
}

} // verus!
