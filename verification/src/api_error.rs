//! What is said of a reply that does not grant the request.

use crate::json::{
    optional_model, parse, parsed_json, plain_name, pointer_text, text_of, walk, JsonModel,
};
use crate::status::{status_text, Status};
use vstd::prelude::*;
use vstd::string::*;

verus! {

/// Where an error reply puts its message.
pub open spec fn message_path() -> Seq<Seq<char>> {
    seq!["error"@, "json"@, "message"@]
}

/// The message in an error reply that was read as JSON, if it holds one.
pub open spec fn server_message(reply: Option<JsonModel>) -> Option<Seq<char>> {
    match reply {
        Some(value) => text_of(walk(value, message_path())),
        None => None,
    }
}

/// What is said of an error reply: its message, or else the body as it is.
pub open spec fn error_detail_text(reply: Option<JsonModel>, body: Seq<char>) -> Seq<char> {
    match server_message(reply) {
        Some(message) => if message.len() > 0 {
            message
        } else {
            body
        },
        None => body,
    }
}

/// An error, by a status as it is shown and what is said of the reply.
pub open spec fn error_text(status: Seq<char>, detail: Seq<char>) -> Seq<char> {
    "ForgeGraph API error ("@ + status + "): "@ + detail
}

/// The error that a reply with the given status and body stands for.
pub open spec fn api_error_text(code: u16, body: Seq<char>) -> Seq<char> {
    error_text(status_text(code), error_detail_text(parsed_json(body), body))
}

proof fn lemma_message_pointer()
    ensures
        pointer_text(message_path()) == "/error/json/message"@,
        forall|i: int| 0 <= i < message_path().len() ==> plain_name(#[trigger] message_path()[i]),
{
    reveal_strlit("error");
    reveal_strlit("json");
    reveal_strlit("message");
    reveal_strlit("/error/json/message");
    let path = message_path();
    assert(path.drop_first() =~= seq!["json"@, "message"@]);
    assert(path.drop_first().drop_first() =~= seq!["message"@]);
    assert(path.drop_first().drop_first().drop_first() =~= seq![]);
    assert(pointer_text(seq![]) =~= seq![]);
    assert(pointer_text(seq!["message"@]) =~= seq!['/'] + "message"@);
    assert(pointer_text(seq!["json"@, "message"@]) =~= seq!['/'] + "json"@ + (seq!['/']
        + "message"@));
    assert(pointer_text(path) =~= "/error/json/message"@);
}

/// What to say of an error reply, given what its body was read as.
pub fn error_detail(reply: Option<&serde_json::Value>, body: &str) -> (r: String)
    ensures
        r@ == error_detail_text(optional_model(reply), body@),
{
    proof {
        lemma_message_pointer();
    }
    match reply {
        Some(value) => match value.pointer("/error/json/message") {
            Some(found) => match found.as_str() {
                Some(message) => if message.is_empty() {
                    body.to_owned()
                } else {
                    message.to_owned()
                },
                None => body.to_owned(),
            },
            None => body.to_owned(),
        },
        None => body.to_owned(),
    }
}

/// An error, by a status as it is shown and what is said of the reply.
pub fn error_message(status: &str, detail: &str) -> (r: String)
    ensures
        r@ == error_text(status@, detail@),
{
    "ForgeGraph API error (".to_owned().concat(status).concat("): ").concat(detail)
}

/// The error for a reply that does not grant the request: the status, and the
/// message of the reply or else its body.
pub fn format_api_error(status: Status, body: &str) -> (r: String)
    ensures
        r@ == api_error_text(status@, body@),
{
    let reply = parse(body).ok();
    let detail = error_detail(reply.as_ref(), body);
    error_message(&status.text(), &detail)
}

/// An error reply that holds a message is reported by its status and that message,
/// whatever else its body holds.
pub proof fn law_error_shows_message(code: u16, body: Seq<char>, message: Seq<char>)
    requires
        server_message(parsed_json(body)) == Some(message),
        message.len() > 0,
    ensures
        api_error_text(code, body) == "ForgeGraph API error ("@ + status_text(code) + "): "@
            + message,
{
}

/// An error reply that holds no message is reported by its status and its body.
pub proof fn law_error_shows_body(code: u16, body: Seq<char>)
    requires
        server_message(parsed_json(body)) matches Some(message) ==> message.len() == 0,
    ensures
        api_error_text(code, body) == "ForgeGraph API error ("@ + status_text(code) + "): "@ + body,
{
}

} // verus!
