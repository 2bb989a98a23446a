//! Laws on what replies mean.

use crate::api_error::{
    api_error_text, error_detail, error_detail_text, error_message, format_api_error,
    message_path, server_message,
};
use crate::client::{client_failed, payload, refused, request_failed, CallFailure};
use crate::json::{member, parsed_json, value_model, walk, JsonModel};
use crate::laws::terms::is_decimal;
use crate::laws::text::lemma_decimal;
use crate::service::{TrpcData, TrpcResponse};
use crate::status::{status_reason, Status};
use crate::text::decimal_text;
use vstd::prelude::*;

verus! {

/// A status has a code of three digits, and every such code is one.
pub proof fn law_status_new(code: u16, r: Option<Status>)
    requires
        call_ensures(Status::new, (code,), r),
    ensures
        r is Some <==> 100 <= code <= 999,
{
}

/// A status has the code that it was made with.
pub proof fn law_status_code(code: u16, status: Status, r: u16)
    requires
        call_ensures(Status::new, (code,), Some(status)),
        call_ensures(Status::code, (&status,), r),
    ensures
        r == code,
{
}

/// A status grants the request where its code is between 200 and 299.
pub proof fn law_status_is_success(code: u16, status: Status, r: bool)
    requires
        call_ensures(Status::new, (code,), Some(status)),
        call_ensures(Status::is_success, (&status,), r),
    ensures
        r <==> 200 <= code <= 299,
{
}

/// `shown` is a status code in decimal, a space, and the words for it.
pub open spec fn is_shown_status(shown: Seq<char>, code: u16) -> bool {
    exists|digits: Seq<char>| #[trigger]
        is_decimal(digits, code as int) && shown == digits + " "@ + status_reason(code)
}

/// A status is shown by its code in decimal and the words for it.
pub proof fn law_status_text(code: u16, status: Status, r: String)
    requires
        call_ensures(Status::new, (code,), Some(status)),
        call_ensures(Status::text, (&status,), r),
    ensures
        is_shown_status(r@, code),
{
    lemma_shown_status(code);
}

proof fn lemma_shown_status(code: u16)
    ensures
        is_shown_status(decimal_text(code as nat) + " "@ + status_reason(code), code),
{
    lemma_decimal(code as nat);
    assert(is_decimal(decimal_text(code as nat), code as int));
}

/// `reply` is an object under whose "error" is an object under whose "json" is an
/// object whose "message" is the string `message`, which is not empty.
pub open spec fn holds_message(reply: JsonModel, message: Seq<char>) -> bool {
    &&& reply is Record
    &&& reply->Record_0.contains_key("error"@)
    &&& reply->Record_0["error"@] is Record
    &&& reply->Record_0["error"@]->Record_0.contains_key("json"@)
    &&& reply->Record_0["error"@]->Record_0["json"@] is Record
    &&& reply->Record_0["error"@]->Record_0["json"@]->Record_0.contains_key("message"@)
    &&& reply->Record_0["error"@]->Record_0["json"@]->Record_0["message"@] == JsonModel::Text(
        message,
    )
    &&& message.len() > 0
}

/// `detail` is what is said of an error reply that was read as `reply`: its message, or
/// else its body.
pub open spec fn is_detail(detail: Seq<char>, reply: Option<JsonModel>, body: Seq<char>) -> bool {
    if exists|message: Seq<char>| reply is Some && holds_message(reply->Some_0, message) {
        reply is Some && holds_message(reply->Some_0, detail)
    } else {
        detail == body
    }
}

proof fn lemma_walk(reply: JsonModel)
    ensures
        walk(reply, message_path()) == match member(reply, "error"@) {
            Some(error) => match member(error, "json"@) {
                Some(json) => member(json, "message"@),
                None => None,
            },
            None => None,
        },
{
    let path = message_path();
    reveal_with_fuel(walk, 4);
    assert(path.drop_first() =~= seq!["json"@, "message"@]);
    assert(path.drop_first().drop_first() =~= seq!["message"@]);
    assert(path.drop_first().drop_first().drop_first() =~= seq![]);
}

proof fn lemma_detail(reply: Option<JsonModel>, body: Seq<char>)
    ensures
        is_detail(error_detail_text(reply, body), reply, body),
{
    if let Some(value) = reply {
        lemma_walk(value);
        if let Some(message) = server_message(reply) {
            if message.len() > 0 {
                assert(holds_message(value, message));
            }
        }
    }
}

/// The value behind an optional reference.
pub open spec fn read_as(reply: Option<&serde_json::Value>) -> Option<JsonModel> {
    match reply {
        Some(value) => Some(value_model(*value)),
        None => None,
    }
}

/// Of an error reply its message is said, where it holds one that is not empty, and
/// else its body.
pub proof fn law_error_detail(reply: Option<&serde_json::Value>, body: &str, r: String)
    requires
        call_ensures(error_detail, (reply, body), r),
    ensures
        is_detail(r@, read_as(reply), body@),
{
    lemma_detail(read_as(reply), body@);
}

/// An error shows the status and what is said of the reply.
pub proof fn law_error_message(status: &str, detail: &str, r: String)
    requires
        call_ensures(error_message, (status, detail), r),
    ensures
        r@ == "ForgeGraph API error ("@ + status@ + "): "@ + detail@,
{
}

/// `text` is the error for a reply with the given code and body: it shows the code and
/// the words for it, and the message in the body, or else the body.
pub open spec fn is_api_error(text: Seq<char>, code: u16, body: Seq<char>) -> bool {
    exists|shown: Seq<char>, detail: Seq<char>|
        {
            &&& #[trigger] is_shown_status(shown, code)
            &&& #[trigger] is_detail(detail, parsed_json(body), body)
            &&& text == "ForgeGraph API error ("@ + shown + "): "@ + detail
        }
}

proof fn lemma_api_error(code: u16, body: Seq<char>)
    ensures
        is_api_error(api_error_text(code, body), code, body),
{
    let shown = decimal_text(code as nat) + " "@ + status_reason(code);
    let detail = error_detail_text(parsed_json(body), body);
    lemma_shown_status(code);
    lemma_detail(parsed_json(body), body);
    assert(is_shown_status(shown, code));
    assert(is_detail(detail, parsed_json(body), body));
}

/// An error reply is reported by its status and its message, or else its body.
pub proof fn law_format_api_error(code: u16, status: Status, body: &str, r: String)
    requires
        call_ensures(Status::new, (code,), Some(status)),
        call_ensures(format_api_error, (status, body), r),
    ensures
        is_api_error(r@, code, body@),
{
    lemma_api_error(code, body@);
}

/// A refused request is reported as its reply says, and a body that could not be read
/// counts as empty.
pub proof fn law_refused(code: u16, status: Status, body: Option<String>, r: String)
    requires
        call_ensures(Status::new, (code,), Some(status)),
        call_ensures(refused, (status, body), r),
    ensures
        match body {
            Some(text) => is_api_error(r@, code, text@),
            None => is_api_error(r@, code, seq![]),
        },
{
    match body {
        Some(text) => lemma_api_error(code, text@),
        None => lemma_api_error(code, seq![]),
    }
}

/// The answer of a reply is its payload, out of either envelope; a reply that could not
/// be parsed is reported with the reason.
pub proof fn law_payload<T>(
    parsed: Result<TrpcResponse<T>, String>,
    value: T,
    r: Result<T, String>,
)
    requires
        call_ensures(payload::<T>, (parsed,), r),
    ensures
        parsed matches Ok(response) ==> (response.result.data == TrpcData::Plain(value)
            || response.result.data == (TrpcData::Json { json: value })) ==> r is Ok && r->Ok_0
            == value,
        parsed matches Err(error) ==> r is Err && r->Err_0@
            == "Failed to parse ForgeGraph response: "@ + error@,
{
}

/// That no client could be had, and that no reply came, is reported with the reason.
pub proof fn law_failures_are_reported(error: &str, client: String, request: String)
    requires
        call_ensures(client_failed, (error,), client),
        call_ensures(request_failed, (error,), request),
    ensures
        client@ == "Failed to create HTTP client: "@ + error@,
        request@ == "ForgeGraph request failed: "@ + error@,
{
}

/// The error of a failed call is the one that it failed with.
pub proof fn law_into_error(failure: CallFailure, error: String, r: String)
    requires
        call_ensures(CallFailure::into_error, (failure,), r),
        failure == CallFailure::Rejected(error) || failure == CallFailure::Other(error),
    ensures
        r@ == error@,
{
}

} // verus!
