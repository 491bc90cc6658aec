use vstd::prelude::*;

use crate::error::{Error, TransportFailure};
use crate::records::{ErrorMessage, ErrorWrapper};

verus! {

/// The character of a decimal digit.
pub open spec fn digit_char(d: int) -> char {
    if d == 0 { '0' }
    else if d == 1 { '1' }
    else if d == 2 { '2' }
    else if d == 3 { '3' }
    else if d == 4 { '4' }
    else if d == 5 { '5' }
    else if d == 6 { '6' }
    else if d == 7 { '7' }
    else if d == 8 { '8' }
    else { '9' }
}

/// The three decimal digits of a status code between 100 and 999.
pub open spec fn status_digits(code: u16) -> Seq<char> {
    seq![
        digit_char(code as int / 100),
        digit_char((code as int / 10) % 10),
        digit_char(code as int % 10),
    ]
}

/// The reason phrase that the HTTP layer writes after a status code's digits:
/// the canonical phrase of a registered code, or its text for an unknown one.
pub uninterp spec fn reason_phrase(code: u16) -> Seq<char>;

/// The textual HTTP status, as the transport layer prints it: the three
/// digits, a space, and the reason phrase (`"404 Not Found"`).
pub open spec fn status_text(code: u16) -> Seq<char> {
    status_digits(code) + seq![' '] + reason_phrase(code)
}

/// Relies on reqwest's `StatusCode::from_u16`, which accepts exactly the codes
/// from 100 to 999, and on its `Display`, which writes the code's decimal
/// digits, a space and `canonical_reason()` (or its fallback text).
#[verifier::external_body]
fn status_code_text(code: u16) -> (r: String)
    requires
        100 <= code <= 999,
    ensures
        r@ == status_digits(code) + seq![' '] + reason_phrase(code),
{
    match reqwest::StatusCode::from_u16(code) {
        Ok(status) => status.to_string(),
        Err(_) => String::new(),
    }
}

/// Whether a reply with this status carries the success body: only `200 OK`
/// does; every other status is a failure reported by the service.
pub fn is_success_status(code: u16) -> (r: bool)
    ensures
        r == (code == 200),
{
    code == 200
}

/// The status string that a service error carries for this HTTP status.
pub fn status_string(code: u16) -> (r: String)
    requires
        100 <= code <= 999,
    ensures
        r@ == status_text(code),
{
    status_code_text(code)
}

/// The path of the listing of models.
pub const MODELS_ENDPOINT: &'static str = "models";

/// The path that completion requests go to.
pub const COMPLETIONS_ENDPOINT: &'static str = "completions";

/// The path that chat requests go to.
pub const CHAT_ENDPOINT: &'static str = "chat/completions";

/// The root that every endpoint's path is appended to, unless the client is
/// given another.
pub fn default_api_root() -> (r: String)
    ensures
        r@ == "https://api.openai.com/v1/"@,
{
    String::from_str("https://api.openai.com/v1/")
}

/// The address of an endpoint under a root: the two joined as they are.
pub fn endpoint_url(root: &str, endpoint: &str) -> (r: String)
    ensures
        r@ == root@ + endpoint@,
{
    let mut r = String::from_str(root);
    r.append(endpoint);
    r
}

/// The path of one model's record.
pub fn model_endpoint(id: &str) -> (r: String)
    ensures
        r@ == "models/"@ + id@,
{
    let mut r = String::from_str("models/");
    r.append(id);
    r
}

/// The value of the `Authorization` header that every request carries.
pub fn bearer_credential(token: &str) -> (r: String)
    ensures
        r@ == "Bearer "@ + token@,
{
    let mut r = String::from_str("Bearer ");
    r.append(token);
    r
}

/// A reply's body, decoded as the shape that its status calls for.
pub enum ReplyBody<T> {
    /// The body of a success reply.
    Value(T),
    /// The body of any other reply: the service's error envelope.
    Failure(ErrorWrapper),
}

/// The error surfaced for a failure reply: the service's message, with the
/// status string replaced by the HTTP status the reply came with, whatever
/// code the envelope held.
pub fn service_error(wrapper: ErrorWrapper, code: u16) -> (r: ErrorMessage)
    requires
        100 <= code <= 999,
    ensures
        r.message == wrapper.error.message,
        r@ == (wrapper.error.message@, status_text(code)),
{
    ErrorMessage { message: wrapper.error.message, status_code: status_string(code) }
}

/// The result of a call, from the status of its reply and what decoding the
/// body gave: a success body is the value; an error envelope becomes
/// [`Error::Api`] with the reply's status; a failure to send or decode is
/// [`Error::AsyncProtocol`], unchanged. The body must have been decoded as
/// the shape that [`is_success_status`] gives for the status.
pub fn settle<T>(code: u16, decoded: Result<ReplyBody<T>, TransportFailure>) -> (r: Result<T, Error>)
    requires
        100 <= code <= 999,
        decoded matches Ok(ReplyBody::Value(_)) ==> code == 200,
        decoded matches Ok(ReplyBody::Failure(_)) ==> code != 200,
    ensures
        match decoded {
            Ok(ReplyBody::Value(v)) => r == Ok::<T, Error>(v),
            Ok(ReplyBody::Failure(w)) => r matches Err(Error::Api(m)) && m@ == (
            w.error.message@,
            status_text(code),
            ),
            Err(e) => r matches Err(Error::AsyncProtocol(t)) && t == e,
        },
{
    match decoded {
        Ok(ReplyBody::Value(v)) => Ok(v),
        Ok(ReplyBody::Failure(w)) => Err(Error::Api(service_error(w, code))),
        Err(e) => Err(Error::AsyncProtocol(e)),
    }
}

} // verus!
