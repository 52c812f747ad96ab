//! The wire format of the completion service: the request that carries a
//! prompt and the answer that carries the completion.

use crate::error::{ErrorKind, ServiceError};
use crate::models::message::opt_view;
use crate::text::{decimal, decimal_digits};
use vstd::prelude::*;

verus! {

/// What the caller gets where the service's answer holds no text.
pub const FALLBACK_RESPONSE: &'static str = "Sorry, I couldn't process that request.";

/// The member of the service's answer that lists the parts of a completion.
pub const CONTENT_MEMBER: &'static str = "content";

/// The place in that list of the part that holds the text.
pub const CONTENT_PLACE: usize = 0;

/// The member of that part that is the text.
pub const TEXT_MEMBER: &'static str = "text";

/// The most tokens that a completion may have.
pub const MAX_TOKENS: u32 = 1024;

/// What `serde_json` writes for the text `s`: its JSON string literal,
/// quotes included, or nothing where it reports that it cannot write one.
pub uninterp spec fn json_quoted(s: Seq<char>) -> Option<Seq<char>>;

/// What `serde_json` finds in the JSON document `body` under the member
/// `list`, there at the place `place`, and there under the member `member`:
/// the text of the string that stands there, nothing where no string stands
/// there, or the parser's complaint where `body` is not a JSON document.
pub uninterp spec fn json_lookup(
    body: Seq<char>,
    list: Seq<char>,
    place: usize,
    member: Seq<char>,
) -> Result<Option<Seq<char>>, Seq<char>>;

/// Writes `s` as a JSON string literal.
///
/// Calls `serde_json::to_string` on a `str`. Whether it writes a literal, and
/// which, is a function of the text alone and is known here only by its name,
/// [`json_quoted`]. That every text can be written is not claimed.
#[verifier::external_body]
fn quote(s: &str) -> (r: Option<String>)
    ensures
        opt_view(r) == json_quoted(s@),
{
    serde_json::to_string(s).ok()
}

/// Reads the string that stands in the JSON document `body` under the
/// member `list`, there at the place `place`, and there under the member
/// `member`.
///
/// Parses `body` with `serde_json::from_str` into a `serde_json::Value` and
/// indexes it three times with `Value`'s `Index`, which gives `Value::Null`
/// wherever a step finds nothing; where the last step reaches a
/// `Value::String`, its text is handed out. A parse error is handed out as
/// the text that its `Display` gives. All of these are functions of their
/// arguments alone; the result is known here only by its name,
/// [`json_lookup`].
#[verifier::external_body]
fn lookup(body: &str, list: &str, place: usize, member: &str) -> (r: Result<
    Option<String>,
    String,
>)
    ensures
        match r {
            Ok(found) => json_lookup(body@, list@, place, member@) == Ok::<
                Option<Seq<char>>,
                Seq<char>,
            >(opt_view(found)),
            Err(e) => json_lookup(body@, list@, place, member@) == Err::<
                Option<Seq<char>>,
                Seq<char>,
            >(e@),
        },
{
    match serde_json::from_str::<serde_json::Value>(body) {
        Ok(v) => match &v[list][place][member] {
            serde_json::Value::String(t) => Ok(Some(t.clone())),
            _ => Ok(None),
        },
        Err(e) => Err(e.to_string()),
    }
}

/// The request that asks `model` for a completion of at most `max_tokens`
/// tokens, where `model` and `prompt` are JSON string literals already.
pub open spec fn request_text(model: Seq<char>, max_tokens: u32, prompt: Seq<char>) -> Seq<char> {
    "{\"model\":"@ + model + ",\"max_tokens\":"@ + decimal_digits(max_tokens as nat)
        + ",\"messages\":[{\"role\":\"user\",\"content\":"@ + prompt + "}]}"@
}

/// How the service's answer is read: the text that was found, the fallback
/// where none was found, and a `ProcessingError` with the parser's complaint
/// where the answer was not a JSON document.
pub open spec fn interpreted(found: Result<Option<Seq<char>>, Seq<char>>) -> Result<
    Seq<char>,
    Seq<char>,
> {
    match found {
        Ok(Some(t)) => Ok(t),
        Ok(None) => Ok(FALLBACK_RESPONSE@),
        Err(e) => Err(e),
    }
}

/// Puts the request together from the model and the prompt, both as JSON
/// string literals, and the limit on tokens.
pub fn assemble_request(model: &str, max_tokens: u32, prompt: &str) -> (r: String)
    ensures
        r@ == request_text(model@, max_tokens, prompt@),
{
    let mut r: String = String::from_str("{\"model\":");
    r.append(model);
    r.append(",\"max_tokens\":");
    r.append(decimal(max_tokens as u64).as_str());
    r.append(",\"messages\":[{\"role\":\"user\",\"content\":");
    r.append(prompt);
    r.append("}]}");
    r
}

/// The body of the request that asks `model` to complete `prompt` in at most
/// `max_tokens` tokens; nothing where one of the texts could not be written
/// as JSON.
pub fn request_body(model: &str, max_tokens: u32, prompt: &str) -> (r: Option<String>)
    ensures
        opt_view(r) == request_of(json_quoted(model@), max_tokens, json_quoted(prompt@)),
{
    compose_request(quote(model), max_tokens, quote(prompt))
}

/// The request that is made of what was written for the model and for the
/// prompt: the request text where both were written as JSON string
/// literals, and nothing where either was not.
pub open spec fn request_of(
    model: Option<Seq<char>>,
    max_tokens: u32,
    prompt: Option<Seq<char>>,
) -> Option<Seq<char>> {
    match (model, prompt) {
        (Some(m), Some(p)) => Some(request_text(m, max_tokens, p)),
        _ => None,
    }
}

/// Puts the request together from what was written for the model and for
/// the prompt, each a JSON string literal or nothing, and the limit on
/// tokens. Where either is missing there is no request.
pub fn compose_request(model: Option<String>, max_tokens: u32, prompt: Option<String>) -> (r:
    Option<String>)
    ensures
        opt_view(r) == request_of(opt_view(model), max_tokens, opt_view(prompt)),
{
    match model {
        None => None,
        Some(m) => match prompt {
            None => None,
            Some(p) => Some(assemble_request(m.as_str(), max_tokens, p.as_str())),
        },
    }
}

/// Reads what a lookup in the service's answer found: the completion, the
/// fallback where the answer holds no text, or a `ProcessingError` where the
/// answer was not a JSON document.
pub fn interpret(found: Result<Option<String>, String>) -> (r: Result<String, ServiceError>)
    ensures
        match (found, r) {
            (Ok(Some(t)), Ok(text)) => text == t,
            (Ok(None), Ok(text)) => text@ == FALLBACK_RESPONSE@,
            (Err(e), Err(error)) => error@.kind == ErrorKind::ProcessingError && error@.detail
                == e@,
            _ => false,
        },
{
    match found {
        Ok(Some(t)) => Ok(t),
        Ok(None) => Ok(String::from_str(FALLBACK_RESPONSE)),
        Err(e) => Err(ServiceError::ProcessingError(e)),
    }
}

/// The completion that the service's answer `body` carries.
pub fn read_response(body: &str) -> (r: Result<String, ServiceError>)
    ensures
        match r {
            Ok(text) => interpreted(json_lookup(body@, CONTENT_MEMBER@, CONTENT_PLACE, TEXT_MEMBER@)) == Ok::<
                Seq<char>,
                Seq<char>,
            >(text@),
            Err(error) => error@.kind == ErrorKind::ProcessingError && interpreted(
                json_lookup(body@, CONTENT_MEMBER@, CONTENT_PLACE, TEXT_MEMBER@),
            ) == Err::<Seq<char>, Seq<char>>(error@.detail),
        },
{
    interpret(lookup(body, CONTENT_MEMBER, CONTENT_PLACE, TEXT_MEMBER))
}

} // verus!
