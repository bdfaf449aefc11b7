//! The chat-completion exchange: the request that is sent for a prompt and a
//! query, and the answer that a reply gives.

use vstd::prelude::*;
use vstd::string::StringExecFns;
use crate::credential::{CredentialError, RawCredential, credential_outcome, xai_api_key};

verus! {

/// Why a query produced no answer.
#[derive(Debug, Clone, Copy, PartialEq, Eq)]
pub enum QueryError {
    /// No credential could be had.
    Credential(CredentialError),
    /// The transport did not complete; its exit code, where it had one.
    TransportFailed(Option<i32>),
    /// The reply is not a chat-completion response.
    MalformedResponse,
    /// The reply's choices hold no text at all.
    EmptyAnswer,
}

/// What came back from the transport.
#[derive(Debug, Clone)]
pub enum Reply {
    /// The transport failed, with its exit code where it had one.
    Failed(Option<i32>),
    /// The transport completed, but its output is not a response.
    Malformed,
    /// The message content of each choice, in the reply's order.
    Choices(Vec<String>),
}

/// What is handed to the transport for one query.
#[derive(Debug, Clone)]
pub struct Request {
    /// The `Authorization` header line.
    pub auth_header: String,
    /// The JSON body.
    pub body: String,
}

/// The JSON string literal, quotes and escapes included, that serde_json
/// writes for `s`.
pub uninterp spec fn json_string_of(s: Seq<char>) -> Seq<char>;

/// Relies on serde_json's `Display` for `Value::String`: the compact JSON
/// text of a string value, which depends on the string alone.
#[verifier::external_body]
fn json_quote(s: &str) -> (r: String)
    ensures
        r@ == json_string_of(s@),
{
    serde_json::Value::String(s.to_owned()).to_string()
}

/// The compact JSON body of a request: the model, then a system message with
/// `prompt` and a user message with `query`.
pub open spec fn request_text(prompt: Seq<char>, query: Seq<char>) -> Seq<char> {
    "{\"model\":\"grok-2-latest\",\"messages\":[{\"role\":\"system\",\"content\":"@
        + json_string_of(prompt) + "},{\"role\":\"user\",\"content\":"@ + json_string_of(query)
        + "}]}"@
}

/// The `Authorization` header line for a credential.
pub open spec fn auth_header_text(key: Seq<char>) -> Seq<char> {
    "Authorization: Bearer "@ + key
}

/// The texts of `parts`, one after another, with nothing between them.
pub open spec fn joined(parts: Seq<String>) -> Seq<char>
    decreases parts.len(),
{
    if parts.len() == 0 {
        Seq::empty()
    } else {
        joined(parts.drop_last()) + parts.last()@
    }
}

/// The JSON body that asks the model about `query` under `prompt`.
pub fn request_body(prompt: &str, query: &str) -> (r: String)
    ensures
        r@ == request_text(prompt@, query@),
{
    let mut r = "{\"model\":\"grok-2-latest\",\"messages\":[{\"role\":\"system\",\"content\":".to_owned();
    let p = json_quote(prompt);
    r.append(p.as_str());
    r.append("},{\"role\":\"user\",\"content\":");
    let q = json_quote(query);
    r.append(q.as_str());
    r.append("}]}");
    r
}

/// The header line that carries `key`.
pub fn auth_header(key: &str) -> (r: String)
    ensures
        r@ == auth_header_text(key@),
{
    let mut r = "Authorization: Bearer ".to_owned();
    r.append(key);
    r
}

/// The request for `query` under `prompt`, or why the credential is lacking.
pub fn prepare_request(raw: RawCredential, prompt: &str, query: &str) -> (r: Result<
    Request,
    QueryError,
>)
    ensures
        match credential_outcome(raw) {
            Ok(k) => r is Ok && r->Ok_0.auth_header@ == auth_header_text(k) && r->Ok_0.body@
                == request_text(prompt@, query@),
            Err(e) => r is Err && r->Err_0 == QueryError::Credential(e),
        },
{
    let body = request_body(prompt, query);
    match xai_api_key(raw) {
        Ok(key) => Ok(Request { auth_header: auth_header(key.as_str()), body }),
        Err(e) => Err(QueryError::Credential(e)),
    }
}

/// The contents of all choices, concatenated in order.
pub fn concat_contents(contents: &Vec<String>) -> (r: String)
    ensures
        r@ == joined(contents@),
{
    let mut r = String::new();
    let n = contents.len();
    let mut i: usize = 0;
    while i < n
        invariant
            n == contents@.len(),
            0 <= i <= n,
            r@ == joined(contents@.subrange(0, i as int)),
        decreases n - i,
    {
        assert(contents@.subrange(0, i + 1).drop_last() =~= contents@.subrange(0, i as int));
        r.append(contents[i].as_str());
        i = i + 1;
    }
    assert(contents@.subrange(0, n as int) =~= contents@);
    r
}

/// The answer that `reply` gives, or why it gives none.
pub fn answer_from_reply(reply: Reply) -> (r: Result<String, QueryError>)
    ensures
        match reply {
            Reply::Failed(code) => r is Err && r->Err_0 == QueryError::TransportFailed(code),
            Reply::Malformed => r is Err && r->Err_0 == QueryError::MalformedResponse,
            Reply::Choices(cs) => if joined(cs@).len() == 0 {
                r is Err && r->Err_0 == QueryError::EmptyAnswer
            } else {
                r is Ok && r->Ok_0@ == joined(cs@)
            },
        },
{
    match reply {
        Reply::Failed(code) => Err(QueryError::TransportFailed(code)),
        Reply::Malformed => Err(QueryError::MalformedResponse),
        Reply::Choices(cs) => {
            let answer = concat_contents(&cs);
            if answer.as_str().is_empty() {
                Err(QueryError::EmptyAnswer)
            } else {
                Ok(answer)
            }
        },
    }
}

} // verus!
