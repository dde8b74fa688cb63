//! What goes over the wire to each provider, and how its reply is read.
use crate::codec::{base64_of, encode_base64};
use crate::error::ProviderError;
use crate::provider::{ProviderDescriptor, ProviderKind};
use crate::codec::string_of;
use vstd::prelude::*;
use vstd::string::StringExecFns;

verus! {

/// One HTTP POST to a provider.
#[derive(Debug, PartialEq, Eq)]
pub struct SubmitRequest {
    pub url: String,
    /// Header names and values, in order.
    pub headers: Vec<(String, String)>,
    pub body: String,
}

/// The JSON-RPC `sendTransaction` body for a base64 transaction; Node1-style
/// relays also ask to skip preflight.
pub open spec fn send_body(content: Seq<char>, skip_preflight: bool) -> Seq<char> {
    "{\"id\":1,\"jsonrpc\":\"2.0\",\"method\":\"sendTransaction\",\"params\":[\""@ + content + (
    if skip_preflight {
        "\",{\"encoding\":\"base64\",\"skipPreflight\":true}]}"@
    } else {
        "\",{\"encoding\":\"base64\"}]}"@
    })
}

/// Where a provider's submission goes: Nozomi-style relays take the token as
/// a query parameter, the others at the bare endpoint.
pub open spec fn send_url(kind: ProviderKind, endpoint: Seq<char>, token: Seq<char>) -> Seq<char> {
    match kind {
        ProviderKind::Nozomi => endpoint + "/?c="@ + token,
        _ => endpoint,
    }
}

/// The headers of a provider's submission: Node1-style relays carry the
/// token as an `api-key` header.
pub open spec fn send_headers(kind: ProviderKind, token: Seq<char>) -> Seq<(Seq<char>, Seq<char>)> {
    match kind {
        ProviderKind::Node1 => seq![("Content-Type"@, "application/json"@), ("api-key"@, token)],
        _ => seq![("Content-Type"@, "application/json"@)],
    }
}

/// The values of a list of header pairs.
pub open spec fn header_views(h: Seq<(String, String)>) -> Seq<(Seq<char>, Seq<char>)> {
    h.map_values(|p: (String, String)| (p.0@, p.1@))
}

/// Builds the JSON-RPC `sendTransaction` body for `content`.
pub fn send_body_for(content: &str, skip_preflight: bool) -> (r: String)
    ensures
        r@ == send_body(content@, skip_preflight),
{
    let mut body = string_of("{\"id\":1,\"jsonrpc\":\"2.0\",\"method\":\"sendTransaction\",\"params\":[\"");
    body.append(content);
    if skip_preflight {
        body.append("\",{\"encoding\":\"base64\",\"skipPreflight\":true}]}");
    } else {
        body.append("\",{\"encoding\":\"base64\"}]}");
    }
    body
}

/// Builds the request that submits a serialized transaction to `provider`:
/// the transaction is sent base64-encoded, with the provider's own
/// authentication scheme.
pub fn submit_request(provider: &ProviderDescriptor, transaction: &[u8]) -> (r: SubmitRequest)
    requires
        transaction@.len() <= 0x1000_0000_0000,
    ensures
        r.url@ == send_url(provider.kind, provider.endpoint@, provider.auth_token@),
        header_views(r.headers@) == send_headers(provider.kind, provider.auth_token@),
        r.body@ == send_body(base64_of(transaction@), provider.kind == ProviderKind::Node1),
{
    let content = encode_base64(transaction);
    let node1 = matches!(provider.kind, ProviderKind::Node1);
    let body = send_body_for(content.as_str(), node1);
    let mut url = provider.endpoint.clone();
    if matches!(provider.kind, ProviderKind::Nozomi) {
        url.append("/?c=");
        url.append(provider.auth_token.as_str());
    }
    let mut headers: Vec<(String, String)> = Vec::new();
    headers.push((string_of("Content-Type"), string_of("application/json")));
    if node1 {
        headers.push((string_of("api-key"), provider.auth_token.clone()));
    }
    assert(header_views(headers@) =~= send_headers(provider.kind, provider.auth_token@));
    SubmitRequest { url, headers, body }
}

/// The health-check address of an endpoint: `ping` appended after one slash.
pub open spec fn ping_url_of(endpoint: Seq<char>) -> Seq<char> {
    if endpoint.len() > 0 && endpoint.last() == '/' {
        endpoint + "ping"@
    } else {
        endpoint + "/ping"@
    }
}

/// Builds the keep-alive ping address of an endpoint.
pub fn ping_url(endpoint: &str) -> (r: String)
    ensures
        r@ == ping_url_of(endpoint@),
{
    let n = endpoint.unicode_len();
    let mut url = string_of(endpoint);
    if n > 0 && endpoint.get_char(n - 1) == '/' {
        url.append("ping");
    } else {
        url.append("/ping");
    }
    url
}

/// Whether a reply text parses as JSON with a top-level field `key`; `None`
/// where it is not JSON.
pub uninterp spec fn json_field_present(text: Seq<char>, key: Seq<char>) -> Option<bool>;

/// Relies on serde_json's `from_str` into a `Value` and `Value::get`: whether
/// the text is JSON, and if so whether its top level holds `key`.
#[verifier::external_body]
fn has_json_field(text: &str, key: &str) -> (r: Option<bool>)
    ensures
        r == json_field_present(text@, key@),
{
    match serde_json::from_str::<serde_json::Value>(text) {
        Ok(v) => Some(v.get(key).is_some()),
        Err(_) => None,
    }
}

/// Reads a provider's reply given whether it holds a `result` field: with
/// one the transaction was accepted; otherwise (an `error` field, or no JSON
/// at all) the reply text becomes the submission error.
pub fn interpret_reply(result_present: Option<bool>, text: String) -> (r: Result<(), ProviderError>)
    ensures
        result_present == Some(true) ==> r is Ok,
        result_present != Some(true) ==> r == Err::<(), ProviderError>(ProviderError::Submission(text)),
{
    match result_present {
        Some(true) => Ok(()),
        _ => Err(ProviderError::Submission(text)),
    }
}

/// Reads a provider's reply to a submission.
pub fn classify_reply(text: String) -> (r: Result<(), ProviderError>)
    ensures
        json_field_present(text@, "result"@) == Some(true) ==> r is Ok,
        json_field_present(text@, "result"@) != Some(true) ==> (r matches Err(ProviderError::Submission(m)) && m@ == text@),
{
    let present = has_json_field(text.as_str(), "result");
    interpret_reply(present, text)
}

} // verus!
