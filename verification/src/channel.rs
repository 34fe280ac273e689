//! The channel's REST side: the configured identity, the request texts it
//! sends, and the interpretation of the response bodies it receives.

use vstd::prelude::*;
use vstd::string::StringExecFns;
use crate::errors::ChannelError;
use crate::json::is_json;
use crate::textfmt::{json_escape, json_escaped};

verus! {

/// The body of the credential-exchange request for the given identity.
pub open spec fn token_request_text(app_id: Seq<char>, secret: Seq<char>) -> Seq<char> {
    "{\"appId\":\""@ + json_escaped(app_id) + "\",\"clientSecret\":\""@ + json_escaped(secret)
        + "\"}"@
}

/// The body of an outbound message-send request.
pub open spec fn send_text(content: Seq<char>) -> Seq<char> {
    "{\"content\":\""@ + json_escaped(content) + "\"}"@
}

/// The configured identity of one gateway client: the application's id and
/// secret, and the REST base it talks to.
pub struct QQChannel {
    pub app_id: String,
    pub app_secret: String,
    pub api_base: String,
}

impl QQChannel {
    /// Sets the client up against the production REST base, or the sandbox
    /// one when asked.
    pub fn new(app_id: String, app_secret: String, sandbox: bool) -> (r: Self)
        ensures
            r.app_id == app_id,
            r.app_secret == app_secret,
            r.api_base@ == (if sandbox {
                "https://sandbox.api.sgroup.qq.com"@
            } else {
                "https://api.sgroup.qq.com"@
            }),
    {
        let api_base = if sandbox {
            String::from_str("https://sandbox.api.sgroup.qq.com")
        } else {
            String::from_str("https://api.sgroup.qq.com")
        };
        QQChannel { app_id, app_secret, api_base }
    }

    /// The absolute URL of one REST endpoint path.
    pub fn api_url(&self, endpoint: &str) -> (r: String)
        ensures
            r@ == self.api_base@ + endpoint@,
    {
        let mut u = self.api_base.clone();
        u.append(endpoint);
        u
    }

    /// The authorization header for a token: the transport's scheme prefix,
    /// then the token.
    pub fn auth_header(&self, token: &str) -> (r: String)
        ensures
            r@ == "QQBot "@ + token@,
    {
        let mut h = String::from_str("QQBot ");
        h.append(token);
        h
    }

    /// The credential-exchange request body carrying this identity.
    pub fn token_request_body(&self) -> (r: String)
        ensures
            r@ == token_request_text(self.app_id@, self.app_secret@),
    {
        let mut b = String::from_str("{\"appId\":\"");
        let e = json_escape(self.app_id.as_str());
        b.append(e.as_str());
        b.append("\",\"clientSecret\":\"");
        let e2 = json_escape(self.app_secret.as_str());
        b.append(e2.as_str());
        b.append("\"}");
        proof {
            assert(b@ =~= token_request_text(self.app_id@, self.app_secret@));
        }
        b
    }

    /// The per-recipient path an outbound message is posted to.
    pub fn message_path(&self, recipient: &str) -> (r: String)
        ensures
            r@ == "/channels/"@ + recipient@ + "/messages"@,
    {
        let mut p = String::from_str("/channels/");
        p.append(recipient);
        p.append("/messages");
        proof {
            assert(p@ =~= "/channels/"@ + recipient@ + "/messages"@);
        }
        p
    }

    /// The body of an outbound message-send request.
    pub fn send_body(&self, message: &str) -> (r: String)
        ensures
            r@ == send_text(message@),
    {
        let mut b = String::from_str("{\"content\":\"");
        let e = json_escape(message);
        b.append(e.as_str());
        b.append("\"}");
        proof {
            assert(b@ =~= send_text(message@));
        }
        b
    }

    /// The fixed tag of this channel implementation.
    pub fn name(&self) -> (r: &'static str)
        ensures
            r@ == "qq"@,
    {
        "qq"
    }
}

/// The `access_token` member of the document a response body denotes,
/// when it is a string.
pub uninterp spec fn token_member_of(s: Seq<char>) -> Option<Seq<char>>;

/// The `expires_in` member of the document a response body denotes, when
/// it is a string.
pub uninterp spec fn expiry_member_of(s: Seq<char>) -> Option<Seq<char>>;

/// The `url` member of the document a response body denotes, when it is a
/// string.
pub uninterp spec fn url_member_of(s: Seq<char>) -> Option<Seq<char>>;

/// Relies on serde_json::from_str::<Value>, which accepts exactly the
/// texts that parse as one JSON document, by the text alone, and on
/// Value::get / as_str, which yield the named member of the decoded
/// document when it is there as a string — so both extracted members are
/// functions of the body, stated through their names.
#[verifier::external_body]
fn read_token_members(body: &str) -> (r: Option<(String, String)>)
    ensures
        r is Some <==> (is_json(body@) && token_member_of(body@) is Some && expiry_member_of(
            body@,
        ) is Some),
        r matches Some(p) ==> (token_member_of(body@) == Some(p.0@) && expiry_member_of(body@)
            == Some(p.1@)),
{
    let v: serde_json::Value = match serde_json::from_str(body) {
        Ok(x) => x,
        Err(_) => return None,
    };
    let token = match v.get("access_token").and_then(serde_json::Value::as_str) {
        Some(x) => x.to_owned(),
        None => return None,
    };
    let expiry = match v.get("expires_in").and_then(serde_json::Value::as_str) {
        Some(x) => x.to_owned(),
        None => return None,
    };
    Some((token, expiry))
}

/// Relies on serde_json::from_str::<Value>, which accepts exactly the
/// texts that parse as one JSON document, by the text alone, and on
/// Value::get / as_str, which yield the `url` member of the decoded
/// document when it is there as a string — a function of the body, stated
/// through its name.
#[verifier::external_body]
fn read_url_member(body: &str) -> (r: Option<String>)
    ensures
        r is Some <==> (is_json(body@) && url_member_of(body@) is Some),
        r matches Some(u) ==> url_member_of(body@) == Some(u@),
{
    let v: serde_json::Value = match serde_json::from_str(body) {
        Ok(x) => x,
        Err(_) => return None,
    };
    v.get("url").and_then(serde_json::Value::as_str).map(str::to_owned)
}

/// Reads a credential-exchange response body: succeeds exactly when the
/// body is a JSON document carrying both the `access_token` and the
/// string-encoded `expires_in` members, and returns exactly those two
/// strings. Anything else is an authentication failure; the lifetime's
/// numeric reading, with its default, is the caller's step.
pub fn parse_token_response(body: &str) -> (r: Result<(String, String), ChannelError>)
    ensures
        r is Ok <==> (is_json(body@) && token_member_of(body@) is Some && expiry_member_of(
            body@,
        ) is Some),
        r matches Ok(p) ==> (token_member_of(body@) == Some(p.0@) && expiry_member_of(body@)
            == Some(p.1@)),
        r is Err ==> r == Err::<(String, String), ChannelError>(ChannelError::Auth),
{
    match read_token_members(body) {
        Some(p) => Ok(p),
        None => Err(ChannelError::Auth),
    }
}

/// Reads an endpoint-discovery response body: succeeds exactly when the
/// body is a JSON document carrying a string `url` member, and returns
/// exactly that member. A body that is not JSON, or one without the
/// member, is a protocol error.
pub fn parse_gateway_response(body: &str) -> (r: Result<String, ChannelError>)
    ensures
        r is Ok <==> (is_json(body@) && url_member_of(body@) is Some),
        r matches Ok(u) ==> url_member_of(body@) == Some(u@),
        r is Err ==> r == Err::<String, ChannelError>(ChannelError::Protocol),
{
    match read_url_member(body) {
        Some(u) => Ok(u),
        None => Err(ChannelError::Protocol),
    }
}

/// The boolean outcome of the liveness probe: true exactly when a
/// credential could be obtained (the probe was sent at all) and the
/// identity endpoint answered with a success status; every failure
/// collapses to false, never an error.
pub fn health_verdict(probe: Option<bool>) -> (r: bool)
    ensures
        r == (probe == Some(true)),
{
    match probe {
        Some(ok) => ok,
        None => false,
    }
}

} // verus!
