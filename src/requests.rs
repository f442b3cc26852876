//! What the transport layer hands over: the query of a message listing and
//! its pagination key.

use vstd::prelude::*;
use crate::storage::Client;
use crate::value::owned;

verus! {

/// Errors reported to the caller of the engine.
#[derive(Debug)]
pub enum EngineError {
    Manager(String),
    Interpreter(String),
}

#[derive(Debug)]
pub struct ConversationIdPath {
    pub conversation_id: String,
}

/// Query of a request that lists a client's messages.
#[derive(Debug)]
pub struct GetClientInfoQuery {
    pub user_id: String,
    pub bot_id: String,
    pub channel_id: String,
    pub limit: Option<i64>,
    pub pagination_key: Option<String>,
}

impl GetClientInfoQuery {
    /// The client that the query names.
    pub fn client(&self) -> (r: Client)
        ensures
            r.bot_id@ == self.bot_id@,
            r.channel_id@ == self.channel_id@,
            r.user_id@ == self.user_id@,
    {
        Client { bot_id: self.bot_id.clone(), channel_id: self.channel_id.clone(), user_id: self.user_id.clone() }
    }

    /// The pagination key of the query; an empty one counts as none.
    pub fn pagination(&self) -> (r: Option<String>)
        ensures
            match self.pagination_key {
                Some(k) => if k@.len() == 0 { r is None } else { r matches Some(x) && x@ == k@ },
                None => r is None,
            },
    {
        match &self.pagination_key {
            Some(k) => if k.as_str().unicode_len() == 0 {
                None
            } else {
                Some(k.clone())
            },
            None => None,
        }
    }
}

/// How many records a message listing fetches: one more than the page
/// asked for (a limit below 1 asks for the default page of 20), so that a
/// following page shows.
pub fn page_limit(limit: Option<i64>) -> (r: i64)
    requires
        limit matches Some(l) ==> l < i64::MAX,
    ensures
        match limit {
            Some(l) => r == if l >= 1 { l + 1 } else { 21 },
            None => r == 21,
        },
{
    match limit {
        Some(l) => if l >= 1 {
            l + 1
        } else {
            21
        },
        None => 21,
    }
}

/// The bytes that a text encodes in standard base64, or `None` where it is
/// not valid base64.
pub uninterp spec fn base64_decoded(s: Seq<char>) -> Option<Seq<u8>>;

/// The string that bytes hold as a JSON string, or `None` where they hold
/// no JSON string.
pub uninterp spec fn json_string(b: Seq<u8>) -> Option<Seq<char>>;

/// Relies on `base64::decode` (standard alphabet): the decoded bytes, or an
/// error; the outcome depends on the text alone.
#[verifier::external_body]
fn decode_base64(s: &str) -> (r: Option<Vec<u8>>)
    ensures
        match base64_decoded(s@) {
            Some(b) => r matches Some(v) && v@ == b,
            None => r is None,
        },
{
    base64::decode(s).ok()
}

/// Relies on `serde_json::from_slice::<String>`: the JSON string the bytes
/// hold, or an error; the outcome depends on the bytes alone.
#[verifier::external_body]
fn parse_json_string(b: &[u8]) -> (r: Option<String>)
    ensures
        match json_string(b@) {
            Some(s) => r matches Some(x) && x@ == s,
            None => r is None,
        },
{
    serde_json::from_slice::<String>(b).ok()
}

/// The page key that a pagination key stands for: the key is a JSON
/// string, base64-encoded.
pub fn get_pagination_key(pagination_key: Option<String>) -> (r: Result<Option<String>, EngineError>)
    ensures
        match pagination_key {
            None => r matches Ok(None),
            Some(k) => match base64_decoded(k@) {
                None => r matches Err(EngineError::Manager(m)) && m@ == "Invalid pagination_key"@,
                Some(b) => match json_string(b) {
                    None => r matches Err(EngineError::Manager(m)) && m@ == "Invalid pagination_key"@,
                    Some(s) => r matches Ok(Some(x)) && x@ == s,
                },
            },
        },
{
    match pagination_key {
        Some(key) => {
            let decoded = match decode_base64(key.as_str()) {
                Some(d) => d,
                None => return Err(EngineError::Manager(owned("Invalid pagination_key"))),
            };
            match parse_json_string(decoded.as_slice()) {
                Some(k) => Ok(Some(k)),
                None => Err(EngineError::Manager(owned("Invalid pagination_key"))),
            }
        },
        None => Ok(None),
    }
}

} // verus!
