//! The identity of the local node.
//!
//! A Splinter node reports its status as a JSON object; the member
//! `node_id` of that object is the node's name. The caller fetches the
//! status, this module reads the answer.

use serde_json::Value;
use vstd::prelude::*;
use vstd::string::*;

verus! {

/// What is added to the node's URL to ask for its status.
pub const STATUS_ROUTE: &'static str = "/status";

/// Name of the member of the status that holds the node's name.
pub const NODE_ID_MEMBER: &'static str = "node_id";

/// Start of the message for a status request that failed.
pub const REQUEST_FAILED: &'static str = "Failed to get set up request: ";

/// Start of the message for a status that is no JSON.
pub const BODY_NOT_PARSED: &'static str = "Failed to parse response body: ";

/// Message for a status without the member `node_id`.
pub const NODE_ID_ABSENT: &'static str = "Node status response did not contain a node ID.";

/// Message for a status whose member `node_id` is no string.
pub const NODE_ID_INVALID: &'static str = "Node status returned an invalid ID.";

/// Why the node's name could not be found; the text is meant for the
/// operator.
#[derive(Debug, Clone, PartialEq, Eq)]
pub struct GetNodeError(pub String);

/// A JSON value.
#[verifier::external_type_specification]
#[verifier::external_body]
pub struct ExValue(Value);

/// The members of a JSON object, by their names: the text of a member that
/// is a string, and `None` for a member of another kind. A value that is
/// no object has no members.
pub uninterp spec fn json_members(value: Value) -> Map<Seq<char>, Option<Seq<char>>>;

/// Looks the member `name` of `body` up with `serde_json::Value::get`, and
/// takes its text with `serde_json::Value::as_str`.
///
/// Trusted: the body is not verified. The contract says that the outcome is
/// what `json_members` holds under `name`: nothing for a missing member or
/// a body that is no object, `Some(None)` for a member that is no string.
#[verifier::external_body]
pub(crate) fn member_text(body: &Value, name: &str) -> (member: Option<Option<String>>)
    ensures
        member is None <==> !json_members(*body).contains_key(name@),
        member matches Some(Some(text)) ==> json_members(*body)[name@] == Some(text@),
        member matches Some(None) ==> json_members(*body)[name@] is None,
{
    match body.get(name) {
        Some(value) => Some(value.as_str().map(String::from)),
        None => None,
    }
}

/// How the request for the node's status went.
#[derive(Debug, PartialEq, Eq)]
pub enum StatusReply {
    /// No response came; the text says why.
    Failed(String),
    /// A response came, but its body is no JSON; the text says why.
    NotParsed(String),
    /// The body of the response.
    Body(Value),
}

/// The URL of the status of the node at `splinterd_url`.
pub fn status_uri(splinterd_url: &str) -> (uri: String)
    ensures
        uri@ == splinterd_url@ + STATUS_ROUTE@,
{
    String::from_str(splinterd_url).concat(STATUS_ROUTE)
}

/// The node's name according to one member of its status, or the message
/// of the error: `member` is `None` where the status has no such member,
/// and holds `None` where the member is no string.
pub open spec fn node_id_in(member: Option<Option<Seq<char>>>) -> Result<Seq<char>, Seq<char>> {
    match member {
        None => Err(NODE_ID_ABSENT@),
        Some(None) => Err(NODE_ID_INVALID@),
        Some(Some(text)) => Ok(text),
    }
}

/// The member `node_id` of the status `body`.
pub open spec fn node_id_member(body: Value) -> Option<Option<Seq<char>>> {
    if json_members(body).contains_key(NODE_ID_MEMBER@) {
        Some(json_members(body)[NODE_ID_MEMBER@])
    } else {
        None
    }
}

/// The node's name according to the reply to the status request, or the
/// message of the error.
pub open spec fn node_id_of(reply: StatusReply) -> Result<Seq<char>, Seq<char>> {
    match reply {
        StatusReply::Failed(reason) => Err(REQUEST_FAILED@ + reason@),
        StatusReply::NotParsed(reason) => Err(BODY_NOT_PARSED@ + reason@),
        StatusReply::Body(body) => node_id_in(node_id_member(body)),
    }
}

/// Reads the node's name from the member `node_id` of its status: see
/// `node_id_in`.
pub fn node_id_from_member(member: Option<Option<String>>) -> (result: Result<String, GetNodeError>)
    ensures
        match result {
            Ok(node_id) => member matches Some(Some(text)) && node_id@ == text@,
            Err(error) => match member {
                None => error.0@ == NODE_ID_ABSENT@,
                Some(None) => error.0@ == NODE_ID_INVALID@,
                Some(Some(_)) => false,
            },
        },
{
    match member {
        None => Err(GetNodeError(String::from_str(NODE_ID_ABSENT))),
        Some(None) => Err(GetNodeError(String::from_str(NODE_ID_INVALID))),
        Some(Some(text)) => Ok(text),
    }
}

/// Reads the name of the local node from the reply to the request for its
/// status, which goes to `status_uri`.
pub fn get_node_id(reply: StatusReply) -> (result: Result<String, GetNodeError>)
    ensures
        match result {
            Ok(node_id) => node_id_of(reply) == Ok::<Seq<char>, Seq<char>>(node_id@),
            Err(error) => node_id_of(reply) == Err::<Seq<char>, Seq<char>>(error.0@),
        },
{
    match reply {
        StatusReply::Failed(reason) => Err(
            GetNodeError(String::from_str(REQUEST_FAILED).concat(reason.as_str())),
        ),
        StatusReply::NotParsed(reason) => Err(
            GetNodeError(String::from_str(BODY_NOT_PARSED).concat(reason.as_str())),
        ),
        StatusReply::Body(body) => node_id_from_member(member_text(&body, NODE_ID_MEMBER)),
    }
}

} // verus!
