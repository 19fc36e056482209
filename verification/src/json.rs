//! JSON documents as the library reads them (the Railway GraphQL reply and the
//! deployment webhook payload), with the member lookups that extract a service's
//! latest deployment status and a webhook's status.

use vstd::prelude::*;
use crate::calls::{parses_as_json, pretty_json, render_json};
use crate::text::same_text;

verus! {

/// A JSON value. Numbers are kept as the text they were written with; an object
/// keeps its members in order.
#[derive(Debug)]
pub enum JsonValue {
    Null,
    Bool(bool),
    Number(String),
    Str(String),
    Array(Vec<JsonValue>),
    Object(Vec<(String, JsonValue)>),
}

/// The value of the first member named `key` among `members`.
pub open spec fn first_member(members: Seq<(String, JsonValue)>, key: Seq<char>) -> Option<JsonValue>
    decreases members.len(),
{
    if members.len() == 0 {
        None
    } else if members[0].0@ == key {
        Some(members[0].1)
    } else {
        first_member(members.drop_first(), key)
    }
}

/// The member `key` of an object; `None` for a missing member or a non-object.
pub open spec fn member(v: JsonValue, key: Seq<char>) -> Option<JsonValue> {
    match v {
        JsonValue::Object(members) => first_member(members@, key),
        _ => None,
    }
}

/// The member `key` of a value that may be absent.
pub open spec fn member_of(v: Option<JsonValue>, key: Seq<char>) -> Option<JsonValue> {
    match v {
        Some(x) => member(x, key),
        None => None,
    }
}

/// The first element of an array that may be absent; `None` for an empty array
/// or a non-array.
pub open spec fn first_of(v: Option<JsonValue>) -> Option<JsonValue> {
    match v {
        Some(JsonValue::Array(items)) => if items@.len() > 0 {
            Some(items@[0])
        } else {
            None
        },
        _ => None,
    }
}

/// The text of a string value that may be absent; `None` for a non-string.
pub open spec fn text_of_value(v: Option<JsonValue>) -> Option<Seq<char>> {
    match v {
        Some(JsonValue::Str(s)) => Some(s@),
        _ => None,
    }
}

proof fn first_member_skip(members: Seq<(String, JsonValue)>, key: Seq<char>, i: int)
    requires
        0 <= i <= members.len(),
        forall|k: int| 0 <= k < i ==> members[k].0@ != key,
    ensures
        first_member(members, key) == first_member(members.skip(i), key),
    decreases i,
{
    if i > 0 {
        first_member_skip(members.drop_first(), key, i - 1);
        assert(members.drop_first().skip(i - 1) =~= members.skip(i));
    } else {
        assert(members.skip(0) =~= members);
    }
}

impl JsonValue {
    /// The member `key` of this value, as `serde_json::Value::get` with a key.
    pub fn get(&self, key: &str) -> (r: Option<&JsonValue>)
        ensures
            match r {
                Some(x) => member(*self, key@) == Some(*x),
                None => member(*self, key@) is None,
            },
    {
        match self {
            JsonValue::Object(members) => {
                let mut i: usize = 0;
                while i < members.len()
                    invariant
                        i <= members@.len(),
                        member(*self, key@) == first_member(members@, key@),
                        forall|k: int| 0 <= k < i ==> members@[k].0@ != key@,
                    decreases members.len() - i,
                {
                    if same_text(members[i].0.as_str(), key) {
                        proof {
                            first_member_skip(members@, key@, i as int);
                            assert(members@.skip(i as int)[0] == members@[i as int]);
                        }
                        return Some(&members[i].1);
                    }
                    i = i + 1;
                }
                proof {
                    first_member_skip(members@, key@, i as int);
                }
                None
            },
            _ => None,
        }
    }

    /// The first element of this value when it is a non-empty array.
    pub fn first(&self) -> (r: Option<&JsonValue>)
        ensures
            match r {
                Some(x) => first_of(Some(*self)) == Some(*x),
                None => first_of(Some(*self)) is None,
            },
    {
        match self {
            JsonValue::Array(items) => {
                if items.len() > 0 {
                    Some(&items[0])
                } else {
                    None
                }
            },
            _ => None,
        }
    }

    /// The text of this value when it is a string, as `serde_json::Value::as_str`.
    pub fn as_text(&self) -> (r: Option<&String>)
        ensures
            match r {
                Some(s) => text_of_value(Some(*self)) == Some(s@),
                None => text_of_value(Some(*self)) is None,
            },
    {
        match self {
            JsonValue::Str(s) => Some(s),
            _ => None,
        }
    }
}

/// The status of the latest deployment of the first service in the `data` of a
/// Railway `ServiceStatus` reply:
/// `services.edges[0].node.deployments.edges[0].node.status`.
pub open spec fn deployment_status_of(data: JsonValue) -> Option<Seq<char>> {
    let services = member(data, "services"@);
    let service = member_of(first_of(member_of(services, "edges"@)), "node"@);
    let deployments = member_of(service, "deployments"@);
    let deployment = member_of(first_of(member_of(deployments, "edges"@)), "node"@);
    text_of_value(member_of(deployment, "status"@))
}

/// Extracts the latest deployment status from the `data` of a Railway reply.
pub fn deployment_status(data: &JsonValue) -> (r: Option<String>)
    ensures
        match r {
            Some(s) => deployment_status_of(*data) == Some(s@),
            None => deployment_status_of(*data) is None,
        },
{
    let services = data.get("services")?;
    let edges = services.get("edges")?;
    let first_edge = edges.first()?;
    let node = first_edge.get("node")?;
    let deployments = node.get("deployments")?;
    let dep_edges = deployments.get("edges")?;
    let first_dep = dep_edges.first()?;
    let dep_node = first_dep.get("node")?;
    let status = dep_node.get("status")?;
    let text = status.as_text()?;
    Some(text.clone())
}

/// A GraphQL reply: its `data`, if any, and its `errors`.
#[derive(Debug)]
pub struct GraphqlReply {
    pub data: Option<JsonValue>,
    pub errors: Vec<JsonValue>,
}

/// What the Railway column shows for a GraphQL reply: `gql-error` when the reply
/// carries errors, else the latest deployment status, if the reply has one.
pub open spec fn railway_status_of(reply: GraphqlReply) -> Option<Seq<char>> {
    if reply.errors@.len() > 0 {
        Some("gql-error"@)
    } else {
        match reply.data {
            Some(d) => deployment_status_of(d),
            None => None,
        }
    }
}

/// Reads the Railway deployment status out of a GraphQL reply.
pub fn railway_status(reply: &GraphqlReply) -> (r: Option<String>)
    ensures
        match r {
            Some(s) => railway_status_of(*reply) == Some(s@),
            None => railway_status_of(*reply) is None,
        },
{
    if reply.errors.len() > 0 {
        return Some("gql-error".to_owned());
    }
    match &reply.data {
        Some(d) => deployment_status(d),
        None => None,
    }
}

/// The status line printed for a deployment webhook: present when the payload
/// has a `status` member, showing its text, or `unknown` when it is not a string.
pub open spec fn webhook_status_of(payload: JsonValue) -> Option<Seq<char>> {
    match member(payload, "status"@) {
        Some(v) => Some(
            match text_of_value(Some(v)) {
                Some(t) => t,
                None => "unknown"@,
            },
        ),
        None => None,
    }
}

/// Reads the status shown for a deployment webhook payload.
pub fn webhook_status(payload: &JsonValue) -> (r: Option<String>)
    ensures
        match r {
            Some(s) => webhook_status_of(*payload) == Some(s@),
            None => webhook_status_of(*payload) is None,
        },
{
    match payload.get("status") {
        Some(v) => match v.as_text() {
            Some(t) => Some(t.clone()),
            None => Some("unknown".to_owned()),
        },
        None => None,
    }
}

/// The echo of a deployment webhook body: serde_json's pretty rendering of the
/// payload; `None` when the body is not a JSON document (the request is refused).
pub fn webhook_echo(body: &str) -> (r: Option<String>)
    ensures
        r is Some == parses_as_json(body@),
        r matches Some(p) ==> p@ == pretty_json(body@),
{
    render_json(body)
}

} // verus!
