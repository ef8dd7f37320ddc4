//! The command dispatcher: maps a parsed subcommand to the path, method and
//! optional JSON body of the request to send.

use vstd::prelude::*;
use vstd::string::StringExecFns;

use crate::json::json_quote;
use crate::json::json_string_of;

verus! {

/// A parsed subcommand, consumed once to produce a request.
#[derive(Debug)]
pub enum Command {
    List,
    Create { body: String },
    Update { id: String, body: String, completed: bool },
    Delete { id: String },
}

/// The HTTP method of a request.
#[derive(Clone, Copy, Debug, PartialEq, Eq, Structural)]
pub enum HttpMethod {
    Get,
    Post,
    Patch,
    Delete,
}

/// The path of the todo collection, below the base URL.
pub open spec fn todos_path() -> Seq<char> {
    "v1/todos"@
}

/// The path of one todo, below the base URL.
pub open spec fn todo_item_path(id: Seq<char>) -> Seq<char> {
    "v1/todos/"@ + id
}

impl HttpMethod {
    /// The method's name on the wire.
    pub open spec fn spec_name(self) -> Seq<char> {
        match self {
            HttpMethod::Get => "GET"@,
            HttpMethod::Post => "POST"@,
            HttpMethod::Patch => "PATCH"@,
            HttpMethod::Delete => "DELETE"@,
        }
    }

    /// The method's name on the wire.
    pub fn as_str(&self) -> (r: &'static str)
        ensures
            r@ == self.spec_name(),
    {
        match self {
            HttpMethod::Get => "GET",
            HttpMethod::Post => "POST",
            HttpMethod::Patch => "PATCH",
            HttpMethod::Delete => "DELETE",
        }
    }
}

/// The fields a request body can carry: the todo text, and — for updates
/// only — the completed flag.
#[derive(Debug)]
pub struct TodoPayload {
    pub body: String,
    pub completed: Option<bool>,
}

impl TodoPayload {
    /// The compact JSON object that serializes this payload: a `body` field
    /// always, a `completed` field exactly when the flag is present.
    pub open spec fn spec_json(self) -> Seq<char> {
        match self.completed {
            None => "{\"body\":"@ + json_string_of(self.body@) + "}"@,
            Some(c) => "{\"body\":"@ + json_string_of(self.body@) + ",\"completed\":"@ + (
            if c {
                "true"@
            } else {
                "false"@
            }) + "}"@,
        }
    }

    /// Serialize the payload as a compact JSON object.
    pub fn to_json(&self) -> (r: String)
        ensures
            r@ == self.spec_json(),
    {
        let mut s = String::from_str("{\"body\":");
        let quoted = json_quote(self.body.as_str());
        s.append(quoted.as_str());
        match self.completed {
            None => {},
            Some(c) => {
                s.append(",\"completed\":");
                if c {
                    s.append("true");
                } else {
                    s.append("false");
                }
            },
        }
        s.append("}");
        proof {
            assert(s@ =~= self.spec_json());
        }
        s
    }
}

/// What the dispatcher hands to the transport: a path below the base URL, a
/// method, and an optional body payload.
#[derive(Debug)]
pub struct RequestDescriptor {
    pub method: HttpMethod,
    pub path: String,
    pub payload: Option<TodoPayload>,
}

impl RequestDescriptor {
    /// The serialized request body, if the request has one.
    pub open spec fn spec_body(self) -> Option<Seq<char>> {
        match self.payload {
            None => None,
            Some(p) => Some(p.spec_json()),
        }
    }

    /// Whether this descriptor is the request that `cmd` asks for.
    pub open spec fn describes(self, cmd: Command) -> bool {
        match cmd {
            Command::List => {
                &&& self.method == HttpMethod::Get
                &&& self.path@ == todos_path()
                &&& self.payload is None
            },
            Command::Create { body } => {
                &&& self.method == HttpMethod::Post
                &&& self.path@ == todos_path()
                &&& self.payload matches Some(p) && p.body@ == body@ && p.completed is None
            },
            Command::Update { id, body, completed } => {
                &&& self.method == HttpMethod::Patch
                &&& self.path@ == todo_item_path(id@)
                &&& self.payload matches Some(p) && p.body@ == body@ && p.completed == Some(
                    completed,
                )
            },
            Command::Delete { id } => {
                &&& self.method == HttpMethod::Delete
                &&& self.path@ == todo_item_path(id@)
                &&& self.payload is None
            },
        }
    }

    /// Serialize the request body, if the request has one.
    pub fn body_json(&self) -> (r: Option<String>)
        ensures
            r is Some <==> self.payload is Some,
            r matches Some(s) ==> self.spec_body() == Some(s@),
    {
        match &self.payload {
            None => None,
            Some(p) => Some(p.to_json()),
        }
    }
}

/// Map a subcommand to the request it asks for:
/// List -> GET `v1/todos`; Create -> POST `v1/todos` with a body payload;
/// Update -> PATCH `v1/todos/{id}` with body and completed flag;
/// Delete -> DELETE `v1/todos/{id}`.
pub fn dispatch(cmd: Command) -> (r: RequestDescriptor)
    ensures
        r.describes(cmd),
{
    match cmd {
        Command::List => RequestDescriptor {
            method: HttpMethod::Get,
            path: String::from_str("v1/todos"),
            payload: None,
        },
        Command::Create { body } => RequestDescriptor {
            method: HttpMethod::Post,
            path: String::from_str("v1/todos"),
            payload: Some(TodoPayload { body, completed: None }),
        },
        Command::Update { id, body, completed } => RequestDescriptor {
            method: HttpMethod::Patch,
            path: String::from_str("v1/todos/").concat(id.as_str()),
            payload: Some(TodoPayload { body, completed: Some(completed) }),
        },
        Command::Delete { id } => RequestDescriptor {
            method: HttpMethod::Delete,
            path: String::from_str("v1/todos/").concat(id.as_str()),
            payload: None,
        },
    }
}

/// A sequence `needle` occurs somewhere inside `hay`.
pub open spec fn contains_seq(hay: Seq<char>, needle: Seq<char>) -> bool {
    exists|i: int|
        0 <= i && i + needle.len() <= hay.len() && #[trigger] hay.subrange(
            i,
            i + needle.len() as int,
        ) == needle
}

/// List and Create requests never carry a completed flag — their bodies hold
/// nothing but the todo text — while an Update request always carries both
/// the todo text and the completed flag, and its serialized body names the
/// `completed` field.
pub proof fn lemma_completed_field(cmd: Command, r: RequestDescriptor)
    requires
        r.describes(cmd),
    ensures
        cmd matches Command::List ==> r.spec_body() is None,
        cmd matches Command::Delete { .. } ==> r.spec_body() is None,
        cmd matches Command::Create { body } ==> r.spec_body() == Some(
            "{\"body\":"@ + json_string_of(body@) + "}"@,
        ),
        cmd matches Command::Update { id, body, completed } ==> (r.payload matches Some(p)
            && p.body@ == body@ && p.completed == Some(completed)),
        cmd matches Command::Update { .. } ==> (r.spec_body() matches Some(b) && contains_seq(
            b,
            ",\"completed\":"@,
        )),
{
    match cmd {
        Command::Update { id, body, completed } => {
            match r.payload {
                Some(p) => {
                    let hay = p.spec_json();
                    let needle = ",\"completed\":"@;
                    let at = ("{\"body\":"@).len() + json_string_of(p.body@).len();
                    assert(hay.subrange(at as int, at + needle.len() as int) =~= needle);
                    assert(contains_seq(hay, needle));
                },
                None => {},
            }
        },
        _ => {},
    }
}

} // verus!
