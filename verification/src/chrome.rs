//! The state of one browser session and the commands that go out for it.

use crate::devtools::JSResult;
use crate::json::{json_text, JSObject, JsonValue};
use crate::table::{
    binding_entries, bindings_get, bindings_insert, bindings_new, pending_clear, pending_entries,
    pending_insert, pending_new, pending_remove,
};
use dashmap::DashMap;
use vstd::prelude::*;

verus! {

/// An error from chrome in JSON format
#[derive(Debug)]
pub struct JSError(pub JSObject);

impl JSError {
    /// The JSON value of the error.
    pub fn source(self) -> (o: JSObject)
        ensures
            o == self.0,
    {
        self.0
    }

    /// The error as text: the JSON text of its value.
    pub fn message(&self) -> (text: String)
        ensures
            text@ == json_text(self.0@),
    {
        self.0.render()
    }
}

impl From<JSObject> for JSError {
    fn from(o: JSObject) -> (e: JSError) {
        JSError(o)
    }
}

impl vstd::std_specs::convert::FromSpecImpl<JSObject> for JSError {
    open spec fn obeys_from_spec() -> bool {
        true
    }

    open spec fn from_spec(o: JSObject) -> JSError {
        JSError(o)
    }
}

/// Drops the value of a successful result and keeps the error of a failed
/// one.
pub fn to_result_of_jserror(r: JSResult) -> (out: Result<(), JSError>)
    ensures
        r is Ok ==> out is Ok,
        r is Err ==> out is Err && out->Err_0.0 == r->Err_0,
{
    match r {
        Ok(_) => Ok(()),
        Err(e) => Err(JSError::from(e)),
    }
}

/// The first command id that a session issues for its own commands: the two
/// commands of the handshake went out as 0 and 1, and the counter starts at 2.
pub const FIRST_COUNTER: i32 = 2;

/// A command on its way out: the id it was given and the frame to write.
#[derive(Debug)]
pub struct Outbound {
    pub id: i32,
    pub frame: String,
}

/// A command of the protocol, as it stands on the wire.
pub open spec fn command_value(id: int, method: Seq<char>, params: JsonValue) -> JsonValue {
    JsonValue::object3(
        "id"@,
        JsonValue::integer(id),
        "method"@,
        JsonValue::String(method),
        "params"@,
        params,
    )
}

/// A command for the attached target: the command itself, as text, inside a
/// `Target.sendMessageToTarget` with the same id and the session's id.
pub open spec fn tunneled(
    id: int,
    method: Seq<char>,
    params: JsonValue,
    session: Seq<char>,
) -> JsonValue {
    command_value(
        id,
        "Target.sendMessageToTarget"@,
        JsonValue::object2(
            "message"@,
            JsonValue::String(json_text(command_value(id, method, params))),
            "sessionId"@,
            JsonValue::String(session),
        ),
    )
}

/// The text of a command that is not tunneled.
pub fn command_frame(id: i32, method: &str, params: JSObject) -> (frame: String)
    ensures
        frame@ == json_text(command_value(id as int, method@, params@)),
{
    JSObject::object3(
        "id",
        JSObject::integer(id as i64),
        "method",
        JSObject::string(method),
        "params",
        params,
    ).render()
}

/// The text of a command for the target that `session` is attached to.
pub fn tunneled_frame(id: i32, method: &str, params: &JSObject, session: &str) -> (frame: String)
    ensures
        frame@ == json_text(tunneled(id as int, method@, params@, session@)),
{
    let inner = command_frame(id, method, params.clone());
    command_frame(
        id,
        "Target.sendMessageToTarget",
        JSObject::object2(
            "message",
            JSObject::String(inner),
            "sessionId",
            JSObject::string(session),
        ),
    )
}

/// One browser session, once it is attached to its target.
#[derive(Debug)]
pub struct Chrome {
    id: i32,
    target: String,
    session: String,
    window: i32,
    pending: DashMap<i32, u64>,
    bindings: DashMap<String, u64>,
}

impl Chrome {
    /// The id of the command that was issued last.
    pub closed spec fn counter(&self) -> int {
        self.id as int
    }

    /// The id of the target that the session drives.
    pub closed spec fn target(&self) -> Seq<char> {
        self.target@
    }

    /// The id of the debugging session.
    pub closed spec fn session(&self) -> Seq<char> {
        self.session@
    }

    /// The id of the browser window, 0 until it is known.
    pub closed spec fn window(&self) -> int {
        self.window as int
    }

    /// The requests that wait for their response: command id and waiter.
    pub closed spec fn pending(&self) -> Map<i32, u64> {
        pending_entries(self.pending)
    }

    /// The bound names, each with the handle of its host function.
    pub closed spec fn bindings(&self) -> Map<Seq<char>, u64> {
        binding_entries(self.bindings)
    }

    /// Every request that waits was issued by this session: its id lies
    /// above the ids of the handshake and not above the counter. Both ids
    /// of the session are set.
    #[verifier::type_invariant]
    spec fn inv(&self) -> bool {
        &&& FIRST_COUNTER <= self.id
        &&& self.target@.len() > 0
        &&& self.session@.len() > 0
        &&& forall|k: i32| #[trigger]
            pending_entries(self.pending).contains_key(k) ==> FIRST_COUNTER < k <= self.id
    }

    /// A session attached to `target` under the session id `session`, with
    /// no request waiting and no name bound. `None` where one of the two ids
    /// is empty.
    pub fn new(target: &str, session: &str) -> (c: Option<Chrome>)
        ensures
            c is None <==> target@.len() == 0 || session@.len() == 0,
            c matches Some(c) ==> {
                &&& c.counter() == FIRST_COUNTER
                &&& c.target() == target@
                &&& c.session() == session@
                &&& c.window() == 0
                &&& c.pending() == Map::<i32, u64>::empty()
                &&& c.bindings() == Map::<Seq<char>, u64>::empty()
            },
    {
        if target.is_empty() || session.is_empty() {
            return None;
        }
        Some(
            Chrome {
                id: FIRST_COUNTER,
                target: String::from_str(target),
                session: String::from_str(session),
                window: 0,
                pending: pending_new(),
                bindings: bindings_new(),
            },
        )
    }

    /// The id of the target, which is never empty.
    pub fn target_id(&self) -> (t: &str)
        ensures
            t@ == self.target(),
            t@.len() > 0,
    {
        proof {
            use_type_invariant(self);
        }
        self.target.as_str()
    }

    /// The id of the debugging session, which is never empty.
    pub fn session_id(&self) -> (s: &str)
        ensures
            s@ == self.session(),
            s@.len() > 0,
    {
        proof {
            use_type_invariant(self);
        }
        self.session.as_str()
    }

    /// Whether everything but the counter and the waiting requests is the
    /// same in `self` and `before`.
    pub open spec fn same_identity(&self, before: &Chrome) -> bool {
        &&& self.target() == before.target()
        &&& self.session() == before.session()
        &&& self.window() == before.window()
        &&& self.bindings() == before.bindings()
    }

    /// Takes the next command id. The ids of a session rise by one from
    /// command to command and none is issued twice: when the counter has
    /// reached the largest id there is, no further id is issued.
    pub fn next_id(&mut self) -> (id: Option<i32>)
        ensures
            id is None <==> old(self).counter() == i32::MAX,
            id is None ==> final(self).counter() == old(self).counter(),
            id matches Some(n) ==> n == old(self).counter() + 1 && final(self).counter() == n
                && !old(self).pending().contains_key(n),
            final(self).pending() == old(self).pending(),
            final(self).same_identity(old(self)),
    {
        proof {
            use_type_invariant(&*self);
        }
        if self.id == i32::MAX {
            return None;
        }
        let id = self.id + 1;
        self.id = id;
        Some(id)
    }

    /// Takes the next command id and registers `waiter` for its response.
    pub fn issue(&mut self, waiter: u64) -> (id: Option<i32>)
        ensures
            id is None <==> old(self).counter() == i32::MAX,
            id is None ==> final(self).counter() == old(self).counter() && final(self).pending()
                == old(self).pending(),
            id matches Some(n) ==> n == old(self).counter() + 1 && final(self).counter() == n
                && !old(self).pending().contains_key(n) && final(self).pending() == old(
                self,
            ).pending().insert(n, waiter),
            final(self).same_identity(old(self)),
    {
        proof {
            use_type_invariant(&*self);
        }
        if self.id == i32::MAX {
            return None;
        }
        let id = self.id + 1;
        self.id = id;
        pending_insert(&mut self.pending, id, waiter);
        Some(id)
    }

    /// Takes the waiter of the request `id` out of the table: the request
    /// waits no longer. `None` where no request with this id waits.
    pub fn settle(&mut self, id: i32) -> (waiter: Option<u64>)
        ensures
            waiter == (if old(self).pending().contains_key(id) {
                Some(old(self).pending()[id])
            } else {
                None
            }),
            final(self).pending() == old(self).pending().remove(id),
            final(self).counter() == old(self).counter(),
            final(self).same_identity(old(self)),
    {
        proof {
            use_type_invariant(&*self);
        }
        pending_remove(&mut self.pending, id)
    }

    /// Gives up every request that waits: once the read loop has ended no
    /// response will come, and nothing is left waiting.
    pub fn abandon(&mut self)
        ensures
            final(self).pending() == Map::<i32, u64>::empty(),
            final(self).counter() == old(self).counter(),
            final(self).same_identity(old(self)),
    {
        proof {
            use_type_invariant(&*self);
        }
        pending_clear(&mut self.pending);
    }

    /// Binds `name` to the host function `handle`, in place of what it was
    /// bound to before.
    pub fn register(&mut self, name: &str, handle: u64)
        ensures
            final(self).bindings() == old(self).bindings().insert(name@, handle),
            final(self).counter() == old(self).counter(),
            final(self).pending() == old(self).pending(),
            final(self).target() == old(self).target(),
            final(self).session() == old(self).session(),
            final(self).window() == old(self).window(),
    {
        proof {
            use_type_invariant(&*self);
        }
        bindings_insert(&mut self.bindings, String::from_str(name), handle);
    }

    /// The handle of the host function that `name` is bound to.
    pub fn binding(&self, name: &str) -> (handle: Option<u64>)
        ensures
            handle == (if self.bindings().contains_key(name@) {
                Some(self.bindings()[name@])
            } else {
                None
            }),
    {
        bindings_get(&self.bindings, name)
    }

    /// The id of the browser window, 0 until it is known.
    pub fn window_id(&self) -> (w: i32)
        ensures
            w == self.window(),
    {
        self.window
    }

    /// Records the id of the browser window.
    pub fn set_window(&mut self, window: i32)
        ensures
            final(self).window() == window,
            final(self).counter() == old(self).counter(),
            final(self).target() == old(self).target(),
            final(self).session() == old(self).session(),
            final(self).pending() == old(self).pending(),
            final(self).bindings() == old(self).bindings(),
    {
        proof {
            use_type_invariant(&*self);
        }
        self.window = window;
    }
}

} // verus!
