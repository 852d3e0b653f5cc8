//! Bringing a session up: the target is found, then a debugging session is
//! attached to it. Both steps read frames straight off the transport; only
//! then does the session exist.

use crate::chrome::{command_frame, command_value, Chrome, JSError, FIRST_COUNTER};
use crate::devtools::Fault;
use crate::json::{json_parse, json_text, JSObject, JsonValue};
use vstd::prelude::*;

verus! {

/// Why a session could not be brought up.
#[derive(Debug)]
pub enum HandshakeError {
    /// The browser refused to attach, with this error.
    Refused(JSError),
    /// A frame of the handshake cannot be read.
    Malformed(Fault),
    /// The browser named its target or its session by an empty id.
    EmptyId,
}

/// The mathematical value of a step of the handshake: the id that the step
/// was after, `None` where the frame does not hold it and the next frame is
/// to be read, or the error that ends the handshake.
pub enum Shaken {
    Found(Seq<char>),
    ReadOn,
    Refused(JsonValue),
    Malformed(Fault),
    EmptyId,
}

/// The mathematical value of what a step of the handshake returns.
pub open spec fn shaken_view(r: Result<Option<String>, HandshakeError>) -> Shaken {
    match r {
        Ok(Some(id)) => Shaken::Found(id@),
        Ok(None) => Shaken::ReadOn,
        Err(HandshakeError::Refused(e)) => Shaken::Refused(e.0@),
        Err(HandshakeError::Malformed(f)) => Shaken::Malformed(f),
        Err(HandshakeError::EmptyId) => Shaken::EmptyId,
    }
}

/// The command id of the first step of the handshake.
pub const DISCOVER_ID: i32 = 0;

/// The command id of the second step of the handshake.
pub const ATTACH_ID: i32 = 1;

/// The command that makes the browser announce its targets.
pub open spec fn discover_value() -> JsonValue {
    command_value(
        DISCOVER_ID as int,
        "Target.setDiscoverTargets"@,
        JsonValue::object1("discover"@, JsonValue::Bool(true)),
    )
}

/// The command that attaches a debugging session to `target`.
pub open spec fn attach_value(target: Seq<char>) -> JsonValue {
    command_value(
        ATTACH_ID as int,
        "Target.attachToTarget"@,
        JsonValue::object1("targetId"@, JsonValue::String(target)),
    )
}

/// The frame announces a new target that is a page.
pub open spec fn announces_page(frame: JsonValue) -> bool {
    &&& frame.get("method"@) == JsonValue::String("Target.targetCreated"@)
    &&& frame.get("params"@).get("targetInfo"@).get("type"@) == JsonValue::String("page"@)
}

/// What a frame tells the search for the target: the id of the page that
/// it announces, or to read on.
pub open spec fn found_target(frame: JsonValue) -> Shaken {
    if announces_page(frame) {
        match frame.get("params"@).get("targetInfo"@).get("targetId"@).as_str() {
            Some(id) => Shaken::Found(id),
            None => Shaken::Malformed(Fault::ExpectedString),
        }
    } else {
        Shaken::ReadOn
    }
}

/// What a frame tells the attaching: the session id where the frame
/// acknowledges the attach command, the error where it refuses it, or to
/// read on.
pub open spec fn started_session(frame: JsonValue) -> Shaken {
    if frame.get("id"@).as_i64() == Some(ATTACH_ID as i64) {
        if !frame.get("error"@).is_null() {
            Shaken::Refused(frame.get("error"@))
        } else {
            match frame.get("result"@).get("sessionId"@).as_str() {
                Some(id) => Shaken::Found(id),
                None => Shaken::Malformed(Fault::ExpectedString),
            }
        }
    } else {
        Shaken::ReadOn
    }
}

/// What the text of a frame tells a step of the handshake.
pub open spec fn shaken_text(pmsg: Seq<char>, attaching: bool) -> Shaken {
    match json_parse(pmsg) {
        None => Shaken::Malformed(Fault::InvalidJson),
        Some(frame) => if attaching {
            started_session(frame)
        } else {
            found_target(frame)
        },
    }
}

/// The frame that opens the handshake. No response to it is awaited: the
/// announcements of targets follow it.
pub fn discover_targets() -> (frame: String)
    ensures
        frame@ == json_text(discover_value()),
{
    command_frame(
        DISCOVER_ID,
        "Target.setDiscoverTargets",
        JSObject::object1("discover", JSObject::Bool(true)),
    )
}

/// Looks for the target in one frame.
pub fn find_target_in(frame: &JSObject) -> (r: Result<Option<String>, HandshakeError>)
    ensures
        shaken_view(r) == found_target(frame@),
{
    if frame.get("method").eq_str("Target.targetCreated") {
        let info = frame.get("params").get("targetInfo");
        if info.get("type").eq_str("page") {
            return match info.get("targetId").as_str() {
                Some(id) => Ok(Some(String::from_str(id))),
                None => Err(HandshakeError::Malformed(Fault::ExpectedString)),
            };
        }
    }
    Ok(None)
}

/// Looks for the target in the text of one frame: `Ok(Some(..))` with the
/// id of the first page that is announced, `Ok(None)` to read on.
pub fn find_target(pmsg: &str) -> (r: Result<Option<String>, HandshakeError>)
    ensures
        shaken_view(r) == shaken_text(pmsg@, false),
{
    match JSObject::parse(pmsg) {
        Some(frame) => find_target_in(&frame),
        None => Err(HandshakeError::Malformed(Fault::InvalidJson)),
    }
}

/// The frame that asks for a debugging session on `target`.
pub fn attach_to_target(target: &str) -> (frame: String)
    ensures
        frame@ == json_text(attach_value(target@)),
{
    command_frame(
        ATTACH_ID,
        "Target.attachToTarget",
        JSObject::object1("targetId", JSObject::string(target)),
    )
}

/// Looks for the acknowledgement of the attach command in one frame.
pub fn start_session_in(frame: &JSObject) -> (r: Result<Option<String>, HandshakeError>)
    ensures
        shaken_view(r) == started_session(frame@),
{
    if !frame.get("id").eq_i64(1) {
        return Ok(None);
    }
    let error = frame.get("error");
    if !error.is_null() {
        return Err(HandshakeError::Refused(JSError::from(error.clone())));
    }
    match frame.get("result").get("sessionId").as_str() {
        Some(id) => Ok(Some(String::from_str(id))),
        None => Err(HandshakeError::Malformed(Fault::ExpectedString)),
    }
}

/// Looks for the acknowledgement of the attach command in the text of one
/// frame: `Ok(Some(..))` with the session id, `Ok(None)` to read on, and
/// the error of the browser where it refuses to attach.
pub fn start_session(pmsg: &str) -> (r: Result<Option<String>, HandshakeError>)
    ensures
        shaken_view(r) == shaken_text(pmsg@, true),
{
    match JSObject::parse(pmsg) {
        Some(frame) => start_session_in(&frame),
        None => Err(HandshakeError::Malformed(Fault::InvalidJson)),
    }
}

/// Where the handshake stands.
#[derive(Debug)]
pub enum Handshake {
    /// The targets were asked for, and the announcement of a page is
    /// awaited.
    Discovering,
    /// A session on `target` was asked for, and the acknowledgement is
    /// awaited.
    Attaching { target: String },
}

/// What a frame does to the handshake.
#[derive(Debug)]
pub enum Shake {
    /// Nothing: the next frame is to be read.
    ReadOn(Handshake),
    /// `frame` is to be written, and then the next frame read.
    Write { frame: String, next: Handshake },
    /// The session is up.
    Ready(Chrome),
    /// The handshake has failed, and no session comes of it.
    Failed(HandshakeError),
}

/// `c` is a session as the handshake leaves it: attached to `target` under
/// `session`, with nothing waiting, nothing bound and no window known.
pub open spec fn is_new_session(c: Chrome, target: Seq<char>, session: Seq<char>) -> bool {
    &&& c.target() == target
    &&& c.session() == session
    &&& c.counter() == FIRST_COUNTER
    &&& c.window() == 0
    &&& c.pending() == Map::<i32, u64>::empty()
    &&& c.bindings() == Map::<Seq<char>, u64>::empty()
}

/// What a frame does to the search for the target: with the id of a page
/// the attach command goes out, an empty id ends the handshake.
pub open spec fn discovering_step(shake: Shake, frame: Shaken) -> bool {
    match frame {
        Shaken::Found(target) => if target.len() == 0 {
            shake matches Shake::Failed(HandshakeError::EmptyId)
        } else {
            &&& shake matches Shake::Write { frame, next: Handshake::Attaching { target: t } }
            &&& t@ == target
            &&& frame@ == json_text(attach_value(target))
        },
        Shaken::ReadOn => shake matches Shake::ReadOn(Handshake::Discovering),
        other => shake matches Shake::Failed(e) && shaken_view(Err(e)) == other,
    }
}

/// What a frame does to the attaching: with the session id the session is
/// up, an empty id ends the handshake, and so does a refusal.
pub open spec fn attaching_step(shake: Shake, target: Seq<char>, frame: Shaken) -> bool {
    match frame {
        Shaken::Found(session) => if target.len() == 0 || session.len() == 0 {
            shake matches Shake::Failed(HandshakeError::EmptyId)
        } else {
            shake matches Shake::Ready(c) && is_new_session(c, target, session)
        },
        Shaken::ReadOn => shake matches Shake::ReadOn(Handshake::Attaching { target: t }) && t@
            == target,
        other => shake matches Shake::Failed(e) && shaken_view(Err(e)) == other,
    }
}

impl Handshake {
    /// Opens the handshake: the frame that asks for the targets is to be
    /// written first.
    pub fn begin() -> (r: (String, Handshake))
        ensures
            r.0@ == json_text(discover_value()),
            r.1 is Discovering,
    {
        (discover_targets(), Handshake::Discovering)
    }

    /// Takes in the text of one frame that was read.
    pub fn step(self, pmsg: &str) -> (shake: Shake)
        ensures
            self is Discovering ==> discovering_step(shake, shaken_text(pmsg@, false)),
            self matches Handshake::Attaching { target } ==> attaching_step(
                shake,
                target@,
                shaken_text(pmsg@, true),
            ),
    {
        match self {
            Handshake::Discovering => match find_target(pmsg) {
                Ok(Some(target)) => {
                    if target.as_str().is_empty() {
                        Shake::Failed(HandshakeError::EmptyId)
                    } else {
                        let frame = attach_to_target(target.as_str());
                        Shake::Write { frame, next: Handshake::Attaching { target } }
                    }
                },
                Ok(None) => Shake::ReadOn(Handshake::Discovering),
                Err(e) => Shake::Failed(e),
            },
            Handshake::Attaching { target } => match start_session(pmsg) {
                Ok(Some(session)) => match Chrome::new(target.as_str(), session.as_str()) {
                    Some(c) => Shake::Ready(c),
                    None => Shake::Failed(HandshakeError::EmptyId),
                },
                Ok(None) => Shake::ReadOn(Handshake::Attaching { target }),
                Err(e) => Shake::Failed(e),
            },
        }
    }
}

} // verus!
