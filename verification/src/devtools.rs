//! The DevTools protocol as the session speaks it: the frames that go out,
//! and what each frame that comes in means.

use crate::chrome::{tunneled, tunneled_frame, Chrome, Outbound};
use crate::json::{json_parse, json_text, JSObject, JsonValue};
use vstd::prelude::*;

verus! {

/// The result of a JS function.
///
/// The Err variant will be returned if
/// * There is an exception
/// * An error type is returned
pub type JSResult = Result<JSObject, JSObject>;

/// The mathematical value of a result.
pub open spec fn result_view(r: JSResult) -> Result<JsonValue, JsonValue> {
    match r {
        Ok(v) => Ok(v@),
        Err(e) => Err(e@),
    }
}

/// The message of a protocol error: `error.message`.
pub open spec fn error_message(res: JsonValue) -> JsonValue {
    res.get("error"@).get("message"@)
}

/// The value that the page threw: `result.exceptionDetails.exception.value`.
pub open spec fn exception_value(res: JsonValue) -> JsonValue {
    res.get("result"@).get("exceptionDetails"@).get("exception"@).get("value"@)
}

/// What the evaluation gave: `result.result`.
pub open spec fn remote_object(res: JsonValue) -> JsonValue {
    res.get("result"@).get("result"@)
}

/// The response reports a protocol error.
pub open spec fn has_error_message(res: JsonValue) -> bool {
    !error_message(res).is_null()
}

/// The response reports a thrown value.
pub open spec fn has_exception_value(res: JsonValue) -> bool {
    !exception_value(res).is_null()
}

/// The evaluation gave an object of the subtype `error`.
pub open spec fn is_error_object(res: JsonValue) -> bool {
    &&& remote_object(res).get("type"@) == JsonValue::String("object"@)
    &&& remote_object(res).get("subtype"@) == JsonValue::String("error"@)
}

/// The evaluation gave a value with a type of its own.
pub open spec fn has_type(res: JsonValue) -> bool {
    !remote_object(res).get("type"@).is_null()
}

/// What a response means to the caller that waits for it. The conditions
/// are tried in this order, and the first that holds decides.
pub open spec fn rpc_result(res: JsonValue) -> Result<JsonValue, JsonValue> {
    if has_error_message(res) {
        Err(error_message(res))
    } else if has_exception_value(res) {
        Err(exception_value(res))
    } else if is_error_object(res) {
        Err(remote_object(res).get("description"@))
    } else if has_type(res) {
        Ok(remote_object(res).get("value"@))
    } else {
        Ok(res.get("result"@))
    }
}

/// Classification order: where a response meets several of the conditions
/// at once, the one listed first decides, whatever else the response holds.
pub proof fn lemma_classification_order(res: JsonValue)
    ensures
        has_error_message(res) ==> rpc_result(res) == Err::<JsonValue, JsonValue>(
            error_message(res),
        ),
        !has_error_message(res) && has_exception_value(res) ==> rpc_result(res) == Err::<
            JsonValue,
            JsonValue,
        >(exception_value(res)),
        !has_error_message(res) && !has_exception_value(res) && is_error_object(res)
            ==> rpc_result(res) == Err::<JsonValue, JsonValue>(
            remote_object(res).get("description"@),
        ),
        !has_error_message(res) && !has_exception_value(res) && !is_error_object(res) && has_type(
            res,
        ) ==> rpc_result(res) == Ok::<JsonValue, JsonValue>(remote_object(res).get("value"@)),
        !has_error_message(res) && !has_exception_value(res) && !is_error_object(res) && !has_type(
            res,
        ) ==> rpc_result(res) == Ok::<JsonValue, JsonValue>(res.get("result"@)),
        is_error_object(res) ==> has_type(res),
{
}

/// Turns the response to a command into the result that its caller gets.
pub fn send_result(res: &JSObject) -> (r: JSResult)
    ensures
        result_view(r) == rpc_result(res@),
{
    let message = res.get("error").get("message");
    if !message.is_null() {
        return Err(message.clone());
    }
    let result = res.get("result");
    let thrown = result.get("exceptionDetails").get("exception").get("value");
    if !thrown.is_null() {
        return Err(thrown.clone());
    }
    let remote = result.get("result");
    let kind = remote.get("type");
    if kind.eq_str("object") && remote.get("subtype").eq_str("error") {
        Err(remote.get("description").clone())
    } else if !kind.is_null() {
        Ok(remote.get("value").clone())
    } else {
        Ok(result.clone())
    }
}

/// Submits a command and registers `waiter` for its response.
///
/// The command gets the next id of the session and goes out tunneled to
/// the attached target. `None` where the session has no id left; nothing
/// changes then.
pub fn send(c: &mut Chrome, method: &str, params: &JSObject, waiter: u64) -> (out: Option<
    Outbound,
>)
    ensures
        out is None <==> old(c).counter() == i32::MAX,
        out is None ==> final(c).counter() == old(c).counter() && final(c).pending() == old(
            c,
        ).pending(),
        out matches Some(o) ==> {
            &&& o.id == issued_id(old(c).counter())
            &&& final(c).counter() == o.id
            &&& !old(c).pending().contains_key(o.id)
            &&& final(c).pending() == old(c).pending().insert(o.id, waiter)
            &&& o.frame@ == json_text(tunneled(o.id as int, method@, params@, old(c).session()))
        },
        final(c).same_identity(old(c)),
{
    match c.issue(waiter) {
        None => None,
        Some(id) => Some(Outbound { id, frame: tunneled_frame(id, method, params, c.session_id()) }),
    }
}

/// Submits a command whose response nobody waits for.
///
/// The command gets the next id of the session and goes out like any
/// other, but no waiter is registered: its response will be dropped.
pub fn post(c: &mut Chrome, method: &str, params: &JSObject) -> (out: Option<Outbound>)
    ensures
        out is None <==> old(c).counter() == i32::MAX,
        out is None ==> final(c).counter() == old(c).counter(),
        out matches Some(o) ==> {
            &&& o.id == issued_id(old(c).counter())
            &&& final(c).counter() == o.id
            &&& !old(c).pending().contains_key(o.id)
            &&& o.frame@ == json_text(tunneled(o.id as int, method@, params@, old(c).session()))
        },
        final(c).pending() == old(c).pending(),
        final(c).same_identity(old(c)),
{
    match c.next_id() {
        None => None,
        Some(id) => Some(Outbound { id, frame: tunneled_frame(id, method, params, c.session_id()) }),
    }
}

/// What is wrong with a frame that cannot be routed.
#[derive(Debug, Clone, Copy, PartialEq, Eq, Structural)]
pub enum Fault {
    /// A text that should be JSON is not.
    InvalidJson,
    /// A member that should be a string is not.
    ExpectedString,
    /// A member that should be an integer is not.
    ExpectedI64,
}

/// What the read loop has to do about one frame.
#[derive(Debug)]
pub enum Dispatch {
    /// The transport is closed: the loop ends.
    Closed,
    /// The target of the session is gone: the browser is to be stopped and
    /// the loop ends.
    TargetDestroyed,
    /// Nothing to do.
    Skip,
    /// A console message or an exception of the page, to be shown.
    Log(JSObject),
    /// The page called a bound name: the host function `handle` is to be
    /// run, off the read loop.
    BindingCalled { handle: u64, name: String, payload: JSObject, context_id: i64 },
    /// The response to a pending request: `result` goes to `waiter`.
    Response { waiter: u64, result: JSResult },
    /// The frame cannot be read: the session is at fault and the loop ends.
    Fault(Fault),
}

/// The mathematical value of a `Dispatch`.
pub enum Routed {
    Closed,
    TargetDestroyed,
    Skip,
    Log(JsonValue),
    BindingCalled { handle: u64, name: Seq<char>, payload: JsonValue, context_id: i64 },
    Response { waiter: u64, result: Result<JsonValue, JsonValue> },
    Fault(Fault),
}

impl View for Dispatch {
    type V = Routed;

    open spec fn view(&self) -> Routed {
        match self {
            Dispatch::Closed => Routed::Closed,
            Dispatch::TargetDestroyed => Routed::TargetDestroyed,
            Dispatch::Skip => Routed::Skip,
            Dispatch::Log(m) => Routed::Log(m@),
            Dispatch::BindingCalled { handle, name, payload, context_id } => Routed::BindingCalled {
                handle: *handle,
                name: name@,
                payload: payload@,
                context_id: *context_id,
            },
            Dispatch::Response { waiter, result } => Routed::Response {
                waiter: *waiter,
                result: result_view(*result),
            },
            Dispatch::Fault(f) => Routed::Fault(*f),
        }
    }
}

/// A call of the bound name `name`: it goes to the host function that the
/// name is bound to, and is dropped where the name is not bound.
pub open spec fn routed_call(
    bindings: Map<Seq<char>, u64>,
    name: Seq<char>,
    payload: JsonValue,
    context_id: i64,
) -> Routed {
    if bindings.contains_key(name) {
        Routed::BindingCalled { handle: bindings[name], name, payload, context_id }
    } else {
        Routed::Skip
    }
}

/// A `Runtime.bindingCalled` event: its payload is read as JSON, then its
/// name and its execution context.
pub open spec fn routed_binding_event(res: JsonValue, bindings: Map<Seq<char>, u64>) -> Routed {
    let params = res.get("params"@);
    match params.get("payload"@).as_str() {
        None => Routed::Fault(Fault::ExpectedString),
        Some(text) => match json_parse(text) {
            None => Routed::Fault(Fault::InvalidJson),
            Some(payload) => match params.get("name"@).as_str() {
                None => Routed::Fault(Fault::ExpectedString),
                Some(name) => match params.get("executionContextId"@).as_i64() {
                    None => Routed::Fault(Fault::ExpectedI64),
                    Some(context_id) => routed_call(bindings, name, payload, context_id),
                },
            },
        },
    }
}

/// The message is a notification from the console or of an exception.
pub open spec fn is_notification(res: JsonValue) -> bool {
    &&& res.get("id"@).is_null()
    &&& (res.get("method"@) == JsonValue::String("Runtime.consoleAPICalled"@) || res.get(
        "method"@,
    ) == JsonValue::String("Runtime.exceptionThrown"@))
}

/// The message tells that the page called a bound name.
pub open spec fn is_binding_event(res: JsonValue) -> bool {
    &&& res.get("id"@).is_null()
    &&& res.get("method"@) == JsonValue::String("Runtime.bindingCalled"@)
}

/// The id of the request that the message answers, where it answers one
/// that waits.
pub open spec fn answered(res: JsonValue, pending: Map<i32, u64>) -> Option<i32> {
    match res.get("id"@).as_i64() {
        Some(id) => if i32::MIN <= id <= i32::MAX && pending.contains_key(id as i32) {
            Some(id as i32)
        } else {
            None
        },
        None => None,
    }
}

/// What a message from the attached target means.
pub open spec fn routed_message(
    res: JsonValue,
    pending: Map<i32, u64>,
    bindings: Map<Seq<char>, u64>,
) -> Routed {
    if is_notification(res) {
        Routed::Log(res)
    } else if is_binding_event(res) {
        routed_binding_event(res, bindings)
    } else {
        match answered(res, pending) {
            Some(id) => Routed::Response { waiter: pending[id], result: rpc_result(res) },
            None => Routed::Skip,
        }
    }
}

/// The requests that still wait once the message was routed: the one that
/// the message answers waits no longer.
pub open spec fn pending_after_message(res: JsonValue, pending: Map<i32, u64>) -> Map<i32, u64> {
    if is_notification(res) || is_binding_event(res) {
        pending
    } else {
        match answered(res, pending) {
            Some(id) => pending.remove(id),
            None => pending,
        }
    }
}

/// The message that a `Target.receivedMessageFromTarget` of this session
/// carries: `Err` with the fault where it carries none that can be read,
/// `Ok(None)` where the frame is no such message of this session.
pub open spec fn carried_message(frame: JsonValue, session: Seq<char>) -> Result<
    Option<JsonValue>,
    Fault,
> {
    let params = frame.get("params"@);
    if frame.get("method"@) != JsonValue::String("Target.receivedMessageFromTarget"@) {
        Ok(None)
    } else if params.get("sessionId"@) != JsonValue::String(session) {
        Ok(None)
    } else {
        match params.get("message"@).as_str() {
            None => Err(Fault::ExpectedString),
            Some(text) => match json_parse(text) {
                None => Err(Fault::InvalidJson),
                Some(res) => Ok(Some(res)),
            },
        }
    }
}

/// The frame tells that the target `target` was destroyed.
pub open spec fn is_target_destroyed(frame: JsonValue, target: Seq<char>) -> bool {
    &&& frame.get("method"@) == JsonValue::String("Target.targetDestroyed"@)
    &&& frame.get("params"@).get("targetId"@) == JsonValue::String(target)
}

/// What a frame from the browser means to the session.
pub open spec fn routed_frame(
    frame: JsonValue,
    target: Seq<char>,
    session: Seq<char>,
    pending: Map<i32, u64>,
    bindings: Map<Seq<char>, u64>,
) -> Routed {
    if frame.get("method"@) == JsonValue::String("Target.targetDestroyed"@) {
        if is_target_destroyed(frame, target) {
            Routed::TargetDestroyed
        } else {
            Routed::Skip
        }
    } else {
        match carried_message(frame, session) {
            Err(fault) => Routed::Fault(fault),
            Ok(None) => Routed::Skip,
            Ok(Some(res)) => routed_message(res, pending, bindings),
        }
    }
}

/// The requests that still wait once the frame was routed.
pub open spec fn pending_after_frame(
    frame: JsonValue,
    session: Seq<char>,
    pending: Map<i32, u64>,
) -> Map<i32, u64> {
    if frame.get("method"@) == JsonValue::String("Target.targetDestroyed"@) {
        pending
    } else {
        match carried_message(frame, session) {
            Ok(Some(res)) => pending_after_message(res, pending),
            _ => pending,
        }
    }
}

/// Routes a call of the bound name `name` from the page.
pub fn binding_called(c: &Chrome, name: &str, payload: JSObject, context_id: i64) -> (d: Dispatch)
    ensures
        d@ == routed_call(c.bindings(), name@, payload@, context_id),
{
    match c.binding(name) {
        Some(handle) => Dispatch::BindingCalled {
            handle,
            name: String::from_str(name),
            payload,
            context_id,
        },
        None => Dispatch::Skip,
    }
}

/// Routes a `Runtime.bindingCalled` event.
pub fn route_binding_event(c: &Chrome, res: &JSObject) -> (d: Dispatch)
    ensures
        d@ == routed_binding_event(res@, c.bindings()),
{
    let params = res.get("params");
    let text = match params.get("payload").as_str() {
        Some(text) => text,
        None => { return Dispatch::Fault(Fault::ExpectedString); },
    };
    let payload = match JSObject::parse(text) {
        Some(payload) => payload,
        None => { return Dispatch::Fault(Fault::InvalidJson); },
    };
    let name = match params.get("name").as_str() {
        Some(name) => name,
        None => { return Dispatch::Fault(Fault::ExpectedString); },
    };
    let context_id = match params.get("executionContextId").as_i64() {
        Some(context_id) => context_id,
        None => { return Dispatch::Fault(Fault::ExpectedI64); },
    };
    binding_called(c, name, payload, context_id)
}

/// Routes a message from the attached target: a notification is handed
/// out to be shown, a call of a bound name goes to its host function, and
/// a response goes to the waiter of its request, which then waits no
/// longer. Anything else is dropped, a response that nobody waits for too.
pub fn route_message(c: &mut Chrome, res: &JSObject) -> (d: Dispatch)
    ensures
        d@ == routed_message(res@, old(c).pending(), old(c).bindings()),
        final(c).pending() == pending_after_message(res@, old(c).pending()),
        final(c).counter() == old(c).counter(),
        final(c).same_identity(old(c)),
{
    let id = res.get("id");
    let method = res.get("method");
    if id.is_null() && (method.eq_str("Runtime.consoleAPICalled") || method.eq_str(
        "Runtime.exceptionThrown",
    )) {
        return Dispatch::Log(res.clone());
    }
    if id.is_null() && method.eq_str("Runtime.bindingCalled") {
        return route_binding_event(c, res);
    }
    match id.as_i64() {
        Some(n) => {
            if n < -0x8000_0000i64 || n > 0x7fff_ffffi64 {
                return Dispatch::Skip;
            }
            match c.settle(n as i32) {
                Some(waiter) => Dispatch::Response { waiter, result: send_result(res) },
                None => {
                    Dispatch::Skip
                },
            }
        },
        None => Dispatch::Skip,
    }
}

/// Routes one frame from the browser.
pub fn route(c: &mut Chrome, frame: &JSObject) -> (d: Dispatch)
    ensures
        d@ == routed_frame(
            frame@,
            old(c).target(),
            old(c).session(),
            old(c).pending(),
            old(c).bindings(),
        ),
        final(c).pending() == pending_after_frame(frame@, old(c).session(), old(c).pending()),
        final(c).counter() == old(c).counter(),
        final(c).same_identity(old(c)),
{
    let method = frame.get("method");
    let params = frame.get("params");
    if method.eq_str("Target.targetDestroyed") {
        if params.get("targetId").eq_str(c.target_id()) {
            return Dispatch::TargetDestroyed;
        }
        return Dispatch::Skip;
    }
    if !method.eq_str("Target.receivedMessageFromTarget") {
        return Dispatch::Skip;
    }
    if !params.get("sessionId").eq_str(c.session_id()) {
        return Dispatch::Skip;
    }
    let text = match params.get("message").as_str() {
        Some(text) => text,
        None => { return Dispatch::Fault(Fault::ExpectedString); },
    };
    match JSObject::parse(text) {
        Some(res) => route_message(c, &res),
        None => Dispatch::Fault(Fault::InvalidJson),
    }
}

/// The id that a command gets where the counter of its session stands at
/// `counter`: the next one. The command raises the counter to its id.
pub open spec fn issued_id(counter: int) -> int {
    counter + 1
}

/// Id uniqueness: commands of one session get distinct ids. `counters`
/// holds where the counter stood before each command, in the order in which
/// the commands were issued; each command raises it to its id, and nothing
/// lowers it.
pub proof fn lemma_ids_distinct(counters: Seq<int>, i: int, j: int)
    requires
        forall|k: int|
            0 <= k < counters.len() - 1 ==> counters[k + 1] >= issued_id(#[trigger] counters[k]),
        0 <= i < j < counters.len(),
    ensures
        issued_id(counters[i]) != issued_id(counters[j]),
        issued_id(counters[i]) < issued_id(counters[j]),
    decreases j - i,
{
    if j > i + 1 {
        lemma_ids_distinct(counters, i, j - 1);
    }
    assert(counters[j - 1 + 1] >= issued_id(counters[j - 1]));
}

/// A response goes to the waiter of its own request: where a request with
/// the id of the response waits, its waiter gets the result, and only this
/// request waits no longer.
pub proof fn lemma_response_finds_waiter(
    res: JsonValue,
    pending: Map<i32, u64>,
    bindings: Map<Seq<char>, u64>,
    id: i32,
)
    requires
        res.get("id"@).as_i64() == Some(id as i64),
        pending.contains_key(id),
    ensures
        routed_message(res, pending, bindings) == (Routed::Response {
            waiter: pending[id],
            result: rpc_result(res),
        }),
        pending_after_message(res, pending) == pending.remove(id),
{
}

/// Responses may come in any order: the response to one request leaves
/// every other request waiting, each with its own waiter.
pub proof fn lemma_responses_in_any_order(
    res: JsonValue,
    pending: Map<i32, u64>,
    bindings: Map<Seq<char>, u64>,
    id: i32,
    other: i32,
)
    requires
        res.get("id"@).as_i64() == Some(id as i64),
        pending.contains_key(other),
        other != id,
    ensures
        pending_after_message(res, pending).contains_key(other),
        pending_after_message(res, pending)[other] == pending[other],
{
}

/// A response that nobody waits for is dropped and changes nothing.
pub proof fn lemma_unawaited_response(
    res: JsonValue,
    pending: Map<i32, u64>,
    bindings: Map<Seq<char>, u64>,
    id: i32,
)
    requires
        res.get("id"@).as_i64() == Some(id as i64),
        !pending.contains_key(id),
    ensures
        routed_message(res, pending, bindings) == Routed::Skip,
        pending_after_message(res, pending) == pending,
{
}

/// What the text of a frame means to the session: an empty text tells that
/// the transport is closed, a text that is no JSON is a fault.
pub open spec fn routed_text(
    pmsg: Seq<char>,
    target: Seq<char>,
    session: Seq<char>,
    pending: Map<i32, u64>,
    bindings: Map<Seq<char>, u64>,
) -> Routed {
    if pmsg.len() == 0 {
        Routed::Closed
    } else {
        match json_parse(pmsg) {
            None => Routed::Fault(Fault::InvalidJson),
            Some(frame) => routed_frame(frame, target, session, pending, bindings),
        }
    }
}

/// The requests that still wait once the text of a frame was routed.
pub open spec fn pending_after_text(pmsg: Seq<char>, session: Seq<char>, pending: Map<i32, u64>) -> Map<
    i32,
    u64,
> {
    if pmsg.len() == 0 {
        pending
    } else {
        match json_parse(pmsg) {
            None => pending,
            Some(frame) => pending_after_frame(frame, session, pending),
        }
    }
}

/// One turn of the read loop: what is to be done about the frame `pmsg`.
///
/// The loop that reads the frames runs outside; it ends on `Closed`,
/// `TargetDestroyed` and `Fault`.
pub fn readloop(c: &mut Chrome, pmsg: &str) -> (d: Dispatch)
    ensures
        d@ == routed_text(
            pmsg@,
            old(c).target(),
            old(c).session(),
            old(c).pending(),
            old(c).bindings(),
        ),
        final(c).pending() == pending_after_text(pmsg@, old(c).session(), old(c).pending()),
        final(c).counter() == old(c).counter(),
        final(c).same_identity(old(c)),
{
    if pmsg.is_empty() {
        return Dispatch::Closed;
    }
    match JSObject::parse(pmsg) {
        Some(frame) => route(c, &frame),
        None => Dispatch::Fault(Fault::InvalidJson),
    }
}

} // verus!
