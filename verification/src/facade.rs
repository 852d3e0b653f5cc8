//! The operations of a session, each as the commands that go out for it
//! and as the reading of what comes back.
//!
//! An operation that takes several commands is a chain: each link takes the
//! reply to the command before and tells what comes next. The caller sends
//! the commands and hands back the replies.

use crate::bounds::{bounds_params, parsed_bounds, Bounds};
use crate::chrome::{to_result_of_jserror, Chrome, JSError};
use crate::devtools::{result_view, JSResult};
use crate::json::{items_view, json_text, str_eq, JSObject, JsonValue};
use vstd::prelude::*;
use vstd::string::*;

verus! {

/// A command of the protocol: its method and its parameters.
#[derive(Debug)]
pub struct Command {
    pub method: String,
    pub params: JSObject,
}

impl View for Command {
    type V = (Seq<char>, JsonValue);

    open spec fn view(&self) -> (Seq<char>, JsonValue) {
        (self.method@, self.params@)
    }
}

impl Command {
    /// The command `method` with the parameters `params`.
    pub fn new(method: &str, params: JSObject) -> (c: Command)
        ensures
            c@ == (method@, params@),
    {
        Command { method: String::from_str(method), params }
    }
}

/// What comes next in an operation of several commands.
#[derive(Debug)]
pub enum Next {
    /// This command is to be sent, and its reply handed to the next link.
    Send(Command),
    /// The operation is over, with this outcome.
    Done(Result<(), JSError>),
}

/// The mathematical value of a `Next`.
pub enum NextStep {
    Send((Seq<char>, JsonValue)),
    Done(Result<(), JsonValue>),
}

impl View for Next {
    type V = NextStep;

    open spec fn view(&self) -> NextStep {
        match self {
            Next::Send(c) => NextStep::Send(c@),
            Next::Done(Ok(_)) => NextStep::Done(Ok(())),
            Next::Done(Err(e)) => NextStep::Done(Err(e.0@)),
        }
    }
}

/// The link of a chain: an error ends the operation with that error, and
/// after a success `command` is sent.
pub open spec fn and_then(reply: Result<JsonValue, JsonValue>, command: (Seq<char>, JsonValue)) -> NextStep {
    match reply {
        Err(e) => NextStep::Done(Err(e)),
        Ok(_) => NextStep::Send(command),
    }
}

/// The links that are left of an operation once a command of it is out.
#[derive(Debug)]
pub enum Chain {
    /// None: the reply to the command is the outcome.
    Last,
    /// The script was added to new documents, and is to be evaluated.
    LoadJs { script: String },
    /// The frame tree was asked for; a style sheet is to be created, and
    /// its text set to `css`.
    CssSheet { css: String },
    /// The style sheet was created, and its text is to be set to `css`.
    CssText { css: String },
    /// The browser was told of the binding `name`; its script is to be
    /// added to new documents, and to be evaluated.
    BindInstall { name: String },
    /// The script of the binding `name` was added to new documents, and is
    /// to be evaluated.
    BindRun { name: String },
}

/// The mathematical value of a `Chain`.
pub enum Link {
    Last,
    LoadJs { script: Seq<char> },
    CssSheet { css: Seq<char> },
    CssText { css: Seq<char> },
    BindInstall { name: Seq<char> },
    BindRun { name: Seq<char> },
}

impl View for Chain {
    type V = Link;

    open spec fn view(&self) -> Link {
        match self {
            Chain::Last => Link::Last,
            Chain::LoadJs { script } => Link::LoadJs { script: script@ },
            Chain::CssSheet { css } => Link::CssSheet { css: css@ },
            Chain::CssText { css } => Link::CssText { css: css@ },
            Chain::BindInstall { name } => Link::BindInstall { name: name@ },
            Chain::BindRun { name } => Link::BindRun { name: name@ },
        }
    }
}

/// An operation as it begins: its first command, and the links that follow.
#[derive(Debug)]
pub struct Plan {
    pub first: Command,
    pub rest: Chain,
}

/// What a reply does to an operation.
#[derive(Debug)]
pub enum Step {
    /// This command is to be sent, and its reply taken in by the chain.
    Send(Command, Chain),
    /// The operation is over, with this outcome.
    Done(Result<(), JSError>),
}

/// The mathematical value of a `Step`.
pub enum Stepped {
    Send((Seq<char>, JsonValue), Link),
    Done(Result<(), JsonValue>),
}

impl View for Step {
    type V = Stepped;

    open spec fn view(&self) -> Stepped {
        match self {
            Step::Send(c, chain) => Stepped::Send(c@, chain@),
            Step::Done(Ok(_)) => Stepped::Done(Ok(())),
            Step::Done(Err(e)) => Stepped::Done(Err(e.0@)),
        }
    }
}

/// A link with what follows it.
pub open spec fn linked(next: NextStep, rest: Link) -> Stepped {
    match next {
        NextStep::Send(c) => Stepped::Send(c, rest),
        NextStep::Done(r) => Stepped::Done(r),
    }
}

/// The error of a reply that holds no string where one is due.
pub const NOT_A_STRING: &'static str = "Value not of string datatype";

/// The error of a reply that holds no bounds where they are due.
pub const NOT_BOUNDS: &'static str = "Value not of bounds datatype";

/// The error of a reply that holds no integer where one is due.
pub const NOT_AN_I64: &'static str = "Value not i64";

/// `Page.navigate` to `url`.
pub open spec fn navigate_command(url: Seq<char>) -> (Seq<char>, JsonValue) {
    ("Page.navigate"@, JsonValue::object1("url"@, JsonValue::String(url)))
}

/// `Runtime.evaluate` of `expr`, which waits for a promise to settle and
/// asks for the value itself.
pub open spec fn evaluate_command(expr: Seq<char>) -> (Seq<char>, JsonValue) {
    (
        "Runtime.evaluate"@,
        JsonValue::object3(
            "expression"@,
            JsonValue::String(expr),
            "awaitPromise"@,
            JsonValue::Bool(true),
            "returnByValue"@,
            JsonValue::Bool(true),
        ),
    )
}

/// `Browser.setWindowBounds` of the window `window`.
pub open spec fn set_bounds_command(window: int, b: Bounds) -> (Seq<char>, JsonValue) {
    (
        "Browser.setWindowBounds"@,
        JsonValue::object2("windowId"@, JsonValue::integer(window), "bounds"@, bounds_params(b)),
    )
}

/// `Browser.getWindowBounds` of the window `window`.
pub open spec fn get_bounds_command(window: int) -> (Seq<char>, JsonValue) {
    ("Browser.getWindowBounds"@, JsonValue::object1("windowId"@, JsonValue::integer(window)))
}

/// `Browser.getWindowForTarget` of `target`.
pub open spec fn window_for_target_command(target: Seq<char>) -> (Seq<char>, JsonValue) {
    ("Browser.getWindowForTarget"@, JsonValue::object1("targetId"@, JsonValue::String(target)))
}

/// `Page.addScriptToEvaluateOnNewDocument` with `script`.
pub open spec fn add_script_command(script: Seq<char>) -> (Seq<char>, JsonValue) {
    (
        "Page.addScriptToEvaluateOnNewDocument"@,
        JsonValue::object1("source"@, JsonValue::String(script)),
    )
}

/// `Runtime.addBinding` of `name`.
pub open spec fn add_binding_command(name: Seq<char>) -> (Seq<char>, JsonValue) {
    ("Runtime.addBinding"@, JsonValue::object1("name"@, JsonValue::String(name)))
}

/// `Page.getFrameTree` of `target`.
pub open spec fn frame_tree_command(target: Seq<char>) -> (Seq<char>, JsonValue) {
    ("Page.getFrameTree"@, JsonValue::object1("targetId"@, JsonValue::String(target)))
}

/// `CSS.createStyleSheet` in the frame `frame_id`.
pub open spec fn create_style_sheet_command(frame_id: Seq<char>) -> (Seq<char>, JsonValue) {
    ("CSS.createStyleSheet"@, JsonValue::object1("frameId"@, JsonValue::String(frame_id)))
}

/// `CSS.setStyleSheetText` of the sheet `sheet_id` to `css`.
pub open spec fn set_style_sheet_text_command(sheet_id: Seq<char>, css: Seq<char>) -> (
    Seq<char>,
    JsonValue,
) {
    (
        "CSS.setStyleSheetText"@,
        JsonValue::object2(
            "styleSheetId"@,
            JsonValue::String(sheet_id),
            "text"@,
            JsonValue::String(css),
        ),
    )
}

/// `Browser.close`.
pub open spec fn close_command() -> (Seq<char>, JsonValue) {
    ("Browser.close"@, JsonValue::Object(Seq::empty()))
}

/// Navigates the page to `url`.
pub fn load(url: &str) -> (plan: Plan)
    ensures
        plan.first@ == navigate_command(url@),
        plan.rest@ == Link::Last,
{
    Plan {
        first: Command::new("Page.navigate", JSObject::object1("url", JSObject::string(url))),
        rest: Chain::Last,
    }
}

/// Evaluates `expr` in the page. The reply is the result.
pub fn eval(expr: &str) -> (c: Command)
    ensures
        c@ == evaluate_command(expr@),
{
    Command::new(
        "Runtime.evaluate",
        JSObject::object3(
            "expression",
            JSObject::string(expr),
            "awaitPromise",
            JSObject::Bool(true),
            "returnByValue",
            JSObject::Bool(true),
        ),
    )
}

/// Changes size, position or state of the window `window`. With a state
/// other than `Normal` only the state is sent.
pub fn set_bounds(window: i32, b: Bounds) -> (plan: Plan)
    ensures
        plan.first@ == set_bounds_command(window as int, b),
        plan.rest@ == Link::Last,
{
    Plan {
        first: Command::new(
            "Browser.setWindowBounds",
            JSObject::object2(
                "windowId",
                JSObject::integer(window as i64),
                "bounds",
                b.to_params(),
            ),
        ),
        rest: Chain::Last,
    }
}

/// Asks for size, position and state of the window `window`. The reply is
/// read by `bounds_reply`.
pub fn bounds(window: i32) -> (c: Command)
    ensures
        c@ == get_bounds_command(window as int),
{
    Command::new(
        "Browser.getWindowBounds",
        JSObject::object1("windowId", JSObject::integer(window as i64)),
    )
}

/// What the reply to `bounds` tells: the error of a failed call, the bounds
/// that a successful one reports under `bounds`, and an error that names
/// the fault where it reports none.
pub open spec fn bounds_of_reply(reply: Result<JsonValue, JsonValue>) -> Result<Bounds, JsonValue> {
    match reply {
        Err(e) => Err(e),
        Ok(result) => match parsed_bounds(result.get("bounds"@)) {
            Some(b) => Ok(b),
            None => Err(JsonValue::String(NOT_BOUNDS@)),
        },
    }
}

/// The mathematical value of a result that holds bounds.
pub open spec fn bounds_result_view(r: Result<Bounds, JSObject>) -> Result<Bounds, JsonValue> {
    match r {
        Ok(b) => Ok(b),
        Err(e) => Err(e@),
    }
}

/// Reads the reply to `bounds`.
pub fn bounds_reply(reply: JSResult) -> (r: Result<Bounds, JSObject>)
    ensures
        bounds_result_view(r) == bounds_of_reply(result_view(reply)),
{
    match reply {
        Err(e) => Err(e),
        Ok(result) => match Bounds::from_json(result.get("bounds")) {
            Some(b) => Ok(b),
            None => Err(JSObject::string(NOT_BOUNDS)),
        },
    }
}

/// Asks for the window that shows `target`. The reply is read by
/// `window_reply`.
pub fn get_window_for_target(target: &str) -> (c: Command)
    ensures
        c@ == window_for_target_command(target@),
{
    Command::new(
        "Browser.getWindowForTarget",
        JSObject::object1("targetId", JSObject::string(target)),
    )
}

/// What the reply to `get_window_for_target` tells: the error of a failed
/// call, the window id that a successful one reports under `windowId`, and
/// an error that names the fault where it reports none of 32 bits.
pub open spec fn window_of_reply(reply: Result<JsonValue, JsonValue>) -> Result<i32, JsonValue> {
    match reply {
        Err(e) => Err(e),
        Ok(v) => match v.get("windowId"@).as_i64() {
            Some(n) => if i32::MIN <= n <= i32::MAX {
                Ok(n as i32)
            } else {
                Err(JsonValue::String(NOT_AN_I64@))
            },
            None => Err(JsonValue::String(NOT_AN_I64@)),
        },
    }
}

/// The mathematical value of a result that holds a window id.
pub open spec fn window_result_view(r: Result<i32, JSObject>) -> Result<i32, JsonValue> {
    match r {
        Ok(w) => Ok(w),
        Err(e) => Err(e@),
    }
}

/// Reads the reply to `get_window_for_target`.
pub fn window_reply(reply: JSResult) -> (r: Result<i32, JSObject>)
    ensures
        window_result_view(r) == window_of_reply(result_view(reply)),
{
    match reply {
        Err(e) => Err(e),
        Ok(v) => match v.get("windowId").as_i64() {
            Some(n) => if -0x8000_0000i64 <= n && n <= 0x7fff_ffffi64 {
                Ok(n as i32)
            } else {
                Err(JSObject::string(NOT_AN_I64))
            },
            None => Err(JSObject::string(NOT_AN_I64)),
        },
    }
}

/// Takes in the reply to `get_window_for_target`: the session keeps the
/// window that the reply names. Where it names none the session keeps what
/// it had, and the error is returned.
pub fn resolve_window(c: &mut Chrome, reply: JSResult) -> (r: Result<(), JSObject>)
    ensures
        match window_of_reply(result_view(reply)) {
            Ok(window) => r is Ok && final(c).window() == window,
            Err(e) => r is Err && r->Err_0@ == e && final(c).window() == old(c).window(),
        },
        final(c).counter() == old(c).counter(),
        final(c).target() == old(c).target(),
        final(c).session() == old(c).session(),
        final(c).pending() == old(c).pending(),
        final(c).bindings() == old(c).bindings(),
{
    match window_reply(reply) {
        Ok(window) => {
            c.set_window(window);
            Ok(())
        },
        Err(e) => Err(e),
    }
}

/// Asks the browser to close. No reply is awaited.
pub fn close() -> (c: Command)
    ensures
        c@ == close_command(),
{
    let c = Command::new("Browser.close", JSObject::object(Vec::new()));
    assert(c.params@->Object_0 =~= Seq::empty());
    c
}

/// The command that adds `script` to every new document.
pub fn add_script(script: &str) -> (c: Command)
    ensures
        c@ == add_script_command(script@),
{
    Command::new(
        "Page.addScriptToEvaluateOnNewDocument",
        JSObject::object1("source", JSObject::string(script)),
    )
}

/// Loads a script: it is added to every new document, and then evaluated
/// in the page that is there.
pub fn load_js(script: &str) -> (plan: Plan)
    ensures
        plan.first@ == add_script_command(script@),
        plan.rest@ == (Link::LoadJs { script: script@ }),
{
    Plan { first: add_script(script), rest: Chain::LoadJs { script: String::from_str(script) } }
}

/// The link after a script was added to new documents: it is evaluated in
/// the page that is there. The reply to that evaluation is the outcome.
pub fn load_js_next(script: &str, reply: JSResult) -> (n: Next)
    ensures
        n@ == and_then(result_view(reply), evaluate_command(script@)),
{
    match reply {
        Err(e) => Next::Done(Err(JSError::from(e))),
        Ok(_) => Next::Send(eval(script)),
    }
}

/// Loads a style sheet into the page of `target`: the frame tree is asked
/// for, a style sheet is created in its first frame, and the text of the
/// sheet is set to `css`.
pub fn load_css(target: &str, css: &str) -> (plan: Plan)
    ensures
        plan.first@ == frame_tree_command(target@),
        plan.rest@ == (Link::CssSheet { css: css@ }),
{
    Plan {
        first: Command::new(
            "Page.getFrameTree",
            JSObject::object1("targetId", JSObject::string(target)),
        ),
        rest: Chain::CssSheet { css: String::from_str(css) },
    }
}

/// What follows the frame tree: a style sheet is created in the frame that
/// the tree names first.
pub open spec fn css_sheet_step(reply: Result<JsonValue, JsonValue>) -> NextStep {
    match reply {
        Err(e) => NextStep::Done(Err(e)),
        Ok(tree) => match tree.get("frameTree"@).get("frame"@).get("id"@).as_str() {
            Some(frame_id) => NextStep::Send(create_style_sheet_command(frame_id)),
            None => NextStep::Done(Err(JsonValue::String(NOT_A_STRING@))),
        },
    }
}

/// The link after the frame tree was asked for.
pub fn load_css_sheet(reply: JSResult) -> (n: Next)
    ensures
        n@ == css_sheet_step(result_view(reply)),
{
    match reply {
        Err(e) => Next::Done(Err(JSError::from(e))),
        Ok(tree) => match tree.get("frameTree").get("frame").get("id").as_str() {
            Some(frame_id) => Next::Send(
                Command::new(
                    "CSS.createStyleSheet",
                    JSObject::object1("frameId", JSObject::string(frame_id)),
                ),
            ),
            None => Next::Done(Err(JSError::from(JSObject::string(NOT_A_STRING)))),
        },
    }
}

/// What follows the new style sheet: its text is set to `css`.
pub open spec fn css_text_step(css: Seq<char>, reply: Result<JsonValue, JsonValue>) -> NextStep {
    match reply {
        Err(e) => NextStep::Done(Err(e)),
        Ok(sheet) => match sheet.get("styleSheetId"@).as_str() {
            Some(sheet_id) => NextStep::Send(set_style_sheet_text_command(sheet_id, css)),
            None => NextStep::Done(Err(JsonValue::String(NOT_A_STRING@))),
        },
    }
}

/// The link after the style sheet was created. The reply to its command
/// is the outcome.
pub fn load_css_text(css: &str, reply: JSResult) -> (n: Next)
    ensures
        n@ == css_text_step(css@, result_view(reply)),
{
    match reply {
        Err(e) => Next::Done(Err(JSError::from(e))),
        Ok(sheet) => match sheet.get("styleSheetId").as_str() {
            Some(sheet_id) => Next::Send(
                Command::new(
                    "CSS.setStyleSheetText",
                    JSObject::object2(
                        "styleSheetId",
                        JSObject::string(sheet_id),
                        "text",
                        JSObject::string(css),
                    ),
                ),
            ),
            None => Next::Done(Err(JSError::from(JSObject::string(NOT_A_STRING)))),
        },
    }
}

/// The script that makes a bound name callable in the page, up to the name.
pub const BIND_HEAD: &'static str = "(()=>{\n        const bindingName = '";

/// The script that makes a bound name callable in the page, after the name.
pub const BIND_TAIL: &'static str = "';\n        const binding = window[bindingName];\n        window[bindingName] = async (...args) => {\n            const me = window[bindingName];\n            let errors = me['errors'];\n            let callbacks = me['callbacks'];\n            if (!callbacks) {\n                callbacks = new Map();\n                me['callbacks'] = callbacks;\n            }\n            if (!errors) {\n                errors = new Map();\n                me['errors'] = errors;\n            }\n            const seq = (me['lastSeq'] || 0) + 1;\n            me['lastSeq'] = seq;\n            const promise = new Promise((resolve, reject) => {\n                callbacks.set(seq, resolve);\n                errors.set(seq, reject);\n            });\n            binding(JSON.stringify({name: bindingName, seq, args}));\n            return promise;\n        }})();\n   ";

/// The script that makes `name` callable in the page: every call gets the
/// next sequence number of the name, hands name, number and arguments to
/// the host as JSON, and returns a promise that is kept under that number
/// until the host settles it.
pub open spec fn bind_script_text(name: Seq<char>) -> Seq<char> {
    BIND_HEAD@ + name + BIND_TAIL@
}

/// The script that makes `name` callable in the page.
pub fn bind_script(name: &str) -> (script: String)
    ensures
        script@ == bind_script_text(name@),
{
    let mut script = String::from_str(BIND_HEAD);
    script.append(name);
    script.append(BIND_TAIL);
    script
}

/// Binds `name` to the host function `handle`: the name is registered with
/// the session, in place of an earlier binding of it. The browser is told
/// of the binding, and the script that makes the name callable is added to
/// every new document, so that the name outlives a navigation, and
/// evaluated in the page that is there.
pub fn bind(c: &mut Chrome, name: &str, handle: u64) -> (plan: Plan)
    ensures
        plan.first@ == add_binding_command(name@),
        plan.rest@ == (Link::BindInstall { name: name@ }),
        final(c).bindings() == old(c).bindings().insert(name@, handle),
        final(c).counter() == old(c).counter(),
        final(c).pending() == old(c).pending(),
        final(c).target() == old(c).target(),
        final(c).session() == old(c).session(),
        final(c).window() == old(c).window(),
{
    c.register(name, handle);
    Plan {
        first: Command::new(
            "Runtime.addBinding",
            JSObject::object1("name", JSObject::string(name)),
        ),
        rest: Chain::BindInstall { name: String::from_str(name) },
    }
}

/// The link after the browser was told of a binding: the script is added
/// to every new document.
pub fn bind_install(name: &str, reply: JSResult) -> (n: Next)
    ensures
        n@ == and_then(result_view(reply), add_script_command(bind_script_text(name@))),
{
    match reply {
        Err(e) => Next::Done(Err(JSError::from(e))),
        Ok(_) => Next::Send(add_script(bind_script(name).as_str())),
    }
}

/// The link after the script of a binding was added to new documents: it
/// is evaluated in the page that is there. The reply to that evaluation is
/// the outcome.
pub fn bind_run(name: &str, reply: JSResult) -> (n: Next)
    ensures
        n@ == and_then(result_view(reply), evaluate_command(bind_script_text(name@))),
{
    match reply {
        Err(e) => Next::Done(Err(JSError::from(e))),
        Ok(_) => Next::Send(eval(bind_script(name).as_str())),
    }
}

/// What a reply does to an operation of which `link` is left: the first
/// error ends it, the reply to its last command is its outcome, and else
/// the next command goes out.
pub open spec fn advanced(link: Link, reply: Result<JsonValue, JsonValue>) -> Stepped {
    match link {
        Link::Last => Stepped::Done(
            match reply {
                Ok(_) => Ok(()),
                Err(e) => Err(e),
            },
        ),
        Link::LoadJs { script } => linked(and_then(reply, evaluate_command(script)), Link::Last),
        Link::CssSheet { css } => linked(css_sheet_step(reply), Link::CssText { css }),
        Link::CssText { css } => linked(css_text_step(css, reply), Link::Last),
        Link::BindInstall { name } => linked(
            and_then(reply, add_script_command(bind_script_text(name))),
            Link::BindRun { name },
        ),
        Link::BindRun { name } => linked(
            and_then(reply, evaluate_command(bind_script_text(name))),
            Link::Last,
        ),
    }
}

/// The number of commands that an operation may still send.
pub open spec fn links_left(link: Link) -> nat {
    match link {
        Link::Last => 0,
        Link::LoadJs { .. } => 1,
        Link::CssSheet { .. } => 2,
        Link::CssText { .. } => 1,
        Link::BindInstall { .. } => 2,
        Link::BindRun { .. } => 1,
    }
}

/// Every operation ends: each command that goes out leaves fewer to send,
/// and none goes out after the last.
pub proof fn lemma_chain_ends(link: Link, reply: Result<JsonValue, JsonValue>)
    ensures
        advanced(link, reply) matches Stepped::Send(_, rest) ==> links_left(rest) < links_left(
            link,
        ),
        links_left(link) == 0 ==> advanced(link, reply) is Done,
{
}

/// An operation sends exactly one command at a time, and an error ends it:
/// after a reply that is an error nothing more is sent.
pub proof fn lemma_error_ends_the_chain(link: Link, e: JsonValue)
    ensures
        advanced(link, Err(e)) == Stepped::Done(Err(e)),
{
}

impl Chain {
    /// Takes in the reply to the command that was sent last.
    pub fn advance(self, reply: JSResult) -> (step: Step)
        ensures
            step@ == advanced(self@, result_view(reply)),
    {
        match self {
            Chain::Last => Step::Done(to_result_of_jserror(reply)),
            Chain::LoadJs { script } => match load_js_next(script.as_str(), reply) {
                Next::Send(c) => Step::Send(c, Chain::Last),
                Next::Done(r) => Step::Done(r),
            },
            Chain::CssSheet { css } => match load_css_sheet(reply) {
                Next::Send(c) => Step::Send(c, Chain::CssText { css }),
                Next::Done(r) => Step::Done(r),
            },
            Chain::CssText { css } => match load_css_text(css.as_str(), reply) {
                Next::Send(c) => Step::Send(c, Chain::Last),
                Next::Done(r) => Step::Done(r),
            },
            Chain::BindInstall { name } => match bind_install(name.as_str(), reply) {
                Next::Send(c) => Step::Send(c, Chain::BindRun { name }),
                Next::Done(r) => Step::Done(r),
            },
            Chain::BindRun { name } => match bind_run(name.as_str(), reply) {
                Next::Send(c) => Step::Send(c, Chain::Last),
                Next::Done(r) => Step::Done(r),
            },
        }
    }
}

/// The arguments of a call of a bound name: the items under `args` in the
/// payload of the call, and none where the payload holds no such list.
pub open spec fn call_args_of(payload: JsonValue) -> Seq<JsonValue> {
    match payload.get("args"@).as_array() {
        Some(items) => items,
        None => Seq::empty(),
    }
}

/// The arguments that the page passed in a call of a bound name.
pub fn call_args(payload: &JSObject) -> (args: Vec<JSObject>)
    ensures
        items_view(args@) == call_args_of(payload@),
{
    let mut args: Vec<JSObject> = Vec::new();
    match payload.get("args").as_array() {
        Some(items) => {
            let mut i: usize = 0;
            while i < items.len()
                invariant
                    i <= items.len(),
                    items_view(args@) == items_view(items@).take(i as int),
                decreases items.len() - i,
            {
                let ghost before = args@;
                let item = items[i].clone();
                args.push(item);
                proof {
                    assert(items_view(args@) =~= items_view(before).push(item@));
                    assert(items_view(items@).take(i as int + 1) =~= items_view(items@).take(
                        i as int,
                    ).push(items@[i as int]@));
                }
                i += 1;
            }
            assert(items_view(items@).take(i as int) =~= items_view(items@));
        },
        None => {
            assert(items_view(args@) =~= Seq::<JsonValue>::empty());
        },
    }
    args
}

/// The script that settles the promise of one call of a bound name: the
/// promise that the page keeps for `name` under the number `seq` is
/// resolved with `value`, or rejected with it where the host function
/// failed, and is then forgotten. `seq` and `value` are JavaScript text.
pub open spec fn settle_script_text(name: Seq<char>, seq: Seq<char>, ok: bool, value: Seq<char>) -> Seq<
    char,
> {
    "window['"@ + name + (if ok {
        "']['callbacks'].get("@
    } else {
        "']['errors'].get("@
    }) + seq + ")("@ + value + ");window['"@ + name + "']['callbacks'].delete("@ + seq
        + ");window['"@ + name + "']['errors'].delete("@ + seq + ");"@
}

/// The script that settles the promise of one call of a bound name.
pub fn settle_script(name: &str, seq: &str, ok: bool, value: &str) -> (script: String)
    ensures
        script@ == settle_script_text(name@, seq@, ok, value@),
{
    let mut script = String::from_str("window['");
    script.append(name);
    if ok {
        script.append("']['callbacks'].get(");
    } else {
        script.append("']['errors'].get(");
    }
    script.append(seq);
    script.append(")(");
    script.append(value);
    script.append(");window['");
    script.append(name);
    script.append("']['callbacks'].delete(");
    script.append(seq);
    script.append(");window['");
    script.append(name);
    script.append("']['errors'].delete(");
    script.append(seq);
    script.append(");");
    script
}

/// The command that hands the outcome of a host function back to the page:
/// an evaluation, in the execution context of the call, of the script that
/// settles the promise which the payload of the call numbers under `seq`.
pub open spec fn complete_command(
    name: Seq<char>,
    payload: JsonValue,
    context_id: i64,
    result: Result<JsonValue, JsonValue>,
) -> (Seq<char>, JsonValue) {
    (
        "Runtime.evaluate"@,
        JsonValue::object2(
            "expression"@,
            JsonValue::String(
                settle_script_text(
                    name,
                    json_text(payload.get("seq"@)),
                    result is Ok,
                    json_text(
                        match result {
                            Ok(v) => v,
                            Err(e) => e,
                        },
                    ),
                ),
            ),
            "contextId"@,
            JsonValue::integer(context_id as int),
        ),
    )
}

/// Hands the outcome of a host function back to the page. No reply is
/// awaited.
pub fn complete(name: &str, payload: &JSObject, context_id: i64, result: &JSResult) -> (c: Command)
    ensures
        c@ == complete_command(name@, payload@, context_id, result_view(*result)),
{
    let seq = payload.get("seq").render();
    let script = match result {
        Ok(v) => settle_script(name, seq.as_str(), true, v.render().as_str()),
        Err(e) => settle_script(name, seq.as_str(), false, e.render().as_str()),
    };
    Command::new(
        "Runtime.evaluate",
        JSObject::object2(
            "expression",
            JSObject::String(script),
            "contextId",
            JSObject::integer(context_id),
        ),
    )
}

/// The commands that switch on what a session needs, in the order in which
/// they are sent once the session is attached.
pub open spec fn startup_sequence() -> Seq<(Seq<char>, JsonValue)> {
    seq![
        ("Page.enable"@, JsonValue::Null),
        (
            "Target.setAutoAttach"@,
            JsonValue::object2(
                "autoAttach"@,
                JsonValue::Bool(true),
                "waitForDebuggerOnStart"@,
                JsonValue::Bool(false),
            ),
        ),
        ("Network.enable"@, JsonValue::Null),
        ("Runtime.enable"@, JsonValue::Null),
        ("Security.enable"@, JsonValue::Null),
        ("Performance.enable"@, JsonValue::Null),
        ("Log.enable"@, JsonValue::Null),
        ("DOM.enable"@, JsonValue::Null),
        ("CSS.enable"@, JsonValue::Null),
    ]
}

/// The mathematical values of a list of commands.
pub open spec fn commands_view(commands: Seq<Command>) -> Seq<(Seq<char>, JsonValue)> {
    Seq::new(commands.len(), |i: int| commands[i]@)
}

/// The commands that switch on what a session needs.
pub fn startup_commands() -> (commands: Vec<Command>)
    ensures
        commands_view(commands@) == startup_sequence(),
{
    let mut commands: Vec<Command> = Vec::new();
    commands.push(Command::new("Page.enable", JSObject::Null));
    commands.push(
        Command::new(
            "Target.setAutoAttach",
            JSObject::object2(
                "autoAttach",
                JSObject::Bool(true),
                "waitForDebuggerOnStart",
                JSObject::Bool(false),
            ),
        ),
    );
    commands.push(Command::new("Network.enable", JSObject::Null));
    commands.push(Command::new("Runtime.enable", JSObject::Null));
    commands.push(Command::new("Security.enable", JSObject::Null));
    commands.push(Command::new("Performance.enable", JSObject::Null));
    commands.push(Command::new("Log.enable", JSObject::Null));
    commands.push(Command::new("DOM.enable", JSObject::Null));
    commands.push(Command::new("CSS.enable", JSObject::Null));
    commands
}

/// Whether `flag` is among `args`.
pub open spec fn has_arg(args: Seq<&str>, flag: Seq<char>) -> bool {
    exists|i: int| 0 <= i < args.len() && #[trigger] args[i]@ == flag
}

/// Whether the browser runs without a window: `--headless` is among its
/// arguments. A session without a window has no window id to resolve.
pub fn is_headless(args: &[&str]) -> (headless: bool)
    ensures
        headless == has_arg(args@, "--headless"@),
{
    let mut i: usize = 0;
    while i < args.len()
        invariant
            i <= args.len(),
            forall|j: int| 0 <= j < i ==> args@[j]@ != "--headless"@,
        decreases args.len() - i,
    {
        if str_eq(args[i], "--headless") {
            return true;
        }
        i += 1;
    }
    false
}

} // verus!
