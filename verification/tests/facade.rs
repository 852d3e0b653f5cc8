use alcro::bounds::{Bounds, WindowState};
use alcro::chrome::{to_result_of_jserror, Chrome, JSError};
use alcro::facade::{
    add_script, bind, call_args, resolve_window, bind_install, bind_run, bind_script, bounds, bounds_reply, close, complete,
    eval, get_window_for_target, is_headless, load, load_css, load_css_sheet, load_css_text,
    load_js, load_js_next, set_bounds, settle_script, startup_commands, window_reply, Chain,
    Command, Next, Plan, Step,
};
use alcro::json::JSObject;

fn parse(text: &str) -> JSObject {
    JSObject::parse(text).unwrap()
}

fn wire(c: &Command) -> (String, String) {
    (c.method.clone(), c.params.render())
}

fn sent(n: Next) -> (String, String) {
    match n {
        Next::Send(c) => wire(&c),
        Next::Done(r) => panic!("{:?}", r),
    }
}

fn failed(n: Next) -> JSObject {
    match n {
        Next::Done(Err(e)) => e.source(),
        other => panic!("{:?}", other),
    }
}

/// Carries a plan out against the replies given, and tells what was sent
/// and how it ended.
fn run(plan: Plan, replies: Vec<Result<JSObject, JSObject>>) -> (Vec<(String, String)>, Result<(), JSObject>) {
    let mut sent = vec![wire(&plan.first)];
    let mut chain = plan.rest;
    for reply in replies {
        match chain.advance(reply) {
            Step::Send(command, rest) => {
                sent.push(wire(&command));
                chain = rest;
            }
            Step::Done(outcome) => return (sent, outcome.map_err(|e| e.source())),
        }
    }
    panic!("the operation asks for more replies: {:?}", chain);
}

fn on_wire(method: &str, params: &str) -> (String, String) {
    (method.to_string(), params.to_string())
}

#[test]
fn load_navigates() {
    let plan = load("https://www.google.com");
    assert!(matches!(plan.rest, Chain::Last));
    assert_eq!(
        wire(&plan.first),
        on_wire("Page.navigate", "{\"url\":\"https://www.google.com\"}")
    );
    assert_eq!(run(load("u"), vec![Ok(parse("{\"frameId\":\"F\"}"))]).1, Ok(()));
    assert_eq!(
        run(load("u"), vec![Err(JSObject::string("net::ERR"))]).1,
        Err(JSObject::string("net::ERR"))
    );
}

#[test]
fn eval_awaits_and_returns_by_value() {
    assert_eq!(
        wire(&eval("2+2")),
        on_wire(
            "Runtime.evaluate",
            "{\"awaitPromise\":true,\"expression\":\"2+2\",\"returnByValue\":true}"
        )
    );
}

#[test]
fn set_bounds_sends_geometry_for_a_normal_window() {
    let b = Bounds { left: 1, top: -2, width: 300, height: 400, window_state: WindowState::Normal };
    assert_eq!(
        wire(&set_bounds(5, b).first),
        on_wire(
            "Browser.setWindowBounds",
            "{\"bounds\":{\"height\":400,\"left\":1,\"top\":-2,\"width\":300,\"windowState\":\"normal\"},\"windowId\":5}"
        )
    );
}

#[test]
fn set_bounds_sends_only_the_state_otherwise() {
    for (state, name) in [
        (WindowState::Maximized, "maximized"),
        (WindowState::Minimized, "minimized"),
        (WindowState::Fullscreen, "fullscreen"),
    ] {
        let with_geometry = Bounds { left: 1, top: 2, width: 3, height: 4, window_state: state };
        let expected = on_wire(
            "Browser.setWindowBounds",
            &format!("{{\"bounds\":{{\"windowState\":\"{}\"}},\"windowId\":9}}", name),
        );
        assert_eq!(wire(&set_bounds(9, with_geometry).first), expected);
        assert_eq!(wire(&set_bounds(9, state.to_bounds()).first), expected);
        assert!(matches!(set_bounds(9, state.to_bounds()).rest, Chain::Last));
    }
}

#[test]
fn bounds_after_maximizing_reports_the_browsers_geometry() {
    let c = set_bounds(1, WindowState::Maximized.to_bounds()).first;
    assert_eq!(c.params.get("bounds").get("width"), &JSObject::Null);
    assert_eq!(wire(&bounds(1)), on_wire("Browser.getWindowBounds", "{\"windowId\":1}"));
    let reply = Ok(parse(
        "{\"bounds\":{\"left\":0,\"top\":24,\"width\":1920,\"height\":1056,\"windowState\":\"maximized\"}}",
    ));
    assert_eq!(
        bounds_reply(reply),
        Ok(Bounds {
            left: 0,
            top: 24,
            width: 1920,
            height: 1056,
            window_state: WindowState::Maximized
        })
    );
}

#[test]
fn bounds_reply_reads_every_state() {
    for (state, name) in [
        (WindowState::Normal, "normal"),
        (WindowState::Maximized, "maximized"),
        (WindowState::Minimized, "minimized"),
        (WindowState::Fullscreen, "fullscreen"),
    ] {
        let reply = Ok(parse(&format!(
            "{{\"bounds\":{{\"left\":-1,\"top\":2,\"width\":3,\"height\":4,\"windowState\":\"{}\"}}}}",
            name
        )));
        assert_eq!(
            bounds_reply(reply),
            Ok(Bounds { left: -1, top: 2, width: 3, height: 4, window_state: state })
        );
        assert_eq!(state.name(), name);
    }
}

#[test]
fn bounds_round_trip_through_json() {
    let b = Bounds {
        left: i32::MIN,
        top: i32::MAX,
        width: 0,
        height: 600,
        window_state: WindowState::Fullscreen,
    };
    assert_eq!(Bounds::from_json(&b.to_json()), Some(b));
    assert_eq!(
        b.to_json().render(),
        "{\"height\":600,\"left\":-2147483648,\"top\":2147483647,\"width\":0,\"windowState\":\"fullscreen\"}"
    );
}

#[test]
fn bounds_reply_passes_an_error_on() {
    assert_eq!(bounds_reply(Err(JSObject::string("no window"))), Err(JSObject::string("no window")));
}

#[test]
fn bounds_reply_names_what_is_no_bounds() {
    let bad = Err(JSObject::string("Value not of bounds datatype"));
    assert_eq!(bounds_reply(Ok(parse("{}"))), bad);
    assert_eq!(
        bounds_reply(Ok(parse(
            "{\"bounds\":{\"left\":0,\"top\":0,\"width\":1,\"windowState\":\"normal\"}}"
        ))),
        bad
    );
    assert_eq!(
        bounds_reply(Ok(parse(
            "{\"bounds\":{\"left\":0,\"top\":0,\"width\":1,\"height\":2,\"windowState\":\"docked\"}}"
        ))),
        bad
    );
    assert_eq!(
        bounds_reply(Ok(parse(
            "{\"bounds\":{\"left\":0,\"top\":0,\"width\":2147483648,\"height\":2,\"windowState\":\"normal\"}}"
        ))),
        bad
    );
    assert_eq!(
        bounds_reply(Ok(parse(
            "{\"bounds\":{\"left\":0.5,\"top\":0,\"width\":1,\"height\":2,\"windowState\":\"normal\"}}"
        ))),
        bad
    );
}

#[test]
fn window_for_target() {
    assert_eq!(
        wire(&get_window_for_target("T1")),
        on_wire("Browser.getWindowForTarget", "{\"targetId\":\"T1\"}")
    );
    assert_eq!(window_reply(Ok(parse("{\"windowId\":12,\"bounds\":{}}"))), Ok(12));
    assert_eq!(window_reply(Err(JSObject::integer(1))), Err(JSObject::integer(1)));
    assert_eq!(window_reply(Ok(parse("{}"))), Err(JSObject::string("Value not i64")));
    assert_eq!(
        window_reply(Ok(parse("{\"windowId\":2147483648}"))),
        Err(JSObject::string("Value not i64"))
    );
    assert_eq!(window_reply(Ok(parse("{\"windowId\":-2147483648}"))), Ok(i32::MIN));
}

#[test]
fn close_sends_an_empty_object() {
    assert_eq!(wire(&close()), on_wire("Browser.close", "{}"));
}

#[test]
fn load_js_adds_the_script_then_evaluates_it() {
    let script = "function f() { return 1; }";
    assert_eq!(
        wire(&load_js(script).first),
        on_wire(
            "Page.addScriptToEvaluateOnNewDocument",
            "{\"source\":\"function f() { return 1; }\"}"
        )
    );
    assert_eq!(wire(&add_script(script)), wire(&load_js(script).first));
    assert_eq!(sent(load_js_next(script, Ok(parse("{\"identifier\":\"1\"}")))), wire(&eval(script)));
    assert_eq!(failed(load_js_next(script, Err(JSObject::string("no")))), JSObject::string("no"));
    let (commands, outcome) = run(load_js(script), vec![Ok(parse("{}")), Ok(parse("{}"))]);
    assert_eq!(commands, vec![wire(&add_script(script)), wire(&eval(script))]);
    assert_eq!(outcome, Ok(()));
}

#[test]
fn load_js_stops_at_the_first_error() {
    let (commands, outcome) = run(load_js("x"), vec![Err(JSObject::string("e1"))]);
    assert_eq!(commands.len(), 1);
    assert_eq!(outcome, Err(JSObject::string("e1")));
    let (commands, outcome) = run(load_js("x"), vec![Ok(parse("{}")), Err(JSObject::string("e2"))]);
    assert_eq!(commands.len(), 2);
    assert_eq!(outcome, Err(JSObject::string("e2")));
}

#[test]
fn load_css_walks_from_frame_to_sheet_to_text() {
    assert_eq!(
        sent(load_css_sheet(Ok(parse("{\"frameTree\":{\"frame\":{\"id\":\"F1\",\"url\":\"x\"}}}")))),
        on_wire("CSS.createStyleSheet", "{\"frameId\":\"F1\"}")
    );
    assert_eq!(
        sent(load_css_text("body {display: none;}", Ok(parse("{\"styleSheetId\":\"S9\"}")))),
        on_wire(
            "CSS.setStyleSheetText",
            "{\"styleSheetId\":\"S9\",\"text\":\"body {display: none;}\"}"
        )
    );
    let (commands, outcome) = run(
        load_css("T1", "body {display: none;}"),
        vec![
            Ok(parse("{\"frameTree\":{\"frame\":{\"id\":\"F1\"}}}")),
            Ok(parse("{\"styleSheetId\":\"S9\"}")),
            Ok(parse("{}")),
        ],
    );
    assert_eq!(
        commands,
        vec![
            on_wire("Page.getFrameTree", "{\"targetId\":\"T1\"}"),
            on_wire("CSS.createStyleSheet", "{\"frameId\":\"F1\"}"),
            on_wire(
                "CSS.setStyleSheetText",
                "{\"styleSheetId\":\"S9\",\"text\":\"body {display: none;}\"}"
            ),
        ]
    );
    assert_eq!(outcome, Ok(()));
}

#[test]
fn load_css_stops_at_the_first_error() {
    assert_eq!(failed(load_css_sheet(Err(JSObject::string("e1")))), JSObject::string("e1"));
    assert_eq!(failed(load_css_text("x", Err(JSObject::string("e2")))), JSObject::string("e2"));
    assert_eq!(
        failed(load_css_sheet(Ok(parse("{\"frameTree\":{\"frame\":{\"id\":5}}}")))),
        JSObject::string("Value not of string datatype")
    );
    assert_eq!(
        failed(load_css_text("x", Ok(parse("{}")))),
        JSObject::string("Value not of string datatype")
    );
    let (commands, outcome) = run(load_css("T", "x"), vec![Err(JSObject::string("e1"))]);
    assert_eq!((commands.len(), outcome), (1, Err(JSObject::string("e1"))));
    let (commands, outcome) = run(
        load_css("T", "x"),
        vec![Ok(parse("{\"frameTree\":{\"frame\":{\"id\":\"F\"}}}")), Ok(parse("{}"))],
    );
    assert_eq!((commands.len(), outcome), (2, Err(JSObject::string("Value not of string datatype"))));
    let (commands, outcome) = run(
        load_css("T", "x"),
        vec![
            Ok(parse("{\"frameTree\":{\"frame\":{\"id\":\"F\"}}}")),
            Ok(parse("{\"styleSheetId\":\"S\"}")),
            Err(JSObject::string("e3")),
        ],
    );
    assert_eq!((commands.len(), outcome), (3, Err(JSObject::string("e3"))));
}

#[test]
fn bind_registers_and_announces_the_name() {
    let mut c = Chrome::new("T", "S").unwrap();
    let plan = bind(&mut c, "add", 3);
    assert_eq!(wire(&plan.first), on_wire("Runtime.addBinding", "{\"name\":\"add\"}"));
    assert!(matches!(&plan.rest, Chain::BindInstall { name } if name == "add"));
    assert_eq!(c.binding("add"), Some(3));
}

#[test]
fn bind_installs_the_script_then_runs_it() {
    let script = bind_script("add");
    assert_eq!(sent(bind_install("add", Ok(parse("{}")))), wire(&add_script(&script)));
    assert_eq!(sent(bind_run("add", Ok(parse("{}")))), wire(&eval(&script)));
    assert_eq!(failed(bind_install("add", Err(JSObject::string("e")))), JSObject::string("e"));
    assert_eq!(failed(bind_run("add", Err(JSObject::string("e")))), JSObject::string("e"));
    let mut c = Chrome::new("T", "S").unwrap();
    let (commands, outcome) =
        run(bind(&mut c, "add", 0), vec![Ok(parse("{}")), Ok(parse("{}")), Ok(parse("{}"))]);
    assert_eq!(
        commands,
        vec![
            on_wire("Runtime.addBinding", "{\"name\":\"add\"}"),
            wire(&add_script(&script)),
            wire(&eval(&script)),
        ]
    );
    assert_eq!(outcome, Ok(()));
    let (commands, outcome) =
        run(bind(&mut c, "add", 0), vec![Ok(parse("{}")), Err(JSObject::string("e"))]);
    assert_eq!((commands.len(), outcome), (2, Err(JSObject::string("e"))));
}

#[test]
fn bind_script_names_the_binding() {
    let script = bind_script("add");
    assert!(script.starts_with("(()=>{\n        const bindingName = 'add';\n"));
    assert!(script.contains("binding(JSON.stringify({name: bindingName, seq, args}));"));
    assert!(script.contains("const seq = (me['lastSeq'] || 0) + 1;"));
    assert!(script.ends_with("            return promise;\n        }})();\n   "));
    assert_eq!(script.len(), bind_script("").len() + 3);
}

#[test]
fn settle_script_resolves_or_rejects() {
    assert_eq!(
        settle_script("add", "1", true, "6"),
        "window['add']['callbacks'].get(1)(6);window['add']['callbacks'].delete(1);window['add']['errors'].delete(1);"
    );
    assert_eq!(
        settle_script("add", "2", false, "\"Not number\""),
        "window['add']['errors'].get(2)(\"Not number\");window['add']['callbacks'].delete(2);window['add']['errors'].delete(2);"
    );
}

#[test]
fn complete_evaluates_in_the_context_of_the_call() {
    let payload = parse("{\"name\":\"add\",\"seq\":3,\"args\":[1,2,3]}");
    let c = complete("add", &payload, 4, &Ok(JSObject::integer(6)));
    assert_eq!(c.method, "Runtime.evaluate");
    assert_eq!(c.params.get("contextId"), &JSObject::integer(4));
    assert_eq!(
        c.params.get("expression").as_str().unwrap(),
        settle_script("add", "3", true, "6")
    );
    let c = complete("add", &payload, 4, &Err(JSObject::string("Not number")));
    assert_eq!(
        c.params.get("expression").as_str().unwrap(),
        settle_script("add", "3", false, "\"Not number\"")
    );
    assert_eq!(
        c.params.render(),
        "{\"contextId\":4,\"expression\":\"window['add']['errors'].get(3)(\\\"Not number\\\");window['add']['callbacks'].delete(3);window['add']['errors'].delete(3);\"}"
    );
}

#[test]
fn startup_commands_in_order() {
    let commands: Vec<(String, String)> = startup_commands().iter().map(wire).collect();
    assert_eq!(
        commands,
        vec![
            on_wire("Page.enable", "null"),
            on_wire(
                "Target.setAutoAttach",
                "{\"autoAttach\":true,\"waitForDebuggerOnStart\":false}"
            ),
            on_wire("Network.enable", "null"),
            on_wire("Runtime.enable", "null"),
            on_wire("Security.enable", "null"),
            on_wire("Performance.enable", "null"),
            on_wire("Log.enable", "null"),
            on_wire("DOM.enable", "null"),
            on_wire("CSS.enable", "null"),
        ]
    );
}

#[test]
fn headless_is_told_by_the_arguments() {
    assert!(is_headless(&["--headless"]));
    assert!(is_headless(&["--a", "--headless", "--b"]));
    assert!(!is_headless(&[]));
    assert!(!is_headless(&["--headless=new", "headless", "--Headless"]));
}

#[test]
fn result_without_its_value() {
    assert!(to_result_of_jserror(Ok(JSObject::integer(1))).is_ok());
    let e = to_result_of_jserror(Err(JSObject::string("bad"))).unwrap_err();
    assert_eq!(e.message(), "\"bad\"");
    assert_eq!(e.source(), JSObject::string("bad"));
    assert_eq!(JSError::from(JSObject::Null).source(), JSObject::Null);
}

#[test]
fn command_new_copies_the_method() {
    let c = Command::new("A.b", JSObject::Bool(true));
    assert_eq!(wire(&c), on_wire("A.b", "true"));
}

#[test]
fn error_from_a_value() {
    let e: JSError = JSObject::string("x").into();
    assert_eq!(e.source(), JSObject::string("x"));
}

#[test]
fn call_args_are_the_items_of_the_payload() {
    assert_eq!(
        call_args(&parse("{\"name\":\"add\",\"seq\":1,\"args\":[1,\"x\",[2]]}")),
        vec![JSObject::integer(1), JSObject::string("x"), parse("[2]")]
    );
    assert_eq!(call_args(&parse("{\"args\":[]}")), Vec::<JSObject>::new());
    assert_eq!(call_args(&parse("{\"args\":{\"0\":1}}")), Vec::<JSObject>::new());
    assert_eq!(call_args(&parse("{}")), Vec::<JSObject>::new());
    assert_eq!(call_args(&JSObject::Null), Vec::<JSObject>::new());
}

#[test]
fn resolve_window_keeps_the_window_id() {
    let mut c = Chrome::new("T", "S").unwrap();
    assert_eq!(resolve_window(&mut c, Ok(parse("{\"windowId\":31}"))), Ok(()));
    assert_eq!(c.window_id(), 31);
    assert_eq!(
        resolve_window(&mut c, Ok(parse("{}"))),
        Err(JSObject::string("Value not i64"))
    );
    assert_eq!(resolve_window(&mut c, Err(JSObject::string("e"))), Err(JSObject::string("e")));
    assert_eq!(c.window_id(), 31);
}
