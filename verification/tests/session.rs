use alcro::devtools::{readloop, send, Dispatch, JSResult};
use alcro::facade::{bind, complete, eval, load, Command, Plan, Step};
use alcro::handshake::{attach_to_target, discover_targets, Handshake, Shake};
use alcro::json::JSObject;
use alcro::pipe::{PipeReader, PipeWriter};
use alcro::{Chrome, Content, UIBuilder};

fn parse(text: &str) -> JSObject {
    JSObject::parse(text).unwrap()
}

/// A browser that answers each evaluation as a real one would.
fn evaluate(expression: &str) -> String {
    match expression {
        "document.body.innerText" => "{\"result\":{\"type\":\"string\",\"value\":\"Close Me!\"}}",
        "window.location.href" => {
            "{\"result\":{\"type\":\"string\",\"value\":\"https://www.google.com/\"}}"
        }
        "2+2" => "{\"result\":{\"type\":\"number\",\"value\":4,\"description\":\"4\"}}",
        "Promise.resolve('Its Ok')" => "{\"result\":{\"type\":\"string\",\"value\":\"Its Ok\"}}",
        "Promise.reject('ERROR')" => {
            "{\"result\":{\"type\":\"string\",\"value\":\"ERROR\"},\"exceptionDetails\":{\"exceptionId\":1,\"text\":\"Uncaught (in promise)\",\"exception\":{\"type\":\"string\",\"value\":\"ERROR\"}}}"
        }
        "throw 'ERROR'" => {
            "{\"result\":{\"type\":\"string\",\"value\":\"ERROR\"},\"exceptionDetails\":{\"exceptionId\":2,\"text\":\"Uncaught\",\"exception\":{\"type\":\"string\",\"value\":\"ERROR\"}}}"
        }
        "dtyfhgxnt*" => {
            "{\"result\":{\"type\":\"object\",\"subtype\":\"error\",\"className\":\"SyntaxError\",\"description\":\"SyntaxError: Unexpected end of input\"},\"exceptionDetails\":{\"exceptionId\":3,\"text\":\"Uncaught\",\"exception\":{\"type\":\"object\",\"subtype\":\"error\",\"className\":\"SyntaxError\",\"description\":\"SyntaxError: Unexpected end of input\"}}}"
        }
        _ => "{\"result\":{\"type\":\"undefined\"}}",
    }
    .to_string()
}

/// One round trip over the pipe framing: the command goes out through a
/// writer, the browser answers, and the answer comes in through a reader.
fn call(c: &mut Chrome, command: Command) -> JSResult {
    let out = send(c, &command.method, &command.params, 1).unwrap();
    let mut to_browser = PipeWriter::new();
    to_browser.write(out.frame).unwrap();
    let mut browser_in = PipeReader::new();
    browser_in.feed(&to_browser.take());
    let outer = parse(&browser_in.read().unwrap().unwrap());
    assert_eq!(outer.get("method"), &JSObject::string("Target.sendMessageToTarget"));
    assert_eq!(outer.get("params").get("sessionId"), &JSObject::string(c.session_id()));
    let inner = parse(outer.get("params").get("message").as_str().unwrap());
    assert_eq!(inner.get("id"), outer.get("id"));
    let result = if inner.get("method").eq_str("Runtime.evaluate") {
        evaluate(inner.get("params").get("expression").as_str().unwrap())
    } else {
        "{}".to_string()
    };
    let answer = format!("{{\"id\":{},\"result\":{}}}", out.id, result);
    let event = JSObject::object2(
        "method",
        JSObject::string("Target.receivedMessageFromTarget"),
        "params",
        JSObject::object2(
            "sessionId",
            JSObject::string(c.session_id()),
            "message",
            JSObject::string(&answer),
        ),
    );
    let mut from_browser = PipeWriter::new();
    from_browser.write(event.render()).unwrap();
    let mut reader = PipeReader::new();
    for chunk in from_browser.take().chunks(7) {
        reader.feed(chunk);
    }
    match readloop(c, &reader.read().unwrap().unwrap()) {
        Dispatch::Response { waiter: 1, result } => result,
        other => panic!("{:?}", other),
    }
}

/// Carries an operation out against the browser.
fn run(c: &mut Chrome, plan: Plan) -> Result<(), JSObject> {
    let mut command = plan.first;
    let mut chain = plan.rest;
    loop {
        let reply = call(c, command);
        match chain.advance(reply) {
            Step::Done(outcome) => return outcome.map_err(|e| e.source()),
            Step::Send(next, rest) => {
                command = next;
                chain = rest;
            }
        }
    }
}

fn launch(content: Content) -> Chrome {
    let args = ["--headless"];
    let plan = UIBuilder::new().content(content).custom_args(&args).run("/tmp/profile");
    assert!(plan.headless);
    assert_eq!(plan.args.last().unwrap(), &plan.url);
    let (frame, state) = Handshake::begin();
    assert_eq!(frame, discover_targets());
    let state = match state.step("{\"id\":0,\"result\":{}}") {
        Shake::ReadOn(state) => state,
        _ => panic!("should read on"),
    };
    let state = match state.step(
        "{\"method\":\"Target.targetCreated\",\"params\":{\"targetInfo\":{\"targetId\":\"T1\",\"type\":\"page\"}}}",
    ) {
        Shake::Write { frame, next } => {
            assert_eq!(frame, attach_to_target("T1"));
            next
        }
        _ => panic!("should attach"),
    };
    let mut c = match state.step("{\"id\":1,\"result\":{\"sessionId\":\"S1\"}}") {
        Shake::Ready(c) => c,
        _ => panic!("should be ready"),
    };
    for command in alcro::facade::startup_commands() {
        assert!(call(&mut c, command).is_ok());
    }
    c
}

#[test]
fn test_content() {
    let mut ui = launch(Content::Html("<html><body>Close Me!</body></html>"));
    assert_eq!(
        call(&mut ui, eval("document.body.innerText")).unwrap(),
        JSObject::string("Close Me!")
    );

    let mut ui2 = launch(Content::Url("https://www.google.com"));
    assert_eq!(
        call(&mut ui2, eval("window.location.href")).unwrap(),
        JSObject::string("https://www.google.com/")
    );
}

#[test]
fn test_eval() {
    let mut ui = launch(Content::Html(""));
    assert_eq!(call(&mut ui, eval("2+2")).unwrap(), JSObject::integer(4));
    assert_eq!(
        call(&mut ui, eval("Promise.resolve('Its Ok')")).unwrap(),
        JSObject::string("Its Ok")
    );
    assert_eq!(
        call(&mut ui, eval("Promise.reject('ERROR')")).unwrap_err(),
        JSObject::string("ERROR")
    );
    assert_eq!(call(&mut ui, eval("throw 'ERROR'")).unwrap_err(), JSObject::string("ERROR"));
    assert!(call(&mut ui, eval("dtyfhgxnt*")).is_err());
}

#[test]
fn load_is_acknowledged() {
    let mut ui = launch(Content::Html(""));
    assert_eq!(run(&mut ui, load("https://www.google.com")), Ok(()));
}

#[test]
fn binding_round_trip() {
    let mut ui = launch(Content::Html(""));
    let plan = bind(&mut ui, "add", 0);
    assert_eq!(run(&mut ui, plan), Ok(()));

    let host = |args: &[JSObject]| -> JSResult {
        let mut sum = 0;
        for arg in args {
            match arg.as_i64() {
                Some(i) => sum += i,
                None => return Err(JSObject::string("Not number")),
            }
        }
        Ok(JSObject::integer(sum))
    };
    for (args, seq, expected) in [
        ("[1,2,3]", 1, "window['add']['callbacks'].get(1)(6);window['add']['callbacks'].delete(1);window['add']['errors'].delete(1);"),
        ("[1,2,\\\"hi\\\"]", 2, "window['add']['errors'].get(2)(\"Not number\");window['add']['callbacks'].delete(2);window['add']['errors'].delete(2);"),
    ] {
        let inner = format!(
            "{{\"method\":\"Runtime.bindingCalled\",\"params\":{{\"name\":\"add\",\"payload\":\"{{\\\"name\\\":\\\"add\\\",\\\"seq\\\":{},\\\"args\\\":{}}}\",\"executionContextId\":2}}}}",
            seq, args
        );
        let event = JSObject::object2(
            "method",
            JSObject::string("Target.receivedMessageFromTarget"),
            "params",
            JSObject::object2(
                "sessionId",
                JSObject::string("S1"),
                "message",
                JSObject::string(&inner),
            ),
        );
        match readloop(&mut ui, &event.render()) {
            Dispatch::BindingCalled { handle: 0, name, payload, context_id } => {
                let result = host(&alcro::facade::call_args(&payload));
                let back = complete(&name, &payload, context_id, &result);
                assert_eq!(back.params.get("expression").as_str().unwrap(), expected);
                assert_eq!(back.params.get("contextId"), &JSObject::integer(2));
            }
            other => panic!("{:?}", other),
        }
    }
}
