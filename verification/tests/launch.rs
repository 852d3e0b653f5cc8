use alcro::launch::{chrome_args, decimal, env_browser_path, must_close, Content, UIBuilder, UILaunchError};

const DEFAULTS: [&str; 25] = [
    "--disable-background-networking",
    "--disable-background-timer-throttling",
    "--disable-backgrounding-occluded-windows",
    "--disable-breakpad",
    "--disable-client-side-phishing-detection",
    "--disable-default-apps",
    "--disable-dev-shm-usage",
    "--disable-infobars",
    "--disable-extensions",
    "--disable-features=site-per-process",
    "--disable-hang-monitor",
    "--disable-ipc-flooding-protection",
    "--disable-popup-blocking",
    "--disable-prompt-on-repost",
    "--disable-renderer-backgrounding",
    "--disable-sync",
    "--disable-translate",
    "--disable-windows10-custom-titlebar",
    "--metrics-recording-only",
    "--no-first-run",
    "--no-default-browser-check",
    "--safebrowsing-disable-auto-update",
    "--enable-automation",
    "--password-store=basic",
    "--use-mock-keychain",
];

fn with_defaults(rest: &[&str]) -> Vec<String> {
    DEFAULTS.iter().chain(rest.iter()).map(|s| s.to_string()).collect()
}

#[test]
fn decimal_writes_base_ten() {
    assert_eq!(decimal(0), "0");
    assert_eq!(decimal(7), "7");
    assert_eq!(decimal(10), "10");
    assert_eq!(decimal(800), "800");
    assert_eq!(decimal(1234567890), "1234567890");
    assert_eq!(decimal(-1), "-1");
    assert_eq!(decimal(-600), "-600");
    assert_eq!(decimal(i32::MAX), "2147483647");
    assert_eq!(decimal(i32::MIN), "-2147483648");
}

#[test]
fn content_becomes_an_address() {
    assert_eq!(Content::Url("https://www.google.com").url(), "https://www.google.com");
    assert_eq!(
        Content::Html("<html><body>Close Me!</body></html>").url(),
        "data:text/html,<html><body>Close Me!</body></html>"
    );
    assert_eq!(Content::Html("").url(), "data:text/html,");
}

#[test]
fn chrome_args_for_a_window() {
    assert_eq!(
        chrome_args("https://example.com", "/tmp/profile", 480, 320, &[]),
        with_defaults(&[
            "--user-data-dir=/tmp/profile",
            "--window-size=480,320",
            "--remote-debugging-pipe",
            "--app=https://example.com",
        ])
    );
}

#[test]
fn chrome_args_for_a_headless_browser() {
    assert_eq!(
        chrome_args("data:text/html,hi", "d", 800, 600, &["--headless", "--no-sandbox"]),
        with_defaults(&[
            "--user-data-dir=d",
            "--window-size=800,600",
            "--headless",
            "--no-sandbox",
            "--remote-debugging-pipe",
            "data:text/html,hi",
        ])
    );
}

#[test]
fn test_ui_manual_close() {
    let args = chrome_args("data:text/html,<html>Close Me!</html>", "", 480, 320, &[]);
    assert_eq!(args.len(), 29);
    assert_eq!(args[25], "--user-data-dir=");
    assert_eq!(args[26], "--window-size=480,320");
    assert_eq!(args[28], "--app=data:text/html,<html>Close Me!</html>");
    let mut life = alcro::lifecycle::Phase::Running;
    assert_eq!(life.step(alcro::lifecycle::Event::Exited), alcro::lifecycle::Action::Release);
    assert!(life.done());
}

#[test]
fn test_auto_drop() {
    let args = chrome_args(
        "data:text/html,<html>You wouldn't be able to see me!</html>",
        "",
        480,
        320,
        &[],
    );
    assert_eq!(args[28], "--app=data:text/html,<html>You wouldn't be able to see me!</html>");
    assert!(must_close(false, false));
    let mut life = alcro::lifecycle::Phase::Running;
    assert_eq!(life.step(alcro::lifecycle::Event::Close), alcro::lifecycle::Action::RequestClose);
    assert_eq!(life.step(alcro::lifecycle::Event::Exited), alcro::lifecycle::Action::Release);
    assert!(life.done());
}

#[test]
fn must_close_unless_waited_or_done() {
    assert!(must_close(false, false));
    assert!(!must_close(true, false));
    assert!(!must_close(false, true));
    assert!(!must_close(true, true));
}

#[test]
fn builder_defaults() {
    let b = UIBuilder::new();
    assert_eq!(b.content, Content::Html(""));
    assert_eq!(b.dir, None);
    assert_eq!((b.width, b.height), (800, 600));
    assert!(b.custom_args.is_empty());
    assert!(b.needs_temp_dir());
}

#[test]
fn builder_setters_chain() {
    let args = ["--headless"];
    let mut b = UIBuilder::new();
    b.content(Content::Url("https://a.b")).size(10, 20).custom_args(&args).user_data_dir("/p");
    assert_eq!(b.content, Content::Url("https://a.b"));
    assert_eq!((b.width, b.height), (10, 20));
    assert_eq!(b.custom_args, &args);
    assert_eq!(b.dir, Some("/p"));
    assert!(!b.needs_temp_dir());
}

#[test]
fn builder_run_plans_the_launch() {
    let args = ["--headless"];
    let launch = UIBuilder::new()
        .content(Content::Html("<html><body>Close Me!</body></html>"))
        .custom_args(&args)
        .run("/tmp/alcro.1");
    assert!(launch.headless);
    assert_eq!(launch.url, "data:text/html,<html><body>Close Me!</body></html>");
    assert_eq!(
        launch.args,
        with_defaults(&[
            "--user-data-dir=/tmp/alcro.1",
            "--window-size=800,600",
            "--headless",
            "--remote-debugging-pipe",
            "data:text/html,<html><body>Close Me!</body></html>",
        ])
    );
}

#[test]
fn builder_run_prefers_the_user_data_dir() {
    let launch = UIBuilder::new().user_data_dir("/home/me/profile").run("/tmp/unused");
    assert!(!launch.headless);
    assert_eq!(launch.args[25], "--user-data-dir=/home/me/profile");
    assert_eq!(launch.args[28], "--app=data:text/html,");
}

#[test]
fn env_browser_path_decides() {
    assert!(env_browser_path(None, false).is_none());
    assert!(env_browser_path(None, true).is_none());
    assert_eq!(
        env_browser_path(Some("/opt/chrome".to_string()), true).unwrap().unwrap(),
        "/opt/chrome"
    );
    match env_browser_path(Some("/opt/none".to_string()), false) {
        Some(Err(UILaunchError::BrowserPathInvalid(path))) => assert_eq!(path, "/opt/none"),
        other => panic!("{:?}", other),
    }
}

#[test]
fn builder_default_is_new() {
    let b = UIBuilder::default();
    assert_eq!(b.content, Content::Html(""));
    assert_eq!(b.dir, None);
    assert_eq!((b.width, b.height), (800, 600));
    assert!(b.custom_args.is_empty());
}
