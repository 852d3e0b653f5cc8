//! What a window is launched with: the content to show, the size, and the
//! arguments that the browser is started with.

use crate::chrome::JSError;
use crate::facade::{has_arg, is_headless};
use crate::locate::{lemma_strings_view_push, strings_view, LocateChromeError};
use vstd::prelude::*;
use vstd::string::*;

verus! {

/// Specifies the type of content shown by the browser
#[derive(Debug, PartialEq, Eq, Hash, Clone, Copy)]
pub enum Content<'a> {
    /// The URL
    Url(&'a str),
    /// HTML text
    Html(&'a str),
}

/// Error in launching a UI window
#[derive(Debug)]
pub enum UILaunchError {
    /// Cannot create temporary directory
    TempDirectoryCreationError(std::io::Error),
    /// The path specified by ALCRO_BROWSER_PATH does not exist
    BrowserPathInvalid(String),
    /// Error in locating chrome
    LocateChromeError(LocateChromeError),
    /// Error when initializing chrome
    ChromeInitError(JSError),
}

/// The address that shows `content`: a URL is its own address, and HTML
/// text travels in a `data:` address.
pub open spec fn content_url(content: Content) -> Seq<char> {
    match content {
        Content::Url(u) => u@,
        Content::Html(h) => "data:text/html,"@ + h@,
    }
}

impl<'a> Content<'a> {
    /// The address that shows the content.
    pub fn url(&self) -> (url: String)
        ensures
            url@ == content_url(*self),
    {
        match self {
            Content::Url(u) => String::from_str(u),
            Content::Html(h) => String::from_str("data:text/html,").concat(h),
        }
    }
}

/// The character of the digit `d`.
pub open spec fn digit_char(d: int) -> char {
    if d == 0 {
        '0'
    } else if d == 1 {
        '1'
    } else if d == 2 {
        '2'
    } else if d == 3 {
        '3'
    } else if d == 4 {
        '4'
    } else if d == 5 {
        '5'
    } else if d == 6 {
        '6'
    } else if d == 7 {
        '7'
    } else if d == 8 {
        '8'
    } else {
        '9'
    }
}

/// The digits of `n` in base ten, without leading zeros.
pub open spec fn digits(n: nat) -> Seq<char>
    decreases n,
{
    if n < 10 {
        seq![digit_char(n as int)]
    } else {
        digits(n / 10).push(digit_char((n % 10) as int))
    }
}

/// The number `n` in base ten, with a minus sign where it is negative.
pub open spec fn decimal_text(n: int) -> Seq<char> {
    if n < 0 {
        seq!['-'] + digits((-n) as nat)
    } else {
        digits(n as nat)
    }
}

/// The digit `d` as a string.
fn digit_str(d: u64) -> (s: &'static str)
    requires
        d < 10,
    ensures
        s@ == seq![digit_char(d as int)],
{
    proof {
        reveal_strlit("0");
        reveal_strlit("1");
        reveal_strlit("2");
        reveal_strlit("3");
        reveal_strlit("4");
        reveal_strlit("5");
        reveal_strlit("6");
        reveal_strlit("7");
        reveal_strlit("8");
        reveal_strlit("9");
    }
    let s = if d == 0 {
        "0"
    } else if d == 1 {
        "1"
    } else if d == 2 {
        "2"
    } else if d == 3 {
        "3"
    } else if d == 4 {
        "4"
    } else if d == 5 {
        "5"
    } else if d == 6 {
        "6"
    } else if d == 7 {
        "7"
    } else if d == 8 {
        "8"
    } else {
        "9"
    };
    s
}

/// Adds the digits of `n` to `text`.
fn push_digits(text: &mut String, n: u64)
    ensures
        final(text)@ == old(text)@ + digits(n as nat),
    decreases n,
{
    if n >= 10 {
        push_digits(text, n / 10);
    }
    text.append(digit_str(n % 10));
}

/// The number `n` in base ten.
pub fn decimal(n: i32) -> (text: String)
    ensures
        text@ == decimal_text(n as int),
{
    let mut text = String::new();
    if n < 0 {
        proof {
            reveal_strlit("-");
        }
        text.append("-");
        push_digits(&mut text, (-(n as i64)) as u64);
    } else {
        push_digits(&mut text, n as u64);
    }
    text
}

/// The arguments that every browser is started with.
pub open spec fn default_chrome_args() -> Seq<Seq<char>> {
    seq![
        "--disable-background-networking"@,
        "--disable-background-timer-throttling"@,
        "--disable-backgrounding-occluded-windows"@,
        "--disable-breakpad"@,
        "--disable-client-side-phishing-detection"@,
        "--disable-default-apps"@,
        "--disable-dev-shm-usage"@,
        "--disable-infobars"@,
        "--disable-extensions"@,
        "--disable-features=site-per-process"@,
        "--disable-hang-monitor"@,
        "--disable-ipc-flooding-protection"@,
        "--disable-popup-blocking"@,
        "--disable-prompt-on-repost"@,
        "--disable-renderer-backgrounding"@,
        "--disable-sync"@,
        "--disable-translate"@,
        "--disable-windows10-custom-titlebar"@,
        "--metrics-recording-only"@,
        "--no-first-run"@,
        "--no-default-browser-check"@,
        "--safebrowsing-disable-auto-update"@,
        "--enable-automation"@,
        "--password-store=basic"@,
        "--use-mock-keychain"@,
    ]
}

/// The characters of each argument.
pub open spec fn args_text(args: Seq<&str>) -> Seq<Seq<char>> {
    Seq::new(args.len(), |i: int| args[i]@)
}

/// The argument that tells the browser what to show: the address itself
/// for a browser without a window, and else the address as an application.
pub open spec fn content_arg(url: Seq<char>, custom_args: Seq<&str>) -> Seq<char> {
    if has_arg(custom_args, "--headless"@) {
        url
    } else {
        "--app="@ + url
    }
}

/// The arguments of the browser: the default ones, the profile directory,
/// the size of the window, the caller's own arguments, the switch to the
/// debugging pipe, and last what to show.
pub open spec fn chrome_args_text(
    url: Seq<char>,
    dir: Seq<char>,
    width: int,
    height: int,
    custom_args: Seq<&str>,
) -> Seq<Seq<char>> {
    default_chrome_args() + seq![
        "--user-data-dir="@ + dir,
        "--window-size="@ + decimal_text(width) + ","@ + decimal_text(height),
    ] + args_text(custom_args) + seq!["--remote-debugging-pipe"@, content_arg(url, custom_args)]
}

/// The arguments that every browser is started with.
fn default_args() -> (args: Vec<String>)
    ensures
        strings_view(args@) == default_chrome_args(),
{
    let mut args: Vec<String> = Vec::new();
    args.push(String::from_str("--disable-background-networking"));
    args.push(String::from_str("--disable-background-timer-throttling"));
    args.push(String::from_str("--disable-backgrounding-occluded-windows"));
    args.push(String::from_str("--disable-breakpad"));
    args.push(String::from_str("--disable-client-side-phishing-detection"));
    args.push(String::from_str("--disable-default-apps"));
    args.push(String::from_str("--disable-dev-shm-usage"));
    args.push(String::from_str("--disable-infobars"));
    args.push(String::from_str("--disable-extensions"));
    args.push(String::from_str("--disable-features=site-per-process"));
    args.push(String::from_str("--disable-hang-monitor"));
    args.push(String::from_str("--disable-ipc-flooding-protection"));
    args.push(String::from_str("--disable-popup-blocking"));
    args.push(String::from_str("--disable-prompt-on-repost"));
    args.push(String::from_str("--disable-renderer-backgrounding"));
    args.push(String::from_str("--disable-sync"));
    args.push(String::from_str("--disable-translate"));
    args.push(String::from_str("--disable-windows10-custom-titlebar"));
    args.push(String::from_str("--metrics-recording-only"));
    args.push(String::from_str("--no-first-run"));
    args.push(String::from_str("--no-default-browser-check"));
    args.push(String::from_str("--safebrowsing-disable-auto-update"));
    args.push(String::from_str("--enable-automation"));
    args.push(String::from_str("--password-store=basic"));
    args.push(String::from_str("--use-mock-keychain"));
    args
}

/// The arguments that the browser is started with, to show `url` in a
/// window of the given size, with its profile in `dir`.
pub fn chrome_args(url: &str, dir: &str, width: i32, height: i32, custom_args: &[&str]) -> (args:
    Vec<String>)
    ensures
        strings_view(args@) == chrome_args_text(
            url@,
            dir@,
            width as int,
            height as int,
            custom_args@,
        ),
{
    let mut args = default_args();
    let profile = String::from_str("--user-data-dir=").concat(dir);
    let mut size = String::from_str("--window-size=");
    size.append(decimal(width).as_str());
    size.append(",");
    size.append(decimal(height).as_str());
    proof {
        lemma_strings_view_push(args@, profile);
        lemma_strings_view_push(args@.push(profile), size);
    }
    args.push(profile);
    args.push(size);
    let ghost fixed = strings_view(args@);
    let mut i: usize = 0;
    while i < custom_args.len()
        invariant
            i <= custom_args.len(),
            strings_view(args@) == fixed + args_text(custom_args@.take(i as int)),
            fixed == default_chrome_args() + seq![
                "--user-data-dir="@ + dir@,
                "--window-size="@ + decimal_text(width as int) + ","@ + decimal_text(
                    height as int,
                ),
            ],
        decreases custom_args.len() - i,
    {
        let ghost before = args@;
        let arg = String::from_str(custom_args[i]);
        proof {
            lemma_strings_view_push(before, arg);
        }
        args.push(arg);
        i += 1;
    }
    let ghost before = args@;
    let pipe = String::from_str("--remote-debugging-pipe");
    let show = if is_headless(custom_args) {
        String::from_str(url)
    } else {
        String::from_str("--app=").concat(url)
    };
    proof {
        lemma_strings_view_push(before, pipe);
        lemma_strings_view_push(before.push(pipe), show);
    }
    args.push(pipe);
    args.push(show);
    args
}

/// The browser that `ALCRO_BROWSER_PATH` asks for, where the variable is
/// set: the path it holds if something is there, and else the error that
/// names the path. `None` where the variable is not set, and the browser is
/// to be looked for.
pub fn env_browser_path(env_path: Option<String>, exists: bool) -> (r: Option<
    Result<String, UILaunchError>,
>)
    ensures
        env_path is None <==> r is None,
        env_path matches Some(path) ==> (exists ==> r == Some(
            Ok::<String, UILaunchError>(path),
        )) && (!exists ==> r == Some(
            Err::<String, UILaunchError>(UILaunchError::BrowserPathInvalid(path)),
        )),
{
    match env_path {
        None => None,
        Some(path) => if exists {
            Some(Ok(path))
        } else {
            Some(Err(UILaunchError::BrowserPathInvalid(path)))
        },
    }
}

/// Whether a window that goes out of use has to close its browser first and
/// wait for it: not where the browser was waited for before, nor where it
/// is gone already.
pub fn must_close(waited: bool, done: bool) -> (close: bool)
    ensures
        close == (!waited && !done),
{
    !waited && !done
}

/// Builder for constructing a UI instance.
#[derive(Debug)]
pub struct UIBuilder<'a> {
    pub content: Content<'a>,
    pub dir: Option<&'a str>,
    pub width: i32,
    pub height: i32,
    pub custom_args: &'a [&'a str],
}

/// What a window is launched with.
#[derive(Debug)]
pub struct Launch {
    /// The address that the window shows.
    pub url: String,
    /// The arguments of the browser.
    pub args: Vec<String>,
    /// Whether the browser runs without a window.
    pub headless: bool,
}

impl<'a> Default for UIBuilder<'a> {
    fn default() -> (b: Self)
        ensures
            b.content == Content::Html(""),
            b.dir is None,
            b.width == 800,
            b.height == 600,
            b.custom_args@.len() == 0,
    {
        Self::new()
    }
}

impl<'a> UIBuilder<'a> {
    /// Default UI
    pub fn new() -> (b: Self)
        ensures
            b.content == Content::Html(""),
            b.dir is None,
            b.width == 800,
            b.height == 600,
            b.custom_args@.len() == 0,
    {
        UIBuilder { content: Content::Html(""), dir: None, width: 800, height: 600, custom_args: &[] }
    }

    /// Whether the browser needs a profile directory of its own, made for
    /// this run: no user data directory was set.
    pub fn needs_temp_dir(&self) -> (needed: bool)
        ensures
            needed == (self.dir is None),
    {
        self.dir.is_none()
    }

    /// What the window is launched with. `temp_dir` is the directory made
    /// for this run; it serves where no user data directory was set.
    pub fn run(&self, temp_dir: &str) -> (launch: Launch)
        ensures
            launch.url@ == content_url(self.content),
            strings_view(launch.args@) == chrome_args_text(
                content_url(self.content),
                match self.dir {
                    Some(dir) => dir@,
                    None => temp_dir@,
                },
                self.width as int,
                self.height as int,
                self.custom_args@,
            ),
            launch.headless == has_arg(self.custom_args@, "--headless"@),
    {
        let url = self.content.url();
        let dir = match self.dir {
            Some(dir) => dir,
            None => temp_dir,
        };
        let args = chrome_args(url.as_str(), dir, self.width, self.height, self.custom_args);
        Launch { url, args, headless: is_headless(self.custom_args) }
    }

    /// Set the content (url or html text)
    pub fn content(&mut self, content: Content<'a>) -> (r: &mut Self)
        ensures
            *r == (UIBuilder { content, ..*old(self) }),
            *final(self) == *final(r),
    {
        self.content = content;
        self
    }

    /// Set the user data directory. By default it is a temporary directory.
    pub fn user_data_dir(&mut self, dir: &'a str) -> (r: &mut Self)
        ensures
            *r == (UIBuilder { dir: Some(dir), ..*old(self) }),
            *final(self) == *final(r),
    {
        self.dir = Some(dir);
        self
    }

    /// Set the window size
    pub fn size(&mut self, width: i32, height: i32) -> (r: &mut Self)
        ensures
            *r == (UIBuilder { width, height, ..*old(self) }),
            *final(self) == *final(r),
    {
        self.width = width;
        self.height = height;
        self
    }

    /// Add custom arguments to spawn chrome with
    pub fn custom_args(&mut self, custom_args: &'a [&'a str]) -> (r: &mut Self)
        ensures
            *r == (UIBuilder { custom_args, ..*old(self) }),
            *final(self) == *final(r),
    {
        self.custom_args = custom_args;
        self
    }
}

} // verus!
