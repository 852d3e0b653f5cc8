//! Where a browser is looked for.

use vstd::prelude::*;

verus! {

/// The system that the browser is looked for on.
#[derive(Debug)]
pub enum Platform {
    Linux,
    MacOs,
    /// Windows, with the three directories that its environment names:
    /// `LocalAppData`, `ProgramFiles` and `ProgramFiles(x86)`.
    Windows { local_app_data: String, program_files: String, program_files_x86: String },
}

/// Why a question could not be put to the user.
#[derive(Debug)]
pub enum PromptError {
    /// Cannot display dialog.
    IOError(std::io::Error),
}

/// Why no browser was found.
#[derive(Debug)]
pub enum LocateChromeError {
    /// An installation of chrome/chromium could not be found.
    ChromeNotInstalledError,
    /// Download chrome prompt could not be displayed.
    PromptError(PromptError),
}

/// The places of a browser on a system, the preferred one first.
pub open spec fn known_paths(platform: Platform) -> Seq<Seq<char>> {
    match platform {
        Platform::MacOs => seq![
            "/Applications/Google Chrome.app/Contents/MacOS/Google Chrome"@,
            "/Applications/Google Chrome Canary.app/Contents/MacOS/Google Chrome Canary"@,
            "/Applications/Chromium.app/Contents/MacOS/Chromium"@,
            "/usr/bin/google-chrome-stable"@,
            "/usr/bin/google-chrome"@,
            "/usr/bin/chromium"@,
            "/usr/bin/chromium-browser"@,
        ],
        Platform::Linux => seq![
            "/usr/bin/google-chrome-stable"@,
            "/usr/bin/google-chrome"@,
            "/usr/bin/chromium"@,
            "/usr/bin/chromium-browser"@,
            "/snap/bin/chromium"@,
        ],
        Platform::Windows { local_app_data, program_files, program_files_x86 } => known_windows_paths(
            local_app_data@,
            program_files@,
            program_files_x86@,
        ),
    }
}

/// The places of a browser on Windows, under the three directories that
/// the environment names.
pub open spec fn known_windows_paths(
    local_app_data: Seq<char>,
    program_files: Seq<char>,
    program_files_x86: Seq<char>,
) -> Seq<Seq<char>> {
    seq![
        local_app_data + "/Google/Chrome/Application/chrome.exe"@,
        program_files + "/Google/Chrome/Application/chrome.exe"@,
        program_files_x86 + "/Google/Chrome/Application/chrome.exe"@,
        local_app_data + "/Chromium/Application/chrome.exe"@,
        program_files + "/Chromium/Application/chrome.exe"@,
        program_files_x86 + "/Chromium/Application/chrome.exe"@,
        program_files_x86 + "/Microsoft/Edge/Application/msedge.exe"@,
    ]
}

/// The characters of each string.
pub open spec fn strings_view(strings: Seq<String>) -> Seq<Seq<char>> {
    Seq::new(strings.len(), |i: int| strings[i]@)
}

/// The characters of a list that grew by one string are those of the
/// list, and then those of the string.
pub proof fn lemma_strings_view_push(strings: Seq<String>, last: String)
    ensures
        strings_view(strings.push(last)) == strings_view(strings).push(last@),
{
}

/// The places of a browser on `platform`, the preferred one first.
pub fn paths(platform: &Platform) -> (list: Vec<String>)
    ensures
        strings_view(list@) == known_paths(*platform),
{
    let mut list: Vec<String> = Vec::new();
    match platform {
        Platform::Windows { local_app_data, program_files, program_files_x86 } => {
            return windows_paths(
                local_app_data.as_str(),
                program_files.as_str(),
                program_files_x86.as_str(),
            );
        },
        Platform::MacOs => {
            list.push(
                String::from_str("/Applications/Google Chrome.app/Contents/MacOS/Google Chrome"),
            );
            list.push(
                String::from_str(
                    "/Applications/Google Chrome Canary.app/Contents/MacOS/Google Chrome Canary",
                ),
            );
            list.push(String::from_str("/Applications/Chromium.app/Contents/MacOS/Chromium"));
            list.push(String::from_str("/usr/bin/google-chrome-stable"));
            list.push(String::from_str("/usr/bin/google-chrome"));
            list.push(String::from_str("/usr/bin/chromium"));
            list.push(String::from_str("/usr/bin/chromium-browser"));
        },
        Platform::Linux => {
            list.push(String::from_str("/usr/bin/google-chrome-stable"));
            list.push(String::from_str("/usr/bin/google-chrome"));
            list.push(String::from_str("/usr/bin/chromium"));
            list.push(String::from_str("/usr/bin/chromium-browser"));
            list.push(String::from_str("/snap/bin/chromium"));
        },
    }
    list
}

/// The place `tail` under the directory `dir`.
fn under(dir: &str, tail: &str) -> (path: String)
    ensures
        path@ == dir@ + tail@,
{
    String::from_str(dir).concat(tail)
}

/// The places of a browser on Windows.
fn windows_paths(local_app_data: &str, program_files: &str, program_files_x86: &str) -> (list:
    Vec<String>)
    ensures
        strings_view(list@) == known_windows_paths(
            local_app_data@,
            program_files@,
            program_files_x86@,
        ),
{
    let mut list: Vec<String> = Vec::new();
    list.push(under(local_app_data, "/Google/Chrome/Application/chrome.exe"));
    list.push(under(program_files, "/Google/Chrome/Application/chrome.exe"));
    list.push(under(program_files_x86, "/Google/Chrome/Application/chrome.exe"));
    list.push(under(local_app_data, "/Chromium/Application/chrome.exe"));
    list.push(under(program_files, "/Chromium/Application/chrome.exe"));
    list.push(under(program_files_x86, "/Chromium/Application/chrome.exe"));
    list.push(under(program_files_x86, "/Microsoft/Edge/Application/msedge.exe"));
    list
}

/// The candidate at `i` is there. A candidate of which nothing is said is
/// taken to be missing.
pub open spec fn is_present(present: Seq<bool>, i: int) -> bool {
    0 <= i < present.len() && present[i]
}

/// `i` is the first candidate that is there.
pub open spec fn is_first_present(candidates: Seq<String>, present: Seq<bool>, i: int) -> bool {
    &&& 0 <= i < candidates.len()
    &&& is_present(present, i)
    &&& forall|j: int| 0 <= j < i ==> !is_present(present, j)
}

/// Picks the browser: the first of `candidates` that is there, where
/// `present` tells of each candidate whether it is. Without one,
/// `ChromeNotInstalledError`.
pub fn locate_chrome(candidates: &Vec<String>, present: &Vec<bool>) -> (r: Result<
    String,
    LocateChromeError,
>)
    ensures
        r matches Ok(path) ==> exists|i: int|
            is_first_present(candidates@, present@, i) && path@ == candidates@[i]@,
        r matches Err(e) ==> e is ChromeNotInstalledError && forall|i: int|
            0 <= i < candidates.len() ==> !is_present(present@, i),
{
    let mut i: usize = 0;
    while i < candidates.len()
        invariant
            i <= candidates.len(),
            forall|j: int| 0 <= j < i ==> !is_present(present@, j),
        decreases candidates.len() - i,
    {
        if i < present.len() && present[i] {
            assert(is_first_present(candidates@, present@, i as int));
            return Ok(candidates[i].clone());
        }
        i += 1;
    }
    Err(LocateChromeError::ChromeNotInstalledError)
}

/// The title of the question that is asked where no browser was found.
pub const PROMPT_TITLE: &'static str = "Chrome not found";

/// The question that is asked where no browser was found.
pub const PROMPT_TEXT: &'static str =
    "No Chrome/Chromium installation was found. Would you like to download and install it now?";

/// Where a browser can be had.
pub const DOWNLOAD_URL: &'static str = "https://www.google.com/chrome/";

/// The words of the command that shows the download page, the program
/// first.
pub open spec fn download_words(platform: Platform) -> Seq<Seq<char>> {
    match platform {
        Platform::Linux => seq!["xdg-open"@, DOWNLOAD_URL@],
        Platform::MacOs => seq!["open"@, DOWNLOAD_URL@],
        Platform::Windows { .. } => seq!["cmd"@, "/c"@, "start"@, DOWNLOAD_URL@],
    }
}

/// What is to be done once the user has answered the question whether to
/// download a browser: nothing after a no, and after a yes the command that
/// shows the download page is to be run.
pub fn prompt_download(platform: &Platform, answer: bool) -> (command: Option<Vec<String>>)
    ensures
        command is Some <==> answer,
        command matches Some(words) ==> strings_view(words@) == download_words(*platform),
{
    if !answer {
        return None;
    }
    let mut words: Vec<String> = Vec::new();
    match platform {
        Platform::Linux => words.push(String::from_str("xdg-open")),
        Platform::MacOs => words.push(String::from_str("open")),
        Platform::Windows { .. } => {
            words.push(String::from_str("cmd"));
            words.push(String::from_str("/c"));
            words.push(String::from_str("start"));
        },
    }
    words.push(String::from_str(DOWNLOAD_URL));
    Some(words)
}

} // verus!
