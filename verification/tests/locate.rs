use alcro::locate::{locate_chrome, paths, prompt_download, LocateChromeError, Platform};

fn windows() -> Platform {
    Platform::Windows {
        local_app_data: "C:/Local".to_string(),
        program_files: "C:/PF".to_string(),
        program_files_x86: "C:/PF86".to_string(),
    }
}

#[test]
fn test_locate_chrome() {
    let candidates = paths(&Platform::Linux);
    let present = vec![false, true, false, true, false];
    assert!(locate_chrome(&candidates, &present).is_ok())
}

#[test]
fn locate_picks_the_first_that_is_there() {
    let candidates = paths(&Platform::Linux);
    let present = vec![false, false, true, true, false];
    assert_eq!(locate_chrome(&candidates, &present).unwrap(), "/usr/bin/chromium");
}

#[test]
fn locate_fails_without_a_browser() {
    let candidates = paths(&Platform::MacOs);
    let present = vec![false; 7];
    assert!(matches!(
        locate_chrome(&candidates, &present),
        Err(LocateChromeError::ChromeNotInstalledError)
    ));
}

#[test]
fn locate_takes_a_short_report_for_missing() {
    let candidates = paths(&Platform::Linux);
    assert!(locate_chrome(&candidates, &vec![]).is_err());
    assert!(locate_chrome(&vec![], &vec![true]).is_err());
    assert_eq!(
        locate_chrome(&candidates, &vec![true]).unwrap(),
        "/usr/bin/google-chrome-stable"
    );
}

#[test]
fn paths_are_listed_in_order() {
    assert_eq!(
        paths(&Platform::Linux),
        vec![
            "/usr/bin/google-chrome-stable",
            "/usr/bin/google-chrome",
            "/usr/bin/chromium",
            "/usr/bin/chromium-browser",
            "/snap/bin/chromium",
        ]
    );
    let mac = paths(&Platform::MacOs);
    assert_eq!(mac.len(), 7);
    assert_eq!(mac[0], "/Applications/Google Chrome.app/Contents/MacOS/Google Chrome");
    assert_eq!(
        mac[1],
        "/Applications/Google Chrome Canary.app/Contents/MacOS/Google Chrome Canary"
    );
    assert_eq!(mac[2], "/Applications/Chromium.app/Contents/MacOS/Chromium");
    assert_eq!(mac[6], "/usr/bin/chromium-browser");
}

#[test]
fn windows_paths_stand_under_the_three_directories() {
    assert_eq!(
        paths(&windows()),
        vec![
            "C:/Local/Google/Chrome/Application/chrome.exe",
            "C:/PF/Google/Chrome/Application/chrome.exe",
            "C:/PF86/Google/Chrome/Application/chrome.exe",
            "C:/Local/Chromium/Application/chrome.exe",
            "C:/PF/Chromium/Application/chrome.exe",
            "C:/PF86/Chromium/Application/chrome.exe",
            "C:/PF86/Microsoft/Edge/Application/msedge.exe",
        ]
    );
}

#[test]
fn prompt_download_runs_nothing_after_a_no() {
    assert_eq!(prompt_download(&Platform::Linux, false), None);
    assert_eq!(prompt_download(&windows(), false), None);
}

#[test]
fn prompt_download_shows_the_page_after_a_yes() {
    assert_eq!(
        prompt_download(&Platform::Linux, true),
        Some(vec!["xdg-open".to_string(), "https://www.google.com/chrome/".to_string()])
    );
    assert_eq!(
        prompt_download(&Platform::MacOs, true),
        Some(vec!["open".to_string(), "https://www.google.com/chrome/".to_string()])
    );
    assert_eq!(
        prompt_download(&windows(), true),
        Some(vec![
            "cmd".to_string(),
            "/c".to_string(),
            "start".to_string(),
            "https://www.google.com/chrome/".to_string()
        ])
    );
}
