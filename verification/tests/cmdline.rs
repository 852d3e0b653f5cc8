use alcro::cmdline::{append_arg, ensure_no_nuls, make_command_line, CommandLineError};

fn wide(s: &str) -> Vec<u16> {
    s.encode_utf16().collect()
}

fn line(prog: &str, args: &[&str]) -> String {
    let args: Vec<Vec<u16>> = args.iter().map(|a| wide(a)).collect();
    let cmd = make_command_line(&wide(prog), &args).unwrap();
    assert_eq!(cmd.last(), Some(&0));
    String::from_utf16(&cmd[..cmd.len() - 1]).unwrap()
}

fn appended(arg: &str, force_quotes: bool) -> String {
    let mut cmd = wide("x ");
    append_arg(&mut cmd, &wide(arg), force_quotes).unwrap();
    String::from_utf16(&cmd).unwrap()
}

#[test]
fn program_is_always_quoted() {
    assert_eq!(line("chrome", &[]), "\"chrome\"");
    assert_eq!(line("C:\\Program Files\\chrome.exe", &[]), "\"C:\\Program Files\\chrome.exe\"");
}

#[test]
fn plain_arguments_stay_as_they_are() {
    assert_eq!(
        line("chrome", &["--headless", "--window-size=800,600"]),
        "\"chrome\" --headless --window-size=800,600"
    );
}

#[test]
fn arguments_with_blanks_are_quoted() {
    assert_eq!(line("c", &["a b"]), "\"c\" \"a b\"");
    assert_eq!(line("c", &["a\tb"]), "\"c\" \"a\tb\"");
    assert_eq!(line("c", &["--user-data-dir=C:\\My Data"]), "\"c\" \"--user-data-dir=C:\\My Data\"");
}

#[test]
fn empty_argument_is_quoted() {
    assert_eq!(line("c", &["", "x"]), "\"c\" \"\" x");
}

#[test]
fn quotes_are_escaped() {
    assert_eq!(appended("a\"b", false), "x a\\\"b");
    assert_eq!(appended("\"", false), "x \\\"");
    assert_eq!(appended("say \"hi\"", false), "x \"say \\\"hi\\\"\"");
}

#[test]
fn backslashes_before_a_quote_are_doubled() {
    assert_eq!(appended("a\\\"b", false), "x a\\\\\\\"b");
    assert_eq!(appended("a\\\\\"b", false), "x a\\\\\\\\\\\"b");
}

#[test]
fn other_backslashes_stay() {
    assert_eq!(appended("a\\b", false), "x a\\b");
    assert_eq!(appended("a\\\\b\\", false), "x a\\\\b\\");
}

#[test]
fn backslashes_before_the_closing_quote_are_doubled() {
    assert_eq!(appended("dir\\", true), "x \"dir\\\\\"");
    assert_eq!(appended("my dir\\\\", false), "x \"my dir\\\\\\\\\"");
    assert_eq!(appended("\\", true), "x \"\\\\\"");
}

#[test]
fn nul_is_refused() {
    assert_eq!(ensure_no_nuls(&wide("abc")), Ok(()));
    assert_eq!(ensure_no_nuls(&wide("")), Ok(()));
    assert_eq!(ensure_no_nuls(&wide("a\0c")), Err(CommandLineError::NulFound));
    let mut cmd = wide("keep");
    assert_eq!(append_arg(&mut cmd, &wide("a\0"), true), Err(CommandLineError::NulFound));
    assert_eq!(cmd, wide("keep"));
    assert_eq!(make_command_line(&wide("p\0"), &[]), Err(CommandLineError::NulFound));
    assert_eq!(
        make_command_line(&wide("p"), &[wide("ok"), wide("\0")]),
        Err(CommandLineError::NulFound)
    );
}

#[test]
fn command_line_ends_with_one_nul() {
    let cmd = make_command_line(&wide("p"), &[wide("a")]).unwrap();
    assert_eq!(cmd, wide("\"p\" a\0"));
}

#[test]
fn units_beyond_ascii_pass_through() {
    assert_eq!(line("c", &["é€😀"]), "\"c\" é€😀");
}

/// Cuts a command line into arguments as a process does: backslashes count
/// only before a quote, and a blank outside quotes ends an argument.
fn cut(line: &[u16]) -> Vec<Vec<u16>> {
    let mut args = Vec::new();
    let mut current = Vec::new();
    let (mut started, mut in_quotes, mut backslashes) = (false, false, 0usize);
    for &x in line {
        if x == 92 {
            backslashes += 1;
            started = true;
        } else if x == 34 {
            current.extend(std::iter::repeat(92).take(backslashes / 2));
            if backslashes % 2 == 1 {
                current.push(34);
            } else {
                in_quotes = !in_quotes;
            }
            backslashes = 0;
            started = true;
        } else if (x == 32 || x == 9) && !in_quotes {
            if started {
                current.extend(std::iter::repeat(92).take(backslashes));
                args.push(std::mem::take(&mut current));
                started = false;
                backslashes = 0;
            }
        } else {
            current.extend(std::iter::repeat(92).take(backslashes));
            current.push(x);
            backslashes = 0;
            started = true;
        }
    }
    if started {
        current.extend(std::iter::repeat(92).take(backslashes));
        args.push(current);
    }
    args
}

#[test]
fn command_line_is_cut_back_into_its_arguments() {
    let samples = [
        "", "a", "a b", "\t", "\"", "\"\"", "\\", "\\\\", "a\\", "a b\\", "a\\\"b", "\\\"",
        "\\\\\"", "\"a b\"", " ", "  x  ", "a\\\\ b\\\\", "--flag=\"quoted value\"", "é€😀 ü",
        "C:\\Program Files\\x\\", "\\\\\\", "\" \\\" \\\\\" ",
    ];
    for prog in samples {
        for first in samples {
            for second in ["", "x y", "\\\"", "plain"] {
                let args = vec![wide(first), wide(second)];
                let cmd = make_command_line(&wide(prog), &args).unwrap();
                let cut_back = cut(&cmd[..cmd.len() - 1]);
                assert_eq!(cut_back, vec![wide(prog), wide(first), wide(second)]);
            }
        }
    }
    let cmd = make_command_line(&wide("p"), &[]).unwrap();
    assert_eq!(cut(&cmd[..cmd.len() - 1]), vec![wide("p")]);
}
