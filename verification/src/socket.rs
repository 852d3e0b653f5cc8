//! Reaching the browser over a socket instead of the pipe.
//!
//! A browser that is started with a debugging port announces the address of
//! its WebSocket on its error stream. A socket carries whole messages, so
//! nothing is framed here: only the announcement is read.

use vstd::prelude::*;
use vstd::string::*;

verus! {

/// What the announcement begins with.
pub const LISTENING: &'static str = "DevTools listening on ";

/// What the address of a WebSocket begins with.
pub const SCHEME: &'static str = "ws://";

/// The line without the line break that ends it, if one does.
pub open spec fn without_line_break(line: Seq<char>) -> Seq<char>
    decreases line.len(),
{
    if line.len() > 0 && (line.last() == '\n' || line.last() == '\r') {
        without_line_break(line.drop_last())
    } else {
        line
    }
}

/// `text` begins with `prefix`.
pub open spec fn begins_with(text: Seq<char>, prefix: Seq<char>) -> bool {
    prefix.len() <= text.len() && text.take(prefix.len() as int) == prefix
}

/// The address that a line of the browser's error stream announces: what
/// follows `DevTools listening on `, up to the end of the line, where that
/// is the address of a WebSocket. `None` for every other line.
pub open spec fn announced_url(line: Seq<char>) -> Option<Seq<char>> {
    let text = without_line_break(line);
    if begins_with(text, LISTENING@) && begins_with(text.skip(LISTENING@.len() as int), SCHEME@) {
        Some(text.skip(LISTENING@.len() as int))
    } else {
        None
    }
}

/// Whether `text` has the characters of `word` from `at` on.
fn has_at(text: &str, at: usize, word: &str) -> (found: bool)
    requires
        at <= text@.len(),
    ensures
        found == begins_with(text@.skip(at as int), word@),
{
    let n = word.unicode_len();
    let len = text.unicode_len();
    if len - at < n {
        return false;
    }
    let mut i: usize = 0;
    while i < n
        invariant
            i <= n,
            n == word@.len(),
            len == text@.len(),
            at + n <= len,
            forall|j: int| 0 <= j < i ==> text@[at + j] == word@[j],
        decreases n - i,
    {
        if text.get_char(at + i) != word.get_char(i) {
            assert(text@.skip(at as int).take(n as int)[i as int] != word@[i as int]);
            return false;
        }
        i += 1;
    }
    assert(text@.skip(at as int).take(n as int) =~= word@);
    true
}

/// Reads the address of the browser's WebSocket out of one line of its
/// error stream.
pub fn websocket_url(line: &str) -> (url: Option<String>)
    ensures
        match url {
            Some(u) => announced_url(line@) == Some(u@),
            None => announced_url(line@) is None,
        },
{
    let mut end = line.unicode_len();
    proof {
        assert(line@.take(end as int) =~= line@);
    }
    while end > 0 && (line.get_char(end - 1) == '\n' || line.get_char(end - 1) == '\r')
        invariant
            end <= line@.len(),
            without_line_break(line@) == without_line_break(line@.take(end as int)),
        decreases end,
    {
        proof {
            assert(line@.take(end as int).drop_last() =~= line@.take(end as int - 1));
        }
        end -= 1;
    }
    let text = line.substring_char(0, end);
    proof {
        assert(line@.take(end as int) =~= line@.subrange(0, end as int));
        assert(text@ == without_line_break(line@));
    }
    let start = LISTENING.unicode_len();
    if has_at(text, 0, LISTENING) && has_at(text, start, SCHEME) {
        proof {
            assert(text@.skip(0) =~= text@);
            assert(text@.subrange(start as int, end as int) =~= text@.skip(start as int));
        }
        Some(String::from_str(text.substring_char(start, end)))
    } else {
        proof {
            assert(text@.skip(0) =~= text@);
        }
        None
    }
}

} // verus!
