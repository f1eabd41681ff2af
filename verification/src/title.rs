//! Hints read from a window's title: the project an IDE had open, and the
//! multiplexer session a terminal was attached to.
//!
//! A title that holds no hint is the ordinary case, not an error.

use vstd::prelude::*;
use vstd::string::*;
use crate::text::{
    find_char, lemma_position, lemma_trimmed, position, text_of, trim, trimmed,
};

verus! {

/// The glyph that stands between the host name and the session name.
pub const SESSION_MARK: char = '\u{2750}';

/// The glyph that ends the session name.
pub const SESSION_END_MARK: char = '\u{25cf}';

/// The text of the home directory; empty where none is known.
pub open spec fn home_text(home: Option<Seq<char>>) -> Seq<char> {
    match home {
        Some(h) => h,
        None => Seq::empty(),
    }
}

/// `path` with a leading `~` replaced by the home directory.
pub open spec fn expand_home(path: Seq<char>, home: Option<Seq<char>>) -> Seq<char> {
    if path.len() > 0 && path[0] == '~' {
        home_text(home) + path.subrange(1, path.len() as int)
    } else {
        path
    }
}

/// The project path in `title`: what stands between the first `[` and the
/// first `]`, where the `[` comes first, with a leading `~` expanded.
pub open spec fn project_path(title: Seq<char>, home: Option<Seq<char>>) -> Option<Seq<char>> {
    let open = position(title, '[');
    let close = position(title, ']');
    if open < close && close < title.len() {
        Some(expand_home(title.subrange(open + 1, close), home))
    } else {
        None
    }
}

/// Reads the project path from the title of an IDE window.
pub fn extract_project_path(title: &str, home: Option<&str>) -> (r: Option<String>)
    ensures
        match r {
            Some(p) => project_path(title@, text_of(home)) == Some(p@),
            None => project_path(title@, text_of(home)).is_none(),
        },
{
    let open = match find_char(title, '[') {
        Some(i) => i,
        None => {
            return None;
        },
    };
    let close = match find_char(title, ']') {
        Some(i) => i,
        None => {
            return None;
        },
    };
    if open >= close {
        return None;
    }
    let inner: &str = title.substring_char(open + 1, close);
    let n: usize = inner.unicode_len();
    if n > 0 && inner.get_char(0) == '~' {
        let rest: &str = inner.substring_char(1, n);
        let expanded = match home {
            Some(h) => String::from_str(h).concat(rest),
            None => String::from_str(rest),
        };
        assert(expanded@ =~= expand_home(inner@, text_of(home)));
        Some(expanded)
    } else {
        Some(String::from_str(inner))
    }
}

/// The host and the session in `title`: the trimmed text before the first
/// session mark and the trimmed text between it and the first end mark,
/// where the marks stand in that order and neither text is empty.
pub open spec fn multiplexer_session(title: Seq<char>) -> Option<(Seq<char>, Seq<char>)> {
    let mark = position(title, SESSION_MARK);
    let end = position(title, SESSION_END_MARK);
    if mark < end && end < title.len() {
        let host = trimmed(title.subrange(0, mark));
        let session = trimmed(title.subrange(mark + 1, end));
        if host.len() > 0 && session.len() > 0 {
            Some((host, session))
        } else {
            None
        }
    } else {
        None
    }
}

/// Reads the host name and the session name from the title of a terminal
/// that is attached to a multiplexer session.
pub fn extract_multiplexer_session(title: &str) -> (r: Option<(String, String)>)
    ensures
        match r {
            Some(found) => multiplexer_session(title@) == Some((found.0@, found.1@)),
            None => multiplexer_session(title@).is_none(),
        },
{
    let mark = match find_char(title, SESSION_MARK) {
        Some(i) => i,
        None => {
            return None;
        },
    };
    let end = match find_char(title, SESSION_END_MARK) {
        Some(i) => i,
        None => {
            return None;
        },
    };
    if mark >= end {
        return None;
    }
    let host: &str = trim(title.substring_char(0, mark));
    let session: &str = trim(title.substring_char(mark + 1, end));
    if host.unicode_len() == 0 || session.unicode_len() == 0 {
        return None;
    }
    Some((String::from_str(host), String::from_str(session)))
}

/// A title without both marks, or with the end mark first, holds no session;
/// a host or session that is found is not empty and has no white space at
/// either end.
pub proof fn lemma_multiplexer_session(title: Seq<char>)
    ensures
        !title.contains(SESSION_MARK) || !title.contains(SESSION_END_MARK)
            ==> multiplexer_session(title).is_none(),
        title.len() > 0 && title[0] == SESSION_MARK ==> multiplexer_session(title).is_none(),
        match multiplexer_session(title) {
            Some((host, session)) => host.len() > 0 && session.len() > 0 && trimmed(host) == host
                && trimmed(session) == session,
            None => true,
        },
{
    lemma_position(title, SESSION_MARK);
    lemma_position(title, SESSION_END_MARK);
    let mark = position(title, SESSION_MARK);
    let end = position(title, SESSION_END_MARK);
    if mark < end && end < title.len() {
        assert(title.contains(SESSION_MARK));
        assert(title.contains(SESSION_END_MARK));
        lemma_trimmed(title.subrange(0, mark));
        lemma_trimmed(title.subrange(mark + 1, end));
    }
}

/// A title without brackets, or with its first `]` before its first `[`,
/// holds no project path.
pub proof fn lemma_project_path(title: Seq<char>, home: Option<Seq<char>>)
    ensures
        !title.contains('[') || !title.contains(']') ==> project_path(title, home).is_none(),
        position(title, ']') < position(title, '[') ==> project_path(title, home).is_none(),
{
    lemma_position(title, '[');
    lemma_position(title, ']');
    let open = position(title, '[');
    let close = position(title, ']');
    if open < close && close < title.len() {
        assert(title.contains('['));
        assert(title.contains(']'));
    }
}

} // verus!
