//! The two small text-resource grammars: file references and parser
//! directives.

use vstd::prelude::*;
use crate::error::Error;

verus! {

/// Whether a character counts as a letter for a parser name.
pub open spec fn is_alpha(c: char) -> bool {
    ('a' as u32 <= c as u32 && c as u32 <= 'z' as u32) || ('A' as u32 <= c as u32 && c as u32
        <= 'Z' as u32)
}

/// Whether a character may continue a parser name: letters, digits and
/// underscores.
pub open spec fn is_word(c: char) -> bool {
    is_alpha(c) || ('0' as u32 <= c as u32 && c as u32 <= '9' as u32) || c == '_'
}

pub open spec fn is_blank(c: char) -> bool {
    c == ' ' || c == '\t'
}

/// The first index at or after `i` holding no space or tab (or the end).
pub open spec fn blank_run_end(s: Seq<char>, i: int) -> int
    decreases s.len() - i,
    when 0 <= i <= s.len()
{
    if i < s.len() && is_blank(s[i]) {
        blank_run_end(s, i + 1)
    } else {
        i
    }
}

/// The first index at or after `i` holding no word character (or the end).
pub open spec fn word_run_end(s: Seq<char>, i: int) -> int
    decreases s.len() - i,
    when 0 <= i <= s.len()
{
    if i < s.len() && is_word(s[i]) {
        word_run_end(s, i + 1)
    } else {
        i
    }
}

/// A text that names a file instead of holding content: `!![path]` on a
/// single line, with the path between the brackets.
pub open spec fn is_file_ref(s: Seq<char>) -> bool {
    s.len() >= 4 && s[0] == '!' && s[1] == '!' && s[2] == '[' && s.last() == ']' && (forall|i: int|
        3 <= i < s.len() - 1 ==> s[i] != '\n')
}

/// A leading parser directive `!!<name>`, with trailing blanks, an optional
/// line break and one optional further blank line consumed. Yields the
/// parser name and the index where the body begins.
pub open spec fn directive(s: Seq<char>) -> Option<(Seq<char>, int)> {
    if s.len() >= 4 && s[0] == '!' && s[1] == '!' && s[2] == '<' && is_alpha(s[3]) {
        let e = word_run_end(s, 4);
        if e < s.len() && s[e] == '>' {
            let p1 = blank_run_end(s, e + 1);
            let p2 = if p1 < s.len() && s[p1] == '\n' {
                p1 + 1
            } else {
                p1
            };
            let p3 = blank_run_end(s, p2);
            let end = if p3 < s.len() && s[p3] == '\n' {
                p3 + 1
            } else {
                p2
            };
            Some((s.subrange(3, e), end))
        } else {
            None
        }
    } else {
        None
    }
}

/// Recognizes a file reference and returns the path it names.
pub fn text_or_file(text: &String) -> (r: Option<String>)
    ensures
        match r {
            Some(p) => is_file_ref(text@) && p@ == text@.subrange(3, text@.len() - 1),
            None => !is_file_ref(text@),
        },
{
    let s = text.as_str();
    let n = s.unicode_len();
    if n < 4 {
        return None;
    }
    if s.get_char(0) != '!' || s.get_char(1) != '!' || s.get_char(2) != '[' || s.get_char(n - 1)
        != ']' {
        return None;
    }
    let mut i: usize = 3;
    while i < n - 1
        invariant
            s@ == text@,
            n == text@.len(),
            4 <= n,
            3 <= i <= n - 1,
            forall|j: int| 3 <= j < i ==> text@[j] != '\n',
        decreases n - i,
    {
        if s.get_char(i) == '\n' {
            return None;
        }
        i += 1;
    }
    Some(s.substring_char(3, n - 1).to_owned())
}

/// A text resource, classified: either a body for the lightweight markup
/// renderer, or plain text shown as one label.
#[derive(Debug, PartialEq)]
pub enum TextContent {
    EasyMark(String),
    Plain(String),
}

fn blank_run(s: &str, i: usize) -> (r: usize)
    requires
        i <= s@.len(),
    ensures
        i <= r <= s@.len(),
        r == blank_run_end(s@, i as int),
{
    let n = s.unicode_len();
    let mut cur: usize = i;
    while cur < n
        invariant
            n == s@.len(),
            i <= cur <= n,
            blank_run_end(s@, i as int) == blank_run_end(s@, cur as int),
        ensures
            i <= cur <= n,
            blank_run_end(s@, i as int) == cur,
        decreases n - cur,
    {
        let c = s.get_char(cur);
        if c != ' ' && c != '\t' {
            break;
        }
        cur += 1;
    }
    cur
}

fn word_run(s: &str, i: usize) -> (r: usize)
    requires
        i <= s@.len(),
    ensures
        i <= r <= s@.len(),
        r == word_run_end(s@, i as int),
{
    let n = s.unicode_len();
    let mut cur: usize = i;
    while cur < n
        invariant
            n == s@.len(),
            i <= cur <= n,
            word_run_end(s@, i as int) == word_run_end(s@, cur as int),
        ensures
            i <= cur <= n,
            word_run_end(s@, i as int) == cur,
        decreases n - cur,
    {
        let c = s.get_char(cur);
        if !is_word_char(c) {
            break;
        }
        cur += 1;
    }
    cur
}

fn is_alpha_char(c: char) -> (r: bool)
    ensures
        r == is_alpha(c),
{
    let u = c as u32;
    ('a' as u32 <= u && u <= 'z' as u32) || ('A' as u32 <= u && u <= 'Z' as u32)
}

fn is_word_char(c: char) -> (r: bool)
    ensures
        r == is_word(c),
{
    let u = c as u32;
    is_alpha_char(c) || ('0' as u32 <= u && u <= '9' as u32) || c == '_'
}

/// Splits a text resource into its optional parser directive and its body.
///
/// A directive naming the lightweight markup parser yields the body behind
/// it; an unknown parser name fails; a text without a directive is plain.
pub fn parse_text(text: &String) -> (r: Result<TextContent, Error>)
    ensures
        match r {
            Ok(TextContent::Plain(b)) => directive(text@) is None && b@ == text@,
            Ok(TextContent::EasyMark(b)) => directive(text@) matches Some(d) && d.0
                == "easy_mark"@ && b@ == text@.skip(d.1),
            Err(e) => directive(text@) matches Some(d) && d.0 != "easy_mark"@
                && e is TaskDefinitionError,
        },
{
    let s = text.as_str();
    let n = s.unicode_len();
    if n < 4 || s.get_char(0) != '!' || s.get_char(1) != '!' || s.get_char(2) != '<'
        || !is_alpha_char(s.get_char(3)) {
        return Ok(TextContent::Plain(text.clone()));
    }
    let e = word_run(s, 4);
    if e == n || s.get_char(e) != '>' {
        return Ok(TextContent::Plain(text.clone()));
    }
    let p1 = blank_run(s, e + 1);
    let p2 = if p1 < n && s.get_char(p1) == '\n' {
        p1 + 1
    } else {
        p1
    };
    let p3 = blank_run(s, p2);
    let end = if p3 < n && s.get_char(p3) == '\n' {
        p3 + 1
    } else {
        p2
    };
    let name = s.substring_char(3, e).to_owned();
    if name == String::from_str("easy_mark") {
        Ok(TextContent::EasyMark(s.substring_char(end, n).to_owned()))
    } else {
        Err(Error::TaskDefinitionError(String::from_str("Unknown text parser.")))
    }
}

} // verus!
