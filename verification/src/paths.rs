//! Rewrites of names and paths: dotted field paths, module paths and header guards.

use vstd::prelude::*;
use vstd::string::StringExecFns;
use crate::text::{chars_of, push_char, push_range, find, find_char, str_eq};

verus! {

/// What the character `c` of a field path becomes where fields are reached
/// through a pointer: a dot becomes an arrow.
pub open spec fn arrow_piece(c: char) -> Seq<char> {
    if c == '.' {
        seq!['-', '>']
    } else {
        seq![c]
    }
}

/// The field path `s` with every `.` replaced by `->`.
pub open spec fn arrow_path(s: Seq<char>) -> Seq<char>
    decreases s.len(),
{
    if s.len() == 0 {
        Seq::empty()
    } else {
        arrow_path(s.drop_last()) + arrow_piece(s.last())
    }
}

/// The dotted module path `s` with every `.` replaced by `/`.
pub open spec fn slash_path(s: Seq<char>) -> Seq<char> {
    Seq::new(s.len(), |i: int| if s[i] == '.' { '/' } else { s[i] })
}

/// The upper-case form of an ASCII letter; any other character is unchanged.
pub open spec fn ascii_upper(c: char) -> char {
    if 'a' <= c && c <= 'z' {
        ((c as int) - 32) as char
    } else {
        c
    }
}

/// The name of the header guard of the module `s`: its letters in upper case
/// and every `/` replaced by `_`.
pub open spec fn guard_name(s: Seq<char>) -> Seq<char> {
    Seq::new(s.len(), |i: int| if s[i] == '/' { '_' } else { ascii_upper(s[i]) })
}

/// The part of `s` before its first `c`; all of `s` if it has none.
pub open spec fn before_first(s: Seq<char>, c: char) -> Seq<char> {
    s.subrange(0, find(s, c))
}

/// The part of `s` after its first `c`; empty if it has none.
pub open spec fn after_first(s: Seq<char>, c: char) -> Seq<char> {
    if find(s, c) < s.len() {
        s.subrange(find(s, c) + 1, s.len() as int)
    } else {
        Seq::empty()
    }
}

/// The segments joined by `/`.
pub open spec fn join_segments(segments: Seq<Seq<char>>) -> Seq<char>
    decreases segments.len(),
{
    if segments.len() == 0 {
        Seq::empty()
    } else if segments.len() == 1 {
        segments[0]
    } else {
        join_segments(segments.drop_last()) + seq!['/'] + segments.last()
    }
}

/// The text of a path given by its components. An absolute path has the root
/// `/` as its first component, which is written once and not followed by a
/// second separator.
pub open spec fn path_text(components: Seq<Seq<char>>) -> Seq<char> {
    if components.len() > 0 && components[0] == seq!['/'] {
        seq!['/'] + join_segments(components.subrange(1, components.len() as int))
    } else {
        join_segments(components)
    }
}

/// Appends `name` to `out`, with every `.` replaced by `->`.
pub fn push_arrow_path(out: &mut String, name: &str)
    ensures
        final(out)@ == old(out)@ + arrow_path(name@),
{
    let chars = chars_of(name);
    let mut i: usize = 0;
    while i < chars.len()
        invariant
            i <= chars.len(),
            out@ == old(out)@ + arrow_path(chars@.take(i as int)),
        decreases chars.len() - i,
    {
        assert(chars@.take(i + 1).drop_last() == chars@.take(i as int));
        if chars[i] == '.' {
            push_char(out, '-');
            push_char(out, '>');
        } else {
            push_char(out, chars[i]);
        }
        i = i + 1;
    }
    assert(chars@.take(chars.len() as int) == chars@);
}

/// The dotted module path `name` with every `.` replaced by `/`.
pub fn to_slash_path(name: &str) -> (path: String)
    ensures
        path@ == slash_path(name@),
{
    let chars = chars_of(name);
    let mut path = String::new();
    let mut i: usize = 0;
    while i < chars.len()
        invariant
            i <= chars.len(),
            path@ == slash_path(chars@).take(i as int),
        decreases chars.len() - i,
    {
        push_char(&mut path, if chars[i] == '.' { '/' } else { chars[i] });
        i = i + 1;
    }
    path
}

fn upper(c: char) -> (r: char)
    ensures
        r == ascii_upper(c),
{
    if 'a' <= c && c <= 'z' {
        let b: u8 = c as u8;
        (b - 32) as char
    } else {
        c
    }
}

/// The name of the header guard of the module `name`.
pub fn to_guard_name(name: &str) -> (guard: String)
    ensures
        guard@ == guard_name(name@),
{
    let chars = chars_of(name);
    let mut guard = String::new();
    let mut i: usize = 0;
    while i < chars.len()
        invariant
            i <= chars.len(),
            guard@ == guard_name(chars@).take(i as int),
        decreases chars.len() - i,
    {
        push_char(&mut guard, if chars[i] == '/' { '_' } else { upper(chars[i]) });
        i = i + 1;
    }
    guard
}

/// Splits `name` at its first `c`: what stands before it and what stands after.
pub fn split_first(name: &str, c: char) -> (parts: (String, String))
    ensures
        parts.0@ == before_first(name@, c),
        parts.1@ == after_first(name@, c),
{
    let chars = chars_of(name);
    let at = find_char(&chars, c);
    let mut head = String::new();
    push_range(&mut head, &chars, 0, at);
    let mut tail = String::new();
    if at < chars.len() {
        push_range(&mut tail, &chars, at + 1, chars.len());
    }
    (head, tail)
}

/// Appends the segments, joined by `/`, starting with the one at `from`.
fn push_segments(out: &mut String, segments: &Vec<String>, from: usize)
    requires
        from <= segments.len(),
    ensures
        final(out)@ == old(out)@ + join_segments(segment_texts(segments@).subrange(from as int, segments.len() as int)),
{
    let ghost texts = segment_texts(segments@);
    let mut i: usize = from;
    while i < segments.len()
        invariant
            from <= i <= segments.len(),
            texts == segment_texts(segments@),
            out@ == old(out)@ + join_segments(texts.subrange(from as int, i as int)),
        decreases segments.len() - i,
    {
        let ghost sofar = texts.subrange(from as int, i as int);
        let ghost next = texts.subrange(from as int, i + 1);
        assert(next.drop_last() == sofar);
        if i > from {
            push_char(out, '/');
        } else {
        }
        out.append(segments[i].as_str());
        i = i + 1;
    }
}

/// The characters of each of the given strings.
pub open spec fn segment_texts(segments: Seq<String>) -> Seq<Seq<char>> {
    Seq::new(segments.len(), |i: int| segments[i]@)
}

/// Appends the text of the path that has the given components.
pub fn push_path(out: &mut String, components: &Vec<String>)
    ensures
        final(out)@ == old(out)@ + path_text(segment_texts(components@)),
{
    if components.len() > 0 && str_eq(components[0].as_str(), "/") {
        proof {
            reveal_strlit("/");
            assert("/"@ == seq!['/']);
        }
        push_char(out, '/');
        push_segments(out, components, 1);
    } else {
        proof {
            reveal_strlit("/");
            assert("/"@ == seq!['/']);
            assert(segment_texts(components@).subrange(0, components.len() as int) == segment_texts(components@));
        }
        push_segments(out, components, 0);
    }
}

} // verus!
