//! Logical names: an image is cached under the name of its file without
//! the directories in front of it and without its extension.
//!
//! Names are taken apart as UTF-8 bytes. The separators and the dot are
//! ASCII, so a name is only ever cut between characters.

use vstd::prelude::*;
use vstd::string::StringSliceAdditionalSpecFns;
use vstd::utf8::{decode_utf8, encode_utf8};

verus! {

/// Whether `byte` separates the parts of a path: a slash or a backslash.
pub open spec fn is_separator(byte: u8) -> bool {
    byte == 0x2F || byte == 0x5C
}

/// Whether `byte` is the dot that sets off an extension.
pub open spec fn is_dot(byte: u8) -> bool {
    byte == 0x2E
}

/// The position just after the last separator of `s`, or 0 if it has none.
pub open spec fn base_start(s: Seq<u8>) -> int
    decreases s.len(),
{
    if s.len() == 0 {
        0
    } else if is_separator(s.last()) {
        s.len() as int
    } else {
        base_start(s.drop_last())
    }
}

/// The position of the last dot of `s`, or -1 if it has none.
pub open spec fn last_dot(s: Seq<u8>) -> int
    decreases s.len(),
{
    if s.len() == 0 {
        -1
    } else if is_dot(s.last()) {
        s.len() - 1
    } else {
        last_dot(s.drop_last())
    }
}

/// The part of a path after its last separator.
pub open spec fn spec_base_name(path: Seq<u8>) -> Seq<u8> {
    path.subrange(base_start(path), path.len() as int)
}

/// A file name without its extension: the part before the last dot. A
/// name without a dot, or with its only dot in front, is its own stem.
pub open spec fn spec_stem(name: Seq<u8>) -> Seq<u8> {
    if last_dot(name) > 0 {
        name.subrange(0, last_dot(name))
    } else {
        name
    }
}

/// The logical name of a file, as UTF-8 bytes.
pub open spec fn spec_logical_bytes(path: Seq<u8>) -> Seq<u8> {
    spec_stem(spec_base_name(path))
}

/// The logical name of a file.
pub open spec fn spec_logical_name(path: Seq<char>) -> Seq<char> {
    decode_utf8(spec_logical_bytes(encode_utf8(path)))
}

fn find_base_start(bytes: &[u8]) -> (start: usize)
    ensures
        start == base_start(bytes@),
        start <= bytes.len(),
        start > 0 ==> is_separator(bytes[start - 1]),
{
    let mut start: usize = 0;
    let mut i: usize = 0;
    while i < bytes.len()
        invariant
            i <= bytes.len(),
            start <= i,
            start == base_start(bytes@.take(i as int)),
            start > 0 ==> is_separator(bytes[start - 1]),
        decreases bytes.len() - i,
    {
        proof {
            assert(bytes@.take(i + 1).drop_last() =~= bytes@.take(i as int));
        }
        if bytes[i] == 0x2F || bytes[i] == 0x5C {
            start = i + 1;
        }
        i += 1;
    }
    assert(bytes@.take(i as int) =~= bytes@);
    start
}

fn find_last_dot(bytes: &[u8]) -> (dot: Option<usize>)
    ensures
        match dot {
            Some(d) => d == last_dot(bytes@) && d < bytes.len() && is_dot(bytes[d as int]),
            None => last_dot(bytes@) == -1,
        },
{
    let mut dot: Option<usize> = None;
    let mut i: usize = 0;
    while i < bytes.len()
        invariant
            i <= bytes.len(),
            match dot {
                Some(d) => d == last_dot(bytes@.take(i as int)) && d < i && is_dot(bytes[d as int]),
                None => last_dot(bytes@.take(i as int)) == -1,
            },
        decreases bytes.len() - i,
    {
        proof {
            assert(bytes@.take(i + 1).drop_last() =~= bytes@.take(i as int));
        }
        if bytes[i] == 0x2E {
            dot = Some(i);
        }
        i += 1;
    }
    assert(bytes@.take(i as int) =~= bytes@);
    dot
}

/// The part of `path` after its last slash or backslash.
pub fn base_name<'a>(path: &'a str) -> (base: &'a str)
    ensures
        base.spec_bytes() == spec_base_name(path.spec_bytes()),
{
    broadcast use vstd::utf8::group_utf8_lib;

    let start = find_base_start(path.as_bytes());
    if start == 0 {
        assert(path.spec_bytes().subrange(0, path.spec_bytes().len() as int)
            =~= path.spec_bytes());
        return path;
    }
    assert(!vstd::utf8::is_continuation_byte(path.spec_bytes()[start - 1]));
    let (_, tail) = path.split_at(start - 1);
    proof {
        let t = tail.spec_bytes();
        assert(t[0] == path.spec_bytes()[start - 1]);
        assert(vstd::utf8::is_leading_byte_width_1(t[0])) by {
            let b = t[0];
            assert(b == 0x2F || b == 0x5C);
            assert(b & 0x80 == 0) by (bit_vector)
                requires
                    b == 0x2F || b == 0x5C,
            ;
        }
        reveal_with_fuel(vstd::utf8::is_char_boundary, 2);
        assert(vstd::utf8::is_char_boundary(t, 1));
    }
    let (_, base) = tail.split_at(1);
    assert(base.spec_bytes() =~= spec_base_name(path.spec_bytes()));
    base
}

/// `name` without its extension.
pub fn stem<'a>(name: &'a str) -> (stem: &'a str)
    ensures
        stem.spec_bytes() == spec_stem(name.spec_bytes()),
{
    broadcast use vstd::utf8::group_utf8_lib;

    match find_last_dot(name.as_bytes()) {
        Some(dot) => {
            if dot == 0 {
                name
            } else {
                assert(!vstd::utf8::is_continuation_byte(name.spec_bytes()[dot as int]));
                let (stem, _) = name.split_at(dot);
                stem
            }
        },
        None => name,
    }
}

/// The logical name of the file at `path`: its name, without directories
/// and without extension.
pub fn logical_name<'a>(path: &'a str) -> (name: &'a str)
    ensures
        name.spec_bytes() == spec_logical_bytes(path.spec_bytes()),
        name@ == spec_logical_name(path@),
{
    broadcast use vstd::utf8::group_utf8_lib;

    stem(base_name(path))
}

} // verus!
