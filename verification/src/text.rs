//! Text primitives that locale handling rests on: prefix tests, the part of a
//! POSIX locale name in front of its encoding, and Unicode lowercasing.

use vstd::prelude::*;
use vstd::std_specs::iter::IteratorSpec;
use vstd::string::StringSliceAdditionalSpecFns;
use vstd::utf8::*;

verus! {

/// The lowercase form of a text, as Unicode defines it.
///
/// Lowercasing goes by the Unicode character tables, which are not restated
/// here: the form is known by this name only.
pub uninterp spec fn lowercase_of(text: Seq<char>) -> Seq<char>;

/// `str::to_lowercase` of the standard library.
///
/// Trusted, not proved: the string it returns holds the lowercase form of
/// `text`, and that form depends on the characters of `text` alone (the
/// conversion consults no locale and no other state).
pub assume_specification[ str::to_lowercase ](text: &str) -> (lower: String)
    ensures
        lower@ == lowercase_of(text@),
;

/// The character that opens the encoding suffix of a POSIX locale name.
pub open spec fn encoding_mark() -> char {
    '.'
}

/// What stands in front of the first `.` of `name`: all of `name` where it
/// holds no `.`.
pub open spec fn language_part_of(name: Seq<char>) -> Seq<char> {
    match name.index_of_first(encoding_mark()) {
        Some(at) => name.take(at),
        None => name,
    }
}

/// `language_part_of(name)` opens `name`, holds no `.`, and ends where `name`
/// ends or in front of a `.`.
pub proof fn lemma_language_part_shape(name: Seq<char>)
    ensures
        language_part_of(name).is_prefix_of(name),
        !language_part_of(name).contains(encoding_mark()),
        language_part_of(name).len() < name.len() ==> name[language_part_of(name).len() as int]
            == encoding_mark(),
{
    name.index_of_first_ensures(encoding_mark());
}

/// Only one text has the shape that `lemma_language_part_shape` gives:
/// a prefix of `name` without a `.` that ends where `name` ends or in front
/// of a `.` is `language_part_of(name)`.
pub proof fn lemma_language_part_unique(name: Seq<char>, part: Seq<char>)
    requires
        part.is_prefix_of(name),
        !part.contains(encoding_mark()),
        part.len() < name.len() ==> name[part.len() as int] == encoding_mark(),
    ensures
        part == language_part_of(name),
{
    name.index_of_first_ensures(encoding_mark());
    match name.index_of_first(encoding_mark()) {
        Some(at) => {
            if part.len() < at {
                assert(name[part.len() as int] != encoding_mark());
            } else if part.len() > at {
                assert(part[at] == name[at]);
                assert(part.contains(encoding_mark()));
            }
            assert(part =~= name.take(at));
        },
        None => {
            if part.len() < name.len() {
                assert(name.contains(name[part.len() as int]));
            }
            assert(part =~= name);
        },
    }
}

/// Whether `prefix` opens `text`, character by character.
pub fn starts_with(text: &str, prefix: &str) -> (found: bool)
    ensures
        found == prefix@.is_prefix_of(text@),
{
    broadcast use vstd::string::group_string_axioms;

    let mut rest = text.chars();
    let mut wanted = prefix.chars();
    let ghost mut matched: int = 0;
    loop
        invariant
            0 <= matched <= prefix@.len(),
            matched <= text@.len(),
            wanted.remaining() == prefix@.skip(matched),
            rest.remaining() == text@.skip(matched),
            text@.take(matched) == prefix@.take(matched),
        decreases prefix@.len() - matched,
    {
        match wanted.next() {
            None => {
                return true;
            },
            Some(w) => {
                match rest.next() {
                    None => {
                        return false;
                    },
                    Some(c) => {
                        if c != w {
                            return false;
                        }
                        proof {
                            matched = matched + 1;
                        }
                    },
                }
            },
        }
    }
}

/// The byte that encodes `.` in UTF-8.
pub const MARK_BYTE: u8 = 0x2e;

/// A text that holds a `.` has the byte of `.` in its UTF-8 encoding.
proof fn lemma_mark_is_encoded(text: Seq<char>, at: int)
    requires
        0 <= at < text.len(),
        text[at] == encoding_mark(),
    ensures
        encode_utf8(text).contains(MARK_BYTE),
    decreases text.len(),
{
    let head = encode_scalar(text[0] as u32);
    let tail = encode_utf8(text.drop_first());
    if at == 0 {
        assert((0x2eu32 & 0x7f) as u8 == 0x2eu8) by (bit_vector);
        assert(encode_utf8(text)[0] == MARK_BYTE);
    } else {
        lemma_mark_is_encoded(text.drop_first(), at - 1);
        let j = choose|j: int| 0 <= j < tail.len() && tail[j] == MARK_BYTE;
        assert(encode_utf8(text)[head.len() + j] == MARK_BYTE);
    }
}

/// Cutting the UTF-8 encoding of `name` in front of its first `.` byte cuts
/// between two characters, and what stands in front of the cut encodes
/// `language_part_of(name)`.
proof fn lemma_cut_at_first_mark_byte(name: Seq<char>, at: int)
    requires
        0 <= at <= encode_utf8(name).len(),
        forall|j: int| 0 <= j < at ==> encode_utf8(name)[j] != MARK_BYTE,
        at < encode_utf8(name).len() ==> encode_utf8(name)[at] == MARK_BYTE,
    ensures
        is_char_boundary(encode_utf8(name), at),
        decode_utf8(encode_utf8(name).subrange(0, at)) == language_part_of(name),
{
    broadcast use vstd::utf8::group_utf8_lib;

    let bytes = encode_utf8(name);
    let front = bytes.subrange(0, at);
    let back = bytes.subrange(at, bytes.len() as int);
    assert(valid_utf8(bytes));
    assert(is_char_boundary(bytes, at)) by {
        if at < bytes.len() {
            assert(!is_continuation_byte(bytes[at]));
        }
    }
    assert(valid_utf8(front) && valid_utf8(back));
    let part = decode_utf8(front);
    let rest = decode_utf8(back);
    assert(name =~= part + rest);
    assert(part.is_prefix_of(name));
    assert(encode_utf8(part) == front);
    if part.contains(encoding_mark()) {
        let i = choose|i: int| 0 <= i < part.len() && part[i] == encoding_mark();
        lemma_mark_is_encoded(part, i);
        let j = choose|j: int| 0 <= j < front.len() && front[j] == MARK_BYTE;
        assert(bytes[j] == MARK_BYTE);
    }
    if part.len() < name.len() {
        assert(rest.len() > 0);
        assert(back.len() > 0);
        assert(back[0] == MARK_BYTE);
        assert((0x2eu8 & 0x7f) as u32 == 0x2eu32) by (bit_vector);
        assert(rest[0] == encoding_mark());
        assert(name[part.len() as int] == rest[0]);
    }
    lemma_language_part_unique(name, part);
}

/// Cuts a POSIX locale name (`lang[_territory][.encoding]`) in front of its
/// first `.`, which drops an encoding suffix such as `.UTF-8`. A name without
/// a `.` comes back whole.
pub fn language_part(name: &str) -> (part: &str)
    ensures
        part@ == language_part_of(name@),
        part@.is_prefix_of(name@),
        !part@.contains(encoding_mark()),
        part@.len() < name@.len() ==> name@[part@.len() as int] == encoding_mark(),
{
    let bytes = name.as_bytes();
    let mut at: usize = 0;
    while at < bytes.len() && bytes[at] != MARK_BYTE
        invariant
            at <= bytes@.len(),
            forall|j: int| 0 <= j < at ==> bytes@[j] != MARK_BYTE,
        decreases bytes@.len() - at,
    {
        at = at + 1;
    }
    proof {
        lemma_cut_at_first_mark_byte(name@, at as int);
    }
    let (part, _) = name.split_at(at);
    proof {
        broadcast use vstd::utf8::encode_utf8_decode_utf8;
        assert(part@ == decode_utf8(part.spec_bytes()));
        lemma_language_part_shape(name@);
    }
    part
}

} // verus!
