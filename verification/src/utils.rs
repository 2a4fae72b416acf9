//! Predicates on strings, archive entry names and image bytes that the
//! validation rules are built from.

use vstd::prelude::*;
use vstd::std_specs::iter::IteratorSpec;

verus! {

broadcast use vstd::string::group_string_axioms;

/// Number of bytes in the signature that opens every PNG file.
pub const PNG_MAGIC_NUMBER_LEN: usize = 8;

/// Number of bytes in the signature that opens every JPEG file.
pub const JPG_MAGIC_NUMBER_LEN: usize = 3;

/// The signature that opens every PNG file.
pub open spec fn png_signature() -> Seq<u8> {
    seq![0x89u8, 0x50u8, 0x4Eu8, 0x47u8, 0x0Du8, 0x0Au8, 0x1Au8, 0x0Au8]
}

/// The signature that opens every JPEG file.
pub open spec fn jpg_signature() -> Seq<u8> {
    seq![0xFFu8, 0xD8u8, 0xFFu8]
}

/// A character that ends a line.
pub open spec fn is_newline(c: char) -> bool {
    c == '\n' || c == '\r'
}

/// An ASCII hexadecimal digit, in either case.
pub open spec fn is_hex_digit(c: char) -> bool {
    ('0' <= c && c <= '9') || ('a' <= c && c <= 'f') || ('A' <= c && c <= 'F')
}

/// A character that separates the segments of a path.
pub open spec fn is_separator(c: char) -> bool {
    c == '/' || c == '\\'
}

/// The text is empty or spans more than one line.
pub open spec fn spec_is_empty_or_has_newlines(s: Seq<char>) -> bool {
    s.len() == 0 || exists|i: int| 0 <= i < s.len() && is_newline(#[trigger] s[i])
}

/// Every character of the text is a hexadecimal digit. The empty text
/// qualifies; callers that need a digit ask for a length as well.
pub open spec fn spec_is_hex(s: Seq<char>) -> bool {
    forall|i: int| 0 <= i < s.len() ==> is_hex_digit(#[trigger] s[i])
}

/// The path names a directory somewhere along the way.
pub open spec fn spec_has_separator(p: Seq<char>) -> bool {
    exists|i: int| 0 <= i < p.len() && is_separator(#[trigger] p[i])
}

/// Index of the last `.` of the text, or -1 where it has none.
pub open spec fn spec_last_dot(p: Seq<char>) -> int
    decreases p.len(),
{
    if p.len() == 0 {
        -1
    } else if p.last() == '.' {
        p.len() - 1
    } else {
        spec_last_dot(p.drop_last())
    }
}

/// The extension of a file name: what follows its last `.`, provided that
/// something stands before that `.`. The name `..` has none.
pub open spec fn spec_extension(p: Seq<char>) -> Option<Seq<char>> {
    let dot = spec_last_dot(p);
    if dot <= 0 || p =~= seq!['.', '.'] {
        None
    } else {
        Some(p.subrange(dot + 1, p.len() as int))
    }
}

/// A cover path must be a bare file name with an extension; everything else
/// is invalid.
pub open spec fn spec_path_is_invalid(p: Seq<char>) -> bool {
    spec_has_separator(p) || spec_extension(p) is None
}

/// The bytes open with the signature.
pub open spec fn spec_has_signature(bytes: Seq<u8>, signature: Seq<u8>) -> bool {
    bytes.len() >= signature.len() && bytes.subrange(0, signature.len() as int) == signature
}

/// What `constant_time_eq::constant_time_eq` returns: whether the two byte
/// strings are equal, their lengths included. The crate compares without
/// stopping at the first difference; that is not part of this statement.
pub assume_specification[ constant_time_eq::constant_time_eq ](a: &[u8], b: &[u8]) -> (r: bool)
    ensures
        r == (a@ == b@),
;

/// In a text without any `.` the search for the last one comes up empty.
pub proof fn lemma_last_dot_absent(p: Seq<char>)
    requires
        forall|i: int| 0 <= i < p.len() ==> p[i] != '.',
    ensures
        spec_last_dot(p) == -1,
    decreases p.len(),
{
    if p.len() > 0 {
        lemma_last_dot_absent(p.drop_last());
    }
}

/// A `.` after which no other follows is the last one.
pub proof fn lemma_last_dot_found(p: Seq<char>, dot: int)
    requires
        0 <= dot < p.len(),
        p[dot] == '.',
        forall|i: int| dot < i < p.len() ==> p[i] != '.',
    ensures
        spec_last_dot(p) == dot,
    decreases p.len(),
{
    if dot < p.len() - 1 {
        lemma_last_dot_found(p.drop_last(), dot);
    }
}

/// The characters of a string, one by one.
pub fn chars_of(s: &str) -> (v: Vec<char>)
    ensures
        v@ == s@,
{
    let mut v: Vec<char> = Vec::new();
    for c in it: s.chars()
        invariant
            it.seq() == s@,
            v@ == s@.subrange(0, it.index() as int),
    {
        v.push(c);
        assert(s@.subrange(0, it.index() + 1) =~= s@.subrange(0, it.index() as int).push(c));
    }
    assert(s@.subrange(0, s@.len() as int) =~= s@);
    v
}

/// Tells whether a string is empty or holds a line break.
pub fn str_is_empty_or_has_newlines(s: &str) -> (r: bool)
    ensures
        r == spec_is_empty_or_has_newlines(s@),
{
    let mut seen: bool = false;
    for c in it: s.chars()
        invariant
            it.seq() == s@,
            seen == (exists|i: int| 0 <= i < it.index() && is_newline(#[trigger] s@[i])),
    {
        if c == '\n' || c == '\r' {
            seen = true;
        }
    }
    s.is_empty() || seen
}

/// Tells whether a string holds hexadecimal digits only.
pub fn str_is_hex(s: &str) -> (r: bool)
    ensures
        r == spec_is_hex(s@),
{
    let mut all: bool = true;
    for c in it: s.chars()
        invariant
            it.seq() == s@,
            all == (forall|i: int| 0 <= i < it.index() ==> is_hex_digit(#[trigger] s@[i])),
    {
        if !(('0' <= c && c <= '9') || ('a' <= c && c <= 'f') || ('A' <= c && c <= 'F')) {
            all = false;
        }
    }
    all
}

/// Number of characters in a string.
pub fn str_char_count(s: &str) -> (n: usize)
    ensures
        n == s@.len(),
{
    s.unicode_len()
}

/// Compares two strings character by character.
pub fn str_eq(a: &str, b: &str) -> (r: bool)
    ensures
        r == (a@ == b@),
{
    let x = a.as_bytes();
    let y = b.as_bytes();
    proof {
        vstd::utf8::encode_utf8_decode_utf8(a@);
        vstd::utf8::encode_utf8_decode_utf8(b@);
    }
    bytes_eq(x, y)
}

/// Compares two byte strings.
pub fn bytes_eq(x: &[u8], y: &[u8]) -> (r: bool)
    ensures
        r == (x@ == y@),
{
    if x.len() != y.len() {
        return false;
    }
    let mut i: usize = 0;
    while i < x.len()
        invariant
            x@.len() == y@.len(),
            i <= x@.len(),
            x@.subrange(0, i as int) == y@.subrange(0, i as int),
        decreases x@.len() - i,
    {
        if x[i] != y[i] {
            assert(x@[i as int] != y@[i as int]);
            return false;
        }
        assert(x@.subrange(0, i + 1) =~= x@.subrange(0, i as int).push(x@[i as int]));
        assert(y@.subrange(0, i + 1) =~= y@.subrange(0, i as int).push(y@[i as int]));
        i += 1;
    }
    assert(x@ =~= x@.subrange(0, i as int));
    assert(y@ =~= y@.subrange(0, i as int));
    true
}

/// Tells whether a byte string opens with another.
pub fn bytes_start_with(bytes: &[u8], prefix: &[u8]) -> (r: bool)
    ensures
        r == spec_has_signature(bytes@, prefix@),
{
    if bytes.len() < prefix.len() {
        return false;
    }
    bytes_eq(vstd::slice::slice_subrange(bytes, 0, prefix.len()), prefix)
}

/// Tells whether the bytes open with the signature. The comparison takes the
/// same time wherever the bytes depart from the signature.
pub fn has_signature(bytes: &[u8], signature: &[u8]) -> (r: bool)
    ensures
        r == spec_has_signature(bytes@, signature@),
{
    if bytes.len() < signature.len() {
        return false;
    }
    constant_time_eq::constant_time_eq(
        vstd::slice::slice_subrange(bytes, 0, signature.len()),
        signature,
    )
}

/// The signature that opens every PNG file.
pub fn png_magic_number() -> (r: Vec<u8>)
    ensures
        r@ == png_signature(),
        r@.len() == PNG_MAGIC_NUMBER_LEN,
{
    let r: Vec<u8> = vec![0x89, 0x50, 0x4E, 0x47, 0x0D, 0x0A, 0x1A, 0x0A];
    assert(r@ =~= png_signature());
    r
}

/// The signature that opens every JPEG file.
pub fn jpg_magic_number() -> (r: Vec<u8>)
    ensures
        r@ == jpg_signature(),
        r@.len() == JPG_MAGIC_NUMBER_LEN,
{
    let r: Vec<u8> = vec![0xFF, 0xD8, 0xFF];
    assert(r@ =~= jpg_signature());
    r
}

/// Index of the last `.` among the characters, if there is one.
fn last_dot(p: &Vec<char>) -> (r: Option<usize>)
    ensures
        match r {
            Some(dot) => dot < p@.len() && dot == spec_last_dot(p@),
            None => spec_last_dot(p@) == -1,
        },
{
    let mut i: usize = p.len();
    while i > 0
        invariant
            i <= p@.len(),
            forall|j: int| i <= j < p@.len() ==> p@[j] != '.',
        decreases i,
    {
        i -= 1;
        if p[i] == '.' {
            proof {
                lemma_last_dot_found(p@, i as int);
            }
            return Some(i);
        }
    }
    proof {
        lemma_last_dot_absent(p@);
    }
    None
}

/// Tells whether any of the characters separates path segments.
fn has_separator(p: &Vec<char>) -> (r: bool)
    ensures
        r == spec_has_separator(p@),
{
    let mut i: usize = 0;
    while i < p.len()
        invariant
            i <= p@.len(),
            forall|j: int| 0 <= j < i ==> !is_separator(#[trigger] p@[j]),
        decreases p@.len() - i,
    {
        if p[i] == '/' || p[i] == '\\' {
            return true;
        }
        i += 1;
    }
    false
}

/// Start of the extension among the characters of a file name, if it has one.
fn extension_start(p: &Vec<char>) -> (r: Option<usize>)
    ensures
        match r {
            Some(start) => start <= p@.len() && spec_extension(p@) == Some(
                p@.subrange(start as int, p@.len() as int),
            ),
            None => spec_extension(p@) is None,
        },
{
    if p.len() == 2 && p[0] == '.' && p[1] == '.' {
        assert(p@ =~= seq!['.', '.']);
        return None;
    }
    match last_dot(p) {
        Some(dot) => {
            if dot == 0 {
                None
            } else {
                assert(!(p@ =~= seq!['.', '.'])) by {
                    if p@ =~= seq!['.', '.'] {
                        assert(p@.len() == 2 && p@[0] == '.' && p@[1] == '.');
                    }
                }
                Some(dot + 1)
            }
        },
        None => None,
    }
}

/// Tells whether a cover path is anything but a bare file name with an
/// extension.
pub fn path_is_invalid(p: &str) -> (r: bool)
    ensures
        r == spec_path_is_invalid(p@),
{
    let chars = chars_of(p);
    has_separator(&chars) || extension_start(&chars).is_none()
}

/// Tells whether a file name carries exactly the given extension.
pub fn path_has_extension(p: &str, extension: &str) -> (r: bool)
    ensures
        r == (spec_extension(p@) == Some(extension@)),
{
    let chars = chars_of(p);
    let wanted = chars_of(extension);
    match extension_start(&chars) {
        Some(start) => {
            let n = chars.len() - start;
            if n != wanted.len() {
                return false;
            }
            let mut i: usize = 0;
            while i < n
                invariant
                    start + n == chars.len(),
                    n == wanted@.len(),
                    wanted@ == extension@,
                    i <= n,
                    spec_extension(p@) == Some(chars@.subrange(start as int, chars@.len() as int)),
                    forall|j: int| 0 <= j < i ==> chars@[start + j] == wanted@[j],
                decreases n - i,
            {
                if chars[start + i] != wanted[i] {
                    assert(chars@.subrange(start as int, chars@.len() as int)[i as int]
                        != wanted@[i as int]);
                    return false;
                }
                i += 1;
            }
            assert(chars@.subrange(start as int, chars@.len() as int) =~= wanted@);
            true
        },
        None => false,
    }
}

} // verus!
