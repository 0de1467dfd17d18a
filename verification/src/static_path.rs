//! A filesystem path held as a byte string of bounded length, so that it can
//! travel as a fixed-size message.
//!
//! The type works on the path's bytes. How a path of the operating system
//! turns into bytes differs by platform: where paths are arbitrary bytes the
//! byte functions apply directly, where they must be UTF-8 the text functions
//! apply.

use vstd::prelude::*;
use vstd::slice::slice_subrange;
use vstd::string::StringSliceAdditionalSpecFns;
use vstd::utf8::*;

verus! {

/// Why a path could not be stored in a [`StaticPath`].
#[derive(Debug, Clone, Copy, PartialEq, Eq, PartialOrd, Ord, Hash, Structural)]
pub enum FromPathError {
    /// The path's encoding is longer than the bound.
    TooLong {
        /// Longest length that would have been possible.
        at_most: usize,
        /// Length that was attempted.
        len: usize,
    },
    /// The path is not UTF-8 on a platform that requires it.
    NotUtf8,
}

/// The error of std's UTF-8 validation.
#[verifier::external_type_specification]
#[verifier::external_body]
pub struct ExUtf8Error(core::str::Utf8Error);

/// Why a [`StaticPath`] could not be turned back into a path.
#[derive(Debug, Clone, Copy, PartialEq, Eq)]
pub enum IntoPathError {
    /// The stored bytes are not UTF-8 on a platform that requires it.
    NotUtf8 {
        /// Wrapped UTF-8 error.
        err: core::str::Utf8Error,
    },
}

/// A path of at most `N` bytes.
#[derive(Debug)]
pub struct StaticPath<const N: usize> {
    /// Byte data of the path; never longer than `N`.
    data: Vec<u8>,
}

/// What storing `bytes` under the bound `bound` gives: the bytes themselves
/// when they fit, and otherwise the attempted length together with the bound.
pub open spec fn stored(bytes: Seq<u8>, bound: usize) -> Result<Seq<u8>, FromPathError> {
    if bytes.len() <= bound {
        Ok(bytes)
    } else {
        Err(FromPathError::TooLong { at_most: bound, len: bytes.len() as usize })
    }
}

/// What storing a path's text under the bound `bound` gives. A path without
/// a text form (`None`) is not UTF-8; a text is stored as its UTF-8 encoding.
pub open spec fn stored_text(text: Option<Seq<char>>, bound: usize) -> Result<
    Seq<u8>,
    FromPathError,
> {
    match text {
        None => Err(FromPathError::NotUtf8),
        Some(chars) => stored(encode_utf8(chars), bound),
    }
}

/// The text that stored bytes stand for, if they are UTF-8.
pub open spec fn text_of(bytes: Seq<u8>) -> Option<Seq<char>> {
    if valid_utf8(bytes) {
        Some(decode_utf8(bytes))
    } else {
        None
    }
}

/// `core::str::from_utf8`: succeeds exactly on valid UTF-8, and the string it
/// returns is made of the very bytes it was given.
#[verifier::external_body]
fn utf8_text(bytes: &[u8]) -> (r: Result<&str, core::str::Utf8Error>)
    ensures
        r.is_ok() <==> valid_utf8(bytes@),
        r.is_ok() ==> r.unwrap().spec_bytes() == bytes@,
{
    core::str::from_utf8(bytes)
}

/// `String::push_str` of std: the string slice is appended to the string.
#[verifier::external_body]
fn append_text(text: &mut String, piece: &str)
    ensures
        final(text)@ == old(text)@ + piece@,
{
    text.push_str(piece)
}

/// `String::push` of std: the character is appended to the string.
#[verifier::external_body]
fn append_char(text: &mut String, c: char)
    ensures
        final(text)@ == old(text)@.push(c),
{
    text.push(c)
}

/// The capital hexadecimal digit of a number below sixteen.
pub open spec fn hex_digit(nibble: u8) -> char {
    match nibble {
        0 => '0',
        1 => '1',
        2 => '2',
        3 => '3',
        4 => '4',
        5 => '5',
        6 => '6',
        7 => '7',
        8 => '8',
        9 => '9',
        10 => 'A',
        11 => 'B',
        12 => 'C',
        13 => 'D',
        14 => 'E',
        _ => 'F',
    }
}

/// A byte written as an escape: a backslash, an `x` and two capital
/// hexadecimal digits.
pub open spec fn escaped(byte: u8) -> Seq<char> {
    seq!['\\', 'x', hex_digit(byte / 16), hex_digit(byte % 16)]
}

/// How many bytes the character takes that is encoded at the place `at`;
/// zero where no well-formed encoding of a character begins there.
pub open spec fn scalar_len(bytes: Seq<u8>, at: int) -> int {
    if at + 1 <= bytes.len() && valid_utf8(bytes.subrange(at, at + 1)) {
        1
    } else if at + 2 <= bytes.len() && valid_utf8(bytes.subrange(at, at + 2)) {
        2
    } else if at + 3 <= bytes.len() && valid_utf8(bytes.subrange(at, at + 3)) {
        3
    } else if at + 4 <= bytes.len() && valid_utf8(bytes.subrange(at, at + 4)) {
        4
    } else {
        0
    }
}

/// The bytes from the place `at` on as readable text: every character that
/// is encoded well as itself, every other byte as an escape.
pub open spec fn readable_from(bytes: Seq<u8>, at: int) -> Seq<char>
    decreases bytes.len() - at,
{
    if at < 0 || at >= bytes.len() {
        Seq::empty()
    } else {
        let width = scalar_len(bytes, at);
        if width > 0 {
            decode_utf8(bytes.subrange(at, at + width)) + readable_from(bytes, at + width)
        } else {
            escaped(bytes[at]) + readable_from(bytes, at + 1)
        }
    }
}

/// A path as it is shown for inspection: between double quotes, with every
/// byte that is not part of well-formed UTF-8 written as an escape.
pub open spec fn debug_text(bytes: Seq<u8>) -> Seq<char> {
    seq!['"'] + readable_from(bytes, 0) + seq!['"']
}

/// The capital hexadecimal digit of a number below sixteen.
fn hex_digit_of(nibble: u8) -> (digit: char)
    ensures
        digit == hex_digit(nibble),
{
    match nibble {
        0 => '0',
        1 => '1',
        2 => '2',
        3 => '3',
        4 => '4',
        5 => '5',
        6 => '6',
        7 => '7',
        8 => '8',
        9 => '9',
        10 => 'A',
        11 => 'B',
        12 => 'C',
        13 => 'D',
        14 => 'E',
        _ => 'F',
    }
}

/// The bytes from `at` to `at + width` as text, if there are that many and
/// they are UTF-8.
fn text_at(bytes: &[u8], at: usize, width: usize) -> (text: Option<&str>)
    requires
        at < bytes@.len(),
        1 <= width <= 4,
    ensures
        text.is_some() <==> at + width <= bytes@.len() && valid_utf8(
            bytes@.subrange(at as int, at + width),
        ),
        text.is_some() ==> text.unwrap()@ == decode_utf8(bytes@.subrange(at as int, at + width)),
{
    if width > bytes.len() - at {
        return None;
    }
    match utf8_text(slice_subrange(bytes, at, at + width)) {
        Ok(s) => {
            proof {
                encode_utf8_decode_utf8(s@);
            }
            Some(s)
        },
        Err(_) => None,
    }
}

/// The character that is encoded at the place `at`, as text, together with
/// the number of bytes that it takes; `None` where no well-formed encoding
/// begins.
fn scalar_at(bytes: &[u8], at: usize) -> (found: Option<(usize, &str)>)
    requires
        at < bytes@.len(),
    ensures
        match found {
            Some((width, text)) => width == scalar_len(bytes@, at as int) && width > 0 && at
                + width <= bytes@.len() && text@ == decode_utf8(
                bytes@.subrange(at as int, at + width),
            ),
            None => scalar_len(bytes@, at as int) == 0,
        },
{
    if let Some(text) = text_at(bytes, at, 1) {
        return Some((1, text));
    }
    if let Some(text) = text_at(bytes, at, 2) {
        return Some((2, text));
    }
    if let Some(text) = text_at(bytes, at, 3) {
        return Some((3, text));
    }
    if let Some(text) = text_at(bytes, at, 4) {
        return Some((4, text));
    }
    None
}

impl<const N: usize> View for StaticPath<N> {
    type V = Seq<u8>;

    closed spec fn view(&self) -> Seq<u8> {
        self.data@
    }
}

impl<const N: usize> Clone for StaticPath<N> {
    /// A copy that holds the same bytes.
    fn clone(&self) -> (copy: Self)
        ensures
            copy@ == self@,
    {
        proof {
            use_type_invariant(self);
        }
        let data = self.data.clone();
        assert(data@ =~= self.data@);
        StaticPath { data }
    }
}

impl<const N: usize> StaticPath<N> {
    #[verifier::type_invariant]
    spec fn within_bound(self) -> bool {
        self.data@.len() <= N
    }

    /// The bound `N`.
    pub fn capacity() -> (n: usize)
        ensures
            n == N,
    {
        N
    }

    /// Number of bytes stored; never more than the bound.
    pub fn len(&self) -> (n: usize)
        ensures
            n == self@.len(),
            n <= N,
    {
        proof {
            use_type_invariant(self);
        }
        self.data.len()
    }

    /// Stores the bytes of a path. Fails, reporting the attempted length and
    /// the bound, exactly when there are more than `N` bytes.
    pub fn try_from_bytes(bytes: &[u8]) -> (r: Result<Self, FromPathError>)
        ensures
            match r {
                Ok(path) => stored(bytes@, N) == Ok::<Seq<u8>, FromPathError>(path@),
                Err(e) => stored(bytes@, N) == Err::<Seq<u8>, FromPathError>(e),
            },
    {
        let len = bytes.len();
        if len > N {
            return Err(FromPathError::TooLong { at_most: N, len });
        }
        let mut data: Vec<u8> = Vec::with_capacity(len);
        let mut i: usize = 0;
        while i < len
            invariant
                len == bytes@.len(),
                i <= len,
                data@ == bytes@.subrange(0, i as int),
            decreases len - i,
        {
            data.push(bytes[i]);
            i += 1;
            assert(data@ =~= bytes@.subrange(0, i as int));
        }
        assert(data@ =~= bytes@);
        Ok(StaticPath { data })
    }

    /// Stores a path given by its text form, for platforms whose paths must
    /// be UTF-8. `None` stands for a path that has no text form.
    pub fn try_from_text(text: Option<&str>) -> (r: Result<Self, FromPathError>)
        ensures
            match r {
                Ok(path) => stored_text(text_view(text), N) == Ok::<Seq<u8>, FromPathError>(path@),
                Err(e) => stored_text(text_view(text), N) == Err::<Seq<u8>, FromPathError>(e),
            },
    {
        match text {
            None => Err(FromPathError::NotUtf8),
            Some(s) => Self::try_from_bytes(s.as_bytes()),
        }
    }

    /// The stored bytes: the path itself where paths are arbitrary bytes.
    pub fn as_bytes(&self) -> (bytes: &[u8])
        ensures
            bytes@ == self@,
            bytes@.len() <= N,
    {
        proof {
            use_type_invariant(self);
        }
        self.data.as_slice()
    }

    /// The path as it is shown for inspection: between double quotes, with
    /// every byte that is not part of well-formed UTF-8 written as `\x` and
    /// two capital hexadecimal digits.
    pub fn debug_string(&self) -> (text: String)
        ensures
            text@ == debug_text(self@),
    {
        let bytes = self.data.as_slice();
        let mut text = String::new();
        append_char(&mut text, '"');
        let mut at: usize = 0;
        while at < bytes.len()
            invariant
                bytes@ == self@,
                at <= bytes@.len(),
                text@ + readable_from(bytes@, at as int) == seq!['"'] + readable_from(bytes@, 0),
            decreases bytes@.len() - at,
        {
            let ghost before = text@;
            let ghost rest = readable_from(bytes@, at as int);
            match scalar_at(bytes, at) {
                Some((width, piece)) => {
                    append_text(&mut text, piece);
                    at += width;
                    assert(text@ + readable_from(bytes@, at as int) =~= before + rest);
                },
                None => {
                    let byte = bytes[at];
                    append_char(&mut text, '\\');
                    append_char(&mut text, 'x');
                    append_char(&mut text, hex_digit_of(byte / 16));
                    append_char(&mut text, hex_digit_of(byte % 16));
                    at += 1;
                    assert(text@ =~= before + escaped(byte));
                    assert(text@ + readable_from(bytes@, at as int) =~= before + rest);
                },
            }
        }
        assert(readable_from(bytes@, at as int) =~= Seq::<char>::empty());
        assert(text@ =~= seq!['"'] + readable_from(bytes@, 0));
        append_char(&mut text, '"');
        assert(text@ =~= debug_text(self@));
        text
    }

    /// The stored path as text, for platforms whose paths must be UTF-8.
    /// Fails exactly when the stored bytes are not UTF-8.
    pub fn try_into_path(&self) -> (r: Result<&str, IntoPathError>)
        ensures
            match r {
                Ok(s) => text_of(self@) == Some(s@),
                Err(_) => text_of(self@).is_none(),
            },
    {
        match utf8_text(self.data.as_slice()) {
            Ok(s) => {
                proof {
                    encode_utf8_decode_utf8(s@);
                }
                Ok(s)
            },
            Err(err) => Err(IntoPathError::NotUtf8 { err }),
        }
    }
}

/// The characters of an optional string.
pub open spec fn text_view(text: Option<&str>) -> Option<Seq<char>> {
    match text {
        None => None,
        Some(s) => Some(s@),
    }
}

/// Round trip on bytes: a byte string that fits the bound is stored as it is,
/// so reading the stored bytes back yields the original; a byte string that
/// is longer than the bound is refused with its length and the bound.
pub proof fn lemma_bytes_round_trip(bytes: Seq<u8>, bound: usize)
    ensures
        bytes.len() <= bound ==> stored(bytes, bound) == Ok::<Seq<u8>, FromPathError>(bytes),
        bytes.len() > bound ==> stored(bytes, bound) == Err::<Seq<u8>, FromPathError>(
            FromPathError::TooLong { at_most: bound, len: bytes.len() as usize },
        ),
{
}

/// Round trip on text: a text whose UTF-8 encoding fits the bound is stored,
/// and reading the stored bytes back as text yields the original text.
pub proof fn lemma_text_round_trip(text: Seq<char>, bound: usize)
    requires
        encode_utf8(text).len() <= bound,
    ensures
        stored_text(Some(text), bound) is Ok,
        text_of(stored_text(Some(text), bound).unwrap()) == Some(text),
{
    encode_utf8_valid_utf8(text);
    encode_utf8_decode_utf8(text);
}

} // verus!
