//! Text/binary classification of stored content.
use base64::Engine;
use vstd::prelude::*;
use vstd::string::*;
use vstd::utf8::*;

verus! {

/// A character in the Unicode general category `Cc` (control codes).
pub open spec fn is_control_char(c: char) -> bool {
    (c as u32) <= 0x1f || (0x7f <= (c as u32) && (c as u32) <= 0x9f)
}

/// Control characters other than newline, carriage return and tab.
pub open spec fn is_counted_control(c: char) -> bool {
    is_control_char(c) && c != '\n' && c != '\r' && c != '\t'
}

/// Number of counted control characters in `s`.
pub open spec fn count_controls(s: Seq<char>) -> nat
    decreases s.len(),
{
    if s.len() == 0 {
        0
    } else {
        count_controls(s.drop_last()) + if is_counted_control(s.last()) { 1nat } else { 0nat }
    }
}

/// Whether decoded characters count as text: fewer counted control characters
/// than a tenth (rounded down) of the character count.
pub open spec fn chars_are_text(s: Seq<char>) -> bool {
    count_controls(s) < s.len() / 10
}

/// Executable form of `is_control_char`, matching `char::is_control`.
pub fn is_control(c: char) -> (r: bool)
    ensures
        r == is_control_char(c),
{
    let u = c as u32;
    u <= 0x1f || (0x7f <= u && u <= 0x9f)
}

/// Counts the control characters of `s` other than newline, carriage
/// return and tab.
pub fn count_control_chars(s: &str) -> (r: usize)
    ensures
        r == count_controls(s@),
{
    let len = s.unicode_len();
    let mut n: usize = 0;
    for c in it: s.chars()
        invariant
            it.seq() == s@,
            len == s@.len(),
            n == count_controls(s@.take(it.index() as int)),
            n <= it.index(),
    {
        proof {
            assert(s@.take(it.index() as int + 1).drop_last() == s@.take(it.index() as int));
        }
        if is_control(c) && c != '\n' && c != '\r' && c != '\t' {
            n = n + 1;
        }
    }
    proof {
        assert(s@.take(s@.len() as int) == s@);
    }
    n
}


/// Standard (RFC 4648, padded) base64 text of some bytes.
pub uninterp spec fn base64_of(b: Seq<u8>) -> Seq<char>;

/// Bytes that standard padded base64 text decodes to, if it is well formed.
pub uninterp spec fn base64_decoded(s: Seq<char>) -> Option<Seq<u8>>;

/// Whether stored bytes are shown as text: empty content is text; otherwise
/// the bytes must be UTF-8 whose characters pass `chars_are_text`.
pub open spec fn bytes_are_text(b: Seq<u8>) -> bool {
    b.len() == 0 || (valid_utf8(b) && chars_are_text(decode_utf8(b)))
}

/// The string form under which content is shown.
pub open spec fn rendered(b: Seq<u8>) -> Seq<char> {
    if bytes_are_text(b) {
        decode_utf8(b)
    } else {
        base64_of(b)
    }
}

/// The bytes that a rendered form stands for: its UTF-8 encoding for text,
/// its base64 decoding otherwise.
pub open spec fn recovered(is_text: bool, content: Seq<char>) -> Option<Seq<u8>> {
    if is_text {
        Some(encode_utf8(content))
    } else {
        base64_decoded(content)
    }
}

/// Relies on `std::str::from_utf8`: it succeeds exactly on valid UTF-8 and
/// then yields the decoded characters.
#[verifier::external_body]
fn utf8_str(b: &[u8]) -> (r: Option<&str>)
    ensures
        r is Some <==> valid_utf8(b@),
        r matches Some(s) ==> s@ == decode_utf8(b@),
{
    std::str::from_utf8(b).ok()
}

/// Relies on `base64::Engine::encode` with the `STANDARD` engine: the padded
/// base64 text of the input, which that engine's `decode` maps back to it.
#[verifier::external_body]
fn base64_encode(b: &[u8]) -> (r: String)
    ensures
        r@ == base64_of(b@),
        base64_decoded(r@) == Some(b@),
{
    base64::engine::general_purpose::STANDARD.encode(b)
}

/// Relies on `base64::Engine::decode` with the `STANDARD` engine.
#[verifier::external_body]
fn base64_decode(s: &str) -> (r: Option<Vec<u8>>)
    ensures
        match r {
            Some(v) => base64_decoded(s@) == Some(v@),
            None => base64_decoded(s@) is None,
        },
{
    base64::engine::general_purpose::STANDARD.decode(s.as_bytes()).ok()
}

/// Content classified as text or binary, with the string form to show.
pub struct Classified {
    pub is_text: bool,
    pub content: String,
}

/// Decides whether stored bytes are text.
pub fn is_text_content(bytes: &[u8]) -> (r: bool)
    ensures
        r == bytes_are_text(bytes@),
{
    if bytes.len() == 0 {
        return true;
    }
    match utf8_str(bytes) {
        Some(s) => {
            let n = count_control_chars(s);
            let total = s.unicode_len();
            n < total / 10
        },
        None => false,
    }
}

/// Classifies stored bytes and renders them: the decoded text verbatim, or
/// the base64 text of the bytes.
pub fn classify(bytes: &[u8]) -> (r: Classified)
    ensures
        r.is_text == bytes_are_text(bytes@),
        r.content@ == rendered(bytes@),
        recovered(r.is_text, r.content@) == Some(bytes@),
        bytes@.len() > 0 && valid_utf8(bytes@) && chars_are_text(decode_utf8(bytes@)) ==> r.is_text
            && r.content@ == decode_utf8(bytes@),
        !valid_utf8(bytes@) ==> !r.is_text && r.content@ == base64_of(bytes@) && base64_decoded(
            r.content@,
        ) == Some(bytes@),
{
    broadcast use decode_utf8_encode_utf8;

    if !is_text_content(bytes) {
        return Classified { is_text: false, content: base64_encode(bytes) };
    }
    match utf8_str(bytes) {
        Some(s) => Classified { is_text: true, content: s.to_owned() },
        None => {
            // Text that is not valid UTF-8 can only be the empty content.
            proof {
                assert(decode_utf8(bytes@) =~= Seq::<char>::empty());
                assert(encode_utf8(Seq::<char>::empty()) =~= Seq::<u8>::empty());
            }
            Classified { is_text: true, content: String::new() }
        },
    }
}

/// Recovers the bytes behind a rendered form: UTF-8 encoding for text,
/// base64 decoding otherwise.
pub fn recover_bytes(is_text: bool, content: &str) -> (r: Option<Vec<u8>>)
    ensures
        match r {
            Some(v) => recovered(is_text, content@) == Some(v@),
            None => recovered(is_text, content@) is None,
        },
{
    if is_text {
        Some(content.as_bytes_vec())
    } else {
        base64_decode(content)
    }
}

} // verus!
