//! Text that crosses the boundary to the host: nul-free byte strings going
//! out, bytes of unknown encoding coming in.

use vstd::prelude::*;
use vstd::string::StringSliceAdditionalSpecFns;
use vstd::utf8::{
    decode_utf8, encode_utf8, encode_utf8_decode_utf8, encode_utf8_valid_utf8, is_ascii_chars,
    is_ascii_chars_encode_utf8, valid_utf8,
};

verus! {

/// `bytes` with every zero byte removed, the others in their order.
pub open spec fn without_nul(bytes: Seq<u8>) -> Seq<u8>
    decreases bytes.len(),
{
    if bytes.len() == 0 {
        Seq::<u8>::empty()
    } else if bytes.last() == 0u8 {
        without_nul(bytes.drop_last())
    } else {
        without_nul(bytes.drop_last()).push(bytes.last())
    }
}

/// True when no byte of `bytes` is zero.
pub open spec fn nul_free(bytes: Seq<u8>) -> bool {
    forall|i: int| 0 <= i < bytes.len() ==> bytes[i] != 0u8
}

/// Removing zero bytes leaves none behind and never lengthens the input.
pub proof fn lemma_without_nul_is_nul_free(bytes: Seq<u8>)
    ensures
        nul_free(without_nul(bytes)),
        without_nul(bytes).len() <= bytes.len(),
    decreases bytes.len(),
{
    if bytes.len() > 0 {
        lemma_without_nul_is_nul_free(bytes.drop_last());
    }
}

/// Removing zero bytes from a string that has none changes nothing.
pub proof fn lemma_without_nul_keeps_nul_free(bytes: Seq<u8>)
    requires
        nul_free(bytes),
    ensures
        without_nul(bytes) == bytes,
    decreases bytes.len(),
{
    if bytes.len() > 0 {
        lemma_without_nul_keeps_nul_free(bytes.drop_last());
        assert(bytes.drop_last().push(bytes.last()) =~= bytes);
    } else {
        assert(bytes =~= Seq::<u8>::empty());
    }
}

/// The byte string that the host is given for `text`.
pub open spec fn native_string(text: Seq<char>) -> Seq<u8> {
    without_nul(encode_utf8(text))
}

/// Builder of the byte strings that are handed to the host.
///
/// The host reads a string up to its first zero byte, so an inner zero byte
/// cannot be represented. It is dropped rather than rejected.
pub struct LossyCString;

impl LossyCString {
    /// Returns the UTF-8 bytes of `t` without its zero bytes.
    pub fn new(t: &str) -> (bytes: Vec<u8>)
        ensures
            bytes@ == native_string(t@),
            nul_free(bytes@),
            nul_free(t.spec_bytes()) ==> bytes@ == t.spec_bytes(),
    {
        let bytes = strip_nul(t.as_bytes());
        proof {
            if nul_free(t.spec_bytes()) {
                lemma_without_nul_keeps_nul_free(t.spec_bytes());
            }
        }
        bytes
    }
}

/// Copies `input` without its zero bytes.
pub fn strip_nul(input: &[u8]) -> (bytes: Vec<u8>)
    ensures
        bytes@ == without_nul(input@),
        nul_free(bytes@),
{
    let mut bytes: Vec<u8> = Vec::new();
    let mut i: usize = 0;
    while i < input.len()
        invariant
            0 <= i <= input.len(),
            bytes@ == without_nul(input@.take(i as int)),
        decreases input.len() - i,
    {
        proof {
            assert(input@.take(i + 1).drop_last() =~= input@.take(i as int));
        }
        let b: u8 = input[i];
        if b != 0 {
            bytes.push(b);
        }
        i += 1;
    }
    proof {
        assert(input@.take(i as int) =~= input@);
        lemma_without_nul_is_nul_free(input@);
    }
    bytes
}

/// Two strings with the same UTF-8 bytes are the same string.
pub proof fn lemma_same_bytes_same_text(a: Seq<char>, b: Seq<char>)
    requires
        encode_utf8(a) == encode_utf8(b),
    ensures
        a == b,
{
    encode_utf8_decode_utf8(a);
    encode_utf8_decode_utf8(b);
}

/// Tells whether two strings hold the same text.
pub fn same_text(a: &str, b: &str) -> (same: bool)
    ensures
        same == (a@ == b@),
{
    let x = a.as_bytes();
    let y = b.as_bytes();
    if x.len() != y.len() {
        return false;
    }
    let mut i: usize = 0;
    while i < x.len()
        invariant
            0 <= i <= x.len(),
            x.len() == y.len(),
            x@ == a.spec_bytes(),
            y@ == b.spec_bytes(),
            forall|j: int| 0 <= j < i ==> x@[j] == y@[j],
        decreases x.len() - i,
    {
        if x[i] != y[i] {
            return false;
        }
        i += 1;
    }
    proof {
        assert(x@ =~= y@);
        lemma_same_bytes_same_text(a@, b@);
    }
    true
}

/// The text that lossy decoding makes of bytes that are not valid UTF-8.
pub uninterp spec fn lossy_text(bytes: Seq<u8>) -> Seq<char>;

/// What the host's bytes are read as: their text where they are valid UTF-8,
/// and otherwise the text in which each invalid sequence has been replaced.
pub open spec fn decoded(bytes: Seq<u8>) -> Seq<char> {
    if valid_utf8(bytes) {
        decode_utf8(bytes)
    } else {
        lossy_text(bytes)
    }
}

/// Calls `std::str::from_utf8`.
///
/// Trusted: the call succeeds exactly on valid UTF-8, and the string it
/// returns is the decoding of the bytes.
#[verifier::external_body]
fn utf8_str(bytes: &[u8]) -> (text: Option<&str>)
    ensures
        text is Some <==> valid_utf8(bytes@),
        text is Some ==> text->0@ == decode_utf8(bytes@),
{
    match std::str::from_utf8(bytes) {
        Ok(text) => Some(text),
        Err(_) => None,
    }
}

/// Calls `String::from_utf8_lossy`.
///
/// Trusted: the result depends on the bytes alone.
#[verifier::external_body]
fn utf8_lossy(bytes: &[u8]) -> (text: String)
    ensures
        text@ == lossy_text(bytes@),
{
    String::from_utf8_lossy(bytes).into_owned()
}

/// ASCII text without a zero character goes to the host byte for byte and
/// comes back as it went.
pub proof fn lemma_plain_text_round_trip(text: Seq<char>)
    requires
        is_ascii_chars(text),
        forall|i: int| 0 <= i < text.len() ==> text[i] != '\0',
    ensures
        native_string(text) == encode_utf8(text),
        valid_utf8(native_string(text)),
        decoded(native_string(text)) == text,
{
    is_ascii_chars_encode_utf8(text);
    let bytes = encode_utf8(text);
    assert(nul_free(bytes)) by {
        assert forall|i: int| 0 <= i < bytes.len() implies bytes[i] != 0u8 by {
            assert(text[i] as u8 == bytes[i]);
            assert(text[i] != '\0');
        }
    }
    lemma_without_nul_keeps_nul_free(bytes);
    encode_utf8_valid_utf8(text);
    encode_utf8_decode_utf8(text);
}

/// Reads bytes from the host as UTF-8 and refuses anything else.
pub fn decode_strict(bytes: &[u8]) -> (text: Option<String>)
    ensures
        text is Some <==> valid_utf8(bytes@),
        text is Some ==> text->0@ == decode_utf8(bytes@),
{
    match utf8_str(bytes) {
        Some(text) => Some(text.to_owned()),
        None => None,
    }
}

/// Reads bytes from the host as text. Never fails: invalid sequences are
/// replaced.
pub fn decode_lossy(bytes: &[u8]) -> (text: String)
    ensures
        text@ == decoded(bytes@),
{
    match utf8_str(bytes) {
        Some(text) => text.to_owned(),
        None => utf8_lossy(bytes),
    }
}


/// The decimal digits of `n` in ASCII, the most significant first.
pub open spec fn digits(n: nat) -> Seq<u8>
    decreases n,
{
    if n < 10 {
        seq![(48 + n) as u8]
    } else {
        digits(n / 10).push((48 + n % 10) as u8)
    }
}

/// `v` written in decimal, in ASCII, with a leading `-` when it is negative.
pub open spec fn decimal(v: int) -> Seq<u8> {
    if v < 0 {
        seq![45u8] + digits((-v) as nat)
    } else {
        digits(v as nat)
    }
}

/// Appends the decimal digits of `n` to `out`.
fn push_digits(n: u32, out: &mut Vec<u8>)
    ensures
        final(out)@ == old(out)@ + digits(n as nat),
    decreases n,
{
    if n >= 10 {
        push_digits(n / 10, out);
    }
    let digit: u8 = (48 + n % 10) as u8;
    out.push(digit);
    proof {
        if n >= 10 {
            assert(final(out)@ =~= old(out)@ + digits(n as nat)) by {
                assert(digits(n as nat) == digits((n / 10) as nat).push((48 + n % 10) as u8));
            }
        } else {
            assert(out@ =~= old(out)@ + digits(n as nat));
        }
    }
}

/// Writes `v` in decimal, as the host reads numbers.
pub fn decimal_bytes(v: i32) -> (bytes: Vec<u8>)
    ensures
        bytes@ == decimal(v as int),
{
    let wide: i64 = v as i64;
    let mut bytes: Vec<u8> = Vec::new();
    if wide < 0 {
        bytes.push(45u8);
        push_digits((0 - wide) as u32, &mut bytes);
    } else {
        push_digits(wide as u32, &mut bytes);
        assert(bytes@ =~= digits(v as nat));
    }
    bytes
}

} // verus!
