//! The fixed-width name codec: a text name becomes a 50-byte buffer, its UTF-8
//! bytes first and zero bytes after them, and comes back by trimming the zeros.

use vstd::prelude::*;
use vstd::std_specs::iter::IteratorSpec;
use vstd::string::*;
use vstd::utf8::*;
use vstd::slice::slice_subrange;
use vstd::array::array_as_slice;
use crate::constants::NAME_LENGTH;

verus! {

/// Why a text was refused as a name.
#[derive(Debug, Clone, Copy, PartialEq, Eq, Structural)]
pub enum NameError {
    /// Some character is not a letter or a digit.
    InvalidNameFormat,
    /// The UTF-8 encoding takes more than 50 bytes.
    NameTooLong,
}

/// Whether Unicode classes `c` as alphabetic or numeric, as
/// `char::is_alphanumeric` reports it.
pub uninterp spec fn char_is_alphanumeric(c: char) -> bool;

/// `char::is_alphanumeric` of std. Trusted: the answer depends on the character
/// alone, and the NUL character, a control code, is never alphanumeric.
pub assume_specification[ char::is_alphanumeric ](c: char) -> (r: bool)
    ensures
        r == char_is_alphanumeric(c),
        r ==> c != '\0',
;

/// `core::str::Utf8Error` of std, carried through and never inspected.
#[verifier::external_type_specification]
#[verifier::external_body]
pub struct ExUtf8Error(core::str::Utf8Error);

/// `core::str::from_utf8` of std. Trusted: it accepts exactly the well-formed
/// UTF-8 byte strings, and the text it returns has the bytes it was given.
pub assume_specification[ core::str::from_utf8 ](v: &[u8]) -> (r: Result<&str, core::str::Utf8Error>)
    ensures
        r is Ok <==> valid_utf8(v@),
        r matches Ok(s) ==> s.spec_bytes() == v@,
;

/// A character that a name may hold: alphanumeric. The NUL test never decides
/// for a real character (`char::is_alphanumeric` refuses NUL itself); it is
/// written out because the padding byte must not occur inside a name.
pub open spec fn is_name_char(c: char) -> bool {
    c != '\0' && char_is_alphanumeric(c)
}

/// Every character of `text` is alphanumeric.
pub open spec fn all_alphanumeric(text: Seq<char>) -> bool {
    forall|i: int| 0 <= i < text.len() ==> char_is_alphanumeric(#[trigger] text[i])
}

/// Every character of `text` may stand in a name.
pub open spec fn all_name_chars(text: Seq<char>) -> bool {
    forall|i: int| 0 <= i < text.len() ==> is_name_char(#[trigger] text[i])
}

/// `bytes` followed by zero bytes up to the width of the name field.
pub open spec fn padded(bytes: Seq<u8>) -> Seq<u8>
    recommends
        bytes.len() <= NAME_LENGTH,
{
    Seq::new(NAME_LENGTH as nat, |i: int| if i < bytes.len() { bytes[i] } else { 0u8 })
}

/// The buffer for a name whose UTF-8 bytes are `bytes`, given whether all of its
/// characters passed the alphanumeric test. The format error comes first.
pub open spec fn pack_spec(bytes: Seq<u8>, alphanumeric: bool) -> Result<Seq<u8>, NameError> {
    if !alphanumeric {
        Err(NameError::InvalidNameFormat)
    } else if bytes.len() > NAME_LENGTH {
        Err(NameError::NameTooLong)
    } else {
        Ok(padded(bytes))
    }
}

/// What encoding `text` gives.
pub open spec fn encode_spec(text: Seq<char>) -> Result<Seq<u8>, NameError> {
    pack_spec(encode_utf8(text), all_name_chars(text))
}

/// Whether an executable encoding result is the modelled one.
pub open spec fn encoded_as(r: Result<[u8; NAME_LENGTH], NameError>, model: Result<Seq<u8>, NameError>) -> bool {
    match r {
        Ok(buf) => model == Ok::<Seq<u8>, NameError>(buf@),
        Err(e) => model == Err::<Seq<u8>, NameError>(e),
    }
}

/// Tests every character of `text`, stopping at the first that is neither a
/// letter nor a digit.
pub fn is_alphanumeric_text(text: &str) -> (ok: bool)
    ensures
        ok == all_alphanumeric(text@),
        ok == all_name_chars(text@),
{
    let mut it = text.chars();
    loop
        invariant
            it.decrease() is Some,
            it.remaining().len() <= text@.len(),
            it.remaining() == text@.subrange(text@.len() - it.remaining().len(), text@.len() as int),
            forall|j: int|
                0 <= j < text@.len() - it.remaining().len() ==> is_name_char(#[trigger] text@[j]),
        decreases it.decrease()->0,
    {
        let ghost before = it.remaining();
        match it.next() {
            None => {
                return true;
            },
            Some(c) => {
                assert(c == text@[text@.len() - before.len()]);
                if !c.is_alphanumeric() {
                    return false;
                }
                assert(it.remaining() =~= text@.subrange(text@.len() - it.remaining().len(), text@.len() as int));
            },
        }
    }
}

/// Lays the UTF-8 bytes of a name into a zeroed buffer, after the two checks:
/// `alphanumeric` is the outcome of the character test on the whole name.
pub fn pack_name(bytes: &[u8], alphanumeric: bool) -> (r: Result<[u8; NAME_LENGTH], NameError>)
    ensures
        encoded_as(r, pack_spec(bytes@, alphanumeric)),
{
    if !alphanumeric {
        return Err(NameError::InvalidNameFormat);
    }
    if bytes.len() > NAME_LENGTH {
        return Err(NameError::NameTooLong);
    }
    let mut buf = [0u8; NAME_LENGTH];
    let mut i: usize = 0;
    while i < bytes.len()
        invariant
            i <= bytes@.len() <= NAME_LENGTH,
            forall|j: int| 0 <= j < i ==> buf@[j] == bytes@[j],
            forall|j: int| i <= j < NAME_LENGTH ==> buf@[j] == 0u8,
        decreases bytes@.len() - i,
    {
        buf[i] = bytes[i];
        i += 1;
    }
    assert(buf@ =~= padded(bytes@));
    Ok(buf)
}

/// Encodes `name` into the fixed-width field. Succeeds exactly when every
/// character is alphanumeric and the UTF-8 encoding fits in 50 bytes; a
/// non-alphanumeric character anywhere in the text is reported before the
/// length.
pub fn encode_name(name: &str) -> (r: Result<[u8; NAME_LENGTH], NameError>)
    ensures
        encoded_as(r, encode_spec(name@)),
        r is Ok <==> all_alphanumeric(name@) && name.spec_bytes().len() <= NAME_LENGTH,
        r == Err::<[u8; NAME_LENGTH], NameError>(NameError::InvalidNameFormat) <==> !all_alphanumeric(
            name@,
        ),
        r == Err::<[u8; NAME_LENGTH], NameError>(NameError::NameTooLong) <==> all_alphanumeric(name@)
            && name.spec_bytes().len() > NAME_LENGTH,
        r matches Ok(buf) ==> decode_spec(buf@) == Some(name@),
{
    let alphanumeric = is_alphanumeric_text(name);
    let r = pack_name(name.as_bytes(), alphanumeric);
    proof {
        if r is Ok {
            lemma_decode_encode(name@);
        }
    }
    r
}

/// Length of `buf` without its maximal trailing run of zero bytes.
pub open spec fn trimmed_len(buf: Seq<u8>) -> nat
    decreases buf.len(),
{
    if buf.len() == 0 {
        0
    } else if buf.last() != 0u8 {
        buf.len()
    } else {
        trimmed_len(buf.drop_last())
    }
}

/// `buf` without its maximal trailing run of zero bytes.
pub open spec fn trim_zeros(buf: Seq<u8>) -> Seq<u8> {
    buf.subrange(0, trimmed_len(buf) as int)
}

/// The text that a name buffer holds: its bytes up to the trailing zeros, read
/// as UTF-8; nothing where they are not well-formed UTF-8.
pub open spec fn decode_spec(buf: Seq<u8>) -> Option<Seq<char>> {
    if valid_utf8(trim_zeros(buf)) {
        Some(decode_utf8(trim_zeros(buf)))
    } else {
        None
    }
}

/// `n` is the trimmed length of `buf` as soon as only zeros follow position `n`
/// and the byte before it, if there is one, is not zero.
pub proof fn lemma_trimmed_len_unique(buf: Seq<u8>, n: int)
    requires
        0 <= n <= buf.len(),
        forall|j: int| n <= j < buf.len() ==> buf[j] == 0u8,
        n > 0 ==> buf[n - 1] != 0u8,
    ensures
        trimmed_len(buf) == n,
    decreases buf.len(),
{
    if buf.len() > n {
        lemma_trimmed_len_unique(buf.drop_last(), n);
    }
}

/// The trimmed length cuts off zeros only, and all of the trailing ones.
pub proof fn lemma_trimmed_len_maximal(buf: Seq<u8>)
    ensures
        trimmed_len(buf) <= buf.len(),
        forall|j: int| trimmed_len(buf) <= j < buf.len() ==> buf[j] == 0u8,
        trimmed_len(buf) > 0 ==> buf[trimmed_len(buf) - 1] != 0u8,
    decreases buf.len(),
{
    if buf.len() > 0 && buf.last() == 0u8 {
        let rest = buf.drop_last();
        lemma_trimmed_len_maximal(rest);
        assert forall|j: int| trimmed_len(buf) <= j < buf.len() implies buf[j] == 0u8 by {
            if j < rest.len() {
                assert(rest[j] == buf[j]);
            }
        }
    }
}

/// Number of bytes of the name in `buf`: its length without the trailing zeros.
pub fn name_len(buf: &[u8; NAME_LENGTH]) -> (n: usize)
    ensures
        n == trimmed_len(buf@),
        n <= NAME_LENGTH,
        forall|j: int| n <= j < NAME_LENGTH ==> buf@[j] == 0u8,
        n > 0 ==> buf@[n - 1] != 0u8,
{
    let mut n: usize = NAME_LENGTH;
    while n > 0 && buf[n - 1] == 0
        invariant
            n <= NAME_LENGTH,
            forall|j: int| n <= j < NAME_LENGTH ==> buf@[j] == 0u8,
        decreases n,
    {
        n -= 1;
    }
    proof {
        lemma_trimmed_len_unique(buf@, n as int);
    }
    n
}

/// Reads the name back: trims the trailing zero bytes and takes the rest as
/// UTF-8 text. `None` only for a buffer whose trimmed bytes are not UTF-8,
/// which encoding never produces.
pub fn decode_name(buf: &[u8; NAME_LENGTH]) -> (r: Option<String>)
    ensures
        match r {
            Some(s) => decode_spec(buf@) == Some(s@),
            None => decode_spec(buf@) is None,
        },
{
    let n = name_len(buf);
    let bytes = slice_subrange(array_as_slice(buf), 0, n);
    assert(bytes@ == trim_zeros(buf@));
    match core::str::from_utf8(bytes) {
        Ok(s) => {
            proof {
                encode_utf8_decode_utf8(s@);
            }
            Some(s.to_owned())
        },
        Err(_) => None,
    }
}

/// The UTF-8 encoding of a character other than NUL holds no zero byte.
pub proof fn lemma_encode_scalar_nonzero(c: char)
    requires
        c != '\0',
    ensures
        forall|j: int| 0 <= j < encode_scalar(c as u32).len() ==> #[trigger] encode_scalar(c as u32)[j] != 0u8,
{
    let s = c as u32;
    assert(0 < s <= 0x7F ==> (s & 0x7F) as u8 != 0u8) by (bit_vector);
    assert(forall|y: u8| 0xC0u8 | y != 0u8) by (bit_vector);
    assert(forall|y: u8| 0xE0u8 | y != 0u8) by (bit_vector);
    assert(forall|y: u8| 0xF0u8 | y != 0u8) by (bit_vector);
    assert(forall|y: u8| 0x80u8 | y != 0u8) by (bit_vector);
}

/// The UTF-8 encoding of a text without NUL holds no zero byte.
pub proof fn lemma_encode_utf8_nonzero(text: Seq<char>)
    requires
        forall|i: int| 0 <= i < text.len() ==> #[trigger] text[i] != '\0',
    ensures
        forall|j: int| 0 <= j < encode_utf8(text).len() ==> #[trigger] encode_utf8(text)[j] != 0u8,
    decreases text.len(),
{
    if text.len() > 0 {
        let first = encode_scalar(text[0] as u32);
        let rest = text.drop_first();
        lemma_encode_scalar_nonzero(text[0]);
        assert forall|i: int| 0 <= i < rest.len() implies #[trigger] rest[i] != '\0' by {
            assert(rest[i] == text[i + 1]);
        }
        lemma_encode_utf8_nonzero(rest);
        assert forall|j: int| 0 <= j < encode_utf8(text).len() implies #[trigger] encode_utf8(text)[j] != 0u8 by {
            if j < first.len() {
                assert(encode_utf8(text)[j] == first[j]);
            } else {
                assert(encode_utf8(text)[j] == encode_utf8(rest)[j - first.len()]);
            }
        }
    }
}

/// Round trip: a text that encodes comes back from its buffer unchanged.
pub proof fn lemma_decode_encode(text: Seq<char>)
    requires
        encode_spec(text) is Ok,
    ensures
        decode_spec(encode_spec(text)->Ok_0) == Some(text),
{
    let bytes = encode_utf8(text);
    let buf = padded(bytes);
    assert forall|i: int| 0 <= i < text.len() implies #[trigger] text[i] != '\0' by {
        assert(is_name_char(text[i]));
    }
    lemma_encode_utf8_nonzero(text);
    lemma_trimmed_len_unique(buf, bytes.len() as int);
    assert(trim_zeros(buf) =~= bytes);
    encode_utf8_valid_utf8(text);
    encode_utf8_decode_utf8(text);
}

} // verus!
