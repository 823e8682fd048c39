//! Text on its way across the native boundary.
//!
//! Outbound text becomes a null-terminated byte string, which cannot hold a
//! null byte of its own; text with one is refused. Inbound bytes are read up
//! to the first null byte and decoded leniently, so that they always yield
//! text.

use vstd::prelude::*;
use vstd::string::StrSliceExecFns;
use vstd::utf8::{
    decode_utf8, encode_scalar, encode_utf8, has_width_1_encoding, has_width_2_encoding,
    has_width_3_encoding, is_scalar, last_continuation_byte, leading_byte_width_1,
    leading_byte_width_2, leading_byte_width_3, leading_byte_width_4,
    second_last_continuation_byte, third_last_continuation_byte, valid_utf8,
};

verus! {

/// Some byte of `bytes` is null.
pub open spec fn has_nul(bytes: Seq<u8>) -> bool {
    exists|i: int| 0 <= i < bytes.len() && bytes[i] == 0u8
}

/// `position` is where the first null byte of `bytes` stands.
pub open spec fn is_first_nul(bytes: Seq<u8>, position: int) -> bool {
    &&& 0 <= position < bytes.len()
    &&& bytes[position] == 0u8
    &&& forall|i: int| 0 <= i < position ==> bytes[i] != 0u8
}

/// The null-terminated form of `bytes`.
pub open spec fn terminated(bytes: Seq<u8>) -> Seq<u8> {
    bytes.push(0u8)
}

/// The bytes of `buffer` that come before its first null byte; all of them
/// where it has none.
pub open spec fn until_nul(buffer: Seq<u8>) -> Seq<u8>
    decreases buffer.len(),
{
    if buffer.len() == 0 || buffer[0] == 0u8 {
        Seq::empty()
    } else {
        seq![buffer[0]] + until_nul(buffer.drop_first())
    }
}

/// The text that the lenient decoder makes of `bytes`.
pub uninterp spec fn utf8_lossy(bytes: Seq<u8>) -> Seq<char>;

/// The text that `bytes` are read as: what they encode where they are valid
/// UTF-8, and the lenient decoder's repair of them where they are not.
pub open spec fn text_of(bytes: Seq<u8>) -> Seq<char> {
    if valid_utf8(bytes) {
        decode_utf8(bytes)
    } else {
        utf8_lossy(bytes)
    }
}

/// Why a text could not be put in null-terminated form: it holds a null byte.
#[derive(Debug, PartialEq, Eq)]
pub struct NulError {
    position: usize,
    bytes: Vec<u8>,
}

impl NulError {
    /// The index of the first null byte in the refused bytes.
    pub closed spec fn position(&self) -> int {
        self.position as int
    }

    /// The refused bytes.
    pub closed spec fn bytes(&self) -> Seq<u8> {
        self.bytes@
    }

    /// This error is the one that refusing `bytes` gives.
    pub open spec fn reports(&self, bytes: Seq<u8>) -> bool {
        &&& self.bytes() == bytes
        &&& is_first_nul(bytes, self.position())
    }

    /// The error that names `position` in `bytes`.
    pub fn new(position: usize, bytes: Vec<u8>) -> (error: NulError)
        ensures
            error.position() == position,
            error.bytes() == bytes@,
    {
        NulError { position, bytes }
    }

    /// The index of the first null byte in the refused bytes.
    pub fn nul_position(&self) -> (position: usize)
        ensures
            position == self.position(),
    {
        self.position
    }

    /// The refused bytes.
    pub fn into_vec(self) -> (bytes: Vec<u8>)
        ensures
            bytes@ == self.bytes(),
    {
        self.bytes
    }
}

/// A text in null-terminated form: its bytes, none of them null, and one
/// null byte after them.
#[derive(Debug, PartialEq, Eq)]
pub struct CText {
    bytes: Vec<u8>,
}

impl View for CText {
    type V = Seq<u8>;

    /// The bytes before the terminator.
    closed spec fn view(&self) -> Seq<u8> {
        self.bytes@.drop_last()
    }
}

impl CText {
    #[verifier::type_invariant]
    spec fn well_formed(self) -> bool {
        &&& self.bytes@.len() > 0
        &&& self.bytes@.last() == 0u8
        &&& !has_nul(self.bytes@.drop_last())
    }

    /// The null-terminated form of `text`, unless `text` holds a null byte.
    pub fn new(text: &str) -> (result: Result<CText, NulError>)
        ensures
            match result {
                Ok(c_text) => !has_nul(encode_utf8(text@)) && c_text@ == encode_utf8(text@),
                Err(error) => has_nul(encode_utf8(text@)) && error.reports(encode_utf8(text@)),
            },
    {
        let mut bytes = text.as_bytes_vec();
        let mut i: usize = 0;
        while i < bytes.len()
            invariant
                i <= bytes.len(),
                bytes@ == encode_utf8(text@),
                forall|k: int| 0 <= k < i ==> bytes@[k] != 0u8,
            decreases bytes.len() - i,
        {
            if bytes[i] == 0 {
                return Err(NulError::new(i, bytes));
            }
            i += 1;
        }
        bytes.push(0);
        assert(bytes@.drop_last() == encode_utf8(text@));
        Ok(CText { bytes })
    }

    /// The bytes of the text, without the terminator.
    pub fn as_bytes(&self) -> (bytes: &[u8])
        ensures
            bytes@ == self@,
            !has_nul(self@),
    {
        proof {
            use_type_invariant(self);
        }
        vstd::slice::slice_subrange(self.bytes.as_slice(), 0, self.bytes.len() - 1)
    }

    /// The bytes of the text and the terminator after them.
    pub fn as_bytes_with_nul(&self) -> (bytes: &[u8])
        ensures
            bytes@ == terminated(self@),
            !has_nul(self@),
    {
        proof {
            use_type_invariant(self);
            assert(self.bytes@ == self.bytes@.drop_last().push(self.bytes@.last()));
        }
        self.bytes.as_slice()
    }

    /// The bytes of the text and the terminator after them.
    pub fn into_bytes_with_nul(self) -> (bytes: Vec<u8>)
        ensures
            bytes@ == terminated(self@),
            !has_nul(self@),
    {
        proof {
            use_type_invariant(&self);
            assert(self.bytes@ == self.bytes@.drop_last().push(self.bytes@.last()));
        }
        self.bytes
    }
}

/// Calls `String::from_utf8_lossy` and takes ownership of what it returns.
/// The contract names the text that comes back, and claims what the
/// function's documentation says of valid input: valid UTF-8 is decoded as it
/// stands. What invalid input is repaired to is named and not stated.
#[verifier::external_body]
fn decode_lossy(bytes: &[u8]) -> (text: String)
    ensures
        text@ == utf8_lossy(bytes@),
        valid_utf8(bytes@) ==> text@ == decode_utf8(bytes@),
{
    String::from_utf8_lossy(bytes).into_owned()
}

/// The part of `buffer` before its first null byte.
pub fn take_until_nul(buffer: &[u8]) -> (bytes: &[u8])
    ensures
        bytes@ == until_nul(buffer@),
{
    let mut end: usize = 0;
    while end < buffer.len() && buffer[end] != 0
        invariant
            end <= buffer.len(),
            forall|k: int| 0 <= k < end ==> buffer@[k] != 0u8,
        decreases buffer.len() - end,
    {
        end += 1;
    }
    proof {
        lemma_until_nul_is_prefix(buffer@, end as int);
    }
    vstd::slice::slice_subrange(buffer, 0, end)
}

/// Reads the text that a native buffer holds: the bytes before the first
/// null byte, decoded leniently. Every buffer yields a text.
pub fn read_c_text(buffer: &[u8]) -> (text: String)
    ensures
        text@ == text_of(until_nul(buffer@)),
{
    decode_lossy(take_until_nul(buffer))
}

/// Where the first `end` bytes of `buffer` are not null and the buffer ends
/// there or has a null byte there, they are what `until_nul` keeps.
pub proof fn lemma_until_nul_is_prefix(buffer: Seq<u8>, end: int)
    requires
        0 <= end <= buffer.len(),
        forall|k: int| 0 <= k < end ==> buffer[k] != 0u8,
        end == buffer.len() || buffer[end] == 0u8,
    ensures
        until_nul(buffer) == buffer.subrange(0, end),
    decreases buffer.len(),
{
    if end == 0 {
        assert(buffer.subrange(0, 0) == Seq::<u8>::empty());
    } else {
        let rest = buffer.drop_first();
        assert forall|k: int| 0 <= k < end - 1 implies rest[k] != 0u8 by {
            assert(rest[k] == buffer[k + 1]);
        }
        lemma_until_nul_is_prefix(rest, end - 1);
        assert(seq![buffer[0]] + rest.subrange(0, end - 1) == buffer.subrange(0, end));
    }
}

/// Marshaling round-trips: a text without a null byte, put in
/// null-terminated form and read back, is the same text.
pub proof fn lemma_marshal_round_trip(text: Seq<char>)
    requires
        !has_nul(encode_utf8(text)),
    ensures
        until_nul(terminated(encode_utf8(text))) == encode_utf8(text),
        text_of(until_nul(terminated(encode_utf8(text)))) == text,
{
    let bytes = encode_utf8(text);
    let buffer = terminated(bytes);
    lemma_until_nul_is_prefix(buffer, bytes.len() as int);
    assert(buffer.subrange(0, bytes.len() as int) == bytes);
    vstd::utf8::encode_utf8_valid_utf8(text);
    vstd::utf8::encode_utf8_decode_utf8(text);
}

/// Of the bytes that encode a scalar, only the single byte of the null
/// scalar is null.
proof fn lemma_scalar_bytes(scalar: u32)
    by (bit_vector)
    requires
        is_scalar(scalar),
    ensures
        has_width_1_encoding(scalar) ==> (leading_byte_width_1(scalar) == 0u8 <==> scalar == 0u32),
        leading_byte_width_2(scalar) != 0u8,
        leading_byte_width_3(scalar) != 0u8,
        leading_byte_width_4(scalar) != 0u8,
        last_continuation_byte(scalar) != 0u8,
        second_last_continuation_byte(scalar) != 0u8,
        third_last_continuation_byte(scalar) != 0u8,
{
}

/// A text holds a null byte exactly if it holds the null character.
pub proof fn lemma_nul_byte_iff_nul_char(text: Seq<char>)
    ensures
        has_nul(encode_utf8(text)) <==> text.contains('\0'),
    decreases text.len(),
{
    if text.len() > 0 {
        let scalar = text[0] as u32;
        let first = encode_scalar(scalar);
        let rest = text.drop_first();
        let bytes = encode_utf8(text);
        vstd::utf8::char_is_scalar(text[0]);
        lemma_scalar_bytes(scalar);
        lemma_nul_byte_iff_nul_char(rest);
        assert(bytes == first + encode_utf8(rest));
        assert(scalar == 0u32 <==> text[0] == '\0') by {
            vstd::utf8::char_u32_cast(text[0], scalar);
            vstd::utf8::char_u32_cast('\0', 0u32);
        }
        assert(has_nul(first) <==> text[0] == '\0') by {
            if has_nul(first) {
                let i = choose|i: int| 0 <= i < first.len() && first[i] == 0u8;
                if has_width_1_encoding(scalar) {
                    assert(first[i] == leading_byte_width_1(scalar));
                } else if has_width_2_encoding(scalar) {
                    assert(i == 0 || i == 1);
                } else if has_width_3_encoding(scalar) {
                    assert(i == 0 || i == 1 || i == 2);
                } else {
                    assert(i == 0 || i == 1 || i == 2 || i == 3);
                }
            }
            if text[0] == '\0' {
                assert(first[0] == 0u8);
            }
        }
        if has_nul(bytes) {
            let i = choose|i: int| 0 <= i < bytes.len() && bytes[i] == 0u8;
            if i < first.len() {
                assert(first[i] == 0u8);
            } else {
                assert(encode_utf8(rest)[i - first.len()] == 0u8);
                let k = choose|k: int| 0 <= k < rest.len() && rest[k] == '\0';
                assert(text[k + 1] == '\0');
            }
        }
        if text.contains('\0') {
            let k = choose|k: int| 0 <= k < text.len() && text[k] == '\0';
            if k == 0 {
                let i = choose|i: int| 0 <= i < first.len() && first[i] == 0u8;
                assert(bytes[i] == 0u8);
            } else {
                assert(rest[k - 1] == '\0');
                let i = choose|i: int|
                    0 <= i < encode_utf8(rest).len() && encode_utf8(rest)[i] == 0u8;
                assert(bytes[first.len() + i] == 0u8);
            }
        }
    }
}

} // verus!
