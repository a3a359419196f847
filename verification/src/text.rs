//! Text as it crosses the boundary to the user interface: NUL-terminated
//! C strings whose content is UTF-8.
use vstd::prelude::*;
use vstd::utf8::*;

verus! {

/// The word the user interface sends where a value is absent.
pub open spec fn null_word() -> Seq<u8> {
    seq![110u8, 117u8, 108u8, 108u8]
}

/// The C bytes of a text: its UTF-8 encoding (without the terminating NUL).
pub open spec fn c_bytes(text: Seq<char>) -> Seq<u8> {
    encode_utf8(text)
}

/// A text can travel as a C string exactly when it holds no NUL character.
pub open spec fn is_c_text(text: Seq<char>) -> bool {
    !text.contains('\0')
}

/// The text that the content of a C string stands for.
pub open spec fn text_of(bytes: Seq<u8>) -> Seq<char> {
    decode_utf8(bytes)
}

/// The UTF-8 encoding of a scalar holds a zero byte exactly when the scalar is NUL.
proof fn lemma_encode_scalar_zero(c: char)
    ensures
        encode_scalar(c as u32).contains(0u8) <==> c == '\0',
{
    let v = c as u32;
    char_is_scalar(c);
    let e = encode_scalar(v);
    if has_width_1_encoding(v) {
        assert((v & 0x7F) as u8 == 0 <==> v == 0) by (bit_vector)
            requires
                v <= 0x7F,
        ;
        assert(e[0] == leading_byte_width_1(v));
        if v != 0 {
            assert(!e.contains(0u8)) by {
                assert forall|i: int| 0 <= i < e.len() implies e[i] != 0u8 by {}
            }
        } else {
            assert(e[0] == 0u8);
        }
        assert(('\0' as u32) == 0);
    } else {
        assert(0xC0 | ((v >> 6) & 0x1F) as u8 != 0) by (bit_vector);
        assert(0xE0 | ((v >> 12) & 0x0F) as u8 != 0) by (bit_vector);
        assert(0xF0 | ((v >> 18) & 0x7) as u8 != 0) by (bit_vector);
        assert(0x80 | (v & 0x3F) as u8 != 0) by (bit_vector);
        assert(0x80 | ((v >> 6) & 0x3F) as u8 != 0) by (bit_vector);
        assert(0x80 | ((v >> 12) & 0x3F) as u8 != 0) by (bit_vector);
        assert forall|i: int| 0 <= i < e.len() implies e[i] != 0u8 by {}
        assert(v != 0);
        assert(('\0' as u32) == 0);
    }
}

/// The C bytes of a text hold a zero byte exactly when the text holds a NUL character.
pub proof fn lemma_c_bytes_zero(text: Seq<char>)
    ensures
        c_bytes(text).contains(0u8) <==> !is_c_text(text),
    decreases text.len(),
{
    if text.len() == 0 {
        assert(!c_bytes(text).contains(0u8));
    } else {
        let head = encode_scalar(text[0] as u32);
        let rest = text.drop_first();
        lemma_encode_scalar_zero(text[0]);
        lemma_c_bytes_zero(rest);
        let all = c_bytes(text);
        assert(all == head + c_bytes(rest));
        if all.contains(0u8) {
            let i = choose|i: int| 0 <= i < all.len() && all[i] == 0u8;
            if i < head.len() {
                assert(head[i] == 0u8);
                assert(text.contains('\0'));
            } else {
                assert(c_bytes(rest)[i - head.len()] == 0u8);
                let j = choose|j: int| 0 <= j < rest.len() && rest[j] == '\0';
                assert(text[j + 1] == '\0');
            }
        }
        if text.contains('\0') {
            let j = choose|j: int| 0 <= j < text.len() && text[j] == '\0';
            if j == 0 {
                let i = choose|i: int| 0 <= i < head.len() && head[i] == 0u8;
                assert(all[i] == 0u8);
            } else {
                assert(rest[j - 1] == '\0');
                let i = choose|i: int|
                    0 <= i < c_bytes(rest).len() && c_bytes(rest)[i] == 0u8;
                assert(all[head.len() + i] == 0u8);
            }
        }
    }
}

/// Text written to C bytes and read back is the same text.
pub proof fn lemma_c_bytes_round_trip(text: Seq<char>)
    ensures
        valid_utf8(c_bytes(text)),
        text_of(c_bytes(text)) == text,
{
    encode_utf8_valid_utf8(text);
    encode_utf8_decode_utf8(text);
}

/// Valid UTF-8 read as text and written back gives the same bytes: so a text
/// and the C bytes it was read from can be used in place of each other.
pub proof fn lemma_text_bytes_round_trip(bytes: Seq<u8>)
    requires
        valid_utf8(bytes),
    ensures
        c_bytes(text_of(bytes)) == bytes,
{
    decode_utf8_encode_utf8(bytes);
}

/// Decodes UTF-8 bytes with `std::str::from_utf8`.
///
/// Trusted: `from_utf8` is documented to succeed exactly on valid UTF-8,
/// and the string it returns holds the characters that the bytes encode.
#[verifier::external_body]
fn utf8_text(bytes: &[u8]) -> (r: Option<String>)
    ensures
        r is Some <==> valid_utf8(bytes@),
        r matches Some(s) ==> s@ == decode_utf8(bytes@),
{
    match std::str::from_utf8(bytes) {
        Ok(s) => Some(s.to_string()),
        Err(_) => None,
    }
}

/// Whether the content of a C string is valid UTF-8, so that it can be read as text.
pub fn is_valid_text(bytes: &[u8]) -> (r: bool)
    ensures
        r == valid_utf8(bytes@),
{
    utf8_text(bytes).is_some()
}

/// Reads the content of a C string (its bytes up to the terminating NUL) as text.
pub fn to_rust_string(bytes: &[u8]) -> (r: String)
    requires
        valid_utf8(bytes@),
    ensures
        r@ == text_of(bytes@),
{
    match utf8_text(bytes) {
        Some(s) => s,
        None => {
            assert(false);
            String::new()
        },
    }
}

/// Whether a text can be handed to the user interface as a C string.
pub fn is_c_string_text(text: &str) -> (r: bool)
    ensures
        r == is_c_text(text@),
{
    let bytes = text.as_bytes();
    let n = bytes.len();
    let mut i: usize = 0;
    while i < n
        invariant
            n == bytes@.len(),
            bytes@ == c_bytes(text@),
            0 <= i <= n,
            forall|k: int| 0 <= k < i ==> bytes@[k] != 0u8,
        decreases n - i,
    {
        if bytes[i] == 0 {
            proof {
                lemma_c_bytes_zero(text@);
            }
            return false;
        }
        i = i + 1;
    }
    proof {
        lemma_c_bytes_zero(text@);
    }
    true
}

/// The C bytes (without the terminating NUL) that carry a text to the user interface.
pub fn to_java_string(text: &str) -> (r: Vec<u8>)
    requires
        is_c_text(text@),
    ensures
        r@ == c_bytes(text@),
        !r@.contains(0u8),
{
    proof {
        lemma_c_bytes_zero(text@);
    }
    let bytes = text.as_bytes();
    let n = bytes.len();
    let mut out: Vec<u8> = Vec::new();
    let mut i: usize = 0;
    while i < n
        invariant
            n == bytes@.len(),
            0 <= i <= n,
            out@ == bytes@.subrange(0, i as int),
        decreases n - i,
    {
        out.push(bytes[i]);
        i = i + 1;
    }
    assert(out@ == bytes@);
    out
}

/// The C bytes of the word that stands for an absent value.
pub fn null_bytes() -> (r: Vec<u8>)
    ensures
        r@ == null_word(),
{
    let mut v: Vec<u8> = Vec::new();
    v.push(110u8);
    v.push(117u8);
    v.push(108u8);
    v.push(108u8);
    assert(v@ == null_word());
    v
}

/// Whether the content of a C string is the word that stands for an absent value.
pub fn is_null_word(bytes: &[u8]) -> (r: bool)
    ensures
        r == (bytes@ == null_word()),
{
    if bytes.len() != 4 {
        return false;
    }
    let r = bytes[0] == 110u8 && bytes[1] == 117u8 && bytes[2] == 108u8 && bytes[3] == 108u8;
    if r {
        assert(bytes@ == null_word());
    }
    r
}

} // verus!
