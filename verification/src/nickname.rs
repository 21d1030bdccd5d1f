//! The name of the strip. The device reports it as the base64 text of its UTF-8 bytes.
use vstd::prelude::*;
use vstd::utf8::{decode_utf8, encode_utf8, valid_utf8};
use base64::Engine;
use crate::text::{blank, trim, trimmed, trimmed_empty_iff_blank};

verus! {

/// The error type of base64 decoding.
#[verifier::external_type_specification]
#[verifier::external_body]
pub struct ExDecodeError(base64::DecodeError);

/// The error type of UTF-8 decoding.
#[verifier::external_type_specification]
#[verifier::external_body]
pub struct ExFromUtf8Error(std::string::FromUtf8Error);

/// `String::from_utf8` accepts exactly the valid UTF-8 byte sequences and gives the characters
/// they encode.
pub assume_specification[ String::from_utf8 ](bytes: Vec<u8>) -> (r: Result<
    String,
    std::string::FromUtf8Error,
>)
    ensures
        r is Ok <==> valid_utf8(bytes@),
        r matches Ok(s) ==> s@ == decode_utf8(bytes@),
;

/// The symbol for a six-bit value in the standard base64 alphabet: `A` to `Z`, `a` to `z`, `0`
/// to `9`, `+` and `/`.
pub open spec fn symbol(v: int) -> char {
    if v < 26 {
        (v + 65) as char
    } else if v < 52 {
        (v + 71) as char
    } else if v < 62 {
        (v - 4) as char
    } else if v == 62 {
        '+'
    } else {
        '/'
    }
}

/// The base64 text of some bytes, with padding.
pub open spec fn base64_text(b: Seq<u8>) -> Seq<char>
    decreases b.len(),
{
    if b.len() == 0 {
        seq![]
    } else if b.len() == 1 {
        seq![symbol((b[0] / 4) as int), symbol(b[0] % 4 * 16), '=', '=']
    } else if b.len() == 2 {
        seq![
            symbol((b[0] / 4) as int),
            symbol(b[0] % 4 * 16 + b[1] / 16),
            symbol(b[1] % 16 * 4),
            '=',
        ]
    } else {
        seq![
            symbol((b[0] / 4) as int),
            symbol(b[0] % 4 * 16 + b[1] / 16),
            symbol(b[1] % 16 * 4 + b[2] / 64),
            symbol((b[2] % 64) as int),
        ] + base64_text(b.skip(3))
    }
}

/// The bytes whose base64 text is `text`, if there are any.
pub open spec fn base64_bytes(text: Seq<char>) -> Option<Seq<u8>> {
    if exists|b: Seq<u8>| base64_text(b) == text {
        Some(choose|b: Seq<u8>| base64_text(b) == text)
    } else {
        None
    }
}

/// Calls `decode` of the `STANDARD` engine of the base64 crate. The engine requires padding and
/// rejects discarded bits that are not zero, so it decodes exactly the texts that encoding
/// produces, to the bytes they encode.
#[verifier::external_body]
fn decode_base64(text: &str) -> (r: Result<Vec<u8>, base64::DecodeError>)
    ensures
        r matches Ok(bytes) ==> base64_text(bytes@) == text@,
        r is Err ==> forall|b: Seq<u8>| #[trigger] base64_text(b) != text@,
{
    base64::engine::general_purpose::STANDARD.decode(text)
}

proof fn base64_text_len(b: Seq<u8>)
    ensures
        b.len() > 0 ==> base64_text(b).len() >= 4,
        b.len() == 0 ==> base64_text(b).len() == 0,
{
    if b.len() >= 3 {
        assert(base64_text(b).len() == 4 + base64_text(b.skip(3)).len());
    }
}

/// Different bytes have different base64 texts.
pub proof fn base64_text_is_injective(a: Seq<u8>, b: Seq<u8>)
    requires
        base64_text(a) == base64_text(b),
    ensures
        a == b,
    decreases a.len(),
{
    let t = base64_text(a);
    assert(forall|v: int| 0 <= v < 64 ==> #[trigger] symbol(v) != '=');
    assert(forall|v: int, w: int|
        0 <= v < 64 && 0 <= w < 64 && #[trigger] symbol(v) == #[trigger] symbol(w) ==> v == w);
    if a.len() >= 3 && b.len() >= 3 {
        assert(t[0] == symbol((a[0] / 4) as int) && t[0] == symbol((b[0] / 4) as int));
        assert(t[1] == symbol(a[0] % 4 * 16 + a[1] / 16) && t[1] == symbol(
            b[0] % 4 * 16 + b[1] / 16,
        ));
        assert(t[2] == symbol(a[1] % 16 * 4 + a[2] / 64) && t[2] == symbol(
            b[1] % 16 * 4 + b[2] / 64,
        ));
        assert(t[3] == symbol((a[2] % 64) as int) && t[3] == symbol((b[2] % 64) as int));
        assert(t.skip(4) == base64_text(a.skip(3)));
        assert(t.skip(4) == base64_text(b.skip(3)));
        base64_text_is_injective(a.skip(3), b.skip(3));
        assert(a == seq![a[0], a[1], a[2]] + a.skip(3));
        assert(b == seq![b[0], b[1], b[2]] + b.skip(3));
    } else if a.len() == 0 || b.len() == 0 {
        base64_text_len(a);
        base64_text_len(b);
        assert(a =~= b);
    } else {
        assert(t[0] == symbol((a[0] / 4) as int) && t[0] == symbol((b[0] / 4) as int));
        assert(t[2] == base64_text(b)[2]);
        assert(t[3] == base64_text(b)[3]);
        assert(t[1] == base64_text(b)[1]);
        assert(a.len() == b.len());
        assert(a =~= b);
    }
}

/// Decoding gives back what was encoded.
pub proof fn base64_round_trip(b: Seq<u8>)
    ensures
        base64_bytes(base64_text(b)) == Some(b),
{
    let text = base64_text(b);
    let c = choose|c: Seq<u8>| base64_text(c) == text;
    base64_text_is_injective(b, c);
}

/// The name shown for a strip whose nickname decodes to `bytes`.
pub open spec fn shown_name(bytes: Option<Seq<u8>>) -> Seq<char> {
    match bytes {
        Some(b) if valid_utf8(b) && !blank(decode_utf8(b)) => trimmed(decode_utf8(b)),
        _ => "Tapo LED"@,
    }
}

/// The model of optional bytes.
pub open spec fn bytes_view(bytes: Option<Vec<u8>>) -> Option<Seq<u8>> {
    match bytes {
        Some(b) => Some(b@),
        None => None,
    }
}

/// Decodes a nickname.
pub fn nickname_bytes(nickname: &str) -> (r: Option<Vec<u8>>)
    ensures
        bytes_view(r) == base64_bytes(nickname@),
{
    match decode_base64(nickname) {
        Ok(bytes) => {
            proof {
                base64_round_trip(bytes@);
            }
            Some(bytes)
        },
        Err(_) => None,
    }
}

/// Picks the name to show for a decoded nickname.
pub fn display_name(bytes: Option<Vec<u8>>) -> (r: String)
    ensures
        r@ == shown_name(bytes_view(bytes)),
{
    if let Some(b) = bytes {
        if let Ok(name) = String::from_utf8(b) {
            let name: &str = trim(name.as_str());
            proof {
                trimmed_empty_iff_blank(decode_utf8(b@));
            }
            if !name.is_empty() {
                return name.to_owned();
            }
        }
    }
    "Tapo LED".to_owned()
}

/// A strip that reports the encoded form of a name is shown under that name, trimmed, unless the
/// name is blank.
pub proof fn encoded_name_is_shown(name: Seq<char>)
    ensures
        shown_name(base64_bytes(base64_text(encode_utf8(name)))) == if blank(name) {
            "Tapo LED"@
        } else {
            trimmed(name)
        },
{
    base64_round_trip(encode_utf8(name));
    vstd::utf8::encode_utf8_valid_utf8(name);
    vstd::utf8::encode_utf8_decode_utf8(name);
}

/// A nickname that is not the encoded form of a name is replaced by a general name.
pub proof fn unreadable_name_is_replaced(nickname: Seq<char>)
    requires
        forall|b: Seq<u8>| valid_utf8(b) ==> #[trigger] base64_text(b) != nickname,
    ensures
        shown_name(base64_bytes(nickname)) == "Tapo LED"@,
{
}

/// The model of optional bytes holds those bytes, if there are any.
pub proof fn bytes_are_what_they_hold(bytes: Vec<u8>)
    ensures
        bytes_view(Some(bytes)) == Some(bytes@),
        bytes_view(None) is None,
{
}

} // verus!
