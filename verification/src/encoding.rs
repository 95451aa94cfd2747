//! Byte and text encodings used by the broker protocols: hexadecimal and
//! little-endian integers (stated and proved here), and the calls into
//! `serde_json`, `sha2`, `base64`, `uuid`, `toml` and the system random
//! source, whose results are named or bounded by the trusted items below.
use vstd::prelude::*;
use vstd::utf8::valid_utf8;
use vstd::utf8::decode_utf8;
use base64::Engine;
use sha2::Digest;
use aes_gcm::aead::Generate;

verus! {

/// How `serde_json` writes one character inside a string literal: `"`
/// and `\` behind a backslash, the controls with a short escape as `\b`,
/// `\t`, `\n`, `\f`, `\r`, every other control below U+0020 as `\u00`
/// and two lowercase hexadecimal digits, and anything else as it is.
pub open spec fn json_escaped_char(c: char) -> Seq<char> {
    if c == '"' {
        seq!['\\', '"']
    } else if c == '\\' {
        seq!['\\', '\\']
    } else if c == '\u{8}' {
        seq!['\\', 'b']
    } else if c == '\t' {
        seq!['\\', 't']
    } else if c == '\n' {
        seq!['\\', 'n']
    } else if c == '\u{c}' {
        seq!['\\', 'f']
    } else if c == '\r' {
        seq!['\\', 'r']
    } else if (c as u32) < 0x20 {
        seq!['\\', 'u', '0', '0', hex_digit(((c as u32) / 16) as nat), hex_digit(((c as u32) % 16) as nat)]
    } else {
        seq![c]
    }
}

/// The characters of a text, each written as `serde_json` writes it inside
/// a string literal.
pub open spec fn json_escaped(s: Seq<char>) -> Seq<char>
    decreases s.len(),
{
    if s.len() == 0 {
        Seq::empty()
    } else {
        json_escaped(s.drop_last()) + json_escaped_char(s.last())
    }
}

/// The JSON string literal that `serde_json::to_string` writes for a `str`,
/// quotes included. Serialising a string never fails, so it is always
/// `Some`.
pub open spec fn json_quoted(s: Seq<char>) -> Option<Seq<char>> {
    Some(seq!['"'] + json_escaped(s) + seq!['"'])
}

/// The SHA-256 digest of a byte sequence.
pub uninterp spec fn sha256(bytes: Seq<u8>) -> Seq<u8>;

/// What `base64`'s standard (padded) engine decodes from a text, or `None`
/// where it reports a decode error.
pub uninterp spec fn base64_standard_decoded(text: Seq<char>) -> Option<Seq<u8>>;

/// The text `base64`'s standard (padded) engine encodes bytes to.
pub uninterp spec fn base64_standard(bytes: Seq<u8>) -> Seq<char>;

/// The text `base64`'s URL-safe engine without padding encodes bytes to.
pub uninterp spec fn base64_url_no_pad(bytes: Seq<u8>) -> Seq<char>;

/// The sixteen bytes of the UUID that `uuid::Uuid::parse_str` reads from a
/// text, or `None` where it rejects the text.
pub uninterp spec fn uuid_parsed(text: Seq<char>) -> Option<Seq<u8>>;

/// Whether `toml::from_str::<toml::Value>` accepts a text.
pub uninterp spec fn toml_accepts(text: Seq<char>) -> bool;

/// The text `String::from_utf8_lossy` makes of bytes.
pub uninterp spec fn utf8_lossy(bytes: Seq<u8>) -> Seq<char>;

/// The text `String::from_utf16_lossy` makes of UTF-16 code units.
pub uninterp spec fn utf16_lossy(units: Seq<u16>) -> Seq<char>;

/// Calls `serde_json::to_string` on a `str`. As its source shows, a string
/// is written into a growing buffer that cannot fail, quoted and escaped as
/// [`json_quoted`] states.
#[verifier::external_body]
pub(crate) fn json_string_literal(s: &str) -> (r: Option<String>)
    ensures
        r matches Some(t) ==> json_quoted(s@) == Some(t@),
        r is Some,
{
    serde_json::to_string(s).ok()
}

/// Calls `sha2::Sha256::digest`. The contract claims the named digest of the
/// input, which is 32 bytes long (the output size of SHA-256).
#[verifier::external_body]
pub(crate) fn sha256_digest(bytes: &[u8]) -> (r: Vec<u8>)
    ensures
        r@ == sha256(bytes@),
        r@.len() == 32,
{
    sha2::Sha256::digest(bytes).to_vec()
}

/// Calls `decode` of `base64::engine::general_purpose::STANDARD`. The
/// contract claims the named decoding of the input.
#[verifier::external_body]
pub(crate) fn base64_standard_decode(text: &str) -> (r: Option<Vec<u8>>)
    ensures
        r matches Some(v) ==> base64_standard_decoded(text@) == Some(v@),
        r is None ==> base64_standard_decoded(text@) is None,
{
    base64::engine::general_purpose::STANDARD.decode(text).ok()
}

/// Calls `encode` of `base64::engine::general_purpose::STANDARD`. The
/// contract claims the named encoding of the input.
#[verifier::external_body]
pub(crate) fn base64_standard_encode(bytes: &[u8]) -> (r: String)
    ensures
        r@ == base64_standard(bytes@),
{
    base64::engine::general_purpose::STANDARD.encode(bytes)
}

/// Calls `encode` of `base64::engine::general_purpose::URL_SAFE_NO_PAD`. The
/// contract claims the named encoding of the input.
#[verifier::external_body]
pub(crate) fn base64_url_no_pad_encode(bytes: &[u8]) -> (r: String)
    ensures
        r@ == base64_url_no_pad(bytes@),
{
    base64::engine::general_purpose::URL_SAFE_NO_PAD.encode(bytes)
}

/// Whether a text is the simple form of a UUID: its sixteen bytes in
/// lowercase hexadecimal.
pub open spec fn simple_uuid_text(text: Seq<char>) -> bool {
    exists|id: Seq<u8>| id.len() == 16 && text == #[trigger] hex_lower(id)
}

/// Calls `uuid::Uuid::parse_str` and hands back the parsed UUID's bytes. The
/// contract claims the named result; a UUID has sixteen bytes, and the
/// simple form (32 lowercase hexadecimal digits, as `Uuid::simple` writes
/// them) reads back as the bytes it was written from.
#[verifier::external_body]
pub(crate) fn uuid_parse_bytes(text: &str) -> (r: Option<Vec<u8>>)
    ensures
        r matches Some(v) ==> uuid_parsed(text@) == Some(v@) && v@.len() == 16,
        r is None ==> uuid_parsed(text@) is None,
        r is Some || !simple_uuid_text(text@),
        r matches Some(v) ==> (simple_uuid_text(text@) ==> hex_lower(v@) == text@),
{
    uuid::Uuid::parse_str(text).ok().map(|id| id.as_bytes().to_vec())
}

/// Calls `uuid::Builder::from_random_bytes` on sixteen random bytes and
/// hands back the bytes of the UUID it builds. As the source shows, the
/// bytes are kept but for the version (the high nibble of byte 6 becomes 4)
/// and the variant (the two high bits of byte 8 become `10`).
#[verifier::external_body]
pub(crate) fn uuid_v4_from_random(random: [u8; 16]) -> (r: [u8; 16])
    ensures
        forall|i: int| 0 <= i < 16 && i != 6 && i != 8 ==> r@[i] == random@[i],
        r@[6] == (random@[6] & 0x0f) | 0x40,
        r@[8] == (random@[8] & 0x3f) | 0x80,
{
    uuid::Builder::from_random_bytes(random).into_uuid().into_bytes()
}

/// Sixteen bytes of a random (version 4) UUID from the system random
/// source, or `None` where the source fails.
pub fn fresh_uuid_bytes() -> (r: Option<Vec<u8>>)
    ensures
        r matches Some(v) ==> v@.len() == 16 && v@[6] & 0xf0 == 0x40 && v@[8] & 0xc0 == 0x80,
{
    match random_32_bytes() {
        None => None,
        Some(v) => {
            let random: [u8; 16] = [
                v[0], v[1], v[2], v[3], v[4], v[5], v[6], v[7], v[8], v[9], v[10], v[11], v[12],
                v[13], v[14], v[15],
            ];
            let id = uuid_v4_from_random(random);
            let b6 = random[6];
            let b8 = random[8];
            assert(((b6 & 0x0f) | 0x40) & 0xf0 == 0x40) by (bit_vector);
            assert(((b8 & 0x3f) | 0x80) & 0xc0 == 0x80) by (bit_vector);
            let mut out: Vec<u8> = Vec::new();
            let mut i: usize = 0;
            while i < 16
                invariant
                    i <= 16,
                    out@ == id@.take(i as int),
                decreases 16 - i,
            {
                out.push(id[i]);
                i += 1;
                assert(out@ =~= id@.take(i as int));
            }
            assert(out@ =~= id@);
            Some(out)
        },
    }
}

/// Calls `toml::from_str::<toml::Value>` and reports whether it succeeded.
#[verifier::external_body]
pub(crate) fn toml_parses(text: &str) -> (r: bool)
    ensures
        r == toml_accepts(text@),
{
    toml::from_str::<toml::Value>(text).is_ok()
}

/// Calls `try_generate` of `aes_gcm::aead::Generate` for 32 bytes from the
/// system random source. Only the length of a success is claimed; `None`
/// reports a failure of the random source.
#[verifier::external_body]
pub(crate) fn random_32_bytes() -> (r: Option<Vec<u8>>)
    ensures
        r matches Some(v) ==> v@.len() == 32,
{
    <[u8; 32] as Generate>::try_generate().ok().map(|bytes| bytes.to_vec())
}

/// Calls std's `String::from_utf8`: `Ok` with the decoded text exactly when
/// the bytes are valid UTF-8, else the bytes back.
#[verifier::external_body]
pub(crate) fn string_from_utf8(bytes: Vec<u8>) -> (r: Result<String, Vec<u8>>)
    ensures
        r matches Ok(s) ==> valid_utf8(bytes@) && s@ == decode_utf8(bytes@),
        r matches Err(b) ==> !valid_utf8(bytes@) && b@ == bytes@,
{
    match String::from_utf8(bytes) {
        Ok(text) => Ok(text),
        Err(error) => Err(error.into_bytes()),
    }
}

/// Calls std's `String::from_utf8_lossy`; the contract claims the named
/// text, which for valid UTF-8 is the decoded text itself (as std documents).
#[verifier::external_body]
pub(crate) fn string_from_utf8_lossy(bytes: &[u8]) -> (r: String)
    ensures
        r@ == utf8_lossy(bytes@),
        valid_utf8(bytes@) ==> r@ == decode_utf8(bytes@),
{
    String::from_utf8_lossy(bytes).into_owned()
}

/// The UTF-16 code units of a character: the character itself below
/// U+10000, else its surrogate pair.
pub open spec fn utf16_units(c: char) -> Seq<u16> {
    let v = c as u32;
    if v < 0x10000 {
        seq![v as u16]
    } else {
        seq![(0xD800 + (v - 0x10000) / 0x400) as u16, (0xDC00 + (v - 0x10000) % 0x400) as u16]
    }
}

/// The UTF-16 code units of a text.
pub open spec fn utf16_encode(s: Seq<char>) -> Seq<u16>
    decreases s.len(),
{
    if s.len() == 0 {
        Seq::empty()
    } else {
        utf16_encode(s.drop_last()) + utf16_units(s.last())
    }
}

/// The little-endian bytes of UTF-16 code units.
pub open spec fn units_le_bytes(units: Seq<u16>) -> Seq<u8>
    decreases units.len(),
{
    if units.len() == 0 {
        Seq::empty()
    } else {
        units_le_bytes(units.drop_last()) + seq![
            (units.last() % 256) as u8,
            (units.last() / 256) as u8,
        ]
    }
}

/// The bytes of joined code units are the joined bytes.
pub proof fn lemma_units_le_bytes_concat(a: Seq<u16>, b: Seq<u16>)
    ensures
        units_le_bytes(a + b) == units_le_bytes(a) + units_le_bytes(b),
    decreases b.len(),
{
    if b.len() == 0 {
        assert(a + b =~= a);
        assert(units_le_bytes(a) + units_le_bytes(b) =~= units_le_bytes(a));
    } else {
        lemma_units_le_bytes_concat(a, b.drop_last());
        assert((a + b).drop_last() =~= a + b.drop_last());
        assert((a + b).last() == b.last());
        assert(units_le_bytes(a + b) =~= units_le_bytes(a) + units_le_bytes(b));
    }
}

/// Calls std's `String::from_utf16_lossy`; the contract claims the named
/// text, which for the UTF-16 encoding of a text is that text (as std
/// documents: only invalid data is replaced).
#[verifier::external_body]
pub(crate) fn string_from_utf16_lossy(units: &[u16]) -> (r: String)
    ensures
        r@ == utf16_lossy(units@),
        forall|s: Seq<char>| #[trigger] utf16_encode(s) == units@ ==> r@ == s,
{
    String::from_utf16_lossy(units)
}

/// The lowercase hexadecimal digit of a value below sixteen.
pub open spec fn hex_digit(n: nat) -> char {
    if n < 10 {
        (('0' as u32) + n) as char
    } else {
        (('a' as u32) + (n - 10)) as char
    }
}

/// Lowercase hexadecimal text of bytes, two digits per byte, high nibble first.
pub open spec fn hex_lower(bytes: Seq<u8>) -> Seq<char>
    decreases bytes.len(),
{
    if bytes.len() == 0 {
        Seq::empty()
    } else {
        hex_lower(bytes.drop_last()) + seq![
            hex_digit((bytes.last() / 16) as nat),
            hex_digit((bytes.last() % 16) as nat),
        ]
    }
}

/// The lowercase hexadecimal digit of a value below sixteen.
pub fn hex_digit_char(n: u8) -> (c: char)
    requires
        n < 16,
    ensures
        c == hex_digit(n as nat),
{
    if n < 10 {
        ((48 + n) as u8) as char
    } else {
        ((87 + n) as u8) as char
    }
}

/// Lowercase hexadecimal text of bytes (the `{:x}` form of a digest).
pub fn to_hex_lower(bytes: &[u8]) -> (r: String)
    ensures
        r@ == hex_lower(bytes@),
        r@.len() == 2 * bytes@.len(),
{
    let mut v: Vec<char> = Vec::new();
    let mut i: usize = 0;
    while i < bytes.len()
        invariant
            i <= bytes.len(),
            v@ == hex_lower(bytes@.take(i as int)),
            v@.len() == 2 * i,
        decreases bytes.len() - i,
    {
        let b = bytes[i];
        v.push(hex_digit_char(b / 16));
        v.push(hex_digit_char(b % 16));
        assert(bytes@.take(i + 1).drop_last() == bytes@.take(i as int));
        i += 1;
    }
    assert(bytes@.take(bytes.len() as int) == bytes@);
    crate::text::string_of(&v)
}

/// The lowercase hexadecimal SHA-256 digest of bytes.
pub open spec fn sha256_hex(bytes: Seq<u8>) -> Seq<char> {
    hex_lower(sha256(bytes))
}

/// The lowercase hexadecimal SHA-256 digest of bytes, as 64 characters.
pub fn sha256_hex_of(bytes: &[u8]) -> (r: String)
    ensures
        r@ == sha256_hex(bytes@),
        r@.len() == 64,
{
    let digest = sha256_digest(bytes);
    to_hex_lower(digest.as_slice())
}

/// The little-endian bytes of a 32-bit value.
pub open spec fn le_u32(n: u32) -> Seq<u8> {
    seq![
        (n % 256) as u8,
        ((n / 256) % 256) as u8,
        ((n / 65536) % 256) as u8,
        (n / 16777216) as u8,
    ]
}

/// The 32-bit value of four little-endian bytes.
pub open spec fn le_value(b: Seq<u8>) -> int {
    b[0] + 256 * b[1] + 65536 * b[2] + 16777216 * b[3]
}

/// Little-endian bytes of a 32-bit value.
pub fn u32_to_le(n: u32) -> (r: [u8; 4])
    ensures
        r@ == le_u32(n),
{
    [(n % 256) as u8, ((n / 256) % 256) as u8, ((n / 65536) % 256) as u8, (n / 16777216) as u8]
}

/// The 32-bit value of four little-endian bytes.
pub fn u32_from_le(b0: u8, b1: u8, b2: u8, b3: u8) -> (n: u32)
    ensures
        n as int == le_value(seq![b0, b1, b2, b3]),
{
    (b0 as u32) + 256 * (b1 as u32) + 65536 * (b2 as u32) + 16777216 * (b3 as u32)
}

/// Reading back the little-endian bytes of a value gives the value.
pub proof fn lemma_le_round_trip(n: u32)
    ensures
        le_value(le_u32(n)) == n,
{
    let b = le_u32(n);
    assert(b[0] == n % 256);
    assert(b[1] == (n / 256) % 256);
    assert(b[2] == (n / 65536) % 256);
    assert(b[3] == n / 16777216);
}

/// Whether a character is a lowercase hexadecimal digit.
pub open spec fn is_lower_hex(c: char) -> bool {
    ('0' <= c && c <= '9') || ('a' <= c && c <= 'f')
}

/// Hexadecimal text has two digits per byte, each a lowercase hex digit.
pub proof fn lemma_hex_lower_shape(bytes: Seq<u8>)
    ensures
        hex_lower(bytes).len() == 2 * bytes.len(),
        forall|i: int| 0 <= i < hex_lower(bytes).len() ==> is_lower_hex(#[trigger] hex_lower(bytes)[i]),
    decreases bytes.len(),
{
    if bytes.len() > 0 {
        lemma_hex_lower_shape(bytes.drop_last());
        let h = hex_lower(bytes);
        let p = hex_lower(bytes.drop_last());
        assert forall|i: int| 0 <= i < h.len() implies is_lower_hex(#[trigger] h[i]) by {
            if i < p.len() {
                assert(h[i] == p[i]);
            }
        }
    }
}

} // verus!
