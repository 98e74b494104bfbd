//! The identifier codec: the store's native key and its text form.
//!
//! An identifier is twelve bytes. Its text form is twenty-four hexadecimal
//! digits, two per byte, the high half first. Parsing accepts digits of
//! either case; rendering writes lower case.

use crate::views::outcome;
use mongodb::bson::oid::ObjectId;
use vstd::prelude::*;

verus! {

/// Whether `c` is one of `0`..`9`, `a`..`f`, `A`..`F`.
pub open spec fn is_hex_digit(c: char) -> bool {
    ('0' <= c && c <= '9') || ('a' <= c && c <= 'f') || ('A' <= c && c <= 'F')
}

/// The number that the hexadecimal digit `c` stands for.
pub open spec fn hex_digit_value(c: char) -> int {
    if '0' <= c && c <= '9' {
        c as int - '0' as int
    } else if 'a' <= c && c <= 'f' {
        c as int - 'a' as int + 10
    } else {
        c as int - 'A' as int + 10
    }
}

/// The lower-case hexadecimal digit for `n`, where `0 <= n < 16`.
pub open spec fn hex_digit(n: int) -> char {
    if n < 10 {
        ('0' as int + n) as char
    } else {
        ('a' as int + n - 10) as char
    }
}

/// Whether `text` has the shape of an identifier: twenty-four hexadecimal
/// digits.
pub open spec fn is_identifier_text(text: Seq<char>) -> bool {
    &&& text.len() == 24
    &&& forall|i: int| 0 <= i < 24 ==> is_hex_digit(#[trigger] text[i])
}

/// The twelve bytes that an identifier text stands for.
pub open spec fn identifier_bytes(text: Seq<char>) -> Seq<u8> {
    Seq::new(
        12,
        |i: int| (16 * hex_digit_value(text[2 * i]) + hex_digit_value(text[2 * i + 1])) as u8,
    )
}

/// The text form of twelve bytes.
pub open spec fn identifier_text(bytes: Seq<u8>) -> Seq<char> {
    Seq::new(
        24,
        |i: int|
            if i % 2 == 0 {
                hex_digit(bytes[i / 2] as int / 16)
            } else {
                hex_digit(bytes[i / 2] as int % 16)
            },
    )
}

/// What parsing makes of a text: the identifier's bytes, or a refusal
/// where the text is not twenty-four hexadecimal digits.
pub open spec fn parsed(text: Seq<char>) -> Result<Seq<u8>, InvalidIdentifier> {
    if is_identifier_text(text) {
        Ok(identifier_bytes(text))
    } else {
        Err(InvalidIdentifier)
    }
}

/// The reason why a text was refused as an identifier.
#[derive(Debug, Clone, Copy, PartialEq, Eq, Structural)]
pub struct InvalidIdentifier;

/// The store's key for one entity.
#[derive(Debug, Clone, Copy, PartialEq, Eq)]
pub struct Identifier {
    bytes: [u8; 12],
}

impl View for Identifier {
    type V = Seq<u8>;

    closed spec fn view(&self) -> Seq<u8> {
        self.bytes@
    }
}

impl DeepView for Identifier {
    type V = Seq<u8>;

    open spec fn deep_view(&self) -> Seq<u8> {
        self@
    }
}

impl View for InvalidIdentifier {
    type V = InvalidIdentifier;

    open spec fn view(&self) -> InvalidIdentifier {
        *self
    }
}

impl DeepView for InvalidIdentifier {
    type V = InvalidIdentifier;

    open spec fn deep_view(&self) -> InvalidIdentifier {
        *self
    }
}

/// `ObjectId::parse_str`, handing out the bytes of the identifier it made,
/// or nothing where it refused the text. It succeeds exactly on twenty-four
/// hexadecimal digits of either case, and each pair of digits gives one
/// byte, the high half first.
#[verifier::external_body]
fn object_id_parse_str(raw: &str) -> (res: Option<[u8; 12]>)
    ensures
        res is Some <==> is_identifier_text(raw@),
        res matches Some(bytes) ==> bytes@ == identifier_bytes(raw@),
{
    match ObjectId::parse_str(raw) {
        Ok(id) => Some(id.bytes()),
        Err(_) => None,
    }
}

/// `ObjectId::to_hex` on the identifier with the given bytes. It writes two
/// lower-case hexadecimal digits per byte, the high half first.
#[verifier::external_body]
fn object_id_to_hex(bytes: [u8; 12]) -> (hex: String)
    ensures
        hex@ == identifier_text(bytes@),
{
    ObjectId::from_bytes(bytes).to_hex()
}

impl Identifier {
    /// The identifier with the given bytes.
    pub fn from_bytes(bytes: [u8; 12]) -> (id: Identifier)
        ensures
            id@ == bytes@,
    {
        Identifier { bytes }
    }

    /// An identifier has twelve bytes.
    pub proof fn lemma_twelve_bytes(self)
        ensures
            self@.len() == 12,
    {
    }

    /// The bytes of the identifier.
    pub fn bytes(&self) -> (bytes: [u8; 12])
        ensures
            bytes@ == self@,
    {
        self.bytes
    }

    /// Reads an identifier from its text form. Any text that is not
    /// twenty-four hexadecimal digits is refused.
    pub fn parse(raw: &str) -> (res: Result<Identifier, InvalidIdentifier>)
        ensures
            outcome(res) == parsed(raw@),
    {
        match object_id_parse_str(raw) {
            Some(bytes) => Ok(Identifier { bytes }),
            None => Err(InvalidIdentifier),
        }
    }

    /// Writes the identifier in its text form. Parsing the text gives the
    /// identifier back.
    pub fn render(&self) -> (text: String)
        ensures
            text@ == identifier_text(self@),
            parsed(text@) == Ok::<Seq<u8>, InvalidIdentifier>(self@),
    {
        proof {
            self.lemma_twelve_bytes();
            lemma_render_then_parse(self@);
        }
        object_id_to_hex(self.bytes)
    }
}

/// A lower-case digit stands for the number it was written for.
pub proof fn lemma_hex_digit(n: int)
    requires
        0 <= n < 16,
    ensures
        is_hex_digit(hex_digit(n)),
        hex_digit_value(hex_digit(n)) == n,
{
}

/// Rendering is the inverse of parsing: the text form of twelve bytes is an
/// identifier text, and it stands for those bytes.
pub proof fn lemma_render_then_parse(bytes: Seq<u8>)
    requires
        bytes.len() == 12,
    ensures
        is_identifier_text(identifier_text(bytes)),
        identifier_bytes(identifier_text(bytes)) == bytes,
        parsed(identifier_text(bytes)) == Ok::<Seq<u8>, InvalidIdentifier>(bytes),
{
    let text = identifier_text(bytes);
    assert forall|i: int| 0 <= i < 24 implies is_hex_digit(#[trigger] text[i]) by {
        let byte = bytes[i / 2] as int;
        lemma_hex_digit(byte / 16);
        lemma_hex_digit(byte % 16);
    }
    assert forall|i: int| 0 <= i < 12 implies #[trigger] identifier_bytes(text)[i] == bytes[i] by {
        let byte = bytes[i] as int;
        lemma_hex_digit(byte / 16);
        lemma_hex_digit(byte % 16);
        assert(text[2 * i] == hex_digit(byte / 16));
        assert(text[2 * i + 1] == hex_digit(byte % 16));
    }
    assert(identifier_bytes(text) =~= bytes);
}

} // verus!
