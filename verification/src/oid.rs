use vstd::prelude::*;
use vstd::string::*;
use crate::error::{Error, ErrorKind};
use crate::strutil::push_char;

verus! {

// Document identifiers.
//
// An identifier is twelve raw bytes, assigned client-side at construction
// time. Its string form is the 24-character hexadecimal rendering that the
// store's native identifier format uses, so a parsed identifier round-trips
// through `to_hex` and back.

/// ASCII hexadecimal digit, either case.
pub open spec fn is_hex_digit(c: char) -> bool {
    ||| 48 <= (c as u32) && (c as u32) <= 57
    ||| 97 <= (c as u32) && (c as u32) <= 102
    ||| 65 <= (c as u32) && (c as u32) <= 70
}

/// The numeric value of a hexadecimal digit.
pub open spec fn hex_val(c: char) -> u8 {
    if 48 <= (c as u32) && (c as u32) <= 57 {
        ((c as u32) - 48) as u8
    } else if 97 <= (c as u32) && (c as u32) <= 102 {
        ((c as u32) - 87) as u8
    } else {
        ((c as u32) - 55) as u8
    }
}

/// The lowercase hexadecimal digit of a nibble.
pub open spec fn hex_digit(n: u8) -> char {
    if n < 10 {
        ((n + 48) as u8) as char
    } else {
        ((n + 87) as u8) as char
    }
}

/// The byte two hexadecimal digits spell.
pub open spec fn byte_of(hi: char, lo: char) -> u8 {
    (hex_val(hi) * 16 + hex_val(lo)) as u8
}

/// A syntactically valid identifier string: exactly 24 hexadecimal digits.
pub open spec fn valid_hex_id(s: Seq<char>) -> bool {
    &&& s.len() == 24
    &&& forall|i: int| 0 <= i < s.len() ==> is_hex_digit(#[trigger] s[i])
}

/// The bytes a hexadecimal string spells, two digits per byte.
pub open spec fn bytes_of_hex(s: Seq<char>) -> Seq<u8> {
    Seq::new((s.len() / 2) as nat, |i: int| byte_of(s[2 * i], s[2 * i + 1]))
}

/// The lowercase hexadecimal rendering of bytes, two digits per byte.
pub open spec fn hex_of(b: Seq<u8>) -> Seq<char> {
    Seq::new(
        (b.len() * 2) as nat,
        |i: int|
            if i % 2 == 0 {
                hex_digit((b[i / 2] / 16) as u8)
            } else {
                hex_digit((b[i / 2] % 16) as u8)
            },
    )
}

/// A document identifier: twelve raw bytes, immutable once assigned.
#[derive(Clone, Copy, Debug)]
pub struct DocId {
    bytes: [u8; 12],
}

impl View for DocId {
    type V = Seq<u8>;

    closed spec fn view(&self) -> Seq<u8> {
        self.bytes@
    }
}

/// A hexadecimal digit decodes back to the nibble it renders.
proof fn lemma_hex_digit_val(n: u8)
    requires
        n < 16,
    ensures
        is_hex_digit(hex_digit(n)),
        hex_val(hex_digit(n)) == n,
{
    if n < 10 {
        assert(hex_digit(n) == ((n + 48) as u8) as char);
        assert((((n + 48) as u8) as char) as u32 == n + 48);
    } else {
        assert((((n + 87) as u8) as char) as u32 == n + 87);
    }
}

/// Law: rendering an identifier's bytes and decoding them again is the
/// identity, and the rendering is a valid identifier string.
pub proof fn lemma_hex_roundtrip(b: Seq<u8>)
    requires
        b.len() == 12,
    ensures
        valid_hex_id(hex_of(b)),
        bytes_of_hex(hex_of(b)) =~= b,
{
    let h = hex_of(b);
    assert forall|i: int| 0 <= i < h.len() implies is_hex_digit(#[trigger] h[i]) by {
        if i % 2 == 0 {
            lemma_hex_digit_val((b[i / 2] / 16) as u8);
        } else {
            lemma_hex_digit_val((b[i / 2] % 16) as u8);
        }
    }
    assert forall|i: int| 0 <= i < 12 implies bytes_of_hex(h)[i] == b[i] by {
        let hi = h[2 * i];
        let lo = h[2 * i + 1];
        assert(hi == hex_digit((b[i] / 16) as u8));
        assert(lo == hex_digit((b[i] % 16) as u8));
        lemma_hex_digit_val((b[i] / 16) as u8);
        lemma_hex_digit_val((b[i] % 16) as u8);
        assert(byte_of(hi, lo) == (b[i] / 16) * 16 + (b[i] % 16));
        assert((b[i] / 16) * 16 + (b[i] % 16) == b[i]);
    }
}

/// Relies on bson's `ObjectId::new` (through the mongodb driver): a fresh
/// twelve-byte identifier built from the current time, a per-process random
/// value and a counter. Nothing is assumed of the bytes themselves.
#[verifier::external_body]
fn fresh_id_bytes() -> (r: [u8; 12])
    ensures
        r@.len() == 12,
{
    mongodb::bson::oid::ObjectId::new().bytes()
}

impl DocId {
    /// A fresh identifier, assigned client-side.
    pub fn new() -> (r: DocId)
        ensures
            r@.len() == 12,
    {
        DocId { bytes: fresh_id_bytes() }
    }

    /// An identifier from its twelve raw bytes.
    pub fn from_bytes(bytes: [u8; 12]) -> (r: DocId)
        ensures
            r@ == bytes@,
    {
        DocId { bytes }
    }

    /// The raw byte representation.
    pub fn bytes(&self) -> (r: [u8; 12])
        ensures
            r@ == self@,
    {
        self.bytes
    }

    /// Parses the 24-character hexadecimal string form of an identifier.
    /// Succeeds exactly on syntactically valid strings; a malformed string
    /// is the caller's input error, never a missing document.
    pub fn parse_str(s: &str) -> (r: Result<DocId, Error>)
        ensures
            r is Ok <==> valid_hex_id(s@),
            r is Ok ==> r->Ok_0@ == bytes_of_hex(s@),
            r is Err ==> r->Err_0.kind == ErrorKind::InvalidInput,
    {
        let n = s.unicode_len();
        if n != 24 {
            return Err(Error::new(ErrorKind::InvalidInput, "identifier is not 24 characters"));
        }
        let mut bytes: [u8; 12] = [0; 12];
        let mut i: usize = 0;
        while i < 12
            invariant
                s@.len() == 24,
                i <= 12,
                bytes@.len() == 12,
                forall|j: int| 0 <= j < 2 * i ==> is_hex_digit(#[trigger] s@[j]),
                forall|j: int| 0 <= j < i ==> bytes@[j] == byte_of(s@[2 * j], s@[2 * j + 1]),
            decreases 12 - i,
        {
            let hi = s.get_char(2 * i);
            let lo = s.get_char(2 * i + 1);
            match (hex_val_of(hi), hex_val_of(lo)) {
                (Some(h), Some(l)) => {
                    bytes[i] = h * 16 + l;
                    assert(bytes@[i as int] == byte_of(s@[2 * i], s@[2 * i + 1]));
                },
                _ => {
                    return Err(
                        Error::new(ErrorKind::InvalidInput, "identifier is not hexadecimal"),
                    );
                },
            }
            i = i + 1;
        }
        assert(valid_hex_id(s@));
        assert(bytes@ =~= bytes_of_hex(s@));
        Ok(DocId { bytes })
    }

    /// The 24-character lowercase hexadecimal string form.
    pub fn to_hex(&self) -> (r: String)
        ensures
            r@ == hex_of(self@),
    {
        let mut out = String::new();
        let mut i: usize = 0;
        while i < 12
            invariant
                self@.len() == 12,
                i <= 12,
                out@ =~= hex_of(self@).take(2 * i),
            decreases 12 - i,
        {
            let b = *vstd::array::array_index_get(&self.bytes, i);
            push_char(&mut out, hex_digit_of(b / 16));
            push_char(&mut out, hex_digit_of(b % 16));
            i = i + 1;
            assert(out@ =~= hex_of(self@).take(2 * i));
        }
        assert(out@ =~= hex_of(self@));
        out
    }
}

/// The numeric value of one hexadecimal digit, or `None` for any other
/// character.
fn hex_val_of(c: char) -> (r: Option<u8>)
    ensures
        r is Some <==> is_hex_digit(c),
        r is Some ==> r->0 == hex_val(c) && r->0 < 16,
{
    let u = c as u32;
    if 48 <= u && u <= 57 {
        Some((u - 48) as u8)
    } else if 97 <= u && u <= 102 {
        Some((u - 87) as u8)
    } else if 65 <= u && u <= 70 {
        Some((u - 55) as u8)
    } else {
        None
    }
}

/// The lowercase hexadecimal digit of a nibble.
fn hex_digit_of(n: u8) -> (r: char)
    requires
        n < 16,
    ensures
        r == hex_digit(n),
{
    if n < 10 {
        (n + 48) as char
    } else {
        (n + 87) as char
    }
}

} // verus!
