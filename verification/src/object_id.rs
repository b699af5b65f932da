//! Twelve-byte object identifiers and their 24-digit hexadecimal text.

use vstd::prelude::*;

verus! {

/// The value of a hexadecimal digit, upper or lower case.
pub open spec fn hex_digit_value(c: char) -> Option<int> {
    let n = c as int;
    if 48 <= n <= 57 {
        Some(n - 48)
    } else if 97 <= n <= 102 {
        Some(n - 87)
    } else if 65 <= n <= 70 {
        Some(n - 55)
    } else {
        None
    }
}

/// The lower-case hexadecimal digit of a value below sixteen.
pub open spec fn hex_digit_char(v: int) -> char {
    if v < 10 {
        ((48 + v) as u8) as char
    } else {
        ((87 + v) as u8) as char
    }
}

/// Whether `text` is the hexadecimal form of an identifier: exactly 24
/// hexadecimal digits.
pub open spec fn is_object_id_text(text: Seq<char>) -> bool {
    &&& text.len() == 24
    &&& forall|i: int| 0 <= i < 24 ==> (#[trigger] hex_digit_value(text[i])) is Some
}

/// The byte that the digit pair at position `i` of `text` stands for.
pub open spec fn hex_pair_value(text: Seq<char>, i: int) -> int {
    16 * hex_digit_value(text[2 * i]).unwrap() + hex_digit_value(text[2 * i + 1]).unwrap()
}

/// The twelve bytes that `text` spells, if it is the hexadecimal form of an
/// identifier.
pub open spec fn parsed_hex(text: Seq<char>) -> Option<Seq<u8>> {
    if is_object_id_text(text) {
        Some(Seq::new(12, |i: int| hex_pair_value(text, i) as u8))
    } else {
        None
    }
}

/// The lower-case hexadecimal form of `bytes`: two digits per byte, the high
/// digit first.
pub open spec fn hex_text(bytes: Seq<u8>) -> Seq<char> {
    Seq::new(
        2 * bytes.len(),
        |i: int|
            if i % 2 == 0 {
                hex_digit_char(bytes[i / 2] as int / 16)
            } else {
                hex_digit_char(bytes[i / 2] as int % 16)
            },
    )
}

/// An opaque twelve-byte identifier, as the store assigns to rooms.
#[derive(Clone, Copy, Debug, PartialEq, Eq, PartialOrd, Ord, Hash)]
pub struct ObjectId {
    bytes: [u8; 12],
}

impl View for ObjectId {
    type V = Seq<u8>;

    closed spec fn view(&self) -> Seq<u8> {
        self.bytes@
    }
}

/// Calls `bson::oid::ObjectId::parse_str` and hands back the bytes of the
/// identifier it built. Trusted: the call succeeds exactly on 24 hexadecimal
/// digits of either case, and each byte is sixteen times the value of the
/// first digit of its pair plus the value of the second.
#[verifier::external_body]
fn parse_hex_bytes(text: &str) -> (r: Option<[u8; 12]>)
    ensures
        r is Some <==> parsed_hex(text@) is Some,
        r matches Some(bytes) ==> parsed_hex(text@) == Some(bytes@),
{
    bson::oid::ObjectId::parse_str(text).ok().map(|id| id.bytes())
}

/// Calls `bson::oid::ObjectId::to_hex` on the identifier with these bytes.
/// Trusted: the text has two lower-case hexadecimal digits per byte, high
/// digit first.
#[verifier::external_body]
fn print_hex_bytes(bytes: [u8; 12]) -> (r: String)
    ensures
        r@ == hex_text(bytes@),
{
    bson::oid::ObjectId::from_bytes(bytes).to_hex()
}

impl ObjectId {
    /// The identifier made of exactly these bytes.
    pub fn from_bytes(bytes: [u8; 12]) -> (id: ObjectId)
        ensures
            id@ == bytes@,
    {
        ObjectId { bytes }
    }

    /// The twelve bytes of the identifier.
    pub fn bytes(&self) -> (bytes: [u8; 12])
        ensures
            bytes@ == self@,
    {
        self.bytes
    }

    /// Reads an identifier from its hexadecimal form. Succeeds exactly on 24
    /// hexadecimal digits, of either case.
    pub fn parse_str(text: &str) -> (r: Option<ObjectId>)
        ensures
            r is Some <==> parsed_hex(text@) is Some,
            r matches Some(id) ==> parsed_hex(text@) == Some(id@),
    {
        match parse_hex_bytes(text) {
            Some(bytes) => Some(ObjectId { bytes }),
            None => None,
        }
    }

    /// The lower-case hexadecimal form of the identifier.
    pub fn to_hex(&self) -> (text: String)
        ensures
            text@ == hex_text(self@),
    {
        print_hex_bytes(self.bytes)
    }

    /// Whether this identifier comes strictly before `other`, byte by byte.
    pub fn is_before(&self, other: &ObjectId) -> (before: bool)
        ensures
            before == crate::order::bytes_before(self@, other@),
    {
        let mut i: usize = 0;
        while i < 12
            invariant
                i <= 12,
                crate::order::bytes_before(self@, other@) == crate::order::bytes_before_from(
                    self@,
                    other@,
                    i as int,
                ),
            decreases 12 - i,
        {
            if self.bytes[i] != other.bytes[i] {
                return self.bytes[i] < other.bytes[i];
            }
            i += 1;
        }
        false
    }

    /// Whether two identifiers hold the same bytes.
    pub fn same(&self, other: &ObjectId) -> (b: bool)
        ensures
            b == (self@ == other@),
    {
        let mut i: usize = 0;
        while i < 12
            invariant
                i <= 12,
                forall|k: int| 0 <= k < i ==> self.bytes@[k] == other.bytes@[k],
            decreases 12 - i,
        {
            if self.bytes[i] != other.bytes[i] {
                return false;
            }
            i += 1;
        }
        assert(self.bytes@ =~= other.bytes@);
        true
    }
}

/// Printing an identifier and reading the text back gives the identifier.
pub proof fn lemma_hex_text_round_trip(bytes: Seq<u8>)
    requires
        bytes.len() == 12,
    ensures
        parsed_hex(hex_text(bytes)) == Some(bytes),
{
    let text = hex_text(bytes);
    assert forall|i: int| 0 <= i < 24 implies (#[trigger] hex_digit_value(text[i])) is Some by {
        let b = bytes[i / 2];
        lemma_hex_digit_round_trip(b as int / 16);
        lemma_hex_digit_round_trip(b as int % 16);
    }
    let back = parsed_hex(text).unwrap();
    assert forall|i: int| 0 <= i < 12 implies back[i] == bytes[i] by {
        let b = bytes[i];
        assert(text[2 * i] == hex_digit_char(b as int / 16));
        assert(text[2 * i + 1] == hex_digit_char(b as int % 16));
        lemma_hex_digit_round_trip(b as int / 16);
        lemma_hex_digit_round_trip(b as int % 16);
        assert(hex_pair_value(text, i) == b as int);
    }
    assert(back =~= bytes);
}

/// A value below sixteen is the value of its own digit.
pub proof fn lemma_hex_digit_round_trip(v: int)
    requires
        0 <= v < 16,
    ensures
        hex_digit_value(hex_digit_char(v)) == Some(v),
{
}

impl ObjectId {
    /// An identifier always has twelve bytes.
    pub proof fn lemma_twelve_bytes(self)
        ensures
            self@.len() == 12,
    {
    }
}

} // verus!
