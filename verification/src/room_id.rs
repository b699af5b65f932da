//! Room identifiers.
//!
//! A room identifier is opaque. The store assigns twelve-byte object
//! identifiers; any other text names a room just as well. A text of 24
//! hexadecimal digits always stands for the object identifier that it
//! spells, in either case of the digits.

use vstd::prelude::*;
use vstd::utf8::{encode_utf8, encode_utf8_decode_utf8};

use crate::object_id::{parsed_hex, ObjectId};
use crate::order::{
    bytes_before, lemma_bytes_before_asymmetric, lemma_bytes_before_irreflexive,
    lemma_bytes_before_total, lemma_bytes_before_transitive, slice_is_before,
};

verus! {

/// Identifies a room.
#[derive(Debug, PartialEq, Eq, PartialOrd, Ord, Hash)]
pub enum RoomId {
    /// An object identifier.
    Object(ObjectId),
    /// Any text that is not 24 hexadecimal digits.
    Name(String),
}

/// What a [`RoomId`] holds, as contracts speak of it.
pub enum RoomIdView {
    Object(Seq<u8>),
    Name(Seq<char>),
}

impl View for RoomId {
    type V = RoomIdView;

    open spec fn view(&self) -> RoomIdView {
        match self {
            RoomId::Object(id) => RoomIdView::Object(id@),
            RoomId::Name(text) => RoomIdView::Name(text@),
        }
    }
}

impl Clone for RoomId {
    fn clone(&self) -> (copy: RoomId)
        ensures
            copy@ == self@,
    {
        match self {
            RoomId::Object(id) => RoomId::Object(*id),
            RoomId::Name(text) => RoomId::Name(text.clone()),
        }
    }
}

/// The identifier that a text stands for: the object identifier that it
/// spells where it is 24 hexadecimal digits, else the text itself.
pub open spec fn room_id_of_text(text: Seq<char>) -> RoomIdView {
    match parsed_hex(text) {
        Some(bytes) => RoomIdView::Object(bytes),
        None => RoomIdView::Name(text),
    }
}

impl RoomIdView {
    /// An object identifier has twelve bytes, and a name is not the text of
    /// an object identifier. Every identifier that is read from a text or a
    /// document is well formed.
    pub open spec fn well_formed(self) -> bool {
        match self {
            RoomIdView::Object(bytes) => bytes.len() == 12,
            RoomIdView::Name(text) => parsed_hex(text) is None,
        }
    }

    /// Strict order: object identifiers first, byte by byte, then names by
    /// the bytes of their UTF-8 text, as `std` orders strings.
    pub open spec fn before(self, other: RoomIdView) -> bool {
        match (self, other) {
            (RoomIdView::Object(a), RoomIdView::Object(b)) => bytes_before(a, b),
            (RoomIdView::Object(_), RoomIdView::Name(_)) => true,
            (RoomIdView::Name(_), RoomIdView::Object(_)) => false,
            (RoomIdView::Name(a), RoomIdView::Name(b)) => bytes_before(
                encode_utf8(a),
                encode_utf8(b),
            ),
        }
    }
}

/// The order on room identifiers is total: of two, one comes before the
/// other or they are the same, and never two of these at once.
pub proof fn lemma_room_order_total(a: RoomIdView, b: RoomIdView)
    ensures
        a.before(b) || b.before(a) || a == b,
        !(a.before(b) && b.before(a)),
        !(a.before(b) && a == b),
{
    match (a, b) {
        (RoomIdView::Object(x), RoomIdView::Object(y)) => {
            lemma_bytes_before_total(x, y);
            lemma_bytes_before_asymmetric(x, y, 0);
            lemma_bytes_before_irreflexive(x, 0);
        },
        (RoomIdView::Name(s), RoomIdView::Name(t)) => {
            let x = encode_utf8(s);
            let y = encode_utf8(t);
            lemma_bytes_before_total(x, y);
            lemma_bytes_before_asymmetric(x, y, 0);
            lemma_bytes_before_irreflexive(x, 0);
            if x == y {
                encode_utf8_decode_utf8(s);
                encode_utf8_decode_utf8(t);
                assert(s == t);
            }
        },
        _ => {},
    }
}

/// The order on room identifiers is transitive.
pub proof fn lemma_room_order_transitive(a: RoomIdView, b: RoomIdView, c: RoomIdView)
    requires
        a.before(b),
        b.before(c),
    ensures
        a.before(c),
{
    match (a, b, c) {
        (RoomIdView::Object(x), RoomIdView::Object(y), RoomIdView::Object(z)) => {
            lemma_bytes_before_transitive(x, y, z, 0);
        },
        (RoomIdView::Name(x), RoomIdView::Name(y), RoomIdView::Name(z)) => {
            lemma_bytes_before_transitive(encode_utf8(x), encode_utf8(y), encode_utf8(z), 0);
        },
        _ => {},
    }
}

impl RoomId {
    /// The identifier that a text stands for. It is always well formed.
    pub fn from_text(text: &str) -> (id: RoomId)
        ensures
            id@ == room_id_of_text(text@),
            id@.well_formed(),
    {
        match ObjectId::parse_str(text) {
            Some(object) => {
                proof {
                    object.lemma_twelve_bytes();
                }
                RoomId::Object(object)
            },
            None => RoomId::Name(text.to_owned()),
        }
    }

    /// Whether the identifier is well formed.
    pub fn is_well_formed(&self) -> (b: bool)
        ensures
            b == self@.well_formed(),
    {
        match self {
            RoomId::Object(object) => {
                proof {
                    object.lemma_twelve_bytes();
                }
                true
            },
            RoomId::Name(text) => ObjectId::parse_str(text.as_str()).is_none(),
        }
    }

    /// Whether two identifiers are the same.
    pub fn same(&self, other: &RoomId) -> (b: bool)
        ensures
            b == (self@ == other@),
    {
        match (self, other) {
            (RoomId::Object(a), RoomId::Object(b)) => a.same(b),
            (RoomId::Name(a), RoomId::Name(b)) => *a == *b,
            _ => false,
        }
    }

    /// Whether this identifier comes strictly before `other`.
    pub fn is_before(&self, other: &RoomId) -> (before: bool)
        ensures
            before == self@.before(other@),
    {
        match (self, other) {
            (RoomId::Object(a), RoomId::Object(b)) => a.is_before(b),
            (RoomId::Object(_), RoomId::Name(_)) => true,
            (RoomId::Name(_), RoomId::Object(_)) => false,
            (RoomId::Name(a), RoomId::Name(b)) => slice_is_before(
                a.as_str().as_bytes(),
                b.as_str().as_bytes(),
            ),
        }
    }
}

} // verus!
