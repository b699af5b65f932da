//! How the stored entities are written as JSON.
//!
//! Field names are in lower camel case. A reader skips members it does not
//! know and takes the first member of each name it looks for.

use vstd::prelude::*;

use crate::json::{canonical, field, find_from, Json, JsonView};
use crate::object_id::{hex_text, lemma_hex_text_round_trip, parsed_hex, ObjectId};
use crate::room_id::{room_id_of_text, RoomId, RoomIdView};
use crate::schemes::{
    Entry, EntryData, EntryKey, EntryKeyView, EntryView, GregorianScheduleDate,
};
use crate::views::view_of;

verus! {

/// The number that a JSON integer stands for, if it fits `u32`.
pub open spec fn json_u32(tree: JsonView) -> Option<u32> {
    match tree {
        JsonView::Integer(n) => if 0 <= n <= u32::MAX {
            Some(n as u32)
        } else {
            None
        },
        _ => None,
    }
}

/// The number that a JSON integer stands for, if it fits `i32`.
pub open spec fn json_i32(tree: JsonView) -> Option<i32> {
    match tree {
        JsonView::Integer(n) => if i32::MIN <= n <= i32::MAX {
            Some(n as i32)
        } else {
            None
        },
        _ => None,
    }
}

/// The text of a JSON string.
pub open spec fn json_text(tree: JsonView) -> Option<Seq<char>> {
    match tree {
        JsonView::Text(text) => Some(text),
        _ => None,
    }
}

/// The value of a JSON boolean.
pub open spec fn json_bool(tree: JsonView) -> Option<bool> {
    match tree {
        JsonView::Boolean(b) => Some(b),
        _ => None,
    }
}

/// The number of a JSON integer, if it fits `u32`.
pub fn read_u32(tree: &Json) -> (r: Option<u32>)
    ensures
        r == json_u32(tree@),
{
    match tree {
        Json::Integer(n) => if 0 <= *n && *n <= u32::MAX as i64 {
            Some(*n as u32)
        } else {
            None
        },
        _ => None,
    }
}

/// The number of a JSON integer, if it fits `i32`.
pub fn read_i32(tree: &Json) -> (r: Option<i32>)
    ensures
        r == json_i32(tree@),
{
    match tree {
        Json::Integer(n) => if i32::MIN as i64 <= *n && *n <= i32::MAX as i64 {
            Some(*n as i32)
        } else {
            None
        },
        _ => None,
    }
}

/// The text of a JSON string.
pub fn read_text(tree: &Json) -> (r: Option<String>)
    ensures
        view_of(r) == json_text(tree@),
{
    match tree {
        Json::Text(text) => Some(text.clone()),
        _ => None,
    }
}

/// The value of a JSON boolean.
pub fn read_bool(tree: &Json) -> (r: Option<bool>)
    ensures
        r == json_bool(tree@),
{
    match tree {
        Json::Boolean(b) => Some(*b),
        _ => None,
    }
}

/// A date is an object with the members `year`, `month` and `day`.
pub open spec fn date_json(date: GregorianScheduleDate) -> JsonView {
    JsonView::Object(
        seq![
            ("year"@, JsonView::Integer(date.year as i64)),
            ("month"@, JsonView::Integer(date.month as i64)),
            ("day"@, JsonView::Integer(date.day as i64)),
        ],
    )
}

/// The date that a document stands for: it needs all three members, each an
/// integer of its type, with month and day in their ranges.
pub open spec fn json_date(tree: JsonView) -> Option<GregorianScheduleDate> {
    match (field(tree, "year"@), field(tree, "month"@), field(tree, "day"@)) {
        (Some(y), Some(m), Some(d)) => match (json_i32(y), json_u32(m), json_u32(d)) {
            (Some(year), Some(month), Some(day)) => {
                let date = GregorianScheduleDate { year, month, day };
                if date.in_range() {
                    Some(date)
                } else {
                    None
                }
            },
            _ => None,
        },
        _ => None,
    }
}

impl GregorianScheduleDate {
    /// The JSON form of the value.
    pub fn to_json(&self) -> (tree: Json)
        ensures
            tree@ == date_json(*self),
            canonical(tree@),
    {
        let members = vec![
            Json::member("year", Json::Integer(self.year as i64)),
            Json::member("month", Json::Integer(self.month as i64)),
            Json::member("day", Json::Integer(self.day as i64)),
        ];
        proof {
            Json::lemma_object_view(members);
            assert(Json::Object(members)@->Object_0 =~= date_json(*self)->Object_0);
            lemma_date_json_canonical(*self);
        }
        Json::Object(members)
    }

    /// Reads the value from its JSON form. Gives `None` where the document is
    /// not of that form.
    pub fn from_json(tree: &Json) -> (r: Option<GregorianScheduleDate>)
        ensures
            r == json_date(tree@),
    {
        let year = match tree.field("year") {
            Some(y) => read_i32(y),
            None => None,
        };
        let month = match tree.field("month") {
            Some(m) => read_u32(m),
            None => None,
        };
        let day = match tree.field("day") {
            Some(d) => read_u32(d),
            None => None,
        };
        match (year, month, day) {
            (Some(year), Some(month), Some(day)) => {
                let date = GregorianScheduleDate { year, month, day };
                if date.is_in_range() {
                    Some(date)
                } else {
                    None
                }
            },
            _ => None,
        }
    }
}

/// The three member names of a date differ from one another.
pub proof fn lemma_date_names()
    ensures
        "year"@ != "month"@,
        "year"@ != "day"@,
        "month"@ != "day"@,
{
    reveal_strlit("year");
    reveal_strlit("month");
    reveal_strlit("day");
    assert("year"@.len() == 4);
    assert("month"@.len() == 5);
    assert("day"@.len() == 3);
}

/// A written date can be printed as it stands.
pub proof fn lemma_date_json_canonical(date: GregorianScheduleDate)
    ensures
        canonical(date_json(date)),
{
    lemma_date_names();
    reveal_with_fuel(canonical, 2);
}

/// Reading back a written date gives the date, where month and day lie in
/// their ranges.
pub proof fn lemma_date_round_trip(date: GregorianScheduleDate)
    requires
        date.in_range(),
    ensures
        json_date(date_json(date)) == Some(date),
{
    lemma_date_names();
    reveal_with_fuel(find_from, 4);
}

/// An identifier is an object with the one member `$oid`, its hexadecimal
/// text.
pub open spec fn object_id_json(id: Seq<u8>) -> JsonView {
    JsonView::Object(seq![("$oid"@, JsonView::Text(hex_text(id)))])
}

/// The identifier that a document stands for: a string of 24 hexadecimal
/// digits, bare or as the member `$oid` of an object.
pub open spec fn json_object_id(tree: JsonView) -> Option<Seq<u8>> {
    match tree {
        JsonView::Text(text) => parsed_hex(text),
        _ => match field(tree, "$oid"@) {
            Some(JsonView::Text(text)) => parsed_hex(text),
            _ => None,
        },
    }
}

impl ObjectId {
    /// The JSON form of the value.
    pub fn to_json(&self) -> (tree: Json)
        ensures
            tree@ == object_id_json(self@),
            canonical(tree@),
    {
        let members = vec![Json::member("$oid", Json::Text(self.to_hex()))];
        proof {
            Json::lemma_object_view(members);
            assert(Json::Object(members)@->Object_0 =~= object_id_json(self@)->Object_0);
            lemma_object_id_json_canonical(self@);
        }
        Json::Object(members)
    }

    /// Reads the value from its JSON form. Gives `None` where the document is
    /// not of that form.
    pub fn from_json(tree: &Json) -> (r: Option<ObjectId>)
        ensures
            view_of(r) == json_object_id(tree@),
    {
        match tree {
            Json::Text(text) => ObjectId::parse_str(text.as_str()),
            _ => match tree.field("$oid") {
                Some(Json::Text(text)) => ObjectId::parse_str(text.as_str()),
                _ => None,
            },
        }
    }
}

/// A written identifier can be printed as it stands.
pub proof fn lemma_object_id_json_canonical(id: Seq<u8>)
    ensures
        canonical(object_id_json(id)),
{
    reveal_with_fuel(canonical, 2);
}

/// Reading back a written identifier gives the identifier.
pub proof fn lemma_object_id_round_trip(id: Seq<u8>)
    requires
        id.len() == 12,
    ensures
        json_object_id(object_id_json(id)) == Some(id),
{
    reveal_with_fuel(find_from, 2);
    lemma_hex_text_round_trip(id);
}

/// A room identifier is written as an object identifier where it is one,
/// else as a string.
pub open spec fn room_id_json(id: RoomIdView) -> JsonView {
    match id {
        RoomIdView::Object(bytes) => object_id_json(bytes),
        RoomIdView::Name(text) => JsonView::Text(text),
    }
}

/// The room identifier that a document stands for: any string, or an
/// object identifier in its object form. A string of 24 hexadecimal digits
/// stands for the object identifier that it spells.
pub open spec fn json_room_id(tree: JsonView) -> Option<RoomIdView> {
    match tree {
        JsonView::Text(text) => Some(room_id_of_text(text)),
        _ => match json_object_id(tree) {
            Some(bytes) => Some(RoomIdView::Object(bytes)),
            None => None,
        },
    }
}

impl RoomId {
    /// The JSON form of the value.
    pub fn to_json(&self) -> (tree: Json)
        ensures
            tree@ == room_id_json(self@),
            canonical(tree@),
    {
        match self {
            RoomId::Object(object) => object.to_json(),
            RoomId::Name(text) => Json::Text(text.clone()),
        }
    }

    /// Reads the value from its JSON form. Gives `None` where the document is
    /// not of that form. What is read is well formed.
    pub fn from_json(tree: &Json) -> (r: Option<RoomId>)
        ensures
            view_of(r) == json_room_id(tree@),
            r matches Some(id) ==> id@.well_formed(),
    {
        match tree {
            Json::Text(text) => Some(RoomId::from_text(text.as_str())),
            _ => match ObjectId::from_json(tree) {
                Some(object) => {
                    proof {
                        object.lemma_twelve_bytes();
                    }
                    Some(RoomId::Object(object))
                },
                None => None,
            },
        }
    }
}

/// A written room identifier can be printed as it stands.
pub proof fn lemma_room_id_json_canonical(id: RoomIdView)
    ensures
        canonical(room_id_json(id)),
{
    match id {
        RoomIdView::Object(bytes) => lemma_object_id_json_canonical(bytes),
        RoomIdView::Name(_) => {},
    }
}

/// Reading back a written room identifier gives the identifier, where it is
/// well formed.
pub proof fn lemma_room_id_round_trip(id: RoomIdView)
    requires
        id.well_formed(),
    ensures
        json_room_id(room_id_json(id)) == Some(id),
{
    match id {
        RoomIdView::Object(bytes) => lemma_object_id_round_trip(bytes),
        RoomIdView::Name(_) => {},
    }
}

/// An entry's value is an object with the member `amount`: a number, or
/// `null` where nothing is recorded.
pub open spec fn entry_data_json(data: EntryData) -> JsonView {
    JsonView::Object(
        seq![
            (
                "amount"@,
                match data.amount {
                    Some(n) => JsonView::Integer(n as i64),
                    None => JsonView::Null,
                },
            ),
        ],
    )
}

/// The value that a document stands for: an object whose member `amount` is
/// missing, `null`, or an integer that fits `u32`.
pub open spec fn json_entry_data(tree: JsonView) -> Option<EntryData> {
    match tree {
        JsonView::Object(_) => match field(tree, "amount"@) {
            None => Some(EntryData { amount: None }),
            Some(JsonView::Null) => Some(EntryData { amount: None }),
            Some(value) => match json_u32(value) {
                Some(n) => Some(EntryData { amount: Some(n) }),
                None => None,
            },
        },
        _ => None,
    }
}

impl EntryData {
    /// The JSON form of the value.
    pub fn to_json(&self) -> (tree: Json)
        ensures
            tree@ == entry_data_json(*self),
            canonical(tree@),
    {
        let amount = match self.amount {
            Some(n) => Json::Integer(n as i64),
            None => Json::Null,
        };
        let members = vec![Json::member("amount", amount)];
        proof {
            Json::lemma_object_view(members);
            assert(Json::Object(members)@->Object_0 =~= entry_data_json(*self)->Object_0);
            lemma_entry_data_json_canonical(*self);
        }
        Json::Object(members)
    }

    /// Reads the value from its JSON form. Gives `None` where the document is
    /// not of that form.
    pub fn from_json(tree: &Json) -> (r: Option<EntryData>)
        ensures
            r == json_entry_data(tree@),
    {
        match tree {
            Json::Object(_) => match tree.field("amount") {
                None => Some(EntryData { amount: None }),
                Some(Json::Null) => Some(EntryData { amount: None }),
                Some(value) => match read_u32(value) {
                    Some(n) => Some(EntryData { amount: Some(n) }),
                    None => None,
                },
            },
            _ => None,
        }
    }
}

/// A written value can be printed as it stands.
pub proof fn lemma_entry_data_json_canonical(data: EntryData)
    ensures
        canonical(entry_data_json(data)),
{
    reveal_with_fuel(canonical, 2);
}

/// Reading back a written value gives the value.
pub proof fn lemma_entry_data_round_trip(data: EntryData)
    ensures
        json_entry_data(entry_data_json(data)) == Some(data),
{
    reveal_with_fuel(find_from, 2);
}

/// A key is an object with the members `scheduleDate`, `roomId` and
/// `userId`.
pub open spec fn entry_key_json(key: EntryKeyView) -> JsonView {
    JsonView::Object(
        seq![
            ("scheduleDate"@, date_json(key.schedule_date)),
            ("roomId"@, room_id_json(key.room_id)),
            ("userId"@, JsonView::Text(key.user_id)),
        ],
    )
}

/// The key that a document stands for: it needs all three members, each of
/// its own form.
pub open spec fn json_entry_key(tree: JsonView) -> Option<EntryKeyView> {
    match (field(tree, "scheduleDate"@), field(tree, "roomId"@), field(tree, "userId"@)) {
        (Some(d), Some(r), Some(u)) => match (json_date(d), json_room_id(r), json_text(u)) {
            (Some(schedule_date), Some(room_id), Some(user_id)) => Some(
                EntryKeyView { schedule_date, room_id, user_id },
            ),
            _ => None,
        },
        _ => None,
    }
}

/// The three member names of a key differ from one another.
pub proof fn lemma_entry_key_names()
    ensures
        "scheduleDate"@ != "roomId"@,
        "scheduleDate"@ != "userId"@,
        "roomId"@ != "userId"@,
{
    reveal_strlit("scheduleDate");
    reveal_strlit("roomId");
    reveal_strlit("userId");
    assert("scheduleDate"@.len() == 12);
    assert("roomId"@.len() == 6);
    assert("userId"@.len() == 6);
    assert("roomId"@[0] == 'r');
    assert("userId"@[0] == 'u');
}

impl EntryKey {
    /// The JSON form of the value.
    pub fn to_json(&self) -> (tree: Json)
        ensures
            tree@ == entry_key_json(self@),
            canonical(tree@),
    {
        let members = vec![
            Json::member("scheduleDate", self.schedule_date.to_json()),
            Json::member("roomId", self.room_id.to_json()),
            Json::member("userId", Json::Text(self.user_id.clone())),
        ];
        proof {
            Json::lemma_object_view(members);
            assert(Json::Object(members)@->Object_0 =~= entry_key_json(self@)->Object_0);
            lemma_entry_key_json_canonical(self@);
        }
        Json::Object(members)
    }

    /// Reads the value from its JSON form. Gives `None` where the document is
    /// not of that form.
    pub fn from_json(tree: &Json) -> (r: Option<EntryKey>)
        ensures
            view_of(r) == json_entry_key(tree@),
    {
        let schedule_date = match tree.field("scheduleDate") {
            Some(d) => GregorianScheduleDate::from_json(d),
            None => None,
        };
        let room_id = match tree.field("roomId") {
            Some(r) => RoomId::from_json(r),
            None => None,
        };
        let user_id = match tree.field("userId") {
            Some(u) => read_text(u),
            None => None,
        };
        match (schedule_date, room_id, user_id) {
            (Some(schedule_date), Some(room_id), Some(user_id)) => Some(
                EntryKey { schedule_date, room_id, user_id },
            ),
            _ => None,
        }
    }
}

/// A written key can be printed as it stands.
pub proof fn lemma_entry_key_json_canonical(key: EntryKeyView)
    ensures
        canonical(entry_key_json(key)),
{
    lemma_entry_key_names();
    lemma_date_json_canonical(key.schedule_date);
    lemma_room_id_json_canonical(key.room_id);
    reveal_with_fuel(canonical, 2);
}

/// Reading back a written key gives the key, where month and day lie in
/// their ranges and the room identifier is well formed.
pub proof fn lemma_entry_key_round_trip(key: EntryKeyView)
    requires
        key.schedule_date.in_range(),
        key.room_id.well_formed(),
    ensures
        json_entry_key(entry_key_json(key)) == Some(key),
{
    lemma_entry_key_names();
    lemma_date_round_trip(key.schedule_date);
    lemma_room_id_round_trip(key.room_id);
    reveal_with_fuel(find_from, 4);
}

/// An entry is an object with the members `_id`, its key, and `value`.
pub open spec fn entry_json(entry: EntryView) -> JsonView {
    JsonView::Object(
        seq![("_id"@, entry_key_json(entry.id)), ("value"@, entry_data_json(entry.value))],
    )
}

/// The entry that a document stands for: it needs both members.
pub open spec fn json_entry(tree: JsonView) -> Option<EntryView> {
    match (field(tree, "_id"@), field(tree, "value"@)) {
        (Some(k), Some(v)) => match (json_entry_key(k), json_entry_data(v)) {
            (Some(id), Some(value)) => Some(EntryView { id, value }),
            _ => None,
        },
        _ => None,
    }
}

/// The two member names of an entry differ.
pub proof fn lemma_entry_names()
    ensures
        "_id"@ != "value"@,
{
    reveal_strlit("_id");
    reveal_strlit("value");
    assert("_id"@.len() == 3);
    assert("value"@.len() == 5);
}

impl Entry {
    /// The JSON form of the value.
    pub fn to_json(&self) -> (tree: Json)
        ensures
            tree@ == entry_json(self@),
            canonical(tree@),
    {
        let members = vec![
            Json::member("_id", self.id.to_json()),
            Json::member("value", self.value.to_json()),
        ];
        proof {
            Json::lemma_object_view(members);
            assert(Json::Object(members)@->Object_0 =~= entry_json(self@)->Object_0);
            lemma_entry_json_canonical(self@);
        }
        Json::Object(members)
    }

    /// Reads the value from its JSON form. Gives `None` where the document is
    /// not of that form.
    pub fn from_json(tree: &Json) -> (r: Option<Entry>)
        ensures
            view_of(r) == json_entry(tree@),
    {
        let id = match tree.field("_id") {
            Some(k) => EntryKey::from_json(k),
            None => None,
        };
        let value = match tree.field("value") {
            Some(v) => EntryData::from_json(v),
            None => None,
        };
        match (id, value) {
            (Some(id), Some(value)) => Some(Entry { id, value }),
            _ => None,
        }
    }
}

/// A written entry can be printed as it stands.
pub proof fn lemma_entry_json_canonical(entry: EntryView)
    ensures
        canonical(entry_json(entry)),
{
    lemma_entry_names();
    lemma_entry_key_json_canonical(entry.id);
    lemma_entry_data_json_canonical(entry.value);
    reveal_with_fuel(canonical, 2);
}

/// Reading back a written entry gives the entry, where month and day lie in
/// their ranges and the room identifier is well formed.
pub proof fn lemma_entry_round_trip(entry: EntryView)
    requires
        entry.id.schedule_date.in_range(),
        entry.id.room_id.well_formed(),
    ensures
        json_entry(entry_json(entry)) == Some(entry),
{
    lemma_entry_names();
    lemma_entry_key_round_trip(entry.id);
    lemma_entry_data_round_trip(entry.value);
    reveal_with_fuel(find_from, 3);
}

} // verus!
