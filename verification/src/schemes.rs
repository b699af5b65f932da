//! The stored entities: dates, entry keys and values, users, rooms and
//! audit records.

use vstd::prelude::*;

use vstd::utf8::{encode_utf8, encode_utf8_decode_utf8};

use crate::order::{
    bytes_before, lemma_bytes_before_asymmetric, lemma_bytes_before_irreflexive,
    lemma_bytes_before_total, lemma_bytes_before_transitive, slice_is_before,
};
use crate::room_id::{lemma_room_order_total, lemma_room_order_transitive, RoomId, RoomIdView};

verus! {

/// Identifies a user.
pub type UserID = String;

/// A calendar date as three stored numbers. Nothing beyond the ranges of
/// month and day is ever checked: no month lengths, no leap years.
#[derive(Clone, Copy, Debug, PartialEq, Eq, Structural, PartialOrd, Ord, Hash)]
pub struct GregorianScheduleDate {
    pub year: i32,
    pub month: u32,
    pub day: u32,
}

impl GregorianScheduleDate {
    /// The date of these three numbers, as they are.
    pub fn new(year: i32, month: u32, day: u32) -> (date: GregorianScheduleDate)
        ensures
            date == (GregorianScheduleDate { year, month, day }),
    {
        GregorianScheduleDate { year, month, day }
    }

    /// The month lies in 1 to 12 and the day in 1 to 31.
    pub open spec fn in_range(self) -> bool {
        1 <= self.month <= 12 && 1 <= self.day <= 31
    }

    /// Strict order by year, then month, then day.
    pub open spec fn before(self, other: GregorianScheduleDate) -> bool {
        ||| self.year < other.year
        ||| self.year == other.year && self.month < other.month
        ||| self.year == other.year && self.month == other.month && self.day < other.day
    }

    /// Whether month and day lie in their ranges.
    pub fn is_in_range(&self) -> (b: bool)
        ensures
            b == self.in_range(),
    {
        1 <= self.month && self.month <= 12 && 1 <= self.day && self.day <= 31
    }

    /// Whether this date comes strictly before `other`.
    pub fn is_before(&self, other: &GregorianScheduleDate) -> (b: bool)
        ensures
            b == self.before(*other),
    {
        self.year < other.year || (self.year == other.year && (self.month < other.month || (
        self.month == other.month && self.day < other.day)))
    }
}

/// The order on dates is total: of two dates, one comes before the other or
/// they are the same date, and never two of these at once.
pub proof fn lemma_date_order_total(a: GregorianScheduleDate, b: GregorianScheduleDate)
    ensures
        a.before(b) || b.before(a) || a == b,
        !(a.before(b) && b.before(a)),
        !(a.before(b) && a == b),
{
}

/// The order on dates is transitive.
pub proof fn lemma_date_order_transitive(
    a: GregorianScheduleDate,
    b: GregorianScheduleDate,
    c: GregorianScheduleDate,
)
    requires
        a.before(b),
        b.before(c),
    ensures
        a.before(c),
{
}

/// What identifies one entry: a date, a room and a user.
#[derive(Debug, PartialEq, Eq, PartialOrd, Ord, Hash)]
pub struct EntryKey {
    pub schedule_date: GregorianScheduleDate,
    pub room_id: RoomId,
    pub user_id: UserID,
}

/// What a [`EntryKey`] holds, as contracts speak of it.
pub struct EntryKeyView {
    pub schedule_date: GregorianScheduleDate,
    pub room_id: RoomIdView,
    pub user_id: Seq<char>,
}

impl View for EntryKey {
    type V = EntryKeyView;

    open spec fn view(&self) -> EntryKeyView {
        EntryKeyView {
            schedule_date: self.schedule_date,
            room_id: self.room_id@,
            user_id: self.user_id@,
        }
    }
}

impl Clone for EntryKey {
    fn clone(&self) -> (copy: EntryKey)
        ensures
            copy@ == self@,
    {
        EntryKey {
            schedule_date: self.schedule_date,
            room_id: self.room_id.clone(),
            user_id: self.user_id.clone(),
        }
    }
}

impl EntryKeyView {
    /// Strict order by date, then room, then user: users by the bytes of
    /// their UTF-8 text, as `std` orders strings.
    pub open spec fn before(self, other: EntryKeyView) -> bool {
        ||| self.schedule_date.before(other.schedule_date)
        ||| self.schedule_date == other.schedule_date && self.room_id.before(other.room_id)
        ||| self.schedule_date == other.schedule_date && self.room_id == other.room_id
            && bytes_before(encode_utf8(self.user_id), encode_utf8(other.user_id))
    }
}

/// The order on keys is total: of two keys, one comes before the other or
/// they are the same key, and never two of these at once.
pub proof fn lemma_key_order_total(a: EntryKeyView, b: EntryKeyView)
    ensures
        a.before(b) || b.before(a) || a == b,
        !(a.before(b) && b.before(a)),
        !(a.before(b) && a == b),
{
    lemma_date_order_total(a.schedule_date, b.schedule_date);
    lemma_room_order_total(a.room_id, b.room_id);
    let x = encode_utf8(a.user_id);
    let y = encode_utf8(b.user_id);
    lemma_bytes_before_total(x, y);
    lemma_bytes_before_asymmetric(x, y, 0);
    lemma_bytes_before_irreflexive(x, 0);
    if x == y {
        encode_utf8_decode_utf8(a.user_id);
        encode_utf8_decode_utf8(b.user_id);
        assert(a.user_id == b.user_id);
    }
}

/// The order on keys is transitive.
pub proof fn lemma_key_order_transitive(a: EntryKeyView, b: EntryKeyView, c: EntryKeyView)
    requires
        a.before(b),
        b.before(c),
    ensures
        a.before(c),
{
    lemma_date_order_total(a.schedule_date, b.schedule_date);
    lemma_date_order_total(b.schedule_date, c.schedule_date);
    if a.schedule_date == b.schedule_date && b.schedule_date == c.schedule_date {
        lemma_room_order_total(a.room_id, b.room_id);
        lemma_room_order_total(b.room_id, c.room_id);
        if a.room_id.before(b.room_id) && b.room_id.before(c.room_id) {
            lemma_room_order_transitive(a.room_id, b.room_id, c.room_id);
        } else if a.room_id == b.room_id && b.room_id == c.room_id {
            lemma_bytes_before_transitive(
                encode_utf8(a.user_id),
                encode_utf8(b.user_id),
                encode_utf8(c.user_id),
                0,
            );
        }
    } else if a.schedule_date.before(b.schedule_date) && b.schedule_date.before(c.schedule_date) {
        lemma_date_order_transitive(a.schedule_date, b.schedule_date, c.schedule_date);
    }
}

impl EntryKey {
    /// Whether this key comes strictly before `other`.
    pub fn is_before(&self, other: &EntryKey) -> (before: bool)
        ensures
            before == self@.before(other@),
    {
        if self.schedule_date.is_before(&other.schedule_date) {
            true
        } else if self.schedule_date != other.schedule_date {
            false
        } else if self.room_id.is_before(&other.room_id) {
            true
        } else if !self.room_id.same(&other.room_id) {
            false
        } else {
            slice_is_before(self.user_id.as_str().as_bytes(), other.user_id.as_str().as_bytes())
        }
    }

    /// Whether two keys name the same date, room and user.
    pub fn same(&self, other: &EntryKey) -> (b: bool)
        ensures
            b == (self@ == other@),
    {
        self.schedule_date == other.schedule_date && self.room_id.same(&other.room_id)
            && self.user_id == other.user_id
    }
}

/// The recorded amount of an entry. No amount means that nothing is
/// recorded.
#[derive(Clone, Copy, Debug, PartialEq, Eq, Structural, PartialOrd, Ord, Hash)]
pub struct EntryData {
    pub amount: Option<u32>,
}

/// The current record for one key.
#[derive(Debug, PartialEq, Eq, PartialOrd, Ord, Hash)]
pub struct Entry {
    pub id: EntryKey,
    pub value: EntryData,
}

/// What a [`Entry`] holds, as contracts speak of it.
pub struct EntryView {
    pub id: EntryKeyView,
    pub value: EntryData,
}

impl View for Entry {
    type V = EntryView;

    open spec fn view(&self) -> EntryView {
        EntryView { id: self.id@, value: self.value }
    }
}

impl Clone for Entry {
    fn clone(&self) -> (copy: Entry)
        ensures
            copy@ == self@,
    {
        Entry { id: self.id.clone(), value: self.value }
    }
}

/// A user as the user listing shows it.
#[derive(Debug, PartialEq, Eq, PartialOrd, Ord, Hash)]
pub struct User {
    user_id: UserID,
    display_name: String,
    theme: String,
}

/// What a [`User`] holds, as contracts speak of it.
pub struct UserView {
    pub user_id: Seq<char>,
    pub display_name: Seq<char>,
    pub theme: Seq<char>,
}

impl View for User {
    type V = UserView;

    closed spec fn view(&self) -> UserView {
        UserView {
            user_id: self.user_id@,
            display_name: self.display_name@,
            theme: self.theme@,
        }
    }
}

impl Clone for User {
    fn clone(&self) -> (copy: User)
        ensures
            copy@ == self@,
    {
        User {
            user_id: self.user_id.clone(),
            display_name: self.display_name.clone(),
            theme: self.theme.clone(),
        }
    }
}

impl User {
    /// A user of this identifier, name and theme.
    pub fn new(user_id: UserID, display_name: String, theme: String) -> (user: User)
        ensures
            user@ == (UserView {
                user_id: user_id@,
                display_name: display_name@,
                theme: theme@,
            }),
    {
        User { user_id, display_name, theme }
    }

    /// The identifier of the user.
    pub fn user_id(&self) -> (id: &UserID)
        ensures
            id@ == self@.user_id,
    {
        &self.user_id
    }

    /// The name that others see.
    pub fn display_name(&self) -> (name: &String)
        ensures
            name@ == self@.display_name,
    {
        &self.display_name
    }

    /// The theme that the user has chosen.
    pub fn theme(&self) -> (theme: &String)
        ensures
            theme@ == self@.theme,
    {
        &self.theme
    }
}

/// One line of the audit log: the entry as it was written, and when.
/// `date` counts milliseconds since the start of 1970, UTC.
#[derive(Debug, PartialEq, Eq, PartialOrd, Ord, Hash)]
pub struct UpdateEntryCommit {
    pub date: i64,
    pub data: Entry,
}

/// What a [`UpdateEntryCommit`] holds, as contracts speak of it.
pub struct UpdateEntryCommitView {
    pub date: i64,
    pub data: EntryView,
}

impl View for UpdateEntryCommit {
    type V = UpdateEntryCommitView;

    open spec fn view(&self) -> UpdateEntryCommitView {
        UpdateEntryCommitView { date: self.date, data: self.data@ }
    }
}

impl Clone for UpdateEntryCommit {
    fn clone(&self) -> (copy: UpdateEntryCommit)
        ensures
            copy@ == self@,
    {
        UpdateEntryCommit { date: self.date, data: self.data.clone() }
    }
}

/// A named group of users who share entries and a broadcast channel.
#[derive(Debug, PartialEq, Eq, PartialOrd, Ord, Hash)]
pub struct Room {
    pub id: RoomId,
    pub display_name: String,
    pub url: String,
    pub broadcast: String,
    pub users: Vec<UserID>,
}

/// What a [`Room`] holds, as contracts speak of it.
pub struct RoomView {
    pub id: RoomIdView,
    pub display_name: Seq<char>,
    pub url: Seq<char>,
    pub broadcast: Seq<char>,
    pub users: Seq<Seq<char>>,
}

impl View for Room {
    type V = RoomView;

    open spec fn view(&self) -> RoomView {
        RoomView {
            id: self.id@,
            display_name: self.display_name@,
            url: self.url@,
            broadcast: self.broadcast@,
            users: self.users.deep_view(),
        }
    }
}

} // verus!
