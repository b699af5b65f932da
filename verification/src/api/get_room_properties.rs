//! The query for a room's properties and entries.
//!
//! A query names a room, a set of dates and a mask. The answer always names
//! the room; each other part is there exactly where the mask asks for it.
//! Entries and users come grouped by date, a date being a group only where
//! the room has an entry on it.

use vstd::prelude::*;

use crate::api::base64_encoded_request::{decode_query, query_request};
use crate::api::room_wire::room_response_json;
use crate::db::{room_of, Database, DatabaseView};
use crate::json::printed_json;
use crate::error::Error;
use crate::room_id::{RoomId, RoomIdView};
use crate::schemes::{EntryView, GregorianScheduleDate, Room, RoomView, UserID};
use crate::views::{ok_view, view_of, views_of};

verus! {

/// What a part of the mask stands for where a query leaves it out.
pub fn default_as_false() -> (b: bool)
    ensures
        !b,
{
    false
}

/// What the dates stand for where a query leaves them out.
pub fn default_as_empty_vec<T>() -> (v: Vec<T>)
    ensures
        v@.len() == 0,
{
    Vec::new()
}

/// What a client asks of a room.
#[derive(Debug, PartialEq, Eq)]
pub struct GetRoomPropertiesRequest {
    pub room_id: RoomId,
    pub dates: Vec<GregorianScheduleDate>,
    pub entries: bool,
    pub users: bool,
    pub display_name: bool,
    pub url: bool,
    pub broadcast: bool,
}

/// What a [`GetRoomPropertiesRequest`] holds, as contracts speak of it.
pub struct GetRoomPropertiesRequestView {
    pub room_id: RoomIdView,
    pub dates: Seq<GregorianScheduleDate>,
    pub entries: bool,
    pub users: bool,
    pub display_name: bool,
    pub url: bool,
    pub broadcast: bool,
}

impl View for GetRoomPropertiesRequest {
    type V = GetRoomPropertiesRequestView;

    open spec fn view(&self) -> GetRoomPropertiesRequestView {
        GetRoomPropertiesRequestView {
            room_id: self.room_id@,
            dates: self.dates@,
            entries: self.entries,
            users: self.users,
            display_name: self.display_name,
            url: self.url,
            broadcast: self.broadcast,
        }
    }
}

impl Clone for GetRoomPropertiesRequest {
    fn clone(&self) -> (copy: GetRoomPropertiesRequest)
        ensures
            copy@ == self@,
    {
        let mut dates: Vec<GregorianScheduleDate> = Vec::new();
        let mut i: usize = 0;
        while i < self.dates.len()
            invariant
                i <= self.dates.len(),
                dates@ == self.dates@.subrange(0, i as int),
            decreases self.dates.len() - i,
        {
            dates.push(self.dates[i]);
            assert(dates@ =~= self.dates@.subrange(0, i + 1));
            i += 1;
        }
        assert(dates@ =~= self.dates@);
        GetRoomPropertiesRequest {
            room_id: self.room_id.clone(),
            dates,
            entries: self.entries,
            users: self.users,
            display_name: self.display_name,
            url: self.url,
            broadcast: self.broadcast,
        }
    }
}

/// One user's amount on one date, as stored: no positivity filter applies
/// here.
#[derive(Debug, PartialEq, Eq)]
pub struct OutputEntry {
    pub user: UserID,
    pub amount: Option<u32>,
}

/// What a [`OutputEntry`] holds, as contracts speak of it.
pub struct OutputEntryView {
    pub user: Seq<char>,
    pub amount: Option<u32>,
}

impl View for OutputEntry {
    type V = OutputEntryView;

    open spec fn view(&self) -> OutputEntryView {
        OutputEntryView { user: self.user@, amount: self.amount }
    }
}

/// The entries of one date.
#[derive(Debug, PartialEq, Eq)]
pub struct EntryGroup {
    pub date: GregorianScheduleDate,
    pub entries: Vec<OutputEntry>,
}

/// What a [`EntryGroup`] holds, as contracts speak of it.
pub struct EntryGroupView {
    pub date: GregorianScheduleDate,
    pub entries: Seq<OutputEntryView>,
}

impl View for EntryGroup {
    type V = EntryGroupView;

    open spec fn view(&self) -> EntryGroupView {
        EntryGroupView { date: self.date, entries: views_of(self.entries@) }
    }
}

/// The users with an entry on one date.
#[derive(Debug, PartialEq, Eq)]
pub struct UserGroup {
    pub date: GregorianScheduleDate,
    pub users: Vec<UserID>,
}

/// What a [`UserGroup`] holds, as contracts speak of it.
pub struct UserGroupView {
    pub date: GregorianScheduleDate,
    pub users: Seq<Seq<char>>,
}

impl View for UserGroup {
    type V = UserGroupView;

    open spec fn view(&self) -> UserGroupView {
        UserGroupView { date: self.date, users: views_of(self.users@) }
    }
}

/// The answer to a query. A part that the mask did not ask for is `None`,
/// whatever the store holds.
#[derive(Debug, PartialEq, Eq)]
pub struct GetRoomPropertiesResponse {
    pub room_id: RoomId,
    pub entries: Option<Vec<EntryGroup>>,
    pub users: Option<Vec<UserGroup>>,
    pub display_name: Option<String>,
    pub url: Option<String>,
    pub broadcast: Option<String>,
}

/// What a [`GetRoomPropertiesResponse`] holds, as contracts speak of it.
pub struct GetRoomPropertiesResponseView {
    pub room_id: RoomIdView,
    pub entries: Option<Seq<EntryGroupView>>,
    pub users: Option<Seq<UserGroupView>>,
    pub display_name: Option<Seq<char>>,
    pub url: Option<Seq<char>>,
    pub broadcast: Option<Seq<char>>,
}

impl View for GetRoomPropertiesResponse {
    type V = GetRoomPropertiesResponseView;

    open spec fn view(&self) -> GetRoomPropertiesResponseView {
        GetRoomPropertiesResponseView {
            room_id: self.room_id@,
            entries: match self.entries {
                Some(groups) => Some(views_of(groups@)),
                None => None,
            },
            users: match self.users {
                Some(groups) => Some(views_of(groups@)),
                None => None,
            },
            display_name: view_of(self.display_name),
            url: view_of(self.url),
            broadcast: view_of(self.broadcast),
        }
    }
}

/// Whether an entry belongs to the room and falls on one of the dates.
pub open spec fn row_matches(
    entry: EntryView,
    room: RoomIdView,
    dates: Seq<GregorianScheduleDate>,
) -> bool {
    entry.id.room_id == room && dates.contains(entry.id.schedule_date)
}

/// The dates on which the first `n` entries have a matching row, each once,
/// in the order in which they first occur.
pub open spec fn group_dates(
    entries: Seq<EntryView>,
    room: RoomIdView,
    dates: Seq<GregorianScheduleDate>,
    n: int,
) -> Seq<GregorianScheduleDate>
    decreases n,
{
    if n <= 0 {
        Seq::empty()
    } else {
        let earlier = group_dates(entries, room, dates, n - 1);
        let entry = entries[n - 1];
        if row_matches(entry, room, dates) && !earlier.contains(entry.id.schedule_date) {
            earlier.push(entry.id.schedule_date)
        } else {
            earlier
        }
    }
}

/// The rows that the first `n` entries have for the room on `date`, in
/// store order.
pub open spec fn rows_on(
    entries: Seq<EntryView>,
    room: RoomIdView,
    date: GregorianScheduleDate,
    n: int,
) -> Seq<OutputEntryView>
    decreases n,
{
    if n <= 0 {
        Seq::empty()
    } else {
        let earlier = rows_on(entries, room, date, n - 1);
        let entry = entries[n - 1];
        if entry.id.room_id == room && entry.id.schedule_date == date {
            earlier.push(OutputEntryView { user: entry.id.user_id, amount: entry.value.amount })
        } else {
            earlier
        }
    }
}

/// The users of some rows, in the same order.
pub open spec fn users_of(rows: Seq<OutputEntryView>) -> Seq<Seq<char>> {
    Seq::new(rows.len(), |i: int| rows[i].user)
}

/// The entries of the room on the dates asked for, grouped by date.
pub open spec fn grouped_entries(
    entries: Seq<EntryView>,
    room: RoomIdView,
    dates: Seq<GregorianScheduleDate>,
) -> Seq<EntryGroupView> {
    let keys = group_dates(entries, room, dates, entries.len() as int);
    Seq::new(
        keys.len(),
        |i: int|
            EntryGroupView {
                date: keys[i],
                entries: rows_on(entries, room, keys[i], entries.len() as int),
            },
    )
}

/// The users of the room with an entry on the dates asked for, grouped by
/// date.
pub open spec fn grouped_users(
    entries: Seq<EntryView>,
    room: RoomIdView,
    dates: Seq<GregorianScheduleDate>,
) -> Seq<UserGroupView> {
    let keys = group_dates(entries, room, dates, entries.len() as int);
    Seq::new(
        keys.len(),
        |i: int|
            UserGroupView {
                date: keys[i],
                users: users_of(rows_on(entries, room, keys[i], entries.len() as int)),
            },
    )
}

/// No date is the date of two groups of entries.
pub open spec fn entry_dates_once(groups: Seq<EntryGroupView>) -> bool {
    forall|i: int, j: int|
        0 <= i < j < groups.len() ==> (#[trigger] groups[i]).date != (#[trigger] groups[j]).date
}

/// No date is the date of two groups of users.
pub open spec fn user_dates_once(groups: Seq<UserGroupView>) -> bool {
    forall|i: int, j: int|
        0 <= i < j < groups.len() ==> (#[trigger] groups[i]).date != (#[trigger] groups[j]).date
}

/// The groups of users that go with some groups of entries: the same dates
/// in the same order, and of each row its user.
pub open spec fn users_of_groups(groups: Seq<EntryGroupView>) -> Seq<UserGroupView> {
    Seq::new(
        groups.len(),
        |i: int| UserGroupView { date: groups[i].date, users: users_of(groups[i].entries) },
    )
}

/// A part of the answer: there exactly where the mask asks for it.
pub open spec fn masked<T>(asked: bool, value: T) -> Option<T> {
    if asked {
        Some(value)
    } else {
        None
    }
}

/// The answer to `request` about `room`, given the groups that the store
/// has for it.
pub open spec fn assembled(
    request: GetRoomPropertiesRequestView,
    room: RoomView,
    entries: Seq<EntryGroupView>,
    users: Seq<UserGroupView>,
) -> GetRoomPropertiesResponseView {
    GetRoomPropertiesResponseView {
        room_id: room.id,
        entries: masked(request.entries, entries),
        users: masked(request.users, users),
        display_name: masked(request.display_name, room.display_name),
        url: masked(request.url, room.url),
        broadcast: masked(request.broadcast, room.broadcast),
    }
}

/// The answer of the store to `request`: `NotFound` where it has no room of
/// that identifier.
pub open spec fn room_properties(db: DatabaseView, request: GetRoomPropertiesRequestView)
    -> Result<GetRoomPropertiesResponseView, Error> {
    match room_of(db.rooms, request.room_id, 0) {
        None => Err(Error::NotFound),
        Some(room) => Ok(
            assembled(
                request,
                room,
                grouped_entries(db.entries, request.room_id, request.dates),
                grouped_users(db.entries, request.room_id, request.dates),
            ),
        ),
    }
}

/// Whether `date` is among `dates`.
pub fn date_among(dates: &Vec<GregorianScheduleDate>, date: GregorianScheduleDate) -> (b: bool)
    ensures
        b == dates@.contains(date),
{
    let mut i: usize = 0;
    while i < dates.len()
        invariant
            i <= dates.len(),
            forall|k: int| 0 <= k < i ==> dates@[k] != date,
        decreases dates.len() - i,
    {
        if dates[i] == date {
            return true;
        }
        i += 1;
    }
    false
}

/// The dates on which the room has an entry, among those asked for.
fn dates_with_rows(db: &Database, room_id: &RoomId, dates: &Vec<GregorianScheduleDate>) -> (keys:
    Vec<GregorianScheduleDate>)
    ensures
        keys@ == group_dates(db@.entries, room_id@, dates@, db@.entries.len() as int),
{
    let entries = db.entries();
    let mut keys: Vec<GregorianScheduleDate> = Vec::new();
    let mut i: usize = 0;
    while i < entries.len()
        invariant
            i <= entries.len(),
            views_of(entries@) == db@.entries,
            keys@ == group_dates(db@.entries, room_id@, dates@, i as int),
        decreases entries.len() - i,
    {
        let entry = &entries[i];
        assert(db@.entries[i as int] == entry@);
        if entry.id.room_id.same(room_id) && date_among(dates, entry.id.schedule_date)
            && !date_among(&keys, entry.id.schedule_date) {
            keys.push(entry.id.schedule_date);
        }
        i += 1;
    }
    keys
}

/// The rows of the room on one date, in store order.
fn rows_of_date(db: &Database, room_id: &RoomId, date: GregorianScheduleDate) -> (rows: Vec<
    OutputEntry,
>)
    ensures
        views_of(rows@) == rows_on(db@.entries, room_id@, date, db@.entries.len() as int),
{
    let entries = db.entries();
    let mut rows: Vec<OutputEntry> = Vec::new();
    let mut i: usize = 0;
    while i < entries.len()
        invariant
            i <= entries.len(),
            views_of(entries@) == db@.entries,
            views_of(rows@) == rows_on(db@.entries, room_id@, date, i as int),
        decreases entries.len() - i,
    {
        let entry = &entries[i];
        assert(db@.entries[i as int] == entry@);
        if entry.id.room_id.same(room_id) && entry.id.schedule_date == date {
            let ghost before = views_of(rows@);
            let row = OutputEntry { user: entry.id.user_id.clone(), amount: entry.value.amount };
            rows.push(row);
            assert(views_of(rows@) =~= before.push(row@));
        }
        i += 1;
    }
    rows
}

/// The entries of the room on the dates asked for, grouped by date. Groups
/// come in the order in which their dates first occur in the store, and
/// rows in store order.
pub fn group_entries(db: &Database, room_id: &RoomId, dates: &Vec<GregorianScheduleDate>) -> (
    groups: Vec<EntryGroup>)
    ensures
        views_of(groups@) == grouped_entries(db@.entries, room_id@, dates@),
        entry_dates_once(views_of(groups@)),
{
    proof {
        lemma_groups_have_distinct_dates(db@.entries, room_id@, dates@);
    }
    let keys = dates_with_rows(db, room_id, dates);
    let mut groups: Vec<EntryGroup> = Vec::new();
    let mut i: usize = 0;
    while i < keys.len()
        invariant
            i <= keys.len(),
            groups.len() == i,
            keys@ == group_dates(db@.entries, room_id@, dates@, db@.entries.len() as int),
            forall|k: int|
                0 <= k < i ==> (#[trigger] groups[k])@ == grouped_entries(
                    db@.entries,
                    room_id@,
                    dates@,
                )[k],
        decreases keys.len() - i,
    {
        let date = keys[i];
        let entries = rows_of_date(db, room_id, date);
        groups.push(EntryGroup { date, entries });
        i += 1;
    }
    assert(views_of(groups@) =~= grouped_entries(db@.entries, room_id@, dates@));
    groups
}

/// The users of the room with an entry on the dates asked for, grouped by
/// date, in the same order as the entries.
pub fn group_users(db: &Database, room_id: &RoomId, dates: &Vec<GregorianScheduleDate>) -> (
    groups: Vec<UserGroup>)
    ensures
        views_of(groups@) == grouped_users(db@.entries, room_id@, dates@),
        user_dates_once(views_of(groups@)),
{
    proof {
        lemma_groups_have_distinct_dates(db@.entries, room_id@, dates@);
    }
    let keys = dates_with_rows(db, room_id, dates);
    let mut groups: Vec<UserGroup> = Vec::new();
    let mut i: usize = 0;
    while i < keys.len()
        invariant
            i <= keys.len(),
            groups.len() == i,
            keys@ == group_dates(db@.entries, room_id@, dates@, db@.entries.len() as int),
            forall|k: int|
                0 <= k < i ==> (#[trigger] groups[k])@ == grouped_users(
                    db@.entries,
                    room_id@,
                    dates@,
                )[k],
        decreases keys.len() - i,
    {
        let date = keys[i];
        let rows = rows_of_date(db, room_id, date);
        let mut users: Vec<UserID> = Vec::new();
        let mut k: usize = 0;
        while k < rows.len()
            invariant
                k <= rows.len(),
                users.len() == k,
                forall|j: int| 0 <= j < k ==> (#[trigger] users[j])@ == rows[j]@.user,
            decreases rows.len() - k,
        {
            users.push(rows[k].user.clone());
            k += 1;
        }
        assert(views_of(users@) =~= users_of(views_of(rows@)));
        groups.push(UserGroup { date, users });
        i += 1;
    }
    assert(views_of(groups@) =~= grouped_users(db@.entries, room_id@, dates@));
    groups
}

/// The groups of users that go with some groups of entries.
pub fn users_of_entry_groups(groups: &Vec<EntryGroup>) -> (users: Vec<UserGroup>)
    ensures
        views_of(users@) == users_of_groups(views_of(groups@)),
{
    let mut out: Vec<UserGroup> = Vec::new();
    let mut i: usize = 0;
    while i < groups.len()
        invariant
            i <= groups.len(),
            out.len() == i,
            forall|k: int|
                0 <= k < i ==> (#[trigger] out[k])@ == users_of_groups(views_of(groups@))[k],
        decreases groups.len() - i,
    {
        let group = &groups[i];
        let mut users: Vec<UserID> = Vec::new();
        let mut k: usize = 0;
        while k < group.entries.len()
            invariant
                k <= group.entries.len(),
                users.len() == k,
                forall|j: int| 0 <= j < k ==> (#[trigger] users[j])@ == group.entries[j]@.user,
            decreases group.entries.len() - k,
        {
            users.push(group.entries[k].user.clone());
            k += 1;
        }
        assert(views_of(users@) =~= users_of(views_of(group.entries@)));
        out.push(UserGroup { date: group.date, users });
        i += 1;
    }
    assert(views_of(out@) =~= users_of_groups(views_of(groups@)));
    out
}

/// The users of an answer are those of its entries, group by group.
pub proof fn lemma_users_follow_entries(
    entries: Seq<EntryView>,
    room: RoomIdView,
    dates: Seq<GregorianScheduleDate>,
)
    ensures
        grouped_users(entries, room, dates) == users_of_groups(
            grouped_entries(entries, room, dates),
        ),
{
    assert(grouped_users(entries, room, dates) =~= users_of_groups(
        grouped_entries(entries, room, dates),
    ));
}

/// Puts the answer together: the room's identifier, and of everything else
/// exactly what the mask asks for.
pub fn assemble(
    request: &GetRoomPropertiesRequest,
    room: &Room,
    entries: Vec<EntryGroup>,
    users: Vec<UserGroup>,
) -> (response: GetRoomPropertiesResponse)
    ensures
        response@ == assembled(request@, room@, views_of(entries@), views_of(users@)),
{
    GetRoomPropertiesResponse {
        room_id: room.id.clone(),
        entries: if request.entries {
            Some(entries)
        } else {
            None
        },
        users: if request.users {
            Some(users)
        } else {
            None
        },
        display_name: if request.display_name {
            Some(room.display_name.clone())
        } else {
            None
        },
        url: if request.url {
            Some(room.url.clone())
        } else {
            None
        },
        broadcast: if request.broadcast {
            Some(room.broadcast.clone())
        } else {
            None
        },
    }
}

/// Answers a query from the store. Fails with `NotFound`, and only so,
/// where the store has no room of the identifier asked for. The entries are
/// gone through only for the groups that the mask asks for.
pub fn get_room_properties(db: &Database, request: &GetRoomPropertiesRequest) -> (r: Result<
    GetRoomPropertiesResponse,
    Error,
>)
    ensures
        ok_view(r) == room_properties(db@, request@),
{
    match db.find_room(&request.room_id) {
        None => Err(Error::NotFound),
        Some(room) => {
            let entries = if request.entries {
                group_entries(db, &request.room_id, &request.dates)
            } else {
                Vec::new()
            };
            let users = if request.users {
                group_users(db, &request.room_id, &request.dates)
            } else {
                Vec::new()
            };
            Ok(assemble(request, room, entries, users))
        },
    }
}

/// A part of the answer is there exactly where the mask asks for it,
/// whatever the room and the store hold.
pub proof fn lemma_mask_fidelity(
    request: GetRoomPropertiesRequestView,
    room: RoomView,
    entries: Seq<EntryGroupView>,
    users: Seq<UserGroupView>,
)
    ensures
        assembled(request, room, entries, users).entries is Some <==> request.entries,
        assembled(request, room, entries, users).users is Some <==> request.users,
        assembled(request, room, entries, users).display_name is Some <==> request.display_name,
        assembled(request, room, entries, users).url is Some <==> request.url,
        assembled(request, room, entries, users).broadcast is Some <==> request.broadcast,
        assembled(request, room, entries, users).room_id == room.id,
{
}

/// The outcome of a query against the store: the text of the answer, or
/// why there is none.
pub open spec fn query_answer(db: DatabaseView, pairs: Seq<(Seq<char>, Seq<char>)>) -> Result<
    Seq<char>,
    Error,
> {
    match query_request(pairs) {
        Err(error) => Err(error),
        Ok(request) => match room_properties(db, request) {
            Err(error) => Err(error),
            Ok(response) => Ok(printed_json(room_response_json(response))),
        },
    }
}

/// Answers the query that the parameters carry: reads the request, asks
/// the store, and prints the answer. The store is only read.
pub fn answer_query(db: &Database, query: &Vec<(String, String)>) -> (r: Result<String, Error>)
    ensures
        ok_view(r) == query_answer(db@, views_of(query@)),
{
    match decode_query(query) {
        Err(error) => Err(error),
        Ok(request) => match get_room_properties(db, &request) {
            Err(error) => Err(error),
            Ok(response) => Ok(response.to_text()),
        },
    }
}

/// A query fails only by the client's fault: it cannot be read, or it names
/// a room that is not there.
pub proof fn lemma_failed_query_is_client_fault(
    db: DatabaseView,
    pairs: Seq<(Seq<char>, Seq<char>)>,
)
    ensures
        query_answer(db, pairs) matches Err(error) ==> error.client_fault(),
        query_request(pairs) is Err ==> query_answer(db, pairs) is Err,
{
}

/// No date is a group twice.
pub proof fn lemma_group_dates_distinct(
    entries: Seq<EntryView>,
    room: RoomIdView,
    dates: Seq<GregorianScheduleDate>,
    n: int,
)
    ensures
        group_dates(entries, room, dates, n).no_duplicates(),
    decreases n,
{
    if n > 0 {
        lemma_group_dates_distinct(entries, room, dates, n - 1);
    }
}

/// No two groups of an answer have the same date.
pub proof fn lemma_groups_have_distinct_dates(
    entries: Seq<EntryView>,
    room: RoomIdView,
    dates: Seq<GregorianScheduleDate>,
)
    ensures
        entry_dates_once(grouped_entries(entries, room, dates)),
        user_dates_once(grouped_users(entries, room, dates)),
{
    lemma_group_dates_distinct(entries, room, dates, entries.len() as int);
}

/// A date is a group exactly where one of the first `n` entries belongs to
/// the room and falls on it, and it is among the dates asked for.
pub proof fn lemma_group_dates_exact(
    entries: Seq<EntryView>,
    room: RoomIdView,
    dates: Seq<GregorianScheduleDate>,
    n: int,
    date: GregorianScheduleDate,
)
    requires
        n <= entries.len(),
    ensures
        group_dates(entries, room, dates, n).contains(date) <==> dates.contains(date) && exists|
            k: int,
        |
            0 <= k < n && (#[trigger] entries[k]).id.room_id == room && entries[k].id.schedule_date
                == date,
    decreases n,
{
    if n > 0 {
        lemma_group_dates_exact(entries, room, dates, n - 1, date);
        let earlier = group_dates(entries, room, dates, n - 1);
        let entry = entries[n - 1];
        let now = group_dates(entries, room, dates, n);
        if row_matches(entry, room, dates) && !earlier.contains(entry.id.schedule_date) {
            assert(now == earlier.push(entry.id.schedule_date));
            assert(now[now.len() - 1] == entry.id.schedule_date);
            assert forall|d: GregorianScheduleDate| now.contains(d) <==> (earlier.contains(d) || d
                == entry.id.schedule_date) by {
                if earlier.contains(d) {
                    let i = choose|i: int| 0 <= i < earlier.len() && earlier[i] == d;
                    assert(now[i] == d);
                }
            }
        }
        if group_dates(entries, room, dates, n).contains(date) {
            if !earlier.contains(date) {
                assert(entries[n - 1].id.schedule_date == date);
            }
        }
    }
}

/// The rows of a date are as many as the entries of the room on that date,
/// so a date that is a group has at least one row.
pub proof fn lemma_group_has_rows(
    entries: Seq<EntryView>,
    room: RoomIdView,
    date: GregorianScheduleDate,
    n: int,
    k: int,
)
    requires
        0 <= k < n <= entries.len(),
        entries[k].id.room_id == room,
        entries[k].id.schedule_date == date,
    ensures
        rows_on(entries, room, date, n).len() > 0,
    decreases n,
{
    if k < n - 1 {
        lemma_group_has_rows(entries, room, date, n - 1, k);
    }
}

/// Every entry of the room on a date is among the rows of that date.
pub proof fn lemma_entries_are_among_rows(
    entries: Seq<EntryView>,
    room: RoomIdView,
    date: GregorianScheduleDate,
    n: int,
    k: int,
)
    requires
        0 <= k < n <= entries.len(),
        entries[k].id.room_id == room,
        entries[k].id.schedule_date == date,
    ensures
        rows_on(entries, room, date, n).contains(
            OutputEntryView { user: entries[k].id.user_id, amount: entries[k].value.amount },
        ),
    decreases n,
{
    let row = OutputEntryView { user: entries[k].id.user_id, amount: entries[k].value.amount };
    let earlier = rows_on(entries, room, date, n - 1);
    let rows = rows_on(entries, room, date, n);
    if k == n - 1 {
        assert(rows == earlier.push(row));
        assert(rows[rows.len() - 1] == row);
    } else {
        lemma_entries_are_among_rows(entries, room, date, n - 1, k);
        let i = choose|i: int| 0 <= i < earlier.len() && earlier[i] == row;
        assert(rows[i] == row);
    }
}

/// Every row of a date comes from an entry of the room on that date.
pub proof fn lemma_rows_come_from_entries(
    entries: Seq<EntryView>,
    room: RoomIdView,
    date: GregorianScheduleDate,
    n: int,
    i: int,
)
    requires
        n <= entries.len(),
        0 <= i < rows_on(entries, room, date, n).len(),
    ensures
        exists|k: int|
            0 <= k < n && (#[trigger] entries[k]).id.room_id == room && entries[k].id.schedule_date
                == date && rows_on(entries, room, date, n)[i] == (OutputEntryView {
                user: entries[k].id.user_id,
                amount: entries[k].value.amount,
            }),
    decreases n,
{
    if n > 0 {
        let earlier = rows_on(entries, room, date, n - 1);
        if i < earlier.len() {
            lemma_rows_come_from_entries(entries, room, date, n - 1, i);
            let k = choose|k: int|
                0 <= k < n - 1 && (#[trigger] entries[k]).id.room_id == room
                    && entries[k].id.schedule_date == date && earlier[i] == (OutputEntryView {
                    user: entries[k].id.user_id,
                    amount: entries[k].value.amount,
                });
            assert(entries[k].id.room_id == room);
        } else {
            assert(entries[n - 1].id.room_id == room);
        }
    }
}

} // verus!
