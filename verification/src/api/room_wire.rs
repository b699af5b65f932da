//! How a query for a room's properties and its answer are written as JSON.
//!
//! In a query only `roomId` must be there: `dates` stands for no dates and
//! each part of the mask for `false` where it is missing. In an answer a
//! part that is not there is `null`. Groups are pairs of a date and a list.

use vstd::prelude::*;

use crate::api::get_room_properties::{
    EntryGroup, EntryGroupView, GetRoomPropertiesRequest, GetRoomPropertiesRequestView,
    GetRoomPropertiesResponse, GetRoomPropertiesResponseView, OutputEntry, OutputEntryView,
    UserGroup, UserGroupView,
};
use crate::json::{canonical, field, find_from, Json, JsonView};
use crate::room_id::RoomId;
use crate::schemes::GregorianScheduleDate;
use crate::views::{view_of, views_of};
use crate::wire::{
    date_json, json_bool, json_date, json_room_id, lemma_date_json_canonical,
    lemma_date_round_trip, lemma_room_id_json_canonical, lemma_room_id_round_trip, read_bool,
    room_id_json,
};

verus! {

/// The dates that a list of documents stands for: each must be a date.
pub open spec fn json_dates(items: Seq<JsonView>) -> Option<Seq<GregorianScheduleDate>> {
    if forall|i: int| 0 <= i < items.len() ==> (#[trigger] json_date(items[i])) is Some {
        Some(Seq::new(items.len(), |i: int| json_date(items[i]).unwrap()))
    } else {
        None
    }
}

/// The dates of a query: none where the member is missing, else the member
/// must be an array of dates.
pub open spec fn optional_dates(found: Option<JsonView>) -> Option<Seq<GregorianScheduleDate>> {
    match found {
        None => Some(Seq::empty()),
        Some(JsonView::Array(items)) => json_dates(items),
        Some(_) => None,
    }
}

/// A part of the mask: `false` where the member is missing, else the
/// member must be a boolean.
pub open spec fn optional_bool(found: Option<JsonView>) -> Option<bool> {
    match found {
        None => Some(false),
        Some(value) => json_bool(value),
    }
}

/// The dates of a query as an array.
pub open spec fn dates_json(dates: Seq<GregorianScheduleDate>) -> JsonView {
    JsonView::Array(Seq::new(dates.len(), |i: int| date_json(dates[i])))
}

/// A query is an object with the members `roomId`, `dates`, `entries`,
/// `users`, `displayName`, `url` and `broadcast`.
pub open spec fn room_query_json(request: GetRoomPropertiesRequestView) -> JsonView {
    JsonView::Object(
        seq![
            ("roomId"@, room_id_json(request.room_id)),
            ("dates"@, dates_json(request.dates)),
            ("entries"@, JsonView::Boolean(request.entries)),
            ("users"@, JsonView::Boolean(request.users)),
            ("displayName"@, JsonView::Boolean(request.display_name)),
            ("url"@, JsonView::Boolean(request.url)),
            ("broadcast"@, JsonView::Boolean(request.broadcast)),
        ],
    )
}

/// The mask of a query: its five parts in the order `entries`, `users`,
/// `displayName`, `url`, `broadcast`.
pub open spec fn json_mask(tree: JsonView) -> Option<(bool, bool, bool, bool, bool)> {
    match (
        optional_bool(field(tree, "entries"@)),
        optional_bool(field(tree, "users"@)),
        optional_bool(field(tree, "displayName"@)),
        optional_bool(field(tree, "url"@)),
        optional_bool(field(tree, "broadcast"@)),
    ) {
        (Some(entries), Some(users), Some(display_name), Some(url), Some(broadcast)) => Some(
            (entries, users, display_name, url, broadcast),
        ),
        _ => None,
    }
}

/// The query that a document stands for.
pub open spec fn json_room_query(tree: JsonView) -> Option<GetRoomPropertiesRequestView> {
    match field(tree, "roomId"@) {
        Some(r) => match (json_room_id(r), optional_dates(field(tree, "dates"@)), json_mask(tree)) {
            (Some(room_id), Some(dates), Some(mask)) => Some(
                GetRoomPropertiesRequestView {
                    room_id,
                    dates,
                    entries: mask.0,
                    users: mask.1,
                    display_name: mask.2,
                    url: mask.3,
                    broadcast: mask.4,
                },
            ),
            _ => None,
        },
        None => None,
    }
}

/// The member names of a query differ from one another.
pub proof fn lemma_room_query_names()
    ensures
        "roomId"@ != "dates"@,
        "roomId"@ != "entries"@,
        "roomId"@ != "users"@,
        "roomId"@ != "displayName"@,
        "roomId"@ != "url"@,
        "roomId"@ != "broadcast"@,
        "dates"@ != "entries"@,
        "dates"@ != "users"@,
        "dates"@ != "displayName"@,
        "dates"@ != "url"@,
        "dates"@ != "broadcast"@,
        "entries"@ != "users"@,
        "entries"@ != "displayName"@,
        "entries"@ != "url"@,
        "entries"@ != "broadcast"@,
        "users"@ != "displayName"@,
        "users"@ != "url"@,
        "users"@ != "broadcast"@,
        "displayName"@ != "url"@,
        "displayName"@ != "broadcast"@,
        "url"@ != "broadcast"@,
{
    reveal_strlit("roomId");
    reveal_strlit("dates");
    reveal_strlit("entries");
    reveal_strlit("users");
    reveal_strlit("displayName");
    reveal_strlit("url");
    reveal_strlit("broadcast");
    assert("roomId"@.len() == 6);
    assert("dates"@.len() == 5);
    assert("entries"@.len() == 7);
    assert("users"@.len() == 5);
    assert("displayName"@.len() == 11);
    assert("url"@.len() == 3);
    assert("broadcast"@.len() == 9);
    assert("dates"@[0] == 'd');
    assert("users"@[0] == 'u');
}

/// Reads the dates of a query.
fn read_dates(found: Option<&Json>) -> (r: Option<Vec<GregorianScheduleDate>>)
    ensures
        view_of(r) == optional_dates(view_of(found)),
{
    match found {
        None => {
            let dates: Vec<GregorianScheduleDate> = Vec::new();
            assert(dates@ =~= Seq::empty());
            Some(dates)
        },
        Some(Json::Array(items)) => {
            proof {
                Json::lemma_array_view(*items);
            }
            let ghost all = found.unwrap()@->Array_0;
            let mut dates: Vec<GregorianScheduleDate> = Vec::new();
            let mut i: usize = 0;
            while i < items.len()
                invariant
                    i <= items.len(),
                    all.len() == items.len(),
                    view_of(found) == Some(JsonView::Array(all)),
                    forall|k: int| 0 <= k < items.len() ==> (#[trigger] all[k]) == items[k]@,
                    dates.len() == i,
                    forall|k: int| 0 <= k < i ==> (#[trigger] json_date(all[k])) == Some(dates[k]),
                decreases items.len() - i,
            {
                match GregorianScheduleDate::from_json(&items[i]) {
                    Some(date) => dates.push(date),
                    None => {
                        assert(json_date(all[i as int]) is None);
                        return None;
                    },
                }
                i += 1;
            }
            assert(dates@ =~= json_dates(all).unwrap());
            Some(dates)
        },
        Some(_) => None,
    }
}

/// The dates that a text stands for: it must be the JSON text of an array
/// of dates.
pub open spec fn dates_of_text(text: Seq<char>) -> Option<Seq<GregorianScheduleDate>> {
    match crate::json::parsed_json(text) {
        Some(JsonView::Array(items)) => json_dates(items),
        _ => None,
    }
}

/// Reads dates from the JSON text of an array of dates.
pub fn read_dates_text(text: &str) -> (r: Option<Vec<GregorianScheduleDate>>)
    ensures
        view_of(r) == dates_of_text(text@),
{
    match Json::parse(text) {
        Some(tree) => match tree {
            Json::Array(_) => read_dates(Some(&tree)),
            _ => None,
        },
        None => None,
    }
}

/// Reads one part of the mask of a query.
fn read_mask_bit(found: Option<&Json>) -> (r: Option<bool>)
    ensures
        r == optional_bool(view_of(found)),
{
    match found {
        None => Some(false),
        Some(value) => read_bool(value),
    }
}

/// Writes a list of dates.
fn write_dates(dates: &Vec<GregorianScheduleDate>) -> (tree: Json)
    ensures
        tree@ == dates_json(dates@),
        canonical(tree@),
{
    let mut items: Vec<Json> = Vec::new();
    let mut i: usize = 0;
    while i < dates.len()
        invariant
            i <= dates.len(),
            items.len() == i,
            forall|k: int| 0 <= k < i ==> (#[trigger] items[k])@ == date_json(dates[k]),
        decreases dates.len() - i,
    {
        items.push(dates[i].to_json());
        i += 1;
    }
    proof {
        Json::lemma_array_view(items);
        assert(Json::Array(items)@->Array_0 =~= dates_json(dates@)->Array_0);
        lemma_dates_json_canonical(dates@);
    }
    Json::Array(items)
}

/// A written list of dates can be printed as it stands.
pub proof fn lemma_dates_json_canonical(dates: Seq<GregorianScheduleDate>)
    ensures
        canonical(dates_json(dates)),
{
    let items = dates_json(dates)->Array_0;
    assert forall|i: int| 0 <= i < items.len() implies canonical(#[trigger] items[i]) by {
        lemma_date_json_canonical(dates[i]);
    }
    Json::lemma_array_canonical(items);
}

impl GetRoomPropertiesRequest {
    /// The JSON form of the value.
    pub fn to_json(&self) -> (tree: Json)
        ensures
            tree@ == room_query_json(self@),
            canonical(tree@),
    {
        let members = vec![
            Json::member("roomId", self.room_id.to_json()),
            Json::member("dates", write_dates(&self.dates)),
            Json::member("entries", Json::Boolean(self.entries)),
            Json::member("users", Json::Boolean(self.users)),
            Json::member("displayName", Json::Boolean(self.display_name)),
            Json::member("url", Json::Boolean(self.url)),
            Json::member("broadcast", Json::Boolean(self.broadcast)),
        ];
        proof {
            Json::lemma_object_view(members);
            assert(Json::Object(members)@->Object_0 =~= room_query_json(self@)->Object_0);
            lemma_room_query_json_canonical(self@);
        }
        Json::Object(members)
    }

    /// Reads the value from its JSON form. Gives `None` where the document is
    /// not of that form.
    pub fn from_json(tree: &Json) -> (r: Option<GetRoomPropertiesRequest>)
        ensures
            view_of(r) == json_room_query(tree@),
    {
        match tree.field("roomId") {
            Some(r) => {
                let room_id = RoomId::from_json(r);
                let dates = read_dates(tree.field("dates"));
                let entries = read_mask_bit(tree.field("entries"));
                let users = read_mask_bit(tree.field("users"));
                let display_name = read_mask_bit(tree.field("displayName"));
                let url = read_mask_bit(tree.field("url"));
                let broadcast = read_mask_bit(tree.field("broadcast"));
                match (room_id, dates, entries, users, display_name, url, broadcast) {
                    (
                        Some(room_id),
                        Some(dates),
                        Some(entries),
                        Some(users),
                        Some(display_name),
                        Some(url),
                        Some(broadcast),
                    ) => Some(
                        GetRoomPropertiesRequest {
                            room_id,
                            dates,
                            entries,
                            users,
                            display_name,
                            url,
                            broadcast,
                        },
                    ),
                    _ => None,
                }
            },
            None => None,
        }
    }
}

/// A written query can be printed as it stands.
pub proof fn lemma_room_query_json_canonical(request: GetRoomPropertiesRequestView)
    ensures
        canonical(room_query_json(request)),
{
    lemma_room_query_names();
    lemma_room_id_json_canonical(request.room_id);
    lemma_dates_json_canonical(request.dates);
    reveal_with_fuel(canonical, 2);
}

/// Whether every date of a query has month and day in their ranges and the
/// room identifier is well formed, as the written form demands.
pub open spec fn room_query_in_range(request: GetRoomPropertiesRequestView) -> bool {
    &&& request.room_id.well_formed()
    &&& forall|i: int| 0 <= i < request.dates.len() ==> (#[trigger] request.dates[i]).in_range()
}

/// Reading back a written query gives the query.
pub proof fn lemma_room_query_round_trip(request: GetRoomPropertiesRequestView)
    requires
        room_query_in_range(request),
    ensures
        json_room_query(room_query_json(request)) == Some(request),
{
    lemma_room_query_names();
    lemma_room_id_round_trip(request.room_id);
    reveal_with_fuel(find_from, 8);
    let items = dates_json(request.dates)->Array_0;
    assert forall|i: int| 0 <= i < items.len() implies (#[trigger] json_date(items[i])) == Some(
        request.dates[i],
    ) by {
        lemma_date_round_trip(request.dates[i]);
    }
    assert(json_dates(items).unwrap() =~= request.dates);
    let tree = room_query_json(request);
    assert(field(tree, "roomId"@) == Some(room_id_json(request.room_id)));
    assert(field(tree, "dates"@) == Some(dates_json(request.dates)));
    assert(field(tree, "entries"@) == Some(JsonView::Boolean(request.entries)));
    assert(field(tree, "users"@) == Some(JsonView::Boolean(request.users)));
    assert(field(tree, "displayName"@) == Some(JsonView::Boolean(request.display_name)));
    assert(field(tree, "url"@) == Some(JsonView::Boolean(request.url)));
    assert(field(tree, "broadcast"@) == Some(JsonView::Boolean(request.broadcast)));
}

/// An amount as stored: a number, or `null` where nothing is recorded.
pub open spec fn optional_amount_json(amount: Option<u32>) -> JsonView {
    match amount {
        Some(n) => JsonView::Integer(n as i64),
        None => JsonView::Null,
    }
}

/// A text that may be missing: `null` where it is.
pub open spec fn optional_text_json(text: Option<Seq<char>>) -> JsonView {
    match text {
        Some(value) => JsonView::Text(value),
        None => JsonView::Null,
    }
}

/// A row is an object with the members `user` and `amount`.
pub open spec fn output_entry_json(row: OutputEntryView) -> JsonView {
    JsonView::Object(
        seq![("user"@, JsonView::Text(row.user)), ("amount"@, optional_amount_json(row.amount))],
    )
}

/// The rows of a group as an array.
pub open spec fn rows_json(rows: Seq<OutputEntryView>) -> JsonView {
    JsonView::Array(Seq::new(rows.len(), |i: int| output_entry_json(rows[i])))
}

/// The users of a group as an array of strings.
pub open spec fn names_json(users: Seq<Seq<char>>) -> JsonView {
    JsonView::Array(Seq::new(users.len(), |i: int| JsonView::Text(users[i])))
}

/// A group of entries is a pair: the date, then the rows.
pub open spec fn entry_group_json(group: EntryGroupView) -> JsonView {
    JsonView::Array(seq![date_json(group.date), rows_json(group.entries)])
}

/// A group of users is a pair: the date, then the users.
pub open spec fn user_group_json(group: UserGroupView) -> JsonView {
    JsonView::Array(seq![date_json(group.date), names_json(group.users)])
}

/// The groups of entries of an answer, or `null` where the mask left them
/// out.
pub open spec fn entry_groups_json(groups: Option<Seq<EntryGroupView>>) -> JsonView {
    match groups {
        Some(all) => JsonView::Array(Seq::new(all.len(), |i: int| entry_group_json(all[i]))),
        None => JsonView::Null,
    }
}

/// The groups of users of an answer, or `null` where the mask left them
/// out.
pub open spec fn user_groups_json(groups: Option<Seq<UserGroupView>>) -> JsonView {
    match groups {
        Some(all) => JsonView::Array(Seq::new(all.len(), |i: int| user_group_json(all[i]))),
        None => JsonView::Null,
    }
}

/// An answer is an object with the members `roomId`, `entries`, `users`,
/// `displayName`, `url` and `broadcast`.
pub open spec fn room_response_json(response: GetRoomPropertiesResponseView) -> JsonView {
    JsonView::Object(
        seq![
            ("roomId"@, room_id_json(response.room_id)),
            ("entries"@, entry_groups_json(response.entries)),
            ("users"@, user_groups_json(response.users)),
            ("displayName"@, optional_text_json(response.display_name)),
            ("url"@, optional_text_json(response.url)),
            ("broadcast"@, optional_text_json(response.broadcast)),
        ],
    )
}

/// The two member names of a row differ.
pub proof fn lemma_output_entry_names()
    ensures
        "user"@ != "amount"@,
{
    reveal_strlit("user");
    reveal_strlit("amount");
    assert("user"@.len() == 4);
    assert("amount"@.len() == 6);
}

/// A written row can be printed as it stands.
pub proof fn lemma_output_entry_json_canonical(row: OutputEntryView)
    ensures
        canonical(output_entry_json(row)),
{
    lemma_output_entry_names();
    reveal_with_fuel(canonical, 2);
}

/// Written rows can be printed as they stand.
pub proof fn lemma_rows_json_canonical(rows: Seq<OutputEntryView>)
    ensures
        canonical(rows_json(rows)),
{
    let items = rows_json(rows)->Array_0;
    assert forall|i: int| 0 <= i < items.len() implies canonical(#[trigger] items[i]) by {
        lemma_output_entry_json_canonical(rows[i]);
    }
    Json::lemma_array_canonical(items);
}

/// Written users can be printed as they stand.
pub proof fn lemma_names_json_canonical(users: Seq<Seq<char>>)
    ensures
        canonical(names_json(users)),
{
    Json::lemma_array_canonical(names_json(users)->Array_0);
}

/// A written group of entries can be printed as it stands.
pub proof fn lemma_entry_group_json_canonical(group: EntryGroupView)
    ensures
        canonical(entry_group_json(group)),
{
    lemma_date_json_canonical(group.date);
    lemma_rows_json_canonical(group.entries);
    Json::lemma_array_canonical(entry_group_json(group)->Array_0);
}

/// A written group of users can be printed as it stands.
pub proof fn lemma_user_group_json_canonical(group: UserGroupView)
    ensures
        canonical(user_group_json(group)),
{
    lemma_date_json_canonical(group.date);
    lemma_names_json_canonical(group.users);
    Json::lemma_array_canonical(user_group_json(group)->Array_0);
}

/// A written answer can be printed as it stands.
pub proof fn lemma_room_response_json_canonical(response: GetRoomPropertiesResponseView)
    ensures
        canonical(room_response_json(response)),
{
    lemma_room_query_names();
    lemma_room_id_json_canonical(response.room_id);
    if response.entries is Some {
        let items = entry_groups_json(response.entries)->Array_0;
        assert forall|i: int| 0 <= i < items.len() implies canonical(#[trigger] items[i]) by {
            lemma_entry_group_json_canonical(response.entries.unwrap()[i]);
        }
        Json::lemma_array_canonical(items);
    }
    if response.users is Some {
        let items = user_groups_json(response.users)->Array_0;
        assert forall|i: int| 0 <= i < items.len() implies canonical(#[trigger] items[i]) by {
            lemma_user_group_json_canonical(response.users.unwrap()[i]);
        }
        Json::lemma_array_canonical(items);
    }
    reveal_with_fuel(canonical, 2);
}

/// Writes a text that may be missing.
fn write_optional_text(text: &Option<String>) -> (tree: Json)
    ensures
        tree@ == optional_text_json(view_of(*text)),
{
    match text {
        Some(value) => Json::Text(value.clone()),
        None => Json::Null,
    }
}

impl OutputEntry {
    /// The JSON form of the value.
    pub fn to_json(&self) -> (tree: Json)
        ensures
            tree@ == output_entry_json(self@),
    {
        let amount = match self.amount {
            Some(n) => Json::Integer(n as i64),
            None => Json::Null,
        };
        let members = vec![
            Json::member("user", Json::Text(self.user.clone())),
            Json::member("amount", amount),
        ];
        proof {
            Json::lemma_object_view(members);
            assert(Json::Object(members)@->Object_0 =~= output_entry_json(self@)->Object_0);
        }
        Json::Object(members)
    }
}

/// Writes a pair of a date and a list.
fn write_pair(date: GregorianScheduleDate, list: Json) -> (tree: Json)
    ensures
        tree@ == JsonView::Array(seq![date_json(date), list@]),
{
    let items = vec![date.to_json(), list];
    proof {
        Json::lemma_array_view(items);
        assert(Json::Array(items)@->Array_0 =~= seq![date_json(date), list@]);
    }
    Json::Array(items)
}

impl EntryGroup {
    /// The JSON form of the value.
    pub fn to_json(&self) -> (tree: Json)
        ensures
            tree@ == entry_group_json(self@),
    {
        let mut rows: Vec<Json> = Vec::new();
        let mut i: usize = 0;
        while i < self.entries.len()
            invariant
                i <= self.entries.len(),
                rows.len() == i,
                forall|k: int|
                    0 <= k < i ==> (#[trigger] rows[k])@ == output_entry_json(self.entries[k]@),
            decreases self.entries.len() - i,
        {
            rows.push(self.entries[i].to_json());
            i += 1;
        }
        proof {
            Json::lemma_array_view(rows);
            assert(Json::Array(rows)@->Array_0 =~= rows_json(self@.entries)->Array_0);
        }
        write_pair(self.date, Json::Array(rows))
    }
}

impl UserGroup {
    /// The JSON form of the value.
    pub fn to_json(&self) -> (tree: Json)
        ensures
            tree@ == user_group_json(self@),
    {
        let mut names: Vec<Json> = Vec::new();
        let mut i: usize = 0;
        while i < self.users.len()
            invariant
                i <= self.users.len(),
                names.len() == i,
                forall|k: int|
                    0 <= k < i ==> (#[trigger] names[k])@ == JsonView::Text(self.users[k]@),
            decreases self.users.len() - i,
        {
            names.push(Json::Text(self.users[i].clone()));
            i += 1;
        }
        proof {
            Json::lemma_array_view(names);
            assert(Json::Array(names)@->Array_0 =~= names_json(self@.users)->Array_0);
        }
        write_pair(self.date, Json::Array(names))
    }
}

/// Writes the groups of entries of an answer.
fn write_entry_groups(groups: &Option<Vec<EntryGroup>>) -> (tree: Json)
    ensures
        tree@ == entry_groups_json(
            match *groups {
                Some(all) => Some(views_of(all@)),
                None => None,
            },
        ),
{
    match groups {
        Some(all) => {
            let mut items: Vec<Json> = Vec::new();
            let mut i: usize = 0;
            while i < all.len()
                invariant
                    i <= all.len(),
                    items.len() == i,
                    forall|k: int|
                        0 <= k < i ==> (#[trigger] items[k])@ == entry_group_json(all[k]@),
                decreases all.len() - i,
            {
                items.push(all[i].to_json());
                i += 1;
            }
            proof {
                Json::lemma_array_view(items);
                assert(Json::Array(items)@->Array_0 =~= entry_groups_json(
                    Some(views_of(all@)),
                )->Array_0);
            }
            Json::Array(items)
        },
        None => Json::Null,
    }
}

/// Writes the groups of users of an answer.
fn write_user_groups(groups: &Option<Vec<UserGroup>>) -> (tree: Json)
    ensures
        tree@ == user_groups_json(
            match *groups {
                Some(all) => Some(views_of(all@)),
                None => None,
            },
        ),
{
    match groups {
        Some(all) => {
            let mut items: Vec<Json> = Vec::new();
            let mut i: usize = 0;
            while i < all.len()
                invariant
                    i <= all.len(),
                    items.len() == i,
                    forall|k: int|
                        0 <= k < i ==> (#[trigger] items[k])@ == user_group_json(all[k]@),
                decreases all.len() - i,
            {
                items.push(all[i].to_json());
                i += 1;
            }
            proof {
                Json::lemma_array_view(items);
                assert(Json::Array(items)@->Array_0 =~= user_groups_json(
                    Some(views_of(all@)),
                )->Array_0);
            }
            Json::Array(items)
        },
        None => Json::Null,
    }
}

impl GetRoomPropertiesResponse {
    /// The JSON form of the value.
    pub fn to_json(&self) -> (tree: Json)
        ensures
            tree@ == room_response_json(self@),
            canonical(tree@),
    {
        let members = vec![
            Json::member("roomId", self.room_id.to_json()),
            Json::member("entries", write_entry_groups(&self.entries)),
            Json::member("users", write_user_groups(&self.users)),
            Json::member("displayName", write_optional_text(&self.display_name)),
            Json::member("url", write_optional_text(&self.url)),
            Json::member("broadcast", write_optional_text(&self.broadcast)),
        ];
        proof {
            Json::lemma_object_view(members);
            assert(Json::Object(members)@->Object_0 =~= room_response_json(self@)->Object_0);
            lemma_room_response_json_canonical(self@);
        }
        Json::Object(members)
    }

    /// The text of the answer.
    pub fn to_text(&self) -> (text: String)
        ensures
            text@ == crate::json::printed_json(room_response_json(self@)),
    {
        self.to_json().print()
    }
}

/// A text of an answer: none where the member is missing or `null`, else
/// the member must be a string.
pub open spec fn optional_text(found: Option<JsonView>) -> Option<Option<Seq<char>>> {
    match found {
        None => Some(None),
        Some(JsonView::Null) => Some(None),
        Some(JsonView::Text(text)) => Some(Some(text)),
        Some(_) => None,
    }
}

/// The amount of a row: none where the member is missing or `null`, else
/// the member must be an integer that fits `u32`.
pub open spec fn optional_amount(found: Option<JsonView>) -> Option<Option<u32>> {
    match found {
        None => Some(None),
        Some(JsonView::Null) => Some(None),
        Some(value) => match crate::wire::json_u32(value) {
            Some(n) => Some(Some(n)),
            None => None,
        },
    }
}

/// The row that a document stands for.
pub open spec fn json_output_entry(tree: JsonView) -> Option<OutputEntryView> {
    match (field(tree, "user"@), optional_amount(field(tree, "amount"@))) {
        (Some(JsonView::Text(user)), Some(amount)) => Some(OutputEntryView { user, amount }),
        _ => None,
    }
}

/// The rows that a list of documents stands for: each must be a row.
pub open spec fn json_rows(items: Seq<JsonView>) -> Option<Seq<OutputEntryView>> {
    if forall|i: int| 0 <= i < items.len() ==> (#[trigger] json_output_entry(items[i])) is Some {
        Some(Seq::new(items.len(), |i: int| json_output_entry(items[i]).unwrap()))
    } else {
        None
    }
}

/// The users that a list of documents stands for: each must be a string.
pub open spec fn json_names(items: Seq<JsonView>) -> Option<Seq<Seq<char>>> {
    if forall|i: int| 0 <= i < items.len() ==> (#[trigger] items[i]) is Text {
        Some(Seq::new(items.len(), |i: int| items[i]->Text_0))
    } else {
        None
    }
}

/// The date and the list of a pair: an array of a date and an array.
pub open spec fn json_pair(tree: JsonView) -> Option<(GregorianScheduleDate, Seq<JsonView>)> {
    match tree {
        JsonView::Array(parts) => if parts.len() == 2 {
            match (json_date(parts[0]), parts[1]) {
                (Some(date), JsonView::Array(items)) => Some((date, items)),
                _ => None,
            }
        } else {
            None
        },
        _ => None,
    }
}

/// The group of entries that a document stands for.
pub open spec fn json_entry_group(tree: JsonView) -> Option<EntryGroupView> {
    match json_pair(tree) {
        Some((date, items)) => match json_rows(items) {
            Some(entries) => Some(EntryGroupView { date, entries }),
            None => None,
        },
        None => None,
    }
}

/// The group of users that a document stands for.
pub open spec fn json_user_group(tree: JsonView) -> Option<UserGroupView> {
    match json_pair(tree) {
        Some((date, items)) => match json_names(items) {
            Some(users) => Some(UserGroupView { date, users }),
            None => None,
        },
        None => None,
    }
}

/// The groups of entries of an answer: none where the member is missing or
/// `null`, else the member must be an array of groups.
pub open spec fn optional_entry_groups(found: Option<JsonView>) -> Option<
    Option<Seq<EntryGroupView>>,
> {
    match found {
        None => Some(None),
        Some(JsonView::Null) => Some(None),
        Some(JsonView::Array(items)) => if forall|i: int|
            0 <= i < items.len() ==> (#[trigger] json_entry_group(items[i])) is Some {
            Some(Some(Seq::new(items.len(), |i: int| json_entry_group(items[i]).unwrap())))
        } else {
            None
        },
        Some(_) => None,
    }
}

/// The groups of users of an answer: none where the member is missing or
/// `null`, else the member must be an array of groups.
pub open spec fn optional_user_groups(found: Option<JsonView>) -> Option<
    Option<Seq<UserGroupView>>,
> {
    match found {
        None => Some(None),
        Some(JsonView::Null) => Some(None),
        Some(JsonView::Array(items)) => if forall|i: int|
            0 <= i < items.len() ==> (#[trigger] json_user_group(items[i])) is Some {
            Some(Some(Seq::new(items.len(), |i: int| json_user_group(items[i]).unwrap())))
        } else {
            None
        },
        Some(_) => None,
    }
}

/// The three texts of an answer, in the order `displayName`, `url`,
/// `broadcast`.
pub open spec fn json_room_texts(tree: JsonView) -> Option<
    (Option<Seq<char>>, Option<Seq<char>>, Option<Seq<char>>),
> {
    match (
        optional_text(field(tree, "displayName"@)),
        optional_text(field(tree, "url"@)),
        optional_text(field(tree, "broadcast"@)),
    ) {
        (Some(display_name), Some(url), Some(broadcast)) => Some((display_name, url, broadcast)),
        _ => None,
    }
}

/// The answer that a document stands for: `roomId` must be there.
pub open spec fn json_room_response(tree: JsonView) -> Option<GetRoomPropertiesResponseView> {
    match field(tree, "roomId"@) {
        Some(r) => match (
            json_room_id(r),
            optional_entry_groups(field(tree, "entries"@)),
            optional_user_groups(field(tree, "users"@)),
            json_room_texts(tree),
        ) {
            (Some(room_id), Some(entries), Some(users), Some(texts)) => Some(
                GetRoomPropertiesResponseView {
                    room_id,
                    entries,
                    users,
                    display_name: texts.0,
                    url: texts.1,
                    broadcast: texts.2,
                },
            ),
            _ => None,
        },
        None => None,
    }
}

/// Reads a text of an answer.
fn read_optional_text(found: Option<&Json>) -> (r: Option<Option<String>>)
    ensures
        match r {
            Some(text) => optional_text(view_of(found)) == Some(view_of(text)),
            None => optional_text(view_of(found)) is None,
        },
{
    match found {
        None => Some(None),
        Some(Json::Null) => Some(None),
        Some(Json::Text(text)) => Some(Some(text.clone())),
        Some(_) => None,
    }
}

impl OutputEntry {
    /// Reads the value from its JSON form. Gives `None` where the document is
    /// not of that form.
    pub fn from_json(tree: &Json) -> (r: Option<OutputEntry>)
        ensures
            view_of(r) == json_output_entry(tree@),
    {
        let amount = match tree.field("amount") {
            None => Some(None),
            Some(Json::Null) => Some(None),
            Some(value) => match crate::wire::read_u32(value) {
                Some(n) => Some(Some(n)),
                None => None,
            },
        };
        match (tree.field("user"), amount) {
            (Some(Json::Text(user)), Some(amount)) => Some(
                OutputEntry { user: user.clone(), amount },
            ),
            _ => None,
        }
    }
}

/// The date and the list of a pair.
fn read_pair(tree: &Json) -> (r: Option<(GregorianScheduleDate, &Vec<Json>)>)
    ensures
        match r {
            Some((date, items)) => json_pair(tree@) == Some((date, Json::Array(*items)@->Array_0)),
            None => json_pair(tree@) is None,
        },
{
    match tree {
        Json::Array(parts) => {
            proof {
                Json::lemma_array_view(*parts);
            }
            if parts.len() == 2 {
                match (GregorianScheduleDate::from_json(&parts[0]), &parts[1]) {
                    (Some(date), Json::Array(items)) => Some((date, items)),
                    _ => None,
                }
            } else {
                None
            }
        },
        _ => None,
    }
}

impl EntryGroup {
    /// Reads the value from its JSON form. Gives `None` where the document is
    /// not of that form.
    pub fn from_json(tree: &Json) -> (r: Option<EntryGroup>)
        ensures
            view_of(r) == json_entry_group(tree@),
    {
        match read_pair(tree) {
            Some((date, items)) => {
                proof {
                    Json::lemma_array_view(*items);
                }
                let ghost all = Json::Array(*items)@->Array_0;
                let mut entries: Vec<OutputEntry> = Vec::new();
                let mut i: usize = 0;
                while i < items.len()
                    invariant
                        i <= items.len(),
                        all.len() == items.len(),
                        json_pair(tree@) == Some((date, all)),
                        forall|k: int| 0 <= k < items.len() ==> (#[trigger] all[k]) == items[k]@,
                        entries.len() == i,
                        forall|k: int|
                            0 <= k < i ==> (#[trigger] json_output_entry(all[k])) == Some(
                                entries[k]@,
                            ),
                    decreases items.len() - i,
                {
                    match OutputEntry::from_json(&items[i]) {
                        Some(row) => entries.push(row),
                        None => {
                            assert(json_output_entry(all[i as int]) is None);
                            return None;
                        },
                    }
                    i += 1;
                }
                assert(views_of(entries@) =~= json_rows(all).unwrap());
                Some(EntryGroup { date, entries })
            },
            None => None,
        }
    }
}

impl UserGroup {
    /// Reads the value from its JSON form. Gives `None` where the document is
    /// not of that form.
    pub fn from_json(tree: &Json) -> (r: Option<UserGroup>)
        ensures
            view_of(r) == json_user_group(tree@),
    {
        match read_pair(tree) {
            Some((date, items)) => {
                proof {
                    Json::lemma_array_view(*items);
                }
                let ghost all = Json::Array(*items)@->Array_0;
                let mut users: Vec<String> = Vec::new();
                let mut i: usize = 0;
                while i < items.len()
                    invariant
                        i <= items.len(),
                        all.len() == items.len(),
                        json_pair(tree@) == Some((date, all)),
                        forall|k: int| 0 <= k < items.len() ==> (#[trigger] all[k]) == items[k]@,
                        users.len() == i,
                        forall|k: int|
                            0 <= k < i ==> (#[trigger] all[k]) == JsonView::Text(users[k]@),
                    decreases items.len() - i,
                {
                    match &items[i] {
                        Json::Text(user) => users.push(user.clone()),
                        _ => {
                            assert(!(all[i as int] is Text));
                            return None;
                        },
                    }
                    i += 1;
                }
                assert(views_of(users@) =~= json_names(all).unwrap());
                Some(UserGroup { date, users })
            },
            None => None,
        }
    }
}

/// Reads the groups of entries of an answer.
fn read_entry_groups(found: Option<&Json>) -> (r: Option<Option<Vec<EntryGroup>>>)
    ensures
        match r {
            Some(Some(groups)) => optional_entry_groups(view_of(found)) == Some(
                Some(views_of(groups@)),
            ),
            Some(None) => optional_entry_groups(view_of(found)) == Some(
                None::<Seq<EntryGroupView>>,
            ),
            None => optional_entry_groups(view_of(found)) is None,
        },
{
    match found {
        None => Some(None),
        Some(Json::Null) => Some(None),
        Some(Json::Array(items)) => {
            proof {
                Json::lemma_array_view(*items);
            }
            let ghost all = found.unwrap()@->Array_0;
            let mut groups: Vec<EntryGroup> = Vec::new();
            let mut i: usize = 0;
            while i < items.len()
                invariant
                    i <= items.len(),
                    all.len() == items.len(),
                    view_of(found) == Some(JsonView::Array(all)),
                    forall|k: int| 0 <= k < items.len() ==> (#[trigger] all[k]) == items[k]@,
                    groups.len() == i,
                    forall|k: int|
                        0 <= k < i ==> (#[trigger] json_entry_group(all[k])) == Some(groups[k]@),
                decreases items.len() - i,
            {
                match EntryGroup::from_json(&items[i]) {
                    Some(group) => groups.push(group),
                    None => {
                        assert(json_entry_group(all[i as int]) is None);
                        return None;
                    },
                }
                i += 1;
            }
            assert(views_of(groups@) =~= optional_entry_groups(view_of(found)).unwrap().unwrap());
            Some(Some(groups))
        },
        Some(_) => None,
    }
}

/// Reads the groups of users of an answer.
fn read_user_groups(found: Option<&Json>) -> (r: Option<Option<Vec<UserGroup>>>)
    ensures
        match r {
            Some(Some(groups)) => optional_user_groups(view_of(found)) == Some(
                Some(views_of(groups@)),
            ),
            Some(None) => optional_user_groups(view_of(found)) == Some(None::<Seq<UserGroupView>>),
            None => optional_user_groups(view_of(found)) is None,
        },
{
    match found {
        None => Some(None),
        Some(Json::Null) => Some(None),
        Some(Json::Array(items)) => {
            proof {
                Json::lemma_array_view(*items);
            }
            let ghost all = found.unwrap()@->Array_0;
            let mut groups: Vec<UserGroup> = Vec::new();
            let mut i: usize = 0;
            while i < items.len()
                invariant
                    i <= items.len(),
                    all.len() == items.len(),
                    view_of(found) == Some(JsonView::Array(all)),
                    forall|k: int| 0 <= k < items.len() ==> (#[trigger] all[k]) == items[k]@,
                    groups.len() == i,
                    forall|k: int|
                        0 <= k < i ==> (#[trigger] json_user_group(all[k])) == Some(groups[k]@),
                decreases items.len() - i,
            {
                match UserGroup::from_json(&items[i]) {
                    Some(group) => groups.push(group),
                    None => {
                        assert(json_user_group(all[i as int]) is None);
                        return None;
                    },
                }
                i += 1;
            }
            assert(views_of(groups@) =~= optional_user_groups(view_of(found)).unwrap().unwrap());
            Some(Some(groups))
        },
        Some(_) => None,
    }
}

impl GetRoomPropertiesResponse {
    /// Reads the value from its JSON form. Gives `None` where the document is
    /// not of that form.
    pub fn from_json(tree: &Json) -> (r: Option<GetRoomPropertiesResponse>)
        ensures
            view_of(r) == json_room_response(tree@),
    {
        match tree.field("roomId") {
            Some(r) => {
                let room_id = RoomId::from_json(r);
                let entries = read_entry_groups(tree.field("entries"));
                let users = read_user_groups(tree.field("users"));
                let display_name = read_optional_text(tree.field("displayName"));
                let url = read_optional_text(tree.field("url"));
                let broadcast = read_optional_text(tree.field("broadcast"));
                match (room_id, entries, users, display_name, url, broadcast) {
                    (
                        Some(room_id),
                        Some(entries),
                        Some(users),
                        Some(display_name),
                        Some(url),
                        Some(broadcast),
                    ) => Some(
                        GetRoomPropertiesResponse {
                            room_id,
                            entries,
                            users,
                            display_name,
                            url,
                            broadcast,
                        },
                    ),
                    _ => None,
                }
            },
            None => None,
        }
    }
}

/// Reading back a written row gives the row.
pub proof fn lemma_output_entry_round_trip(row: OutputEntryView)
    ensures
        json_output_entry(output_entry_json(row)) == Some(row),
{
    lemma_output_entry_names();
    reveal_with_fuel(find_from, 3);
}

/// Reading back a written group of entries gives the group.
pub proof fn lemma_entry_group_round_trip(group: EntryGroupView)
    requires
        group.date.in_range(),
    ensures
        json_entry_group(entry_group_json(group)) == Some(group),
{
    lemma_date_round_trip(group.date);
    let items = rows_json(group.entries)->Array_0;
    assert forall|i: int| 0 <= i < items.len() implies (#[trigger] json_output_entry(items[i]))
        == Some(group.entries[i]) by {
        lemma_output_entry_round_trip(group.entries[i]);
    }
    assert(json_rows(items).unwrap() =~= group.entries);
}

/// Reading back a written group of users gives the group.
pub proof fn lemma_user_group_round_trip(group: UserGroupView)
    requires
        group.date.in_range(),
    ensures
        json_user_group(user_group_json(group)) == Some(group),
{
    lemma_date_round_trip(group.date);
    let items = names_json(group.users)->Array_0;
    assert(json_names(items).unwrap() =~= group.users);
}

/// Whether every group of an answer has month and day of its date in their
/// ranges and the room identifier is well formed, as the written form
/// demands.
pub open spec fn room_response_in_range(response: GetRoomPropertiesResponseView) -> bool {
    &&& response.room_id.well_formed()
    &&& response.entries matches Some(groups) ==> forall|i: int|
        0 <= i < groups.len() ==> (#[trigger] groups[i]).date.in_range()
    &&& response.users matches Some(groups) ==> forall|i: int|
        0 <= i < groups.len() ==> (#[trigger] groups[i]).date.in_range()
}

/// Reading back a written answer gives the answer.
pub proof fn lemma_room_response_round_trip(response: GetRoomPropertiesResponseView)
    requires
        room_response_in_range(response),
    ensures
        json_room_response(room_response_json(response)) == Some(response),
{
    lemma_room_query_names();
    lemma_room_id_round_trip(response.room_id);
    reveal_with_fuel(find_from, 8);
    let tree = room_response_json(response);
    assert(field(tree, "roomId"@) == Some(room_id_json(response.room_id)));
    assert(field(tree, "entries"@) == Some(entry_groups_json(response.entries)));
    assert(field(tree, "users"@) == Some(user_groups_json(response.users)));
    assert(field(tree, "displayName"@) == Some(optional_text_json(response.display_name)));
    assert(field(tree, "url"@) == Some(optional_text_json(response.url)));
    assert(field(tree, "broadcast"@) == Some(optional_text_json(response.broadcast)));
    if response.entries is Some {
        let groups = response.entries.unwrap();
        let items = entry_groups_json(response.entries)->Array_0;
        assert forall|i: int| 0 <= i < items.len() implies (#[trigger] json_entry_group(
            items[i],
        )) == Some(groups[i]) by {
            lemma_entry_group_round_trip(groups[i]);
        }
        assert(optional_entry_groups(Some(entry_groups_json(response.entries))).unwrap().unwrap()
            =~= groups);
    }
    if response.users is Some {
        let groups = response.users.unwrap();
        let items = user_groups_json(response.users)->Array_0;
        assert forall|i: int| 0 <= i < items.len() implies (#[trigger] json_user_group(items[i]))
            == Some(groups[i]) by {
            lemma_user_group_round_trip(groups[i]);
        }
        assert(optional_user_groups(Some(user_groups_json(response.users))).unwrap().unwrap()
            =~= groups);
    }
}

} // verus!
