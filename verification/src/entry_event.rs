//! The messages of the persistent channel and their JSON frames.
//!
//! A frame is one JSON document. A request or response with a body is an
//! object with a single member, named after the variant in lower camel case;
//! the response without a body is the bare string `"connectionEstablished"`.

use vstd::prelude::*;

use crate::json::{
    canonical, field, find_from, lemma_tagged_canonical, lemma_tagged_field, printed_json, tag,
    tag_of, tagged, text_is, untag, Json, JsonView,
};
use crate::schemes::{Entry, EntryData, EntryKey, EntryKeyView, EntryView};
use crate::views::view_of;
use crate::wire::{
    entry_data_json, entry_json, entry_key_json, json_entry, json_entry_data, json_entry_key,
    lemma_entry_data_json_canonical, lemma_entry_data_round_trip, lemma_entry_json_canonical,
    lemma_entry_key_json_canonical, lemma_entry_key_round_trip, lemma_entry_round_trip,
};

pub mod request;
pub mod response;

verus! {

/// What a client may ask for.
#[derive(Debug, PartialEq, Eq)]
pub enum Request {
    GetEntryData(request::GetEntryData),
    UpdateEntry(request::UpdateEntry),
}

/// What a [`Request`] holds, as contracts speak of it.
pub enum RequestView {
    GetEntryData(EntryKeyView),
    UpdateEntry(EntryView),
}

impl View for Request {
    type V = RequestView;

    open spec fn view(&self) -> RequestView {
        match self {
            Request::GetEntryData(body) => RequestView::GetEntryData(body@),
            Request::UpdateEntry(body) => RequestView::UpdateEntry(body@),
        }
    }
}

impl Clone for Request {
    fn clone(&self) -> (copy: Request)
        ensures
            copy@ == self@,
    {
        match self {
            Request::GetEntryData(body) => Request::GetEntryData(body.clone()),
            Request::UpdateEntry(body) => Request::UpdateEntry(body.clone()),
        }
    }
}

/// The frame of a request.
pub open spec fn request_json(request: RequestView) -> JsonView {
    match request {
        RequestView::GetEntryData(key) => tagged(
            "getEntryData"@,
            tagged("entryKey"@, entry_key_json(key)),
        ),
        RequestView::UpdateEntry(entry) => tagged(
            "updateEntry"@,
            tagged("entry"@, entry_json(entry)),
        ),
    }
}

/// The request that a frame stands for: an object with a single member,
/// named `getEntryData` with a body that has the key under `entryKey`, or
/// named `updateEntry` with a body that has the entry under `entry`.
pub open spec fn json_request(tree: JsonView) -> Option<RequestView> {
    match tag_of(tree) {
        Some((name, body)) => if name == "getEntryData"@ {
            match field(body, "entryKey"@) {
                Some(k) => match json_entry_key(k) {
                    Some(key) => Some(RequestView::GetEntryData(key)),
                    None => None,
                },
                None => None,
            }
        } else if name == "updateEntry"@ {
            match field(body, "entry"@) {
                Some(e) => match json_entry(e) {
                    Some(entry) => Some(RequestView::UpdateEntry(entry)),
                    None => None,
                },
                None => None,
            }
        } else {
            None
        },
        None => None,
    }
}

/// The names of the variants differ from one another.
pub proof fn lemma_variant_names()
    ensures
        "getEntryData"@ != "updateEntry"@,
{
    reveal_strlit("getEntryData");
    reveal_strlit("updateEntry");
    assert("getEntryData"@.len() == 12);
    assert("updateEntry"@.len() == 11);
}

impl Request {
    /// The JSON form of the value.
    pub fn to_json(&self) -> (tree: Json)
        ensures
            tree@ == request_json(self@),
            canonical(tree@),
    {
        proof {
            lemma_request_json_canonical(self@);
        }
        match self {
            Request::GetEntryData(body) => tag(
                "getEntryData",
                tag("entryKey", body.entry_key.to_json()),
            ),
            Request::UpdateEntry(body) => tag("updateEntry", tag("entry", body.entry.to_json())),
        }
    }

    /// Reads the value from its JSON form. Gives `None` where the document is
    /// not of that form.
    pub fn from_json(tree: &Json) -> (r: Option<Request>)
        ensures
            view_of(r) == json_request(tree@),
    {
        match untag(tree) {
            Some((name, body)) => {
                if text_is(name, "getEntryData") {
                    match body.field("entryKey") {
                        Some(k) => match EntryKey::from_json(k) {
                            Some(entry_key) => Some(
                                Request::GetEntryData(request::GetEntryData { entry_key }),
                            ),
                            None => None,
                        },
                        None => None,
                    }
                } else if text_is(name, "updateEntry") {
                    match body.field("entry") {
                        Some(e) => match Entry::from_json(e) {
                            Some(entry) => Some(Request::UpdateEntry(request::UpdateEntry { entry })),
                            None => None,
                        },
                        None => None,
                    }
                } else {
                    None
                }
            },
            None => None,
        }
    }

    /// The text of the frame that carries this request.
    pub fn to_text(&self) -> (text: String)
        ensures
            text@ == printed_json(request_json(self@)),
    {
        self.to_json().print()
    }
}

/// The frame of a request can be printed as it stands.
pub proof fn lemma_request_json_canonical(request: RequestView)
    ensures
        canonical(request_json(request)),
{
    match request {
        RequestView::GetEntryData(key) => {
            lemma_entry_key_json_canonical(key);
            lemma_tagged_canonical("entryKey"@, entry_key_json(key));
            lemma_tagged_canonical("getEntryData"@, tagged("entryKey"@, entry_key_json(key)));
        },
        RequestView::UpdateEntry(entry) => {
            lemma_entry_json_canonical(entry);
            lemma_tagged_canonical("entry"@, entry_json(entry));
            lemma_tagged_canonical("updateEntry"@, tagged("entry"@, entry_json(entry)));
        },
    }
}

/// Whether the dates of a request lie in their ranges and its room
/// identifier is well formed, as the frame of a request demands.
pub open spec fn request_in_range(request: RequestView) -> bool {
    match request {
        RequestView::GetEntryData(key) => key.schedule_date.in_range() && key.room_id.well_formed(),
        RequestView::UpdateEntry(entry) => entry.id.schedule_date.in_range()
            && entry.id.room_id.well_formed(),
    }
}

/// Reading back the frame of a request gives the request.
pub proof fn lemma_request_round_trip(request: RequestView)
    requires
        request_in_range(request),
    ensures
        json_request(request_json(request)) == Some(request),
{
    lemma_variant_names();
    match request {
        RequestView::GetEntryData(key) => {
            lemma_entry_key_round_trip(key);
            lemma_tagged_field("entryKey"@, entry_key_json(key));
            lemma_tagged_field("getEntryData"@, tagged("entryKey"@, entry_key_json(key)));
        },
        RequestView::UpdateEntry(entry) => {
            lemma_entry_round_trip(entry);
            lemma_tagged_field("entry"@, entry_json(entry));
            lemma_tagged_field("updateEntry"@, tagged("entry"@, entry_json(entry)));
        },
    }
}

/// What the server sends.
#[derive(Debug, PartialEq, Eq)]
pub enum Response {
    ConnectionEstablished,
    GetEntryData(response::GetEntryData),
    UpdateEntry(response::UpdateEntry),
}

/// What a [`Response`] holds, as contracts speak of it.
pub enum ResponseView {
    ConnectionEstablished,
    GetEntryData(response::GetEntryDataView),
    UpdateEntry(EntryView),
}

impl View for Response {
    type V = ResponseView;

    open spec fn view(&self) -> ResponseView {
        match self {
            Response::ConnectionEstablished => ResponseView::ConnectionEstablished,
            Response::GetEntryData(body) => ResponseView::GetEntryData(body@),
            Response::UpdateEntry(body) => ResponseView::UpdateEntry(body@),
        }
    }
}

impl Clone for Response {
    fn clone(&self) -> (copy: Response)
        ensures
            copy@ == self@,
    {
        match self {
            Response::ConnectionEstablished => Response::ConnectionEstablished,
            Response::GetEntryData(body) => Response::GetEntryData(body.clone()),
            Response::UpdateEntry(body) => Response::UpdateEntry(body.clone()),
        }
    }
}

/// A value that may be missing: `null` where it is.
pub open spec fn optional_data_json(data: Option<EntryData>) -> JsonView {
    match data {
        Some(value) => entry_data_json(value),
        None => JsonView::Null,
    }
}

/// The body of the answer to a request for one entry.
pub open spec fn found_json(found: response::GetEntryDataView) -> JsonView {
    JsonView::Object(
        seq![
            ("entryKey"@, entry_key_json(found.entry_key)),
            ("entryData"@, optional_data_json(found.entry_data)),
        ],
    )
}

/// The answer that a body stands for: it needs the key under `entryKey`;
/// `entryData` may be missing or `null`, which both mean no value.
pub open spec fn json_found(tree: JsonView) -> Option<response::GetEntryDataView> {
    match field(tree, "entryKey"@) {
        Some(k) => match json_entry_key(k) {
            Some(entry_key) => match field(tree, "entryData"@) {
                None => Some(response::GetEntryDataView { entry_key, entry_data: None }),
                Some(JsonView::Null) => Some(
                    response::GetEntryDataView { entry_key, entry_data: None },
                ),
                Some(d) => match json_entry_data(d) {
                    Some(data) => Some(
                        response::GetEntryDataView { entry_key, entry_data: Some(data) },
                    ),
                    None => None,
                },
            },
            None => None,
        },
        None => None,
    }
}

/// The frame of a response.
pub open spec fn response_json(response: ResponseView) -> JsonView {
    match response {
        ResponseView::ConnectionEstablished => JsonView::Text("connectionEstablished"@),
        ResponseView::GetEntryData(found) => tagged("getEntryData"@, found_json(found)),
        ResponseView::UpdateEntry(entry) => tagged("updateEntry"@, entry_json(entry)),
    }
}

/// The response that a frame stands for: the string
/// `connectionEstablished`, or an object with a single member, named
/// `getEntryData` or `updateEntry`, whose body is of the variant's form.
pub open spec fn json_response(tree: JsonView) -> Option<ResponseView> {
    match tree {
        JsonView::Text(text) => if text == "connectionEstablished"@ {
            Some(ResponseView::ConnectionEstablished)
        } else {
            None
        },
        _ => match tag_of(tree) {
            Some((name, body)) => if name == "getEntryData"@ {
                match json_found(body) {
                    Some(found) => Some(ResponseView::GetEntryData(found)),
                    None => None,
                }
            } else if name == "updateEntry"@ {
                match json_entry(body) {
                    Some(entry) => Some(ResponseView::UpdateEntry(entry)),
                    None => None,
                }
            } else {
                None
            },
            None => None,
        },
    }
}

/// The two member names of an answer differ.
pub proof fn lemma_found_names()
    ensures
        "entryKey"@ != "entryData"@,
{
    reveal_strlit("entryKey");
    reveal_strlit("entryData");
    assert("entryKey"@.len() == 8);
    assert("entryData"@.len() == 9);
}

impl response::GetEntryData {
    /// The JSON form of the value.
    pub fn to_json(&self) -> (tree: Json)
        ensures
            tree@ == found_json(self@),
            canonical(tree@),
    {
        let data = match self.entry_data() {
            Some(value) => value.to_json(),
            None => Json::Null,
        };
        let members = vec![
            Json::member("entryKey", self.entry_key().to_json()),
            Json::member("entryData", data),
        ];
        proof {
            Json::lemma_object_view(members);
            assert(Json::Object(members)@->Object_0 =~= found_json(self@)->Object_0);
            lemma_found_json_canonical(self@);
        }
        Json::Object(members)
    }

    /// Reads the value from its JSON form. Gives `None` where the document is
    /// not of that form.
    pub fn from_json(tree: &Json) -> (r: Option<response::GetEntryData>)
        ensures
            view_of(r) == json_found(tree@),
    {
        match tree.field("entryKey") {
            Some(k) => match EntryKey::from_json(k) {
                Some(entry_key) => match tree.field("entryData") {
                    None => Some(response::GetEntryData::new(entry_key, None)),
                    Some(Json::Null) => Some(response::GetEntryData::new(entry_key, None)),
                    Some(d) => match EntryData::from_json(d) {
                        Some(data) => Some(response::GetEntryData::new(entry_key, Some(data))),
                        None => None,
                    },
                },
                None => None,
            },
            None => None,
        }
    }
}

/// The body of an answer can be printed as it stands.
pub proof fn lemma_found_json_canonical(found: response::GetEntryDataView)
    ensures
        canonical(found_json(found)),
{
    lemma_found_names();
    lemma_entry_key_json_canonical(found.entry_key);
    if found.entry_data is Some {
        lemma_entry_data_json_canonical(found.entry_data.unwrap());
    }
    reveal_with_fuel(canonical, 2);
}

/// Reading back the body of an answer gives the answer.
pub proof fn lemma_found_round_trip(found: response::GetEntryDataView)
    requires
        found.entry_key.schedule_date.in_range(),
        found.entry_key.room_id.well_formed(),
    ensures
        json_found(found_json(found)) == Some(found),
{
    lemma_found_names();
    lemma_entry_key_round_trip(found.entry_key);
    if found.entry_data is Some {
        lemma_entry_data_round_trip(found.entry_data.unwrap());
    }
    reveal_with_fuel(find_from, 3);
}

impl Response {
    /// The JSON form of the value.
    pub fn to_json(&self) -> (tree: Json)
        ensures
            tree@ == response_json(self@),
            canonical(tree@),
    {
        proof {
            lemma_response_json_canonical(self@);
        }
        match self {
            Response::ConnectionEstablished => Json::Text("connectionEstablished".to_owned()),
            Response::GetEntryData(body) => tag("getEntryData", body.to_json()),
            Response::UpdateEntry(body) => tag("updateEntry", body.entry().to_json()),
        }
    }

    /// Reads the value from its JSON form. Gives `None` where the document is
    /// not of that form.
    pub fn from_json(tree: &Json) -> (r: Option<Response>)
        ensures
            view_of(r) == json_response(tree@),
    {
        match tree {
            Json::Text(text) => if text_is(text, "connectionEstablished") {
                Some(Response::ConnectionEstablished)
            } else {
                None
            },
            _ => match untag(tree) {
                Some((name, body)) => {
                    if text_is(name, "getEntryData") {
                        match response::GetEntryData::from_json(body) {
                            Some(found) => Some(Response::GetEntryData(found)),
                            None => None,
                        }
                    } else if text_is(name, "updateEntry") {
                        match Entry::from_json(body) {
                            Some(entry) => Some(
                                Response::UpdateEntry(response::UpdateEntry::new(entry)),
                            ),
                            None => None,
                        }
                    } else {
                        None
                    }
                },
                None => None,
            },
        }
    }

    /// The text of the frame that carries this response. Every response has
    /// one.
    pub fn to_text(&self) -> (text: String)
        ensures
            text@ == printed_json(response_json(self@)),
    {
        self.to_json().print()
    }

    /// The text of the frame that greets a new connection.
    pub fn connection_established() -> (text: String)
        ensures
            text@ == printed_json(response_json(ResponseView::ConnectionEstablished)),
    {
        Response::ConnectionEstablished.to_text()
    }

    /// The text of the frame that answers a request for one entry.
    pub fn get_entry_data(entry_key: EntryKey, entry_data: Option<EntryData>) -> (text: String)
        ensures
            text@ == printed_json(
                response_json(
                    ResponseView::GetEntryData(
                        response::GetEntryDataView { entry_key: entry_key@, entry_data },
                    ),
                ),
            ),
    {
        Response::GetEntryData(response::GetEntryData::new(entry_key, entry_data)).to_text()
    }

    /// The text of the frame that tells of an updated entry.
    pub fn update_entry(entry: Entry) -> (text: String)
        ensures
            text@ == printed_json(response_json(ResponseView::UpdateEntry(entry@))),
    {
        Response::UpdateEntry(response::UpdateEntry::new(entry)).to_text()
    }
}

/// The frame of a response can be printed as it stands.
pub proof fn lemma_response_json_canonical(response: ResponseView)
    ensures
        canonical(response_json(response)),
{
    match response {
        ResponseView::ConnectionEstablished => {},
        ResponseView::GetEntryData(found) => {
            lemma_found_json_canonical(found);
            lemma_tagged_canonical("getEntryData"@, found_json(found));
        },
        ResponseView::UpdateEntry(entry) => {
            lemma_entry_json_canonical(entry);
            lemma_tagged_canonical("updateEntry"@, entry_json(entry));
        },
    }
}

/// Whether the dates of a response lie in their ranges and its room
/// identifier is well formed, as the frame of a response demands.
pub open spec fn response_in_range(response: ResponseView) -> bool {
    match response {
        ResponseView::ConnectionEstablished => true,
        ResponseView::GetEntryData(found) => found.entry_key.schedule_date.in_range()
            && found.entry_key.room_id.well_formed(),
        ResponseView::UpdateEntry(entry) => entry.id.schedule_date.in_range()
            && entry.id.room_id.well_formed(),
    }
}

/// Reading back the frame of a response gives the response.
pub proof fn lemma_response_round_trip(response: ResponseView)
    requires
        response_in_range(response),
    ensures
        json_response(response_json(response)) == Some(response),
{
    lemma_variant_names();
    match response {
        ResponseView::ConnectionEstablished => {},
        ResponseView::GetEntryData(found) => {
            lemma_found_round_trip(found);
            lemma_tagged_field("getEntryData"@, found_json(found));
        },
        ResponseView::UpdateEntry(entry) => {
            lemma_entry_round_trip(entry);
            lemma_tagged_field("updateEntry"@, entry_json(entry));
        },
    }
}

/// What the server pushes to every connected client.
#[derive(Debug, PartialEq, Eq, PartialOrd, Ord)]
pub enum Broadcast {
    UpdateEntry(Entry),
}

/// What a [`Broadcast`] holds, as contracts speak of it.
pub enum BroadcastView {
    UpdateEntry(EntryView),
}

impl View for Broadcast {
    type V = BroadcastView;

    open spec fn view(&self) -> BroadcastView {
        match self {
            Broadcast::UpdateEntry(entry) => BroadcastView::UpdateEntry(entry@),
        }
    }
}

impl Clone for Broadcast {
    fn clone(&self) -> (copy: Broadcast)
        ensures
            copy@ == self@,
    {
        match self {
            Broadcast::UpdateEntry(entry) => Broadcast::UpdateEntry(entry.clone()),
        }
    }
}

/// The response that carries a broadcast to a client.
pub open spec fn broadcast_response(broadcast: BroadcastView) -> ResponseView {
    match broadcast {
        BroadcastView::UpdateEntry(entry) => ResponseView::UpdateEntry(entry),
    }
}

impl Broadcast {
    /// The response that carries this broadcast to a client.
    pub fn into_response(self) -> (response: Response)
        ensures
            response@ == broadcast_response(self@),
    {
        match self {
            Broadcast::UpdateEntry(entry) => Response::UpdateEntry(
                response::UpdateEntry::new(entry),
            ),
        }
    }
}

} // verus!
