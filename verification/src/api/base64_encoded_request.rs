//! A request carried in the parameters of a query.
//!
//! The usual form has one parameter, `b64`: the JSON text of the request in
//! base64, standard alphabet, without padding. A query small enough may
//! instead name the room, the dates and the mask in parameters of their
//! own, the dates as the JSON text of an array.

use vstd::prelude::*;
use vstd::utf8::encode_utf8;

use crate::api::get_room_properties::{GetRoomPropertiesRequest, GetRoomPropertiesRequestView};
use crate::api::room_wire::{dates_of_text, json_room_query, read_dates_text, room_query_json};
use crate::json::text_is;
use crate::error::{Error, Malformed};
use crate::json::{parsed_json_bytes, printed_json, Json};
use crate::room_id::{room_id_of_text, RoomId};
use crate::views::{ok_view, view_of, views_of};

verus! {

/// A request that travels base64-encoded.
#[derive(Debug, PartialEq)]
pub struct Base64EncodedRequest<T>(pub T);

impl View for Base64EncodedRequest<GetRoomPropertiesRequest> {
    type V = GetRoomPropertiesRequestView;

    open spec fn view(&self) -> GetRoomPropertiesRequestView {
        self.0@
    }
}

impl Clone for Base64EncodedRequest<GetRoomPropertiesRequest> {
    fn clone(&self) -> (copy: Base64EncodedRequest<GetRoomPropertiesRequest>)
        ensures
            copy@ == self@,
    {
        Base64EncodedRequest(self.0.clone())
    }
}

/// The bytes that the `STANDARD_NO_PAD` engine of `base64` decodes `text`
/// to, or `None` where it reports an error.
pub uninterp spec fn base64_decoded(text: Seq<char>) -> Option<Seq<u8>>;

/// The text that the `STANDARD_NO_PAD` engine of `base64` encodes `bytes`
/// as.
pub uninterp spec fn base64_encoded(bytes: Seq<u8>) -> Seq<char>;

/// Calls `base64::Engine::decode` on the `STANDARD_NO_PAD` engine. Trusted:
/// the outcome depends on the text alone.
#[verifier::external_body]
fn decode_base64(text: &str) -> (r: Option<Vec<u8>>)
    ensures
        view_of(r) == base64_decoded(text@),
{
    base64::Engine::decode(&base64::engine::general_purpose::STANDARD_NO_PAD, text).ok()
}

/// Calls `base64::Engine::encode` on the `STANDARD_NO_PAD` engine. Trusted:
/// the text depends on the bytes alone. The call fails only where the
/// length of the text would not fit `usize`, which no slice is long enough
/// for.
#[verifier::external_body]
fn encode_base64(bytes: &[u8]) -> (r: String)
    ensures
        r@ == base64_encoded(bytes@),
{
    base64::Engine::encode(&base64::engine::general_purpose::STANDARD_NO_PAD, bytes)
}

/// The value of the first parameter called `name` at or after position
/// `from`.
pub open spec fn parameter_from(pairs: Seq<(Seq<char>, Seq<char>)>, name: Seq<char>, from: int)
    -> Option<Seq<char>>
    decreases pairs.len() - from,
{
    if from < 0 || from >= pairs.len() {
        None
    } else if pairs[from].0 == name {
        Some(pairs[from].1)
    } else {
        parameter_from(pairs, name, from + 1)
    }
}

/// The value of the first parameter called `name`.
pub open spec fn parameter(pairs: Seq<(Seq<char>, Seq<char>)>, name: Seq<char>) -> Option<
    Seq<char>,
> {
    parameter_from(pairs, name, 0)
}

/// A part of the mask given as a parameter: `false` where it is missing,
/// else it must read `true` or `false`.
pub open spec fn parameter_bool(found: Option<Seq<char>>) -> Option<bool> {
    match found {
        None => Some(false),
        Some(text) => if text == "true"@ {
            Some(true)
        } else if text == "false"@ {
            Some(false)
        } else {
            None
        },
    }
}

/// The request that parameters of their own stand for: `roomId` must be
/// there; `dates`, where it is there, must be the JSON text of an array of
/// dates; and every part of the mask that is there must read `true` or
/// `false`.
pub open spec fn plain_request(pairs: Seq<(Seq<char>, Seq<char>)>) -> Option<
    GetRoomPropertiesRequestView,
> {
    match parameter(pairs, "roomId"@) {
        Some(room) => match (
            parameter_dates(parameter(pairs, "dates"@)),
            parameter_bool(parameter(pairs, "entries"@)),
            parameter_bool(parameter(pairs, "users"@)),
            parameter_bool(parameter(pairs, "displayName"@)),
            parameter_bool(parameter(pairs, "url"@)),
            parameter_bool(parameter(pairs, "broadcast"@)),
        ) {
            (
                Some(dates),
                Some(entries),
                Some(users),
                Some(display_name),
                Some(url),
                Some(broadcast),
            ) => Some(
                GetRoomPropertiesRequestView {
                    room_id: room_id_of_text(room),
                    dates,
                    entries,
                    users,
                    display_name,
                    url,
                    broadcast,
                },
            ),
            _ => None,
        },
        None => None,
    }
}

/// The dates given as a parameter: none where it is missing, else it must
/// be the JSON text of an array of dates.
pub open spec fn parameter_dates(found: Option<Seq<char>>) -> Option<
    Seq<crate::schemes::GregorianScheduleDate>,
> {
    match found {
        None => Some(Seq::empty()),
        Some(text) => dates_of_text(text),
    }
}

/// The request that the bytes of a decoded payload stand for.
pub open spec fn payload_request(bytes: Seq<u8>) -> Result<GetRoomPropertiesRequestView, Error> {
    match parsed_json_bytes(bytes) {
        None => Err(Error::MalformedFrame(Malformed::NotJson)),
        Some(tree) => match json_room_query(tree) {
            Some(request) => Ok(request),
            None => Err(Error::MalformedFrame(Malformed::UnknownShape)),
        },
    }
}

/// The request that an encoded query stands for: its first parameter must
/// be `b64`, the value base64 without padding, the decoded bytes the JSON
/// text of a request.
pub open spec fn encoded_request(pairs: Seq<(Seq<char>, Seq<char>)>) -> Result<
    GetRoomPropertiesRequestView,
    Error,
> {
    if pairs.len() == 0 || pairs[0].0 != "b64"@ {
        Err(Error::MalformedFrame(Malformed::NoPayload))
    } else {
        match base64_decoded(pairs[0].1) {
            None => Err(Error::MalformedFrame(Malformed::NotBase64)),
            Some(bytes) => payload_request(bytes),
        }
    }
}

/// The request that a query stands for, in either form.
pub open spec fn query_request(pairs: Seq<(Seq<char>, Seq<char>)>) -> Result<
    GetRoomPropertiesRequestView,
    Error,
> {
    match plain_request(pairs) {
        Some(request) => Ok(request),
        None => encoded_request(pairs),
    }
}

/// The payload of the encoded form of a request.
pub open spec fn encoded_payload(request: GetRoomPropertiesRequestView) -> Seq<char> {
    base64_encoded(encode_utf8(printed_json(room_query_json(request))))
}

/// The value of the first parameter called `name`.
pub fn find_parameter<'a>(pairs: &'a Vec<(String, String)>, name: &str) -> (r: Option<&'a String>)
    ensures
        view_of(r) == parameter(views_of(pairs@), name@),
{
    let mut i: usize = 0;
    while i < pairs.len()
        invariant
            i <= pairs.len(),
            parameter_from(views_of(pairs@), name@, 0) == parameter_from(
                views_of(pairs@),
                name@,
                i as int,
            ),
        decreases pairs.len() - i,
    {
        assert(views_of(pairs@)[i as int] == (pairs[i as int].0@, pairs[i as int].1@));
        if text_is(&pairs[i].0, name) {
            return Some(&pairs[i].1);
        }
        i += 1;
    }
    None
}

/// Reads one part of the mask given as a parameter.
fn read_parameter_bool(found: Option<&String>) -> (r: Option<bool>)
    ensures
        r == parameter_bool(view_of(found)),
{
    match found {
        None => Some(false),
        Some(text) => if text_is(text, "true") {
            Some(true)
        } else if text_is(text, "false") {
            Some(false)
        } else {
            None
        },
    }
}

/// Reads a request from parameters of their own.
pub fn read_plain_request(pairs: &Vec<(String, String)>) -> (r: Option<GetRoomPropertiesRequest>)
    ensures
        view_of(r) == plain_request(views_of(pairs@)),
{
    match find_parameter(pairs, "roomId") {
        Some(room) => {
            let dates = match find_parameter(pairs, "dates") {
                None => {
                    let none: Vec<crate::schemes::GregorianScheduleDate> = Vec::new();
                    assert(none@ =~= Seq::empty());
                    Some(none)
                },
                Some(text) => read_dates_text(text.as_str()),
            };
            let entries = read_parameter_bool(find_parameter(pairs, "entries"));
            let users = read_parameter_bool(find_parameter(pairs, "users"));
            let display_name = read_parameter_bool(find_parameter(pairs, "displayName"));
            let url = read_parameter_bool(find_parameter(pairs, "url"));
            let broadcast = read_parameter_bool(find_parameter(pairs, "broadcast"));
            match (dates, entries, users, display_name, url, broadcast) {
                (
                    Some(dates),
                    Some(entries),
                    Some(users),
                    Some(display_name),
                    Some(url),
                    Some(broadcast),
                ) => Some(
                    GetRoomPropertiesRequest {
                        room_id: RoomId::from_text(room.as_str()),
                        dates,
                        entries,
                        users,
                        display_name,
                        url,
                        broadcast,
                    },
                ),
                _ => None,
            }
        },
        None => None,
    }
}

impl Base64EncodedRequest<GetRoomPropertiesRequest> {
    /// The query that carries this request: the one parameter `b64`.
    pub fn to_query(&self) -> (pairs: Vec<(String, String)>)
        ensures
            views_of(pairs@) == seq![("b64"@, encoded_payload(self@))],
    {
        let text = self.0.to_json().print();
        let payload = encode_base64(text.as_str().as_bytes());
        let pairs = vec![("b64".to_owned(), payload)];
        assert(views_of(pairs@) =~= seq![("b64"@, encoded_payload(self@))]);
        pairs
    }

    /// Reads the request that an encoded query carries.
    pub fn from_query(pairs: &Vec<(String, String)>) -> (r: Result<
        Base64EncodedRequest<GetRoomPropertiesRequest>,
        Error,
    >)
        ensures
            ok_view(r) == encoded_request(views_of(pairs@)),
    {
        if pairs.len() == 0 {
            return Err(Error::MalformedFrame(Malformed::NoPayload));
        }
        assert(views_of(pairs@)[0] == (pairs[0].0@, pairs[0].1@));
        if !text_is(&pairs[0].0, "b64") {
            return Err(Error::MalformedFrame(Malformed::NoPayload));
        }
        match decode_base64(pairs[0].1.as_str()) {
            None => Err(Error::MalformedFrame(Malformed::NotBase64)),
            Some(bytes) => match Json::parse_bytes(bytes.as_slice()) {
                None => Err(Error::MalformedFrame(Malformed::NotJson)),
                Some(tree) => match GetRoomPropertiesRequest::from_json(&tree) {
                    Some(request) => Ok(Base64EncodedRequest(request)),
                    None => Err(Error::MalformedFrame(Malformed::UnknownShape)),
                },
            },
        }
    }
}

/// Reads the request that a query carries, in either form. A query that is
/// no request of either form fails as the encoded form fails.
pub fn decode_query(pairs: &Vec<(String, String)>) -> (r: Result<GetRoomPropertiesRequest, Error>)
    ensures
        ok_view(r) == query_request(views_of(pairs@)),
{
    match read_plain_request(pairs) {
        Some(request) => Ok(request),
        None => match Base64EncodedRequest::from_query(pairs) {
            Ok(encoded) => Ok(encoded.0),
            Err(error) => Err(error),
        },
    }
}

/// A query that cannot be read fails as a malformed message, which is the
/// client's fault.
pub proof fn lemma_unreadable_query_is_client_fault(pairs: Seq<(Seq<char>, Seq<char>)>)
    ensures
        query_request(pairs) matches Err(error) ==> error is MalformedFrame
            && error.client_fault(),
{
}

} // verus!
