use situps_server::api::{parse_raw_request, parse_request, Config, Frame};
use situps_server::entry_event::request;
use situps_server::entry_event::response;
use situps_server::entry_event::{Broadcast, Request, Response};
use situps_server::json::{tag, text_is, untag};
use situps_server::error::{Error, Malformed, TransportError};
use situps_server::json::Json;
use situps_server::object_id::ObjectId;
use situps_server::room_id::RoomId;
use situps_server::schemes::{
    Entry, EntryData, EntryKey, GregorianScheduleDate, UpdateEntryCommit, User,
};
use situps_server::wire::{read_bool, read_i32, read_text, read_u32};

const KEY: &str = "{\"scheduleDate\":{\"year\":1555,\"month\":2,\"day\":13},\
                   \"roomId\":{\"$oid\":\"000102030405060708090a0b\"},\"userId\":\"u0\"}";

fn key() -> EntryKey {
    EntryKey {
        schedule_date: GregorianScheduleDate::new(1555, 2, 13),
        room_id: RoomId::Object(ObjectId::from_bytes([0, 1, 2, 3, 4, 5, 6, 7, 8, 9, 10, 11])),
        user_id: "u0".to_owned(),
    }
}

fn entry(amount: Option<u32>) -> Entry {
    Entry { id: key(), value: EntryData { amount } }
}

#[test]
fn object_id_hex_both_ways() {
    let id = ObjectId::from_bytes([62, 101, 67, 0, 114, 70, 127, 42, 108, 120, 49, 27]);
    assert_eq!(id.to_hex(), "3e65430072467f2a6c78311b");
    assert_eq!(ObjectId::parse_str("3e65430072467f2a6c78311b"), Some(id));
    assert_eq!(ObjectId::parse_str("3E65430072467F2A6C78311B"), Some(id));
    assert_eq!(ObjectId::parse_str("3e65430072467F2a6c78311B").unwrap().bytes(), id.bytes());
    assert_eq!(ObjectId::parse_str(&id.to_hex()), Some(id));
    assert_eq!(ObjectId::from_bytes([255; 12]).to_hex(), "ffffffffffffffffffffffff");
    assert_eq!(ObjectId::from_bytes([0; 12]).to_hex(), "000000000000000000000000");
    assert!(id.same(&ObjectId::from_bytes(id.bytes())));
    assert!(!id.same(&ObjectId::from_bytes([62, 101, 67, 0, 114, 70, 127, 42, 108, 120, 49, 28])));
}

#[test]
fn object_id_rejects_what_is_no_hex_of_twelve_bytes() {
    for text in [
        "",
        "3e65430072467f2a6c78311",
        "3e65430072467f2a6c78311b0",
        "3e65430072467f2a6c78311b00",
        "3e65430072467f2a6c78311g",
        "3e65430072467f2a6c78311 ",
        "ééééééééééééééééééééééé0",
        "éééééééééééé",
    ] {
        assert_eq!(ObjectId::parse_str(text), None);
    }
}

#[test]
fn date_order_and_range() {
    let a = GregorianScheduleDate::new(1555, 2, 13);
    let b = GregorianScheduleDate::new(1555, 2, 14);
    let c = GregorianScheduleDate::new(1555, 3, 1);
    let d = GregorianScheduleDate::new(1556, 1, 1);
    assert!(a.is_before(&b) && b.is_before(&c) && c.is_before(&d) && a.is_before(&d));
    assert!(!b.is_before(&a) && !a.is_before(&a) && !d.is_before(&c));
    assert!(a < b && b < c && c < d);
    assert!(a.is_in_range());
    assert!(GregorianScheduleDate::new(-1, 12, 31).is_in_range());
    assert!(GregorianScheduleDate::new(2000, 2, 31).is_in_range());
    assert!(!GregorianScheduleDate::new(2000, 0, 1).is_in_range());
    assert!(!GregorianScheduleDate::new(2000, 13, 1).is_in_range());
    assert!(!GregorianScheduleDate::new(2000, 1, 0).is_in_range());
    assert!(!GregorianScheduleDate::new(2000, 1, 32).is_in_range());
    assert_eq!(a, GregorianScheduleDate { year: 1555, month: 2, day: 13 });
}

#[test]
fn entry_keys_compare_by_all_three_parts() {
    let mut other = key();
    assert!(key().same(&other));
    assert_eq!(key(), key().clone());
    other.user_id = "u1".to_owned();
    assert!(!key().same(&other));
    let mut other = key();
    other.room_id = RoomId::Object(ObjectId::from_bytes([0; 12]));
    assert!(!key().same(&other));
    let mut other = key();
    other.schedule_date = GregorianScheduleDate::new(1555, 2, 14);
    assert!(!key().same(&other));
    assert!(key() < other);
}

#[test]
fn request_frames_are_exact() {
    let get = Request::GetEntryData(request::GetEntryData { entry_key: key() });
    assert_eq!(get.to_text(), format!("{{\"getEntryData\":{{\"entryKey\":{}}}}}", KEY));
    let update = Request::UpdateEntry(request::UpdateEntry { entry: entry(Some(7)) });
    assert_eq!(
        update.to_text(),
        format!(
            "{{\"updateEntry\":{{\"entry\":{{\"_id\":{},\"value\":{{\"amount\":7}}}}}}}}",
            KEY
        )
    );
    assert_eq!(parse_request(&get.to_text()), Ok(get.clone()));
    assert_eq!(parse_request(&update.to_text()), Ok(update.clone()));
    assert_eq!(Request::from_json(&get.to_json()), Some(get));
    assert_eq!(Request::from_json(&update.to_json()), Some(update));
}

#[test]
fn response_frames_are_exact() {
    assert_eq!(Response::connection_established(), "\"connectionEstablished\"");
    assert_eq!(
        Response::get_entry_data(key(), Some(EntryData { amount: Some(3) })),
        format!("{{\"getEntryData\":{{\"entryKey\":{},\"entryData\":{{\"amount\":3}}}}}}", KEY)
    );
    assert_eq!(
        Response::get_entry_data(key(), None),
        format!("{{\"getEntryData\":{{\"entryKey\":{},\"entryData\":null}}}}", KEY)
    );
    assert_eq!(
        Response::update_entry(entry(None)),
        format!("{{\"updateEntry\":{{\"_id\":{},\"value\":{{\"amount\":null}}}}}}", KEY)
    );
    assert_eq!(
        Response::update_entry(entry(Some(u32::MAX))),
        format!("{{\"updateEntry\":{{\"_id\":{},\"value\":{{\"amount\":4294967295}}}}}}", KEY)
    );
}

#[test]
fn responses_read_back() {
    for response in [
        Response::ConnectionEstablished,
        Response::GetEntryData(response::GetEntryData::new(key(), None)),
        Response::GetEntryData(response::GetEntryData::new(key(), Some(EntryData { amount: None }))),
        Response::GetEntryData(response::GetEntryData::new(key(), Some(EntryData { amount: Some(9) }))),
        Response::UpdateEntry(response::UpdateEntry::new(entry(Some(0)))),
    ] {
        let tree = Json::parse(&response.to_text()).unwrap();
        assert_eq!(Response::from_json(&tree), Some(response.clone()));
        assert_eq!(Response::from_json(&response.to_json()), Some(response));
    }
    let read = |text: &str| Response::from_json(&Json::parse(text).unwrap());
    assert_eq!(read("\"connected\""), None);
    assert_eq!(read("{\"connectionEstablished\":null}"), None);
    assert_eq!(read(&format!("{{\"getEntryData\":{{\"entryData\":null}}}}")), None);
    assert_eq!(
        read(&format!("{{\"getEntryData\":{{\"entryKey\":{}}}}}", KEY)),
        Some(Response::GetEntryData(response::GetEntryData::new(key(), None)))
    );
    assert_eq!(read(&format!("{{\"getEntryData\":{{\"entryKey\":{},\"entryData\":4}}}}", KEY)), None);
    let found = response::GetEntryData::new(key(), Some(EntryData { amount: Some(1) }));
    assert_eq!(found.entry_key(), &key());
    assert_eq!(found.entry_data(), Some(EntryData { amount: Some(1) }));
    assert_eq!(response::UpdateEntry::new(entry(None)).entry(), &entry(None));
}

#[test]
fn frames_accept_any_member_order_and_extra_members() {
    let text = "{\"getEntryData\":{\"note\":1,\"entryKey\":{\"userId\":\"u0\",\"extra\":[],\
                \"roomId\":{\"$oid\":\"000102030405060708090A0B\"},\
                \"scheduleDate\":{\"day\":13,\"month\":2,\"year\":1555}}}} ";
    assert_eq!(
        parse_request(text),
        Ok(Request::GetEntryData(request::GetEntryData { entry_key: key() }))
    );
    let text = format!("{{\"updateEntry\":{{\"entry\":{{\"value\":{{}},\"_id\":{}}}}}}}", KEY);
    assert_eq!(
        parse_request(&text),
        Ok(Request::UpdateEntry(request::UpdateEntry { entry: entry(None) }))
    );
}

#[test]
fn malformed_frames_fail_each_in_its_own_way() {
    let not_json = Err(Error::MalformedFrame(Malformed::NotJson));
    let unknown = Err(Error::MalformedFrame(Malformed::UnknownShape));
    assert_eq!(parse_request(""), not_json);
    assert_eq!(parse_request("{\"getEntryData\":"), not_json);
    assert_eq!(parse_request("getEntryData"), not_json);
    assert_eq!(parse_request("{\"WETFCWATF\":\"FEHWRSUQ\",\"FUNBNCKEWT\":110124}"), unknown);
    assert_eq!(parse_request("{}"), unknown);
    assert_eq!(parse_request("null"), unknown);
    assert_eq!(parse_request("\"connectionEstablished\""), unknown);
    assert_eq!(parse_request(&format!("{{\"getEntryData\":{{\"entryKey\":{}}},\"x\":1}}", KEY)), unknown);
    assert_eq!(parse_request(&format!("{{\"GetEntryData\":{{\"entryKey\":{}}}}}", KEY)), unknown);
    assert_eq!(parse_request(&format!("{{\"getEntryData\":{{\"entry_key\":{}}}}}", KEY)), unknown);
    assert_eq!(parse_request(&format!("{{\"getEntryData\":{}}}", KEY)), unknown);
    assert_eq!(parse_request(&format!("{{\"updateEntry\":{{\"entry\":{}}}}}", KEY)), unknown);
    for value in ["-1", "4294967296", "1.0", "\"5\"", "true", "[]"] {
        let text = format!(
            "{{\"updateEntry\":{{\"entry\":{{\"_id\":{},\"value\":{{\"amount\":{}}}}}}}}}",
            KEY, value
        );
        assert_eq!(parse_request(&text), unknown);
    }
    for date in [
        "{\"year\":2147483648,\"month\":1,\"day\":1}",
        "{\"year\":1,\"month\":13,\"day\":1}",
        "{\"year\":1,\"month\":1,\"day\":32}",
        "{\"year\":1,\"month\":1}",
        "[1,1,1]",
    ] {
        let text = format!(
            "{{\"getEntryData\":{{\"entryKey\":{{\"scheduleDate\":{},\"roomId\":{{\"$oid\":\
             \"000102030405060708090a0b\"}},\"userId\":\"u0\"}}}}}}",
            date
        );
        assert_eq!(parse_request(&text), unknown);
    }
    assert_eq!(
        parse_raw_request(Ok(Frame::Other)),
        Err(Error::MalformedFrame(Malformed::NotText))
    );
    assert_eq!(parse_raw_request(Err(TransportError)), Err(Error::Transport));
    assert_eq!(parse_raw_request(Ok(Frame::Text("{".to_owned()))), not_json);
    assert_eq!(
        parse_raw_request(Ok(Frame::Text(format!("{{\"getEntryData\":{{\"entryKey\":{}}}}}", KEY)))),
        Ok(Request::GetEntryData(request::GetEntryData { entry_key: key() }))
    );
    assert_eq!(
        parse_request("{\"getEntryData\":{\"entryKey\":{\"scheduleDate\":{\"year\":-2147483648,\
                       \"month\":1,\"day\":31},\"roomId\":{\"$oid\":\"000102030405060708090a0b\"},\
                       \"userId\":\"\"}}}"),
        Ok(Request::GetEntryData(request::GetEntryData {
            entry_key: EntryKey {
                schedule_date: GregorianScheduleDate::new(i32::MIN, 1, 31),
                room_id: key().room_id,
                user_id: String::new(),
            }
        }))
    );
}

#[test]
fn errors_fall_on_the_right_party() {
    for (error, fatal, client) in [
        (Error::Transport, true, false),
        (Error::MalformedFrame(Malformed::NotText), true, true),
        (Error::MalformedFrame(Malformed::NoPayload), true, true),
        (Error::MalformedFrame(Malformed::NotBase64), true, true),
        (Error::MalformedFrame(Malformed::NotJson), true, true),
        (Error::MalformedFrame(Malformed::UnknownShape), true, true),
        (Error::NotFound, false, true),
        (Error::StoreUnavailable, false, false),
    ] {
        assert_eq!(error.is_fatal_to_connection(), fatal);
        assert_eq!(error.is_client_error(), client);
        assert!(!error.message().is_empty());
    }
    assert_eq!(Error::NotFound.message(), "not found");
    assert_eq!(Error::StoreUnavailable.message(), "store unavailable");
    assert_eq!(Error::MalformedFrame(Malformed::NotJson).message(), "malformed message: not JSON");
    assert_ne!(
        Error::MalformedFrame(Malformed::NotText).message(),
        Error::MalformedFrame(Malformed::UnknownShape).message()
    );
}

#[test]
fn json_trees_both_ways() {
    let tree = Json::parse(" {\"a\":[1,-2,3.5,1e2,18446744073709551615],\"b\":{\"c\":null},\"d\":\"x\\ny\",\"e\":true} ")
        .unwrap();
    assert_eq!(
        tree,
        Json::Object(vec![
            (
                "a".to_owned(),
                Json::Array(vec![
                    Json::Integer(1),
                    Json::Integer(-2),
                    Json::Decimal("3.5".to_owned()),
                    Json::Decimal("100.0".to_owned()),
                    Json::Decimal("18446744073709551615".to_owned()),
                ])
            ),
            ("b".to_owned(), Json::Object(vec![("c".to_owned(), Json::Null)])),
            ("d".to_owned(), Json::Text("x\ny".to_owned())),
            ("e".to_owned(), Json::Boolean(true)),
        ])
    );
    assert_eq!(Json::parse_bytes(b"[9223372036854775807,-9223372036854775808]"), Some(Json::Array(vec![
        Json::Integer(i64::MAX),
        Json::Integer(i64::MIN),
    ])));
    assert_eq!(Json::parse_bytes(b"\xff"), None);
    assert_eq!(Json::parse("[1,]"), None);
    assert_eq!(Json::parse("{\"z\":1,\"a\":2}").unwrap().print(), "{\"z\":1,\"a\":2}");
    let built = Json::Object(vec![
        Json::member("z", Json::Array(vec![Json::Null, Json::Boolean(false), Json::Integer(-7)])),
        Json::member("a", Json::Text("q\"uote".to_owned())),
    ]);
    assert_eq!(built.print(), "{\"z\":[null,false,-7],\"a\":\"q\\\"uote\"}");
    assert_eq!(Json::parse(&built.print()), Some(built));
    let twice = Json::parse("{\"k\":1,\"k\":2}").unwrap();
    assert_eq!(twice, Json::Object(vec![("k".to_owned(), Json::Integer(2))]));
    assert_eq!(twice.field("k"), Some(&Json::Integer(2)));
    assert_eq!(Json::Integer(1).field("k"), None);
}

#[test]
fn json_leaves_and_tags() {
    assert_eq!(read_u32(&Json::Integer(0)), Some(0));
    assert_eq!(read_u32(&Json::Integer(4294967295)), Some(u32::MAX));
    assert_eq!(read_u32(&Json::Integer(4294967296)), None);
    assert_eq!(read_u32(&Json::Integer(-1)), None);
    assert_eq!(read_u32(&Json::Text("1".to_owned())), None);
    assert_eq!(read_i32(&Json::Integer(-2147483648)), Some(i32::MIN));
    assert_eq!(read_i32(&Json::Integer(2147483647)), Some(i32::MAX));
    assert_eq!(read_i32(&Json::Integer(2147483648)), None);
    assert_eq!(read_i32(&Json::Integer(-2147483649)), None);
    assert_eq!(read_text(&Json::Text("t".to_owned())), Some("t".to_owned()));
    assert_eq!(read_text(&Json::Null), None);
    assert_eq!(read_bool(&Json::Boolean(true)), Some(true));
    assert_eq!(read_bool(&Json::Integer(1)), None);
    let tagged = tag("name", Json::Integer(5));
    assert_eq!(tagged, Json::Object(vec![("name".to_owned(), Json::Integer(5))]));
    assert_eq!(untag(&tagged), Some((&"name".to_owned(), &Json::Integer(5))));
    assert_eq!(untag(&Json::Object(vec![])), None);
    assert_eq!(untag(&Json::Array(vec![Json::Null])), None);
    assert!(text_is(&"abc".to_owned(), "abc"));
    assert!(!text_is(&"abc".to_owned(), "abd"));
}

#[test]
fn entity_json_is_exact() {
    assert_eq!(
        GregorianScheduleDate::new(-3, 1, 2).to_json().print(),
        "{\"year\":-3,\"month\":1,\"day\":2}"
    );
    assert_eq!(key().to_json().print(), KEY);
    assert_eq!(EntryData { amount: None }.to_json().print(), "{\"amount\":null}");
    assert_eq!(EntryData::from_json(&Json::parse("{}").unwrap()), Some(EntryData { amount: None }));
    assert_eq!(EntryData::from_json(&Json::parse("[]").unwrap()), None);
    assert_eq!(Entry::from_json(&entry(Some(5)).to_json()), Some(entry(Some(5))));
    assert_eq!(EntryKey::from_json(&key().to_json()), Some(key()));
    assert_eq!(
        ObjectId::from_json(&Json::parse("{\"$oid\":\"000102030405060708090a0b\"}").unwrap()),
        Some(ObjectId::from_bytes([0, 1, 2, 3, 4, 5, 6, 7, 8, 9, 10, 11]))
    );
    assert_eq!(
        ObjectId::from_json(&Json::parse("\"000102030405060708090A0B\"").unwrap()),
        Some(ObjectId::from_bytes([0, 1, 2, 3, 4, 5, 6, 7, 8, 9, 10, 11]))
    );
    assert_eq!(ObjectId::from_json(&Json::parse("\"r0\"").unwrap()), None);
    assert_eq!(ObjectId::from_json(&Json::parse("{\"$oid\":\"r0\"}").unwrap()), None);
    let out_of_range = GregorianScheduleDate::new(1, 13, 1);
    assert_eq!(GregorianScheduleDate::from_json(&out_of_range.to_json()), None);
}

#[test]
fn broadcasts_travel_as_update_responses() {
    let broadcast = Broadcast::UpdateEntry(entry(Some(2)));
    assert_eq!(
        broadcast.clone().into_response(),
        Response::UpdateEntry(response::UpdateEntry::new(entry(Some(2))))
    );
    assert_eq!(broadcast.into_response().to_text(), Response::update_entry(entry(Some(2))));
}

#[test]
fn plain_records_keep_what_they_are_given() {
    let config = Config::new("mongodb://h".to_owned(), "db".to_owned(), [127, 0, 0, 1], 8080);
    assert_eq!(config.database_url(), "mongodb://h");
    assert_eq!(config.database(), "db");
    assert_eq!(config.socket_address(), [127, 0, 0, 1]);
    assert_eq!(config.socket_port(), 8080);
    let user = User::new("u0".to_owned(), "Name".to_owned(), "ocean".to_owned());
    assert_eq!(user.user_id(), "u0");
    assert_eq!(user.display_name(), "Name");
    assert_eq!(user.theme(), "ocean");
    assert_eq!(user.clone(), user);
    let commit = UpdateEntryCommit { date: 5, data: entry(None) };
    assert_eq!(commit.clone(), commit);
}

#[test]
fn verified_order_agrees_with_the_derived_one() {
    let mut keys = vec![];
    for (year, month, day) in [(1555, 2, 13), (1555, 2, 14), (-3, 12, 1), (1555, 1, 30)] {
        for room in [[0_u8; 12], [1; 12], [0, 0, 0, 0, 0, 0, 0, 0, 0, 0, 0, 1], [255; 12]] {
            for user in ["", "u", "u0", "u1", "v", "U", "é", "ée", "zz", "\u{10348}", "~"] {
                keys.push(EntryKey {
                    schedule_date: GregorianScheduleDate::new(year, month, day),
                    room_id: RoomId::Object(ObjectId::from_bytes(room)),
                    user_id: user.to_owned(),
                });
            }
        }
    }
    for a in &keys {
        for b in &keys {
            assert_eq!(a.is_before(b), a < b);
            assert_eq!(a.same(b), a == b);
            assert_eq!(a.room_id.is_before(&b.room_id), a.room_id < b.room_id);
            assert_eq!(a.schedule_date.is_before(&b.schedule_date), a.schedule_date < b.schedule_date);
            assert_eq!(
                situps_server::order::slice_is_before(a.user_id.as_bytes(), b.user_id.as_bytes()),
                a.user_id < b.user_id
            );
        }
    }
}

#[test]
fn only_canonical_trees_are_printed() {
    let plain = Json::Object(vec![
        Json::member("a", Json::Array(vec![Json::Object(vec![Json::member("a", Json::Null)])])),
        Json::member("b", Json::Integer(1)),
    ]);
    assert!(plain.is_canonical());
    assert_eq!(plain.try_print(), Some("{\"a\":[{\"a\":null}],\"b\":1}".to_owned()));
    for tree in [
        Json::Decimal("1.5".to_owned()),
        Json::Array(vec![Json::Null, Json::Decimal("2e7".to_owned())]),
        Json::Object(vec![Json::member("a", Json::Null), Json::member("a", Json::Null)]),
        Json::Object(vec![
            Json::member("a", Json::Null),
            Json::member("b", Json::Null),
            Json::member("c", Json::Array(vec![Json::Decimal("0.1".to_owned())])),
        ]),
        Json::Array(vec![Json::Object(vec![
            Json::member("x", Json::Integer(1)),
            Json::member("y", Json::Integer(2)),
            Json::member("x", Json::Integer(3)),
        ])]),
    ] {
        assert!(!tree.is_canonical());
        assert_eq!(tree.try_print(), None);
    }
    assert!(Json::parse("[1.5]").is_some_and(|tree| !tree.is_canonical()));
    assert!(Json::parse("{\"k\":[1,{\"k\":\"v\"}]}").is_some_and(|tree| tree.is_canonical()));
}

#[test]
fn room_of_a_key_may_be_any_text() {
    let msg = "{\"getEntryData\":{\"entryKey\":{\"userId\":\"u0\",\"roomId\":\"r0\",\
               \"scheduleDate\":{\"year\":1555,\"month\":2,\"day\":13}}}}";
    let named = EntryKey {
        schedule_date: GregorianScheduleDate::new(1555, 2, 13),
        room_id: RoomId::Name("r0".to_owned()),
        user_id: "u0".to_owned(),
    };
    assert_eq!(
        parse_request(msg),
        Ok(Request::GetEntryData(request::GetEntryData { entry_key: named.clone() }))
    );
    let request = Request::GetEntryData(request::GetEntryData { entry_key: named.clone() });
    assert_eq!(
        request.to_text(),
        "{\"getEntryData\":{\"entryKey\":{\"scheduleDate\":{\"year\":1555,\"month\":2,\"day\":13},\
         \"roomId\":\"r0\",\"userId\":\"u0\"}}}"
    );
    assert_eq!(parse_request(&request.to_text()), Ok(request));
    // A string of 24 hexadecimal digits is the object identifier it spells.
    let msg = "{\"getEntryData\":{\"entryKey\":{\"userId\":\"u0\",\
               \"roomId\":\"000102030405060708090A0B\",\
               \"scheduleDate\":{\"year\":1555,\"month\":2,\"day\":13}}}}";
    assert_eq!(
        parse_request(msg),
        Ok(Request::GetEntryData(request::GetEntryData { entry_key: key() }))
    );
    for room in ["5", "null", "[]", "{}", "{\"$oid\":\"r0\"}", "{\"id\":\"r0\"}", "true"] {
        let msg = format!(
            "{{\"getEntryData\":{{\"entryKey\":{{\"userId\":\"u0\",\"roomId\":{},\
             \"scheduleDate\":{{\"year\":1555,\"month\":2,\"day\":13}}}}}}}}",
            room
        );
        assert_eq!(parse_request(&msg), Err(Error::MalformedFrame(Malformed::UnknownShape)));
    }
}

#[test]
fn room_identifiers_read_and_order() {
    let object = RoomId::Object(ObjectId::from_bytes([62, 101, 67, 0, 114, 70, 127, 42, 108, 120, 49, 27]));
    assert_eq!(RoomId::from_text("3e65430072467f2a6c78311b"), object);
    assert_eq!(RoomId::from_text("3E65430072467F2A6C78311B"), object);
    assert_eq!(RoomId::from_text("r0"), RoomId::Name("r0".to_owned()));
    assert_eq!(RoomId::from_text(""), RoomId::Name(String::new()));
    assert_eq!(
        RoomId::from_text("3e65430072467f2a6c78311"),
        RoomId::Name("3e65430072467f2a6c78311".to_owned())
    );
    assert!(object.is_well_formed());
    assert!(RoomId::Name("r0".to_owned()).is_well_formed());
    assert!(!RoomId::Name("3e65430072467f2a6c78311b".to_owned()).is_well_formed());
    assert_eq!(object.to_json().print(), "{\"$oid\":\"3e65430072467f2a6c78311b\"}");
    assert_eq!(RoomId::Name("r0".to_owned()).to_json().print(), "\"r0\"");
    let ids = [
        RoomId::Object(ObjectId::from_bytes([0; 12])),
        object.clone(),
        RoomId::Object(ObjectId::from_bytes([255; 12])),
        RoomId::Name(String::new()),
        RoomId::Name("R0".to_owned()),
        RoomId::Name("r0".to_owned()),
        RoomId::Name("r00".to_owned()),
        RoomId::Name("é".to_owned()),
    ];
    for (i, a) in ids.iter().enumerate() {
        assert_eq!(RoomId::from_json(&a.to_json()), Some(a.clone()));
        for (j, b) in ids.iter().enumerate() {
            assert_eq!(a.is_before(b), i < j);
            assert_eq!(a.is_before(b), a < b);
            assert_eq!(a.same(b), i == j);
        }
    }
}
