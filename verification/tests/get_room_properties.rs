use situps_server::api::base64_encoded_request::{
    decode_query, find_parameter, read_plain_request, Base64EncodedRequest,
};
use situps_server::api::get_room_properties::{
    answer_query, assemble, date_among, default_as_empty_vec, default_as_false,
    get_room_properties, group_entries, group_users, users_of_entry_groups, EntryGroup,
    GetRoomPropertiesRequest, GetRoomPropertiesResponse, OutputEntry, UserGroup,
};
use situps_server::db::{record_update, Database};
use situps_server::error::{Error, Malformed};
use situps_server::json::Json;
use situps_server::object_id::ObjectId;
use situps_server::room_id::RoomId;
use situps_server::schemes::{
    Entry, EntryData, EntryKey, GregorianScheduleDate, Room, User,
};

fn room_id(n: usize) -> RoomId {
    let mut bytes = [0x5a_u8; 12];
    bytes[11] = n as u8;
    RoomId::Object(ObjectId::from_bytes(bytes))
}

fn user_id(n: usize) -> String {
    format!("u{}", n)
}

fn database() -> Database {
    let mut db = Database::new();
    for (n, (display_name, theme)) in [
        (".}1qyp}~L%", "forrest"),
        ("*ErF.0 $=?ze", "forrest"),
        ("7e{Fm18L|p", "ocean"),
        ("up/|CThg", "ocean"),
    ]
    .into_iter()
    .enumerate()
    {
        db.insert_user(User::new(user_id(n), display_name.to_owned(), theme.to_owned()));
    }
    for (i, (display_name, users)) in [
        ("OXtvty)RBVzmlvY-", vec![0, 1, 2, 3]),
        ("m(%0~FiwluTS$", vec![0, 2]),
    ]
    .into_iter()
    .enumerate()
    {
        db.insert_room(Room {
            id: room_id(i),
            display_name: display_name.to_owned(),
            url: format!("https://test.situps.space/room/{}", i),
            broadcast: format!("wss://test.situps.space/room/broadcast/{}", i),
            users: users.into_iter().map(user_id).collect(),
        });
    }
    for (date, room, user, amount) in [
        (GregorianScheduleDate::new(1555, 2, 13), 0, 0, 10),
        (GregorianScheduleDate::new(1555, 2, 13), 0, 1, 11),
        (GregorianScheduleDate::new(1555, 2, 13), 0, 2, 12),
        (GregorianScheduleDate::new(1555, 2, 13), 0, 3, 13),
        (GregorianScheduleDate::new(1555, 2, 14), 0, 1, 21),
        (GregorianScheduleDate::new(1555, 2, 14), 0, 2, 22),
        (GregorianScheduleDate::new(1555, 2, 14), 0, 3, 23),
        (GregorianScheduleDate::new(1555, 2, 16), 0, 0, 30),
        (GregorianScheduleDate::new(1555, 2, 16), 0, 1, 31),
        (GregorianScheduleDate::new(1555, 2, 17), 0, 0, 40),
        (GregorianScheduleDate::new(1555, 2, 13), 1, 0, 110),
        (GregorianScheduleDate::new(1555, 2, 17), 1, 2, 120),
    ] {
        let entry = Entry {
            id: EntryKey { schedule_date: date, room_id: room_id(room), user_id: user_id(user) },
            value: EntryData { amount: Some(amount) },
        };
        record_update(&mut db, &entry, 0);
    }
    db
}

fn request(room: usize, dates: Vec<GregorianScheduleDate>, mask: [bool; 5])
    -> GetRoomPropertiesRequest {
    GetRoomPropertiesRequest {
        room_id: room_id(room),
        dates,
        entries: mask[0],
        users: mask[1],
        display_name: mask[2],
        url: mask[3],
        broadcast: mask[4],
    }
}

fn ask(db: &Database, request: &GetRoomPropertiesRequest) -> GetRoomPropertiesResponse {
    let direct = get_room_properties(db, request).unwrap();
    let query = Base64EncodedRequest(request.clone()).to_query();
    let text = answer_query(db, &query).unwrap();
    assert_eq!(text, direct.to_text());
    let read = GetRoomPropertiesResponse::from_json(&Json::parse(&text).unwrap());
    assert_eq!(read.as_ref(), Some(&direct));
    direct
}

fn row_count(response: &GetRoomPropertiesResponse) -> usize {
    response.entries.as_ref().unwrap().iter().map(|group| group.entries.len()).sum()
}

fn users_on(response: &GetRoomPropertiesResponse, date: GregorianScheduleDate) -> usize {
    response
        .users
        .as_ref()
        .unwrap()
        .iter()
        .find(|group| group.date == date)
        .map(|group| group.users.len())
        .unwrap()
}

struct Lcg(u64);

impl Lcg {
    fn next(&mut self, low: u64, high: u64) -> u64 {
        self.0 = self.0.wrapping_mul(6364136223846793005).wrapping_add(1442695040888963407);
        low + (self.0 >> 33) % (high - low + 1)
    }
}

#[test]
fn parse_generated_requests() {
    let mut rng = Lcg(7);
    for (low, high) in [(0, 0), (1, 1), (2, 4), (2, 4), (20, 40), (80, 160)] {
        let count = rng.next(low, high);
        let mut id = [0_u8; 12];
        for byte in id.iter_mut() {
            *byte = rng.next(0, 255) as u8;
        }
        let generated = GetRoomPropertiesRequest {
            room_id: RoomId::Object(ObjectId::from_bytes(id)),
            dates: (0..count)
                .map(|_| {
                    GregorianScheduleDate::new(
                        rng.next(1000, 2999) as i32,
                        rng.next(1, 12) as u32,
                        rng.next(1, 27) as u32,
                    )
                })
                .collect(),
            entries: rng.next(0, 1) == 1,
            users: rng.next(0, 1) == 1,
            display_name: rng.next(0, 1) == 1,
            url: rng.next(0, 1) == 1,
            broadcast: rng.next(0, 1) == 1,
        };
        let sent = Base64EncodedRequest(generated.clone());
        let query = sent.to_query();
        assert_eq!(query.len(), 1);
        assert_eq!(query[0].0, "b64");
        let received = Base64EncodedRequest::from_query(&query);
        assert_eq!(received, Ok(sent));
        assert_eq!(decode_query(&query), Ok(generated));
    }
}

#[test]
fn parse_request_with_only_room_id() {
    let query = vec![(
        "b64".to_owned(),
        "eyJyb29tSWQiOnsiJG9pZCI6IjNlNjU0MzAwNzI0NjdmMmE2Yzc4MzExYiJ9fQo".to_owned(),
    )];
    let expected = GetRoomPropertiesRequest {
        room_id: RoomId::Object(ObjectId::from_bytes([62, 101, 67, 0, 114, 70, 127, 42, 108, 120, 49, 27])),
        dates: vec![],
        entries: false,
        users: false,
        display_name: false,
        url: false,
        broadcast: false,
    };
    assert_eq!(Base64EncodedRequest::from_query(&query), Ok(Base64EncodedRequest(expected.clone())));
    assert_eq!(decode_query(&query), Ok(expected));
}

#[test]
fn request_and_check_response() {
    let db = database();

    // All false request.
    assert_eq!(
        ask(&db, &request(0, vec![], [false; 5])),
        GetRoomPropertiesResponse {
            room_id: room_id(0),
            entries: None,
            users: None,
            display_name: None,
            url: None,
            broadcast: None,
        }
    );

    // `display_name`, `url` and `broadcast` are correct for room 0.
    assert_eq!(
        ask(&db, &request(0, vec![], [false, false, true, true, true])),
        GetRoomPropertiesResponse {
            room_id: room_id(0),
            entries: None,
            users: None,
            display_name: Some("OXtvty)RBVzmlvY-".to_owned()),
            url: Some("https://test.situps.space/room/0".to_owned()),
            broadcast: Some("wss://test.situps.space/room/broadcast/0".to_owned()),
        }
    );

    // `display_name`, `url` and `broadcast` are correct for room 1.
    assert_eq!(
        ask(&db, &request(1, vec![], [false, false, true, true, true])),
        GetRoomPropertiesResponse {
            room_id: room_id(1),
            entries: None,
            users: None,
            display_name: Some("m(%0~FiwluTS$".to_owned()),
            url: Some("https://test.situps.space/room/1".to_owned()),
            broadcast: Some("wss://test.situps.space/room/broadcast/1".to_owned()),
        }
    );

    // Request mask works properly.
    let response = ask(&db, &request(1, vec![], [true, false, true, false, true]));
    assert!(
        matches!(response.entries, Some(_))
            && matches!(response.users, None)
            && matches!(response.display_name, Some(_))
            && matches!(response.url, None)
            && matches!(response.broadcast, Some(_))
    );

    // Check the entries for two days.
    let response = ask(
        &db,
        &request(
            0,
            vec![GregorianScheduleDate::new(1555, 2, 14), GregorianScheduleDate::new(1555, 2, 16)],
            [true, false, false, false, false],
        ),
    );
    assert!(
        response.display_name == None
            && response.url == None
            && response.broadcast == None
            && row_count(&response) == 5
    );

    let response = ask(
        &db,
        &request(
            0,
            vec![
                GregorianScheduleDate::new(1555, 2, 13),
                GregorianScheduleDate::new(1555, 2, 14),
                GregorianScheduleDate::new(1555, 2, 14),
                GregorianScheduleDate::new(1555, 2, 16),
                GregorianScheduleDate::new(1555, 2, 17),
            ],
            [true, true, false, false, false],
        ),
    );
    assert!(
        response.display_name == None
            && response.url == None
            && response.broadcast == None
            && row_count(&response) == 10
            && users_on(&response, GregorianScheduleDate::new(1555, 2, 13)) == 4
            && users_on(&response, GregorianScheduleDate::new(1555, 2, 14)) == 3
    );
}

#[test]
fn bad_requests() {
    let db = database();
    let missing = RoomId::Object(ObjectId::from_bytes([9; 12]));
    for query in [
        // Empty parameters.
        vec![],
        // Nonsense JSON.
        // {"WETFCWATF":"FEHWRSUQ","FUNBNCKEWT":110124}
        vec![(
            "b64".to_owned(),
            "eyJXRVRGQ1dBVEYiOiJGRUhXUlNVUSIsIkZVTkJOQ0tFV1QiOjExMDEyNH0K".to_owned(),
        )],
        // Non existant room id.
        Base64EncodedRequest(GetRoomPropertiesRequest {
            room_id: missing,
            dates: vec![],
            entries: false,
            users: false,
            display_name: false,
            url: false,
            broadcast: false,
        })
        .to_query(),
    ] {
        let error = answer_query(&db, &query).unwrap_err();
        assert!(error.is_client_error());
    }
}

#[test]
fn bad_requests_fail_each_in_its_own_way() {
    let db = database();
    let answer = |key: &str, value: &str| {
        answer_query(&db, &vec![(key.to_owned(), value.to_owned())])
    };
    assert_eq!(answer_query(&db, &vec![]), Err(Error::MalformedFrame(Malformed::NoPayload)));
    assert_eq!(answer("data", "e30"), Err(Error::MalformedFrame(Malformed::NoPayload)));
    assert_eq!(answer("b64", "e30="), Err(Error::MalformedFrame(Malformed::NotBase64)));
    assert_eq!(answer("b64", "!!!!"), Err(Error::MalformedFrame(Malformed::NotBase64)));
    // "{\"roomId\"" cut short
    assert_eq!(answer("b64", "eyJyb29tSWQi"), Err(Error::MalformedFrame(Malformed::NotJson)));
    // {}
    assert_eq!(answer("b64", "e30"), Err(Error::MalformedFrame(Malformed::UnknownShape)));
    assert_eq!(
        answer("b64", "eyJXRVRGQ1dBVEYiOiJGRUhXUlNVUSIsIkZVTkJOQ0tFV1QiOjExMDEyNH0K"),
        Err(Error::MalformedFrame(Malformed::UnknownShape))
    );
    assert_eq!(
        answer_query(&db, &Base64EncodedRequest(request(7, vec![], [true; 5])).to_query()),
        Err(Error::NotFound)
    );
}

#[test]
fn aggregation_of_one_date() {
    let db = database();
    let date = GregorianScheduleDate::new(1555, 2, 13);
    let response = ask(&db, &request(0, vec![date], [true, false, false, false, false]));
    assert_eq!(response.users, None);
    assert_eq!(
        response.entries,
        Some(vec![EntryGroup {
            date,
            entries: vec![
                OutputEntry { user: user_id(0), amount: Some(10) },
                OutputEntry { user: user_id(1), amount: Some(11) },
                OutputEntry { user: user_id(2), amount: Some(12) },
                OutputEntry { user: user_id(3), amount: Some(13) },
            ],
        }])
    );
    let rows = &response.entries.as_ref().unwrap()[0].entries;
    assert_eq!(rows.len(), 4);
    assert_eq!(rows.iter().map(|row| row.amount.unwrap()).sum::<u32>(), 46);

    let response = ask(&db, &request(0, vec![date], [true, true, false, false, false]));
    assert_eq!(
        response.users,
        Some(vec![UserGroup { date, users: vec![user_id(0), user_id(1), user_id(2), user_id(3)] }])
    );
    assert_eq!(row_count(&response), 4);
}

#[test]
fn dates_without_rows_are_no_groups() {
    let db = database();
    let asked = vec![
        GregorianScheduleDate::new(1555, 2, 15),
        GregorianScheduleDate::new(1555, 2, 17),
        GregorianScheduleDate::new(1999, 1, 1),
    ];
    let groups = group_entries(&db, &room_id(0), &asked);
    assert_eq!(
        groups,
        vec![EntryGroup {
            date: GregorianScheduleDate::new(1555, 2, 17),
            entries: vec![OutputEntry { user: user_id(0), amount: Some(40) }],
        }]
    );
    assert_eq!(
        group_users(&db, &room_id(1), &asked),
        vec![UserGroup { date: GregorianScheduleDate::new(1555, 2, 17), users: vec![user_id(2)] }]
    );
    assert_eq!(group_entries(&db, &room_id(0), &vec![]), vec![]);
    assert_eq!(group_entries(&db, &room_id(5), &asked), vec![]);
}

#[test]
fn groups_come_in_store_order_and_keep_raw_amounts() {
    let mut db = database();
    let date = GregorianScheduleDate::new(1555, 2, 16);
    for (user, amount) in [(2, Some(0)), (3, None)] {
        let entry = Entry {
            id: EntryKey { schedule_date: date, room_id: room_id(0), user_id: user_id(user) },
            value: EntryData { amount },
        };
        record_update(&mut db, &entry, 1);
    }
    let asked = vec![date, GregorianScheduleDate::new(1555, 2, 13)];
    let groups = group_entries(&db, &room_id(0), &asked);
    assert_eq!(groups.len(), 2);
    assert_eq!(groups[0].date, GregorianScheduleDate::new(1555, 2, 13));
    assert_eq!(groups[1].date, date);
    assert_eq!(
        groups[1].entries,
        vec![
            OutputEntry { user: user_id(0), amount: Some(30) },
            OutputEntry { user: user_id(1), amount: Some(31) },
            OutputEntry { user: user_id(2), amount: Some(0) },
            OutputEntry { user: user_id(3), amount: None },
        ]
    );
}

#[test]
fn mask_hides_what_is_not_asked_for() {
    let db = database();
    let date = GregorianScheduleDate::new(1555, 2, 13);
    for bits in 0..32_u32 {
        let mask = [bits & 1 != 0, bits & 2 != 0, bits & 4 != 0, bits & 8 != 0, bits & 16 != 0];
        let response = ask(&db, &request(0, vec![date], mask));
        assert_eq!(response.room_id, room_id(0));
        assert_eq!(response.entries.is_some(), mask[0]);
        assert_eq!(response.users.is_some(), mask[1]);
        assert_eq!(response.display_name.is_some(), mask[2]);
        assert_eq!(response.url.is_some(), mask[3]);
        assert_eq!(response.broadcast.is_some(), mask[4]);
    }
}

#[test]
fn assemble_copies_the_room_verbatim() {
    let room = Room {
        id: room_id(3),
        display_name: "n".to_owned(),
        url: "u".to_owned(),
        broadcast: "b".to_owned(),
        users: vec![],
    };
    let response = assemble(&request(3, vec![], [false, true, true, false, true]), &room, vec![], vec![]);
    assert_eq!(
        response,
        GetRoomPropertiesResponse {
            room_id: room_id(3),
            entries: None,
            users: Some(vec![]),
            display_name: Some("n".to_owned()),
            url: None,
            broadcast: Some("b".to_owned()),
        }
    );
}

#[test]
fn answer_text_is_exact() {
    let db = database();
    let date = GregorianScheduleDate::new(1555, 2, 17);
    let text = answer_query(
        &db,
        &Base64EncodedRequest(request(1, vec![date], [true, true, true, false, false])).to_query(),
    )
    .unwrap();
    assert_eq!(
        text,
        "{\"roomId\":{\"$oid\":\"5a5a5a5a5a5a5a5a5a5a5a01\"},\
         \"entries\":[[{\"year\":1555,\"month\":2,\"day\":17},[{\"user\":\"u2\",\"amount\":120}]]],\
         \"users\":[[{\"year\":1555,\"month\":2,\"day\":17},[\"u2\"]]],\
         \"displayName\":\"m(%0~FiwluTS$\",\"url\":null,\"broadcast\":null}"
    );
    let tree = Json::parse(&text).unwrap();
    assert_eq!(tree.field("url"), Some(&Json::Null));
    assert_eq!(tree.field("displayName"), Some(&Json::Text("m(%0~FiwluTS$".to_owned())));
    assert_eq!(tree.field("missing"), None);
}

#[test]
fn encoded_query_is_exact() {
    let query = Base64EncodedRequest(request(0, vec![], [false; 5])).to_query();
    // {"roomId":{"$oid":"5a5a5a5a5a5a5a5a5a5a5a00"},"dates":[],"entries":false,
    //  "users":false,"displayName":false,"url":false,"broadcast":false}
    assert_eq!(
        query,
        vec![(
            "b64".to_owned(),
            "eyJyb29tSWQiOnsiJG9pZCI6IjVhNWE1YTVhNWE1YTVhNWE1YTVhNWEwMCJ9LCJkYXRlcyI6W10sImVudHJpZXMiOmZhbHNlLCJ1c2VycyI6ZmFsc2UsImRpc3BsYXlOYW1lIjpmYWxzZSwidXJsIjpmYWxzZSwiYnJvYWRjYXN0IjpmYWxzZX0"
                .to_owned()
        )]
    );
}

#[test]
fn plain_query_names_room_and_mask() {
    let pairs = |items: &[(&str, &str)]| -> Vec<(String, String)> {
        items.iter().map(|(k, v)| (k.to_string(), v.to_string())).collect()
    };
    let hex = "3e65430072467f2a6c78311b";
    let id = RoomId::Object(ObjectId::from_bytes([62, 101, 67, 0, 114, 70, 127, 42, 108, 120, 49, 27]));
    let expected = |mask: [bool; 5]| GetRoomPropertiesRequest {
        room_id: id.clone(),
        dates: vec![],
        entries: mask[0],
        users: mask[1],
        display_name: mask[2],
        url: mask[3],
        broadcast: mask[4],
    };
    assert_eq!(decode_query(&pairs(&[("roomId", hex)])), Ok(expected([false; 5])));
    assert_eq!(
        decode_query(&pairs(&[("roomId", hex), ("displayName", "true"), ("broadcast", "true")])),
        Ok(expected([false, false, true, false, true]))
    );
    assert_eq!(
        read_plain_request(&pairs(&[("users", "true"), ("other", "1"), ("roomId", hex), ("url", "false")])),
        Some(expected([false, true, false, false, false]))
    );
    assert_eq!(read_plain_request(&pairs(&[("roomId", hex), ("url", "yes")])), None);
    assert_eq!(
        read_plain_request(&pairs(&[("roomId", "3E65430072467F2A6C78311B")])),
        Some(expected([false; 5]))
    );
    let named = |name: &str, dates: Vec<GregorianScheduleDate>| GetRoomPropertiesRequest {
        room_id: RoomId::Name(name.to_owned()),
        dates,
        entries: false,
        users: false,
        display_name: false,
        url: false,
        broadcast: false,
    };
    assert_eq!(read_plain_request(&pairs(&[("roomId", "3e65")])), Some(named("3e65", vec![])));
    assert_eq!(decode_query(&pairs(&[("roomId", "r0")])), Ok(named("r0", vec![])));
    assert_eq!(
        decode_query(&pairs(&[
            ("roomId", "r0"),
            ("dates", "[{\"year\":1555,\"month\":2,\"day\":13},{\"year\":1,\"month\":1,\"day\":1}]"),
        ])),
        Ok(named(
            "r0",
            vec![GregorianScheduleDate::new(1555, 2, 13), GregorianScheduleDate::new(1, 1, 1)]
        ))
    );
    assert_eq!(decode_query(&pairs(&[("roomId", "r0"), ("dates", "[]")])), Ok(named("r0", vec![])));
    for dates in ["", "1555-02-13", "{}", "[1]", "[{\"year\":1,\"month\":13,\"day\":1}]", "null"] {
        assert_eq!(read_plain_request(&pairs(&[("roomId", "r0"), ("dates", dates)])), None);
        assert_eq!(
            decode_query(&pairs(&[("roomId", "r0"), ("dates", dates)])),
            Err(Error::MalformedFrame(Malformed::NoPayload))
        );
    }
    assert_eq!(read_plain_request(&pairs(&[("entries", "true")])), None);
    assert_eq!(
        decode_query(&pairs(&[("room", "xyz")])),
        Err(Error::MalformedFrame(Malformed::NoPayload))
    );
    let list = pairs(&[("a", "1"), ("b", "2"), ("a", "3")]);
    assert_eq!(find_parameter(&list, "a"), Some(&"1".to_owned()));
    assert_eq!(find_parameter(&list, "b"), Some(&"2".to_owned()));
    assert_eq!(find_parameter(&list, "c"), None);
}

#[test]
fn defaults_of_a_query() {
    assert!(!default_as_false());
    assert_eq!(default_as_empty_vec::<GregorianScheduleDate>(), vec![]);
    let dates = vec![GregorianScheduleDate::new(1, 2, 3)];
    assert!(date_among(&dates, GregorianScheduleDate::new(1, 2, 3)));
    assert!(!date_among(&dates, GregorianScheduleDate::new(1, 2, 4)));
}

#[test]
fn query_json_defaults_and_rejections() {
    let read = |text: &str| GetRoomPropertiesRequest::from_json(&Json::parse(text).unwrap());
    let oid = "{\"$oid\":\"3e65430072467f2a6c78311b\"}";
    let id = RoomId::Object(ObjectId::from_bytes([62, 101, 67, 0, 114, 70, 127, 42, 108, 120, 49, 27]));
    let got = read(&format!(
        "{{\"roomId\":{},\"dates\":[{{\"year\":-4,\"month\":12,\"day\":31}}],\"users\":true,\"extra\":5}}",
        oid
    ))
    .unwrap();
    assert_eq!(
        got,
        GetRoomPropertiesRequest {
            room_id: id.clone(),
            dates: vec![GregorianScheduleDate::new(-4, 12, 31)],
            entries: false,
            users: true,
            display_name: false,
            url: false,
            broadcast: false,
        }
    );
    assert_eq!(read(&format!("{{\"roomId\":{},\"dates\":5}}", oid)), None);
    assert_eq!(read(&format!("{{\"roomId\":{},\"url\":\"true\"}}", oid)), None);
    assert_eq!(read(&format!("{{\"roomId\":{},\"dates\":[{{\"year\":1,\"month\":13,\"day\":1}}]}}", oid)), None);
    assert_eq!(read(&format!("{{\"roomId\":{},\"dates\":[{{\"year\":1,\"month\":1,\"day\":0}}]}}", oid)), None);
    assert_eq!(read(&format!("{{\"roomId\":{},\"dates\":[{{\"year\":1.5,\"month\":1,\"day\":1}}]}}", oid)), None);
    let bare = |room_id: RoomId| GetRoomPropertiesRequest {
        room_id,
        dates: vec![],
        entries: false,
        users: false,
        display_name: false,
        url: false,
        broadcast: false,
    };
    assert_eq!(read("{\"roomId\":\"3e65430072467f2a6c78311b\"}"), Some(bare(id.clone())));
    assert_eq!(read("{\"roomId\":\"3E65430072467F2A6C78311B\"}"), Some(bare(id.clone())));
    assert_eq!(read("{\"roomId\":\"r0\"}"), Some(bare(RoomId::Name("r0".to_owned()))));
    assert_eq!(read("{\"roomId\":{\"$oid\":\"r0\"}}"), None);
    assert_eq!(read("{\"roomId\":5}"), None);
    assert_eq!(read("{\"dates\":[]}"), None);
    assert_eq!(read("[]"), None);
}

#[test]
fn answers_read_back_and_reject_other_shapes() {
    let read = |text: &str| GetRoomPropertiesResponse::from_json(&Json::parse(text).unwrap());
    let id = RoomId::Object(ObjectId::from_bytes([62, 101, 67, 0, 114, 70, 127, 42, 108, 120, 49, 27]));
    let oid = "{\"$oid\":\"3e65430072467f2a6c78311b\"}";
    assert_eq!(
        read(&format!("{{\"roomId\":{}}}", oid)),
        Some(GetRoomPropertiesResponse {
            room_id: id.clone(),
            entries: None,
            users: None,
            display_name: None,
            url: None,
            broadcast: None,
        })
    );
    let date = "{\"year\":1,\"month\":2,\"day\":3}";
    assert_eq!(
        read(&format!(
            "{{\"roomId\":{},\"entries\":[[{},[{{\"user\":\"a\"}},{{\"user\":\"b\",\"amount\":4}}]]],\"users\":[[{},[]]],\"url\":\"u\"}}",
            oid, date, date
        )),
        Some(GetRoomPropertiesResponse {
            room_id: id.clone(),
            entries: Some(vec![EntryGroup {
                date: GregorianScheduleDate::new(1, 2, 3),
                entries: vec![
                    OutputEntry { user: "a".to_owned(), amount: None },
                    OutputEntry { user: "b".to_owned(), amount: Some(4) },
                ],
            }]),
            users: Some(vec![UserGroup { date: GregorianScheduleDate::new(1, 2, 3), users: vec![] }]),
            display_name: None,
            url: Some("u".to_owned()),
            broadcast: None,
        })
    );
    assert_eq!(read("{}"), None);
    assert_eq!(read(&format!("{{\"roomId\":{},\"url\":5}}", oid)), None);
    assert_eq!(read(&format!("{{\"roomId\":{},\"entries\":{{}}}}", oid)), None);
    assert_eq!(read(&format!("{{\"roomId\":{},\"entries\":[[{}]]}}", oid, date)), None);
    assert_eq!(read(&format!("{{\"roomId\":{},\"entries\":[[{},[{{}}]]]}}", oid, date)), None);
    assert_eq!(read(&format!("{{\"roomId\":{},\"users\":[[{},[1]]]}}", oid, date)), None);
    assert_eq!(read(&format!("{{\"roomId\":{},\"users\":[[{},[],[]]]}}", oid, date)), None);
    assert_eq!(
        EntryGroup::from_json(&Json::parse(&format!("[{},[]]", date)).unwrap()),
        Some(EntryGroup { date: GregorianScheduleDate::new(1, 2, 3), entries: vec![] })
    );
    assert_eq!(UserGroup::from_json(&Json::parse("[1,[]]").unwrap()), None);
    assert_eq!(
        OutputEntry::from_json(&Json::parse("{\"user\":\"a\",\"amount\":-1}").unwrap()),
        None
    );
}

#[test]
fn users_follow_the_entries_of_each_group() {
    let db = database();
    let asked = vec![
        GregorianScheduleDate::new(1555, 2, 14),
        GregorianScheduleDate::new(1555, 2, 13),
    ];
    let entries = group_entries(&db, &room_id(0), &asked);
    assert_eq!(users_of_entry_groups(&entries), group_users(&db, &room_id(0), &asked));
    assert_eq!(users_of_entry_groups(&vec![]), vec![]);
}

#[test]
fn rooms_named_by_text_are_queried_like_any_other() {
    let mut db = Database::new();
    let r0 = RoomId::Name("r0".to_owned());
    db.insert_room(Room {
        id: r0.clone(),
        display_name: "zero".to_owned(),
        url: "https://test.situps.space/room/0".to_owned(),
        broadcast: "wss://test.situps.space/room/broadcast/0".to_owned(),
        users: (0..4).map(user_id).collect(),
    });
    let date = GregorianScheduleDate::new(1555, 2, 13);
    for (user, amount) in [(0, 10), (1, 11), (2, 12), (3, 13)] {
        let entry = Entry {
            id: EntryKey { schedule_date: date, room_id: r0.clone(), user_id: user_id(user) },
            value: EntryData { amount: Some(amount) },
        };
        record_update(&mut db, &entry, 0);
    }
    let other = Entry {
        id: EntryKey { schedule_date: date, room_id: room_id(0), user_id: user_id(0) },
        value: EntryData { amount: Some(99) },
    };
    record_update(&mut db, &other, 0);
    let asked = GetRoomPropertiesRequest {
        room_id: r0.clone(),
        dates: vec![date],
        entries: true,
        users: true,
        display_name: false,
        url: false,
        broadcast: false,
    };
    let response = ask(&db, &asked);
    let rows = &response.entries.as_ref().unwrap()[0].entries;
    assert_eq!(rows.len(), 4);
    assert_eq!(rows.iter().map(|row| row.amount.unwrap()).sum::<u32>(), 46);
    assert_eq!(response.users.as_ref().unwrap()[0].users.len(), 4);
    assert_eq!(response.room_id, r0);
    let plain = vec![
        ("roomId".to_owned(), "r0".to_owned()),
        ("dates".to_owned(), "[{\"year\":1555,\"month\":2,\"day\":13}]".to_owned()),
        ("entries".to_owned(), "true".to_owned()),
        ("users".to_owned(), "true".to_owned()),
    ];
    assert_eq!(decode_query(&plain), Ok(asked));
    assert_eq!(answer_query(&db, &plain), Ok(response.to_text()));
    assert!(response.to_text().starts_with("{\"roomId\":\"r0\",\"entries\":[["));
}
