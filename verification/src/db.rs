//! The entry store: users, rooms, the current entries and the audit log.
//!
//! At most one entry exists per key. The audit log only grows: every update
//! adds one record at its end, and nothing ever changes or removes a record.
//!
//! This store keeps everything in memory. A deployment that persists in a
//! database asks the database the same questions and hands its answers to
//! the session rules, which take them as they come, failures included.

use vstd::prelude::*;

use crate::room_id::{RoomId, RoomIdView};
use crate::schemes::{
    Entry, EntryData, EntryKey, EntryKeyView, EntryView, Room, RoomView, UpdateEntryCommit,
    UpdateEntryCommitView, User, UserView,
};
use crate::views::{view_of, views_of};

verus! {

/// Everything the store holds.
pub struct Database {
    users: Vec<User>,
    rooms: Vec<Room>,
    entries: Vec<Entry>,
    commits: Vec<UpdateEntryCommit>,
}

/// What a [`Database`] holds, as contracts speak of it.
pub struct DatabaseView {
    pub users: Seq<UserView>,
    pub rooms: Seq<RoomView>,
    pub entries: Seq<EntryView>,
    pub commits: Seq<UpdateEntryCommitView>,
}

impl View for Database {
    type V = DatabaseView;

    closed spec fn view(&self) -> DatabaseView {
        DatabaseView {
            users: views_of(self.users@),
            rooms: views_of(self.rooms@),
            entries: views_of(self.entries@),
            commits: views_of(self.commits@),
        }
    }
}

/// No two entries have the same key.
pub open spec fn keys_distinct(entries: Seq<EntryView>) -> bool {
    forall|i: int, j: int|
        0 <= i < j < entries.len() ==> (#[trigger] entries[i]).id != (#[trigger] entries[j]).id
}

/// The position of the first entry under `key` at or after `from`.
pub open spec fn index_of_key(entries: Seq<EntryView>, key: EntryKeyView, from: int) -> Option<int>
    decreases entries.len() - from,
{
    if from < 0 || from >= entries.len() {
        None
    } else if entries[from].id == key {
        Some(from)
    } else {
        index_of_key(entries, key, from + 1)
    }
}

/// The value stored under `key`, if there is an entry.
pub open spec fn stored(entries: Seq<EntryView>, key: EntryKeyView) -> Option<EntryData> {
    match index_of_key(entries, key, 0) {
        Some(i) => Some(entries[i].value),
        None => None,
    }
}

/// What a client gets to see of a stored value: only an amount above zero
/// counts as an entry.
pub open spec fn positive_only(found: Option<EntryData>) -> Option<EntryData> {
    match found {
        Some(data) => match data.amount {
            Some(amount) => if amount > 0 {
                Some(data)
            } else {
                None
            },
            None => None,
        },
        None => None,
    }
}

/// The entries once `entry` is written: in the place of the entry with its
/// key where there is one, else at the end.
pub open spec fn upsert(entries: Seq<EntryView>, entry: EntryView) -> Seq<EntryView> {
    match index_of_key(entries, entry.id, 0) {
        Some(i) => entries.update(i, entry),
        None => entries.push(entry),
    }
}

/// The store once an update of `entry` at time `date` is recorded: one more
/// record at the end of the audit log, and the entry written.
pub open spec fn recorded(db: DatabaseView, entry: EntryView, date: i64) -> DatabaseView {
    DatabaseView {
        users: db.users,
        rooms: db.rooms,
        entries: upsert(db.entries, entry),
        commits: db.commits.push(UpdateEntryCommitView { date, data: entry }),
    }
}

/// The first room with the identifier `id`.
pub open spec fn room_of(rooms: Seq<RoomView>, id: RoomIdView, from: int) -> Option<RoomView>
    decreases rooms.len() - from,
{
    if from < 0 || from >= rooms.len() {
        None
    } else if rooms[from].id == id {
        Some(rooms[from])
    } else {
        room_of(rooms, id, from + 1)
    }
}

/// Where `index_of_key` finds an entry, it is the first under the key; where
/// it finds none, there is none.
pub proof fn lemma_index_of_key(entries: Seq<EntryView>, key: EntryKeyView, from: int)
    requires
        0 <= from,
    ensures
        match index_of_key(entries, key, from) {
            Some(i) => from <= i < entries.len() && entries[i].id == key && forall|k: int|
                from <= k < i ==> (#[trigger] entries[k]).id != key,
            None => forall|k: int| from <= k < entries.len() ==> (#[trigger] entries[k]).id != key,
        },
    decreases entries.len() - from,
{
    if from < entries.len() && entries[from].id != key {
        lemma_index_of_key(entries, key, from + 1);
    }
}

/// With distinct keys, an entry is found exactly where it stands.
pub proof fn lemma_index_found(entries: Seq<EntryView>, i: int)
    requires
        keys_distinct(entries),
        0 <= i < entries.len(),
    ensures
        index_of_key(entries, entries[i].id, 0) == Some(i),
{
    lemma_index_of_key(entries, entries[i].id, 0);
    let found = index_of_key(entries, entries[i].id, 0);
    if found is None {
        assert(entries[i].id != entries[i].id);
    } else {
        let k = found.unwrap();
        if k < i {
            assert(entries[k].id != entries[i].id);
        } else if i < k {
            assert(entries[i].id != entries[k].id);
        }
    }
}

/// Writing an entry leaves the store with distinct keys.
pub proof fn lemma_upsert_keeps_keys_distinct(entries: Seq<EntryView>, entry: EntryView)
    requires
        keys_distinct(entries),
    ensures
        keys_distinct(upsert(entries, entry)),
{
    lemma_index_of_key(entries, entry.id, 0);
    let after = upsert(entries, entry);
    assert forall|i: int, j: int| 0 <= i < j < after.len() implies (#[trigger] after[i]).id != (
    #[trigger] after[j]).id by {
        match index_of_key(entries, entry.id, 0) {
            Some(at) => {
                assert(after[i].id == entries[i].id);
                assert(after[j].id == entries[j].id);
            },
            None => {
                if j < entries.len() {
                    assert(after[i] == entries[i]);
                    assert(after[j] == entries[j]);
                } else {
                    assert(after[i] == entries[i]);
                    assert(entries[i].id != entry.id);
                }
            },
        }
    }
}

/// After an update, the store holds the written value under the entry's
/// key.
pub proof fn lemma_stored_after_upsert(entries: Seq<EntryView>, entry: EntryView)
    requires
        keys_distinct(entries),
    ensures
        stored(upsert(entries, entry), entry.id) == Some(entry.value),
{
    lemma_index_of_key(entries, entry.id, 0);
    lemma_upsert_keeps_keys_distinct(entries, entry);
    let after = upsert(entries, entry);
    let at = match index_of_key(entries, entry.id, 0) {
        Some(i) => i,
        None => entries.len() as int,
    };
    assert(after[at] == entry);
    lemma_index_found(after, at);
}

/// An update changes nothing under any other key.
pub proof fn lemma_upsert_leaves_others(
    entries: Seq<EntryView>,
    entry: EntryView,
    key: EntryKeyView,
)
    requires
        key != entry.id,
    ensures
        stored(upsert(entries, entry), key) == stored(entries, key),
{
    lemma_index_of_key(entries, entry.id, 0);
    lemma_index_of_key(entries, key, 0);
    let after = upsert(entries, entry);
    lemma_index_of_key(after, key, 0);
    assert forall|k: int| 0 <= k < entries.len() implies (#[trigger] after[k]).id
        == entries[k].id by {}
    match index_of_key(entries, key, 0) {
        Some(i) => {
            assert(after[i].id == key);
            let found = index_of_key(after, key, 0);
            if found is Some {
                let k = found.unwrap();
                if k < i {
                    assert(after[k].id == entries[k].id);
                    assert(entries[k].id != key);
                } else if i < k {
                }
            }
            assert(after[i] == entries[i]);
        },
        None => {
            let found = index_of_key(after, key, 0);
            if found is Some {
                let k = found.unwrap();
                if k < entries.len() {
                    assert(after[k].id == entries[k].id);
                    assert(entries[k].id != key);
                }
            }
        },
    }
}

impl Database {
    /// No two entries have the same key. Every store that this module hands
    /// out is well formed, and every operation keeps it so.
    pub open spec fn well_formed(&self) -> bool {
        keys_distinct(self@.entries)
    }

    /// A store that holds nothing.
    pub fn new() -> (db: Database)
        ensures
            db.well_formed(),
            db@ == (DatabaseView {
                users: Seq::empty(),
                rooms: Seq::empty(),
                entries: Seq::empty(),
                commits: Seq::empty(),
            }),
    {
        let db = Database {
            users: Vec::new(),
            rooms: Vec::new(),
            entries: Vec::new(),
            commits: Vec::new(),
        };
        assert(db@.users =~= Seq::empty());
        assert(db@.rooms =~= Seq::empty());
        assert(db@.entries =~= Seq::empty());
        assert(db@.commits =~= Seq::empty());
        db
    }

    /// Adds a user at the end of the user list.
    pub fn insert_user(&mut self, user: User)
        ensures
            final(self)@ == (DatabaseView { users: old(self)@.users.push(user@), ..old(self)@ }),
    {
        self.users.push(user);
        assert(self@.users =~= old(self)@.users.push(user@));
    }

    /// Adds a room at the end of the room list.
    pub fn insert_room(&mut self, room: Room)
        ensures
            final(self)@ == (DatabaseView { rooms: old(self)@.rooms.push(room@), ..old(self)@ }),
    {
        self.rooms.push(room);
        assert(self@.rooms =~= old(self)@.rooms.push(room@));
    }

    /// The audit log, oldest record first.
    pub fn commits(&self) -> (log: &Vec<UpdateEntryCommit>)
        ensures
            views_of(log@) == self@.commits,
    {
        &self.commits
    }

    /// The current entries.
    pub fn entries(&self) -> (entries: &Vec<Entry>)
        ensures
            views_of(entries@) == self@.entries,
    {
        &self.entries
    }

    /// The first room with the identifier `id`.
    pub fn find_room(&self, id: &RoomId) -> (room: Option<&Room>)
        ensures
            view_of(room) == room_of(self@.rooms, id@, 0),
    {
        let mut i: usize = 0;
        while i < self.rooms.len()
            invariant
                i <= self.rooms.len(),
                room_of(self@.rooms, id@, 0) == room_of(self@.rooms, id@, i as int),
            decreases self.rooms.len() - i,
        {
            if self.rooms[i].id.same(id) {
                return Some(&self.rooms[i]);
            }
            i += 1;
        }
        None
    }

    /// Where the entry under `key` stands.
    fn position(&self, key: &EntryKey) -> (r: Option<usize>)
        ensures
            r is Some <==> index_of_key(self@.entries, key@, 0) is Some,
            r matches Some(i) ==> i < self.entries.len() && self.entries[i as int].id@ == key@
                && index_of_key(self@.entries, key@, 0) == Some(i as int),
    {
        let mut i: usize = 0;
        while i < self.entries.len()
            invariant
                i <= self.entries.len(),
                index_of_key(self@.entries, key@, 0) == index_of_key(
                    self@.entries,
                    key@,
                    i as int,
                ),
            decreases self.entries.len() - i,
        {
            if self.entries[i].id.same(key) {
                return Some(i);
            }
            i += 1;
        }
        None
    }
}

/// The user list, in the order in which the users were added.
pub fn get_users(db: &Database) -> (users: Vec<User>)
    ensures
        views_of(users@) == db@.users,
{
    let mut users: Vec<User> = Vec::new();
    let mut i: usize = 0;
    while i < db.users.len()
        invariant
            i <= db.users.len(),
            users.len() == i,
            forall|k: int| 0 <= k < i ==> (#[trigger] users[k])@ == db.users[k]@,
        decreases db.users.len() - i,
    {
        users.push(db.users[i].clone());
        i += 1;
    }
    assert(views_of(users@) =~= db@.users);
    users
}

/// The value under `key` as a client gets to see it: the stored value where
/// there is an entry with an amount above zero, else nothing.
pub fn get_entry_data(db: &Database, entry_key: &EntryKey) -> (found: Option<EntryData>)
    ensures
        found == positive_only(stored(db@.entries, entry_key@)),
{
    match db.position(entry_key) {
        Some(i) => {
            let data = db.entries[i].value;
            match data.amount {
                Some(amount) => if amount > 0 {
                    Some(data)
                } else {
                    None
                },
                None => None,
            }
        },
        None => None,
    }
}

/// Records an update made at time `date`: first a record at the end of the
/// audit log, then the entry itself, in the place of the one with its key
/// where there is one.
pub fn record_update(db: &mut Database, entry: &Entry, date: i64)
    requires
        old(db).well_formed(),
    ensures
        final(db).well_formed(),
        final(db)@ == recorded(old(db)@, entry@, date),
{
    db.commits.push(UpdateEntryCommit { date, data: entry.clone() });
    assert(db@.commits =~= old(db)@.commits.push(
        UpdateEntryCommitView { date, data: entry@ },
    ));
    match db.position(&entry.id) {
        Some(i) => {
            db.entries[i].value = entry.value;
            proof {
                lemma_index_of_key(old(db)@.entries, entry@.id, 0);
                assert(db@.entries =~= old(db)@.entries.update(i as int, entry@));
            }
        },
        None => {
            db.entries.push(entry.clone());
            assert(db@.entries =~= old(db)@.entries.push(entry@));
        },
    }
    proof {
        lemma_upsert_keeps_keys_distinct(old(db)@.entries, entry@);
    }
}

/// The time of the system clock, from `chrono::Utc::now`, in milliseconds
/// since the start of 1970. Nothing is known of the value.
#[verifier::external_body]
pub(crate) fn now_millis() -> (date: i64) {
    chrono::Utc::now().timestamp_millis()
}

/// Records an update made now: one more record at the end of the audit log,
/// which holds the entry, and the entry written.
pub fn update_entry(db: &mut Database, entry: &Entry)
    requires
        old(db).well_formed(),
    ensures
        final(db).well_formed(),
        final(db)@ == recorded(old(db)@, entry@, final(db)@.commits.last().date),
{
    let date = now_millis();
    record_update(db, entry, date);
}

/// What a client reads after an update is what the update wrote, where the
/// amount is above zero, and nothing where it is not.
pub proof fn lemma_update_then_get(db: DatabaseView, entry: EntryView, date: i64)
    requires
        keys_distinct(db.entries),
    ensures
        positive_only(stored(recorded(db, entry, date).entries, entry.id)) == positive_only(
            Some(entry.value),
        ),
        entry.value.amount matches Some(amount) && amount > 0 ==> positive_only(
            stored(recorded(db, entry, date).entries, entry.id),
        ) == Some(entry.value),
{
    lemma_stored_after_upsert(db.entries, entry);
}

/// An update changes what a client reads under no other key.
pub proof fn lemma_update_leaves_other_keys(
    db: DatabaseView,
    entry: EntryView,
    date: i64,
    key: EntryKeyView,
)
    requires
        key != entry.id,
    ensures
        stored(recorded(db, entry, date).entries, key) == stored(db.entries, key),
{
    lemma_upsert_leaves_others(db.entries, entry, key);
}

/// Each update makes the audit log longer by exactly one record and leaves
/// every earlier record where it was.
pub proof fn lemma_audit_log_grows(db: DatabaseView, entry: EntryView, date: i64)
    ensures
        recorded(db, entry, date).commits.len() == db.commits.len() + 1,
        recorded(db, entry, date).commits.subrange(0, db.commits.len() as int) == db.commits,
        recorded(db, entry, date).commits.last() == (UpdateEntryCommitView { date, data: entry }),
{
    assert(recorded(db, entry, date).commits.subrange(0, db.commits.len() as int)
        =~= db.commits);
}

} // verus!
