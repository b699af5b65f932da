//! The rules of one connection.
//!
//! A session goes from `Connecting` to `Established` when the connection is
//! upgraded, to `Active` once its reader and its writer run, and to `Closed`
//! when it ends, for whatever reason. The reader hands each inbound frame to
//! [`Session::receive`] and carries out the step it is told; the writer
//! sends what [`next_outbound`] takes out of the mailbox.

use vstd::prelude::*;

use crate::api::{parse_raw_request, request_of_frame, Frame, FrameView};
use crate::db::{
    get_entry_data, now_millis, positive_only, record_update, recorded, stored, Database,
};
use crate::entry_event::response::{GetEntryData, GetEntryDataView, UpdateEntry};
use crate::entry_event::{
    response_json, Request, RequestView, Response, ResponseView,
};
use crate::error::{Error, StoreUnavailable, TransportError};
use crate::json::printed_json;
use crate::registry::{delivered, MailboxHandle, Registry};
use crate::schemes::{Entry, EntryData, EntryKey};
use crate::views::{ok_view, views_of};

verus! {

#[derive(Clone, Copy, Debug, PartialEq, Eq, Structural)]
pub enum SessionState {
    Connecting,
    Established,
    Active,
    Closed,
}

/// One connection: its identity and how far it has come.
#[derive(Debug)]
pub struct Session {
    id: u64,
    state: SessionState,
}

/// What a [`Session`] holds, as contracts speak of it.
pub struct SessionView {
    pub id: u64,
    pub state: SessionState,
}

impl View for Session {
    type V = SessionView;

    closed spec fn view(&self) -> SessionView {
        SessionView { id: self.id, state: self.state }
    }
}

/// What the reader does next.
#[derive(Debug, PartialEq, Eq)]
pub enum Step {
    /// Nothing: the session is not active, and the frame is dropped.
    Idle,
    /// Carry out the request.
    Dispatch(Request),
    /// Stop reading: the connection has ended, for this reason.
    Terminate(Error),
}

/// What a [`Step`] holds, as contracts speak of it.
pub enum StepView {
    Idle,
    Dispatch(RequestView),
    Terminate(Error),
}

impl View for Step {
    type V = StepView;

    open spec fn view(&self) -> StepView {
        match self {
            Step::Idle => StepView::Idle,
            Step::Dispatch(request) => StepView::Dispatch(request@),
            Step::Terminate(error) => StepView::Terminate(*error),
        }
    }
}

/// The step that a read from the transport leads to.
pub open spec fn step_of(state: SessionState, msg: Result<FrameView, TransportError>) -> StepView {
    if state != SessionState::Active {
        StepView::Idle
    } else {
        match request_of_frame(msg) {
            Ok(request) => StepView::Dispatch(request),
            Err(error) => StepView::Terminate(error),
        }
    }
}

/// The mailboxes once `frame` is at the end of the mailbox of `id` alone.
/// Nothing changes where `id` is not registered.
pub open spec fn replied(mailboxes: Map<u64, Seq<ResponseView>>, id: u64, frame: ResponseView)
    -> Map<u64, Seq<ResponseView>> {
    if mailboxes.dom().contains(id) {
        mailboxes.insert(id, mailboxes[id].push(frame))
    } else {
        mailboxes
    }
}

/// The answer to a request for the entry under `key`, given what the store
/// found. Only an amount above zero counts as an entry.
pub open spec fn answer_frame(key: crate::schemes::EntryKeyView, found: Option<EntryData>)
    -> ResponseView {
    ResponseView::GetEntryData(
        GetEntryDataView { entry_key: key, entry_data: positive_only(found) },
    )
}

impl Session {
    /// A session for a connection that is not yet upgraded.
    pub fn new(id: u64) -> (session: Session)
        ensures
            session@ == (SessionView { id, state: SessionState::Connecting }),
    {
        Session { id, state: SessionState::Connecting }
    }

    /// The identity of the connection.
    pub fn id(&self) -> (id: u64)
        ensures
            id == self@.id,
    {
        self.id
    }

    /// How far the session has come.
    pub fn state(&self) -> (state: SessionState)
        ensures
            state == self@.state,
    {
        self.state
    }

    /// The connection is upgraded: the session registers, with
    /// `ConnectionEstablished` as the first frame in its own mailbox, and is
    /// `Established`. Gives the handle to drain the mailbox. A session that
    /// is not `Connecting` stays as it is and gets no handle.
    pub fn upgrade(&mut self, registry: &mut Registry) -> (handle: Option<MailboxHandle>)
        ensures
            final(self)@.id == old(self)@.id,
            handle is Some <==> old(self)@.state == SessionState::Connecting,
            handle matches Some(h) ==> h.id == old(self)@.id && final(self)@.state
                == SessionState::Established && final(registry)@ == old(registry)@.insert(
                old(self)@.id,
                seq![ResponseView::ConnectionEstablished],
            ),
            handle is None ==> final(self)@ == old(self)@ && final(registry)@ == old(registry)@,
    {
        match self.state {
            SessionState::Connecting => {
                let handle = registry.register(self.id);
                let sent = registry.send(self.id, Response::ConnectionEstablished);
                self.state = SessionState::Established;
                proof {
                    let fresh = old(registry)@.insert(self.id, Seq::empty());
                    assert(Seq::<ResponseView>::empty().push(ResponseView::ConnectionEstablished)
                        =~= seq![ResponseView::ConnectionEstablished]);
                    assert(registry@ =~= old(registry)@.insert(
                        self.id,
                        seq![ResponseView::ConnectionEstablished],
                    ));
                }
                Some(handle)
            },
            _ => None,
        }
    }

    /// Reader and writer run: an `Established` session is `Active`. Tells
    /// whether it is; a session in any other state stays as it is.
    pub fn activate(&mut self) -> (active: bool)
        ensures
            final(self)@.id == old(self)@.id,
            active == (old(self)@.state == SessionState::Established),
            active ==> final(self)@.state == SessionState::Active,
            !active ==> final(self)@ == old(self)@,
    {
        match self.state {
            SessionState::Established => {
                self.state = SessionState::Active;
                true
            },
            _ => false,
        }
    }

    /// Takes what a read from the transport delivered. A request is handed
    /// back to be carried out. A failed read or a malformed frame ends this
    /// connection and no other: the session is `Closed` and unregistered.
    pub fn receive(&mut self, msg: Result<Frame, TransportError>, registry: &mut Registry) -> (step:
        Step)
        ensures
            step@ == step_of(old(self)@.state, ok_view(msg)),
            final(self)@.id == old(self)@.id,
            step@ is Terminate ==> final(self)@.state == SessionState::Closed && final(registry)@
                == old(registry)@.remove(old(self)@.id),
            !(step@ is Terminate) ==> final(self)@ == old(self)@ && final(registry)@ == old(
                registry,
            )@,
    {
        match self.state {
            SessionState::Active => match parse_raw_request(msg) {
                Ok(request) => Step::Dispatch(request),
                Err(error) => {
                    self.close(registry);
                    Step::Terminate(error)
                },
            },
            _ => Step::Idle,
        }
    }

    /// Answers a request for one entry, once the store has been asked: the
    /// answer goes into this session's own mailbox and no other. Where the
    /// store could not be reached, nothing is queued and the failure is
    /// handed back.
    pub fn answer(
        &self,
        entry_key: EntryKey,
        found: Result<Option<EntryData>, StoreUnavailable>,
        registry: &mut Registry,
    ) -> (r: Result<(), Error>)
        ensures
            match found {
                Ok(data) => r == Ok::<(), Error>(()) && final(registry)@ == replied(
                    old(registry)@,
                    self@.id,
                    answer_frame(entry_key@, data),
                ),
                Err(_) => r == Err::<(), Error>(Error::StoreUnavailable) && final(registry)@
                    == old(registry)@,
            },
    {
        match found {
            Ok(data) => {
                let visible = match data {
                    Some(value) => match value.amount {
                        Some(amount) => if amount > 0 {
                            Some(value)
                        } else {
                            None
                        },
                        None => None,
                    },
                    None => None,
                };
                let frame = Response::GetEntryData(GetEntryData::new(entry_key, visible));
                registry.send(self.id, frame);
                Ok(())
            },
            Err(_) => Err(Error::StoreUnavailable),
        }
    }

    /// Ends an update, once the store has been asked to record it: where it
    /// did, every connected client is told, this one included. Where the
    /// store could not be reached, nobody is told and the failure is handed
    /// back.
    pub fn publish(
        &self,
        entry: Entry,
        outcome: Result<(), StoreUnavailable>,
        registry: &mut Registry,
    ) -> (r: Result<(), Error>)
        ensures
            match outcome {
                Ok(_) => r == Ok::<(), Error>(()) && final(registry)@ == delivered(
                    old(registry)@,
                    ResponseView::UpdateEntry(entry@),
                ),
                Err(_) => r == Err::<(), Error>(Error::StoreUnavailable) && final(registry)@
                    == old(registry)@,
            },
    {
        match outcome {
            Ok(_) => {
                let frame = Response::UpdateEntry(UpdateEntry::new(entry));
                registry.broadcast(&frame);
                Ok(())
            },
            Err(_) => Err(Error::StoreUnavailable),
        }
    }

    /// Carries out a request against the store, as of the time `date`.
    ///
    /// A request for one entry reads the store and answers this session
    /// alone. An update first adds a record to the audit log, then writes
    /// the entry, then tells every connected client.
    pub fn dispatch_at(
        &self,
        request: Request,
        db: &mut Database,
        registry: &mut Registry,
        date: i64,
    )
        requires
            old(db).well_formed(),
        ensures
            final(db).well_formed(),
            match request@ {
                RequestView::GetEntryData(key) => final(db)@ == old(db)@ && final(registry)@
                    == replied(
                    old(registry)@,
                    self@.id,
                    answer_frame(key, stored(old(db)@.entries, key)),
                ),
                RequestView::UpdateEntry(entry) => final(db)@ == recorded(old(db)@, entry, date)
                    && final(registry)@ == delivered(
                    old(registry)@,
                    ResponseView::UpdateEntry(entry),
                ),
            },
    {
        match request {
            Request::GetEntryData(body) => {
                let found = get_entry_data(db, &body.entry_key);
                let _ = self.answer(body.entry_key, Ok(found), registry);
            },
            Request::UpdateEntry(body) => {
                record_update(db, &body.entry, date);
                let _ = self.publish(body.entry, Ok(()), registry);
            },
        }
    }

    /// Carries out a request against the store, as of now.
    pub fn dispatch(&self, request: Request, db: &mut Database, registry: &mut Registry)
        requires
            old(db).well_formed(),
        ensures
            final(db).well_formed(),
            match request@ {
                RequestView::GetEntryData(key) => final(db)@ == old(db)@ && final(registry)@
                    == replied(
                    old(registry)@,
                    self@.id,
                    answer_frame(key, stored(old(db)@.entries, key)),
                ),
                RequestView::UpdateEntry(entry) => final(db)@ == recorded(
                    old(db)@,
                    entry,
                    final(db)@.commits.last().date,
                ) && final(registry)@ == delivered(
                    old(registry)@,
                    ResponseView::UpdateEntry(entry),
                ),
            },
    {
        let date = now_millis();
        self.dispatch_at(request, db, registry, date);
    }

    /// Ends the connection: the session is `Closed` and no longer
    /// registered. Closing again changes nothing.
    pub fn close(&mut self, registry: &mut Registry)
        ensures
            final(self)@ == (SessionView { id: old(self)@.id, state: SessionState::Closed }),
            final(registry)@ == old(registry)@.remove(old(self)@.id),
    {
        registry.unregister(self.id);
        self.state = SessionState::Closed;
    }
}

/// Takes what waits in the mailbox behind `handle` and gives the text of
/// each frame, oldest first. Gives `None` once the connection is no longer
/// registered: the writer has nothing more to send, ever.
pub fn next_outbound(handle: &MailboxHandle, registry: &mut Registry) -> (texts: Option<
    Vec<String>,
>)
    ensures
        texts is Some <==> old(registry)@.dom().contains(handle.id),
        texts matches Some(sent) ==> {
            &&& final(registry)@ == old(registry)@.insert(handle.id, Seq::empty())
            &&& sent.len() == old(registry)@[handle.id].len()
            &&& forall|i: int|
                0 <= i < sent.len() ==> (#[trigger] sent[i])@ == printed_json(
                    response_json(old(registry)@[handle.id][i]),
                )
        },
        texts is None ==> final(registry)@ == old(registry)@,
{
    match registry.drain(handle) {
        Some(frames) => {
            let mut sent: Vec<String> = Vec::new();
            let mut i: usize = 0;
            while i < frames.len()
                invariant
                    i <= frames.len(),
                    sent.len() == i,
                    forall|k: int|
                        0 <= k < i ==> (#[trigger] sent[k])@ == printed_json(
                            response_json(frames[k]@),
                        ),
                decreases frames.len() - i,
            {
                sent.push(frames[i].to_text());
                i += 1;
            }
            Some(sent)
        },
        None => None,
    }
}

/// After an update, a request for the updated entry is answered with the
/// value that the update wrote, where its amount is above zero. Where it is
/// not, the answer holds no value.
pub proof fn lemma_update_then_get_answers_with_written_value(
    db: crate::db::DatabaseView,
    entry: crate::schemes::EntryView,
    date: i64,
)
    requires
        crate::db::keys_distinct(db.entries),
    ensures
        answer_frame(entry.id, stored(recorded(db, entry, date).entries, entry.id))
            == ResponseView::GetEntryData(
            GetEntryDataView { entry_key: entry.id, entry_data: positive_only(Some(entry.value)) },
        ),
        entry.value.amount matches Some(amount) && amount > 0 ==> answer_frame(
            entry.id,
            stored(recorded(db, entry, date).entries, entry.id),
        ) == ResponseView::GetEntryData(
            GetEntryDataView { entry_key: entry.id, entry_data: Some(entry.value) },
        ),
{
    crate::db::lemma_update_then_get(db, entry, date);
}

/// A broadcast reaches every connection that is registered when it is made:
/// each mailbox holds what it held, and the frame at its end. No connection
/// joins or leaves by it.
pub proof fn lemma_fan_out_complete(mailboxes: Map<u64, Seq<ResponseView>>, frame: ResponseView)
    ensures
        delivered(mailboxes, frame).dom() == mailboxes.dom(),
        forall|id: u64| #[trigger]
            mailboxes.dom().contains(id) ==> delivered(mailboxes, frame)[id] == mailboxes[id].push(
                frame,
            ) && delivered(mailboxes, frame)[id].last() == frame,
{
    assert(delivered(mailboxes, frame).dom() =~= mailboxes.dom());
}

/// Unregistering a connection a second time changes nothing.
pub proof fn lemma_unregister_idempotent(mailboxes: Map<u64, Seq<ResponseView>>, id: u64)
    ensures
        mailboxes.remove(id).remove(id) == mailboxes.remove(id),
        !mailboxes.dom().contains(id) ==> mailboxes.remove(id) == mailboxes,
{
    assert(mailboxes.remove(id).remove(id) =~= mailboxes.remove(id));
    if !mailboxes.dom().contains(id) {
        assert(mailboxes.remove(id) =~= mailboxes);
    }
}

/// The end of one connection leaves every other connection registered, with
/// its mailbox as it was.
pub proof fn lemma_termination_spares_others(
    mailboxes: Map<u64, Seq<ResponseView>>,
    id: u64,
    other: u64,
)
    requires
        other != id,
    ensures
        mailboxes.remove(id).dom().contains(other) == mailboxes.dom().contains(other),
        mailboxes.dom().contains(other) ==> mailboxes.remove(id)[other] == mailboxes[other],
        !mailboxes.remove(id).dom().contains(id),
{
}

/// An answer reaches the mailbox of the session that asked and no other.
pub proof fn lemma_reply_is_private(
    mailboxes: Map<u64, Seq<ResponseView>>,
    id: u64,
    frame: ResponseView,
    other: u64,
)
    requires
        other != id,
    ensures
        replied(mailboxes, id, frame).dom() == mailboxes.dom(),
        mailboxes.dom().contains(other) ==> replied(mailboxes, id, frame)[other]
            == mailboxes[other],
        mailboxes.dom().contains(id) ==> replied(mailboxes, id, frame)[id] == mailboxes[id].push(
            frame,
        ),
{
    assert(replied(mailboxes, id, frame).dom() =~= mailboxes.dom());
}

} // verus!
