//! The connection registry: who is connected, and what each connection is
//! still owed.
//!
//! Every connection has a mailbox, a queue of responses that its writer
//! sends out in order. A broadcast puts one frame into every mailbox that
//! is registered at that moment.

use std::collections::HashMap;

use vstd::prelude::*;
use vstd::std_specs::iter::IteratorSpec;

use crate::entry_event::{Response, ResponseView};
use crate::views::views_of;

verus! {

/// The mailboxes of all connected clients, by connection identity. An
/// identity has at most one mailbox.
pub struct Registry {
    mailboxes: HashMap<u64, Vec<Response>>,
}

/// Lets the session that registered a connection drain its mailbox.
#[derive(Clone, Copy, Debug, PartialEq, Eq, Structural)]
pub struct MailboxHandle {
    pub id: u64,
}

/// The mailboxes once `frame` is at the end of each of them.
pub open spec fn delivered(mailboxes: Map<u64, Seq<ResponseView>>, frame: ResponseView) -> Map<
    u64,
    Seq<ResponseView>,
> {
    Map::new(|id: u64| mailboxes.dom().contains(id), |id: u64| mailboxes[id].push(frame))
}

/// The queued responses of each connection, as contracts speak of them.
spec fn model(mailboxes: Map<u64, Vec<Response>>) -> Map<u64, Seq<ResponseView>> {
    Map::new(|id: u64| mailboxes.dom().contains(id), |id: u64| views_of(mailboxes[id]@))
}

impl View for Registry {
    type V = Map<u64, Seq<ResponseView>>;

    /// The queued responses of each registered connection, oldest first.
    closed spec fn view(&self) -> Map<u64, Seq<ResponseView>> {
        model(self.mailboxes@)
    }
}

impl Registry {
    /// A registry with no connection.
    pub fn new() -> (registry: Registry)
        ensures
            registry@ == Map::<u64, Seq<ResponseView>>::empty(),
    {
        let registry = Registry { mailboxes: HashMap::new() };
        assert(registry@ =~= Map::<u64, Seq<ResponseView>>::empty());
        registry
    }

    /// Whether the connection `id` is registered.
    pub fn is_registered(&self, id: u64) -> (b: bool)
        ensures
            b == self@.dom().contains(id),
    {
        self.mailboxes.contains_key(&id)
    }

    /// Registers the connection `id` with a fresh, empty mailbox, and hands
    /// out the handle to drain it. A mailbox that the identity had before is
    /// dropped with what it held.
    pub fn register(&mut self, id: u64) -> (handle: MailboxHandle)
        ensures
            handle.id == id,
            final(self)@ == old(self)@.insert(id, Seq::empty()),
    {
        let fresh: Vec<Response> = Vec::new();
        assert(views_of(fresh@) =~= Seq::<ResponseView>::empty());
        self.mailboxes.insert(id, fresh);
        assert(self@ =~= old(self)@.insert(id, Seq::empty()));
        MailboxHandle { id }
    }

    /// Drops the connection `id` and its mailbox. Nothing happens where the
    /// identity is not registered.
    pub fn unregister(&mut self, id: u64)
        ensures
            final(self)@ == old(self)@.remove(id),
    {
        self.mailboxes.remove(&id);
        assert(self@ =~= old(self)@.remove(id));
    }

    /// The identities of all registered connections, each once.
    fn identities(&self) -> (ids: Vec<u64>)
        ensures
            ids@.to_set() == self@.dom(),
            ids@.no_duplicates(),
    {
        let mut ids: Vec<u64> = Vec::new();
        let ghost all = self.mailboxes.keys().remaining().unref();
        proof {
            vstd::std_specs::hash::axiom_spec_keys_iter(&self.mailboxes);
        }
        for id in it: self.mailboxes.keys()
            invariant
                it.seq().unref() == all,
                ids@ == all.subrange(0, it.index() as int),
        {
            ids.push(*id);
            assert(ids@ =~= all.subrange(0, it.index() + 1));
        }
        assert(ids@ =~= all);
        assert(self@.dom() =~= self.mailboxes@.dom());
        ids
    }

    /// Puts a copy of `frame` at the end of every registered mailbox.
    pub fn broadcast(&mut self, frame: &Response)
        ensures
            final(self)@ == delivered(old(self)@, frame@),
    {
        let ids = self.identities();
        let ghost before = self@;
        let mut i: usize = 0;
        while i < ids.len()
            invariant
                i <= ids.len(),
                ids@.to_set() == before.dom(),
                ids@.no_duplicates(),
                self@.dom() == before.dom(),
                forall|k: int| 0 <= k < i ==> self@[#[trigger] ids[k]] == before[ids[k]].push(frame@),
                forall|k: int| i <= k < ids.len() ==> self@[#[trigger] ids[k]] == before[ids[k]],
            decreases ids.len() - i,
        {
            let id = ids[i];
            assert(ids@.to_set().contains(ids@[i as int]));
            let ghost earlier = self@;
            let sent = self.send(id, frame.clone());
            assert(self@.dom() =~= before.dom());
            assert forall|k: int| 0 <= k < ids.len() && k != i implies self@[#[trigger] ids[k]]
                == earlier[ids[k]] by {
                assert(ids[k] != ids[i as int]);
            }
            i += 1;
        }
        assert(self@ =~= delivered(before, frame@)) by {
            assert forall|id: u64| before.dom().contains(id) implies self@[id] == before[id].push(
                frame@,
            ) by {
                assert(ids@.to_set().contains(id));
                let k = choose|k: int| 0 <= k < ids@.len() && ids@[k] == id;
                assert(ids[k] == id);
            }
        }
    }

    /// Puts `frame` at the end of the mailbox of the connection `id` alone.
    /// Tells whether the connection is registered; where it is not, the
    /// frame is dropped.
    pub fn send(&mut self, id: u64, frame: Response) -> (sent: bool)
        ensures
            sent == old(self)@.dom().contains(id),
            sent ==> final(self)@ == old(self)@.insert(id, old(self)@[id].push(frame@)),
            !sent ==> final(self)@ == old(self)@,
    {
        match self.mailboxes.remove(&id) {
            Some(mut mailbox) => {
                let ghost queued = views_of(mailbox@);
                mailbox.push(frame);
                assert(views_of(mailbox@) =~= queued.push(frame@));
                self.mailboxes.insert(id, mailbox);
                assert(self@ =~= old(self)@.insert(id, old(self)@[id].push(frame@)));
                true
            },
            None => {
                assert(self@ =~= old(self)@);
                false
            },
        }
    }

    /// Takes everything out of the mailbox behind `handle`, oldest first,
    /// and leaves it empty. Gives `None` where the connection is no longer
    /// registered: its mailbox is closed.
    pub fn drain(&mut self, handle: &MailboxHandle) -> (frames: Option<Vec<Response>>)
        ensures
            frames is Some <==> old(self)@.dom().contains(handle.id),
            frames matches Some(taken) ==> views_of(taken@) == old(self)@[handle.id]
                && final(self)@ == old(self)@.insert(handle.id, Seq::empty()),
            frames is None ==> final(self)@ == old(self)@,
    {
        if self.mailboxes.contains_key(&handle.id) {
            let fresh: Vec<Response> = Vec::new();
            assert(views_of(fresh@) =~= Seq::<ResponseView>::empty());
            let taken = self.mailboxes.insert(handle.id, fresh);
            assert(self@ =~= old(self)@.insert(handle.id, Seq::empty()));
            taken
        } else {
            None
        }
    }

    /// How many responses wait in the mailbox of the connection `id`, if it
    /// is registered.
    pub fn pending(&self, id: u64) -> (n: Option<usize>)
        ensures
            n is Some <==> self@.dom().contains(id),
            n matches Some(count) ==> count == self@[id].len(),
    {
        match self.mailboxes.get(&id) {
            Some(mailbox) => Some(mailbox.len()),
            None => None,
        }
    }

    /// How many connections are registered.
    pub fn len(&self) -> (n: usize)
        ensures
            n == self@.dom().len(),
            self@.dom().finite(),
    {
        assert(self@.dom() =~= self.mailboxes@.dom());
        self.mailboxes.len()
    }
}

} // verus!
