//! The server: the directory of the sessions that are live.
//!
//! A session is known here by a handle, which is whatever the caller uses to
//! reach it. The directory changes only when a session connects or
//! disconnects.
use crate::id::SteaderId;
use crate::wormhole::note::Note;
use crate::wormhole::server::throw::{Error, ThrowItems};
use crate::wormhole::session::NoteEnvelope;
use std::collections::HashMap;
use vstd::std_specs::iter::IteratorSpec;
use vstd::prelude::*;

pub mod throw;

verus! {

broadcast use vstd::std_specs::hash::group_hash_axioms;

/// A session begins: this user is now reached by this handle.
#[derive(Debug)]
pub struct Connect<H>(pub SteaderId, pub H);

/// A session ended.
#[derive(Clone, Copy, Debug, PartialEq, Eq, Structural)]
pub struct Disconnect(pub SteaderId);

/// Asks that a note be sent to every user who is online.
#[derive(Debug, PartialEq, Eq)]
pub struct BroadcastNote(pub Note);

/// Asks for the session of a user.
#[derive(Clone, Copy, Debug, PartialEq, Eq, Structural)]
pub struct GetSession(pub SteaderId);

impl GetSession {
    /// Asks for the session of the user with the given id.
    pub fn new(steader_id: SteaderId) -> (ask: GetSession)
        ensures
            ask == GetSession(steader_id),
    {
        GetSession(steader_id)
    }
}

/// Hands the server an ask that a session could not serve alone.
#[derive(Debug, PartialEq, Eq)]
pub struct HandleEnvelope(pub NoteEnvelope);

/// The directory of live sessions, by user.
pub struct Server<H> {
    sessions: HashMap<u128, H>,
}

impl<H> View for Server<H> {
    type V = Map<u128, H>;

    closed spec fn view(&self) -> Map<u128, H> {
        self.sessions@
    }
}

impl<H> Server<H> {
    /// A server that knows no session.
    pub fn new() -> (server: Server<H>)
        ensures
            server@ == Map::<u128, H>::empty(),
    {
        Server { sessions: HashMap::new() }
    }

    /// Records that a user is now reached by a handle; an older handle of the
    /// same user is forgotten.
    pub fn connect(&mut self, msg: Connect<H>)
        ensures
            final(self)@ == old(self)@.insert(msg.0.0, msg.1),
    {
        let Connect(user, handle) = msg;
        self.sessions.insert(user.0, handle);
    }

    /// Forgets the handle of a user.
    pub fn disconnect(&mut self, msg: Disconnect)
        ensures
            final(self)@ == old(self)@.remove(msg.0.0),
    {
        let key = msg.0.0;
        self.sessions.remove(&key);
    }

    /// How many users are online.
    pub fn online(&self) -> (n: usize)
        ensures
            n == self@.len(),
    {
        self.sessions.len()
    }

    /// The handle of a user's session, if the user is online.
    pub fn get_session(&self, msg: GetSession) -> (handle: Option<&H>)
        ensures
            match handle {
                Some(h) => self@.contains_key(msg.0.0) && *h == self@[msg.0.0],
                None => !self@.contains_key(msg.0.0),
            },
    {
        let key = msg.0.0;
        self.sessions.get(&key)
    }

    /// The handles of the two sessions that a throw needs: the sender's, then
    /// the receiver's.
    ///
    /// Fails with [`Error::SelfGive`] where the sender is the receiver, else
    /// with [`Error::PartyOffline`] for the sender where the sender is offline,
    /// else with [`Error::PartyOffline`] for the receiver where the receiver is
    /// offline.
    pub fn throw_parties(&self, msg: &ThrowItems) -> (parties: Result<(&H, &H), Error>)
        ensures
            match parties {
                Ok((tx, rx)) => {
                    &&& msg.sender_id != msg.receiver_id
                    &&& self@.contains_key(msg.sender_id.0)
                    &&& self@.contains_key(msg.receiver_id.0)
                    &&& *tx == self@[msg.sender_id.0]
                    &&& *rx == self@[msg.receiver_id.0]
                },
                Err(e) => e == if msg.sender_id == msg.receiver_id {
                    Error::SelfGive
                } else if !self@.contains_key(msg.sender_id.0) {
                    Error::PartyOffline(msg.sender_id)
                } else {
                    Error::PartyOffline(msg.receiver_id)
                } && (msg.sender_id == msg.receiver_id || !self@.contains_key(msg.sender_id.0)
                    || !self@.contains_key(msg.receiver_id.0)),
            },
    {
        if msg.sender_id == msg.receiver_id {
            return Err(Error::SelfGive);
        }
        let tx = match self.get_session(GetSession::new(msg.sender_id)) {
            Some(tx) => tx,
            None => {
                return Err(Error::PartyOffline(msg.sender_id));
            },
        };
        let rx = match self.get_session(GetSession::new(msg.receiver_id)) {
            Some(rx) => rx,
            None => {
                return Err(Error::PartyOffline(msg.receiver_id));
            },
        };
        Ok((tx, rx))
    }

    /// The handles of all sessions, to each of which a broadcast goes; one for
    /// each user who is online, in no particular order.
    pub fn broadcast_note(&self) -> (handles: Vec<&H>)
        ensures
            handles@.len() == self@.len(),
            handles@.unref().to_set() == self@.values(),
    {
        let mut handles: Vec<&H> = Vec::new();
        let ghost all: Seq<&H> = vstd::std_specs::hash::spec_values_iter(&self.sessions).remaining();
        for handle in it: self.sessions.values()
            invariant
                it.seq() == all,
                handles@ == it.seq().take(it.index() as int),
        {
            handles.push(handle);
            proof {
                assert(it.seq().take(it.index() + 1) =~= it.seq().take(it.index() as int).push(
                    handle,
                ));
            }
        }
        proof {
            assert(handles@ == all.take(handles@.len() as int));
            assert(all.take(all.len() as int) =~= all);
        }
        handles
    }
}

} // verus!
