//! The controller: the registry of client sessions and of streams.
//!
//! A session `C` is whatever the surrounding tasks keep per client; a track
//! handle `T` whatever they keep per ingested track.

use crate::config::def_views;
use crate::id_map::{index_of, lemma_index_of, IdMap};
use crate::stream_manager::{Stream, StreamManager};
use crate::track_def::StreamDef;
use vstd::prelude::*;

verus! {

/// The sessions of the gateway, each under its client id, and the streams
/// they can ask for.
pub struct AppController<C, T> {
    stream_manager: StreamManager<T>,
    clients: IdMap<C>,
}

impl<C, T> AppController<C, T> {
    /// The client ids, in the order in which their sessions were created.
    pub closed spec fn client_ids(self) -> Seq<Seq<char>> {
        self.clients.ids()
    }

    /// The sessions, each at the position of its client id.
    pub closed spec fn sessions(self) -> Seq<C> {
        self.clients.values()
    }

    /// The stream registry.
    pub closed spec fn manager(self) -> StreamManager<T> {
        self.stream_manager
    }

    pub closed spec fn wf(self) -> bool {
        self.clients.wf() && self.stream_manager.wf()
    }

    /// The session of a client.
    pub open spec fn spec_client(self, client_id: Seq<char>) -> Option<C> {
        let i = index_of(self.client_ids(), client_id);
        if i >= 0 {
            Some(self.sessions()[i])
        } else {
            None
        }
    }

    /// Session uniqueness. No client id names two sessions: a client has
    /// one session or none.
    pub proof fn law_one_session_per_client(self, i: int, j: int)
        requires
            self.wf(),
            0 <= i < j < self.client_ids().len(),
        ensures
            self.client_ids()[i] != self.client_ids()[j],
            self.client_ids().len() == self.sessions().len(),
            self.manager().wf(),
    {
    }

    /// A controller over the given streams, with no session.
    pub fn new(stream_manager: StreamManager<T>) -> (r: AppController<C, T>)
        requires
            stream_manager.wf(),
        ensures
            r.wf(),
            r.client_ids().len() == 0,
            r.sessions().len() == 0,
            r.manager() == stream_manager,
    {
        AppController { stream_manager, clients: IdMap::new() }
    }

    /// The session of a client, if it has one. Where it has none, the
    /// caller creates one and registers it with `initialize_client`.
    pub fn ensure_client(&self, client_id: &String) -> (r: Option<&C>)
        requires
            self.wf(),
        ensures
            match r {
                Some(c) => self.spec_client(client_id@) == Some(*c),
                None => self.spec_client(client_id@) is None,
            },
    {
        self.clients.get(client_id)
    }

    /// The session of a client, if it has one.
    pub fn client(&self, client_id: &String) -> (r: Option<&C>)
        requires
            self.wf(),
        ensures
            match r {
                Some(c) => self.spec_client(client_id@) == Some(*c),
                None => self.spec_client(client_id@) is None,
            },
    {
        self.ensure_client(client_id)
    }

    /// Registers a fresh session for a client that has none. Where the
    /// client has a session, that one stays: the fresh one comes back and
    /// nothing changes.
    pub fn initialize_client(&mut self, client_id: String, session: C) -> (r: Result<(), C>)
        requires
            old(self).wf(),
        ensures
            final(self).wf(),
            final(self).manager() == old(self).manager(),
            forall|k: Seq<char>|
                final(self).client_ids().contains(k) <==> old(self).client_ids().contains(k) || k
                    == client_id@,
            match r {
                Ok(()) => {
                    &&& old(self).spec_client(client_id@) is None
                    &&& final(self).client_ids() == old(self).client_ids().push(client_id@)
                    &&& final(self).sessions() == old(self).sessions().push(session)
                    &&& final(self).spec_client(client_id@) == Some(session)
                },
                Err(c) => {
                    &&& old(self).spec_client(client_id@) is Some
                    &&& c == session
                    &&& final(self).client_ids() == old(self).client_ids()
                    &&& final(self).sessions() == old(self).sessions()
                },
            },
    {
        proof {
            lemma_index_of(self.clients.ids(), client_id@);
        }
        let r = self.clients.insert_new(client_id, session);
        proof {
            lemma_index_of(self.clients.ids(), client_id@);
        }
        r
    }

    /// Takes a client's session out of the registry and hands it over for
    /// the caller to close. This is what the reaper does once the session's
    /// failure signal has fired, and what follows a failed exchange:
    /// afterwards the client has no session, and a later request creates a
    /// fresh one.
    pub fn discard_client(&mut self, client_id: &String) -> (r: Option<C>)
        requires
            old(self).wf(),
        ensures
            final(self).wf(),
            final(self).manager() == old(self).manager(),
            r == old(self).spec_client(client_id@),
            final(self).spec_client(client_id@) is None,
            forall|k: Seq<char>|
                final(self).client_ids().contains(k) <==> old(self).client_ids().contains(k) && k
                    != client_id@,
            match r {
                Some(_) => {
                    let i = index_of(old(self).client_ids(), client_id@);
                    &&& final(self).client_ids() == old(self).client_ids().remove(i)
                    &&& final(self).sessions() == old(self).sessions().remove(i)
                },
                None => {
                    &&& final(self).client_ids() == old(self).client_ids()
                    &&& final(self).sessions() == old(self).sessions()
                },
            },
    {
        let r = self.clients.remove(client_id);
        proof {
            lemma_index_of(self.clients.ids(), client_id@);
        }
        r
    }

    /// How many clients have a session.
    pub fn client_count(&self) -> (r: usize)
        requires
            self.wf(),
        ensures
            r == self.client_ids().len(),
    {
        self.clients.len()
    }

    /// The descriptions of the streams on offer.
    pub fn streams(&self) -> (r: Vec<StreamDef>)
        requires
            self.wf(),
        ensures
            def_views(r@) == self.manager().defs(),
    {
        self.stream_manager.stream_defs()
    }

    /// Registers a stream with the registry. An id that is taken is
    /// refused: the stream comes back and nothing changes.
    pub fn create_stream(&mut self, stream: Stream<T>) -> (r: Result<(), Stream<T>>)
        requires
            old(self).wf(),
        ensures
            final(self).wf(),
            final(self).client_ids() == old(self).client_ids(),
            final(self).sessions() == old(self).sessions(),
            match r {
                Ok(()) => {
                    &&& !old(self).manager().ids().contains(stream.def.id@)
                    &&& final(self).manager().ids() == old(self).manager().ids().push(
                        stream.def.id@,
                    )
                    &&& final(self).manager().streams() == old(self).manager().streams().push(
                        stream,
                    )
                },
                Err(s) => {
                    &&& old(self).manager().ids().contains(stream.def.id@)
                    &&& s == stream
                    &&& final(self).manager().ids() == old(self).manager().ids()
                    &&& final(self).manager().streams() == old(self).manager().streams()
                },
            },
    {
        self.stream_manager.create_stream(stream)
    }

    /// Takes a stream out of the registry and hands it over; dropping it
    /// ends its ingest loops.
    pub fn delete_stream(&mut self, id: &String) -> (r: Option<Stream<T>>)
        requires
            old(self).wf(),
        ensures
            final(self).wf(),
            final(self).client_ids() == old(self).client_ids(),
            final(self).sessions() == old(self).sessions(),
            r == old(self).manager().spec_get(id@),
            !final(self).manager().ids().contains(id@),
            match r {
                Some(_) => {
                    let i = index_of(old(self).manager().ids(), id@);
                    &&& final(self).manager().ids() == old(self).manager().ids().remove(i)
                    &&& final(self).manager().streams() == old(self).manager().streams().remove(i)
                },
                None => {
                    &&& final(self).manager().ids() == old(self).manager().ids()
                    &&& final(self).manager().streams() == old(self).manager().streams()
                },
            },
    {
        self.stream_manager.delete_stream(id)
    }

    /// The stream registry.
    pub fn stream_manager(&self) -> (r: &StreamManager<T>)
        requires
            self.wf(),
        ensures
            *r == self.manager(),
            r.wf(),
    {
        &self.stream_manager
    }
}

} // verus!
