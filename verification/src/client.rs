//! The client session: which streams a peer receives, what its connection
//! state asks for, and the order of an offer/answer exchange.
//!
//! The session decides; the task around it talks to the peer connection. A
//! handle `H` is whatever that task keeps per attached stream: the pusher
//! and the sender.

use crate::error::GatewayError;
use crate::id_map::{
    distinct, ids_of, index_of, lemma_index_of, lemma_select, select, select_ids, IdMap,
};
use crate::stream_manager::StreamManager;
use crate::track_def::StreamDef;
use vstd::prelude::*;

verus! {

/// How long after attaching a stream to a connected peer its pusher is
/// resynced, in milliseconds.
pub const RESYNC_DELAY_MS: u64 = 100;

/// The states of a peer connection.
#[derive(Clone, Copy, Debug, PartialEq, Eq, Structural)]
pub enum PeerState {
    Unspecified,
    New,
    Connecting,
    Connected,
    Disconnected,
    Failed,
    Closed,
}

/// What a change of the peer connection's state asks for.
#[derive(Clone, Copy, Debug, PartialEq, Eq, Structural)]
pub enum PeerEvent {
    /// Resync the pusher of every attached stream.
    ResyncAll,
    /// Fire the failure signal; the observer ends.
    Fail,
    /// Nothing.
    Ignore,
}

/// Where an offer/answer exchange stands.
#[derive(Clone, Copy, Debug, PartialEq, Eq, Structural)]
pub enum SignalPhase {
    /// No exchange in flight.
    Idle,
    SettingRemote,
    CreatingAnswer,
    SettingLocal,
    Gathering,
    ReadingLocal,
}

/// The next thing to do in an offer/answer exchange.
#[derive(Clone, Debug, PartialEq, Eq)]
pub enum SignalAction {
    /// Set the offer as the remote description.
    SetRemoteDescription,
    /// Create the answer.
    CreateAnswer,
    /// Set the answer as the local description.
    SetLocalDescription,
    /// Wait until candidate gathering is complete.
    AwaitGathering,
    /// Read the final local description.
    ReadLocalDescription,
    /// Return the local description that was read; the exchange is over.
    Done,
    /// Return this error; the exchange is over.
    Failed(GatewayError),
    /// No exchange is in flight: there is nothing to go on with.
    NotSignalling,
}

/// How a step of an exchange went.
pub enum StepOutcome {
    Succeeded,
    Failed(String),
}

/// What attaching a stream came to.
pub enum AddOutcome<H> {
    /// The stream is attached. Resync its pusher after the delay, if one
    /// is given.
    Added { resync_after_ms: Option<u64> },
    /// A stream of that id was attached before: nothing changed, and the
    /// handle comes back.
    AlreadyPresent(H),
}

/// The streams to attach and to detach.
pub struct SyncPlan {
    pub add: Vec<String>,
    pub remove: Vec<String>,
}

/// The phase that follows a step, and what to do then.
pub open spec fn spec_advance(phase: SignalPhase, outcome: StepOutcome) -> (
    SignalPhase,
    SignalAction,
) {
    match (phase, outcome) {
        (SignalPhase::Idle, _) => (SignalPhase::Idle, SignalAction::NotSignalling),
        (SignalPhase::Gathering, _) => (
            SignalPhase::ReadingLocal,
            SignalAction::ReadLocalDescription,
        ),
        (_, StepOutcome::Failed(reason)) => (
            SignalPhase::Idle,
            SignalAction::Failed(GatewayError::SignallingFailed { reason }),
        ),
        (SignalPhase::SettingRemote, _) => (
            SignalPhase::CreatingAnswer,
            SignalAction::CreateAnswer,
        ),
        (SignalPhase::CreatingAnswer, _) => (
            SignalPhase::SettingLocal,
            SignalAction::SetLocalDescription,
        ),
        (SignalPhase::SettingLocal, _) => (SignalPhase::Gathering, SignalAction::AwaitGathering),
        (SignalPhase::ReadingLocal, _) => (SignalPhase::Idle, SignalAction::Done),
    }
}

/// What a new state of the peer connection asks for: connected, resync
/// everything; disconnected or failed, give up; anything else, nothing.
pub open spec fn spec_peer_event(state: PeerState) -> PeerEvent {
    match state {
        PeerState::Connected => PeerEvent::ResyncAll,
        PeerState::Disconnected => PeerEvent::Fail,
        PeerState::Failed => PeerEvent::Fail,
        _ => PeerEvent::Ignore,
    }
}

/// The handles of the ids that are attached, in the order of `wanted`.
pub open spec fn handles_of<H>(ids: Seq<Seq<char>>, handles: Seq<H>, wanted: Seq<Seq<char>>) -> Seq<
    H,
>
    decreases wanted.len(),
{
    if wanted.len() == 0 {
        Seq::empty()
    } else {
        let rest = handles_of(ids, handles, wanted.drop_last());
        let i = index_of(ids, wanted.last());
        if i >= 0 {
            rest.push(handles[i])
        } else {
            rest
        }
    }
}

/// One WebRTC peer.
pub struct Client<H> {
    streams: IdMap<H>,
    peer_state: PeerState,
    failed: bool,
    phase: SignalPhase,
}

impl<H> Client<H> {
    /// The ids of the attached streams, in the order in which they were
    /// attached.
    pub closed spec fn ids(self) -> Seq<Seq<char>> {
        self.streams.ids()
    }

    /// The handles of the attached streams, each at the position of its id.
    pub closed spec fn handles(self) -> Seq<H> {
        self.streams.values()
    }

    /// The last state the peer connection was seen in.
    pub closed spec fn peer(self) -> PeerState {
        self.peer_state
    }

    /// Whether the failure signal has fired.
    pub closed spec fn has_failed(self) -> bool {
        self.failed
    }

    /// Where the offer/answer exchange stands.
    pub closed spec fn phase(self) -> SignalPhase {
        self.phase
    }

    /// One handle per id, and no id twice.
    pub closed spec fn wf(self) -> bool {
        self.streams.wf()
    }

    /// Each stream id names one attached stream.
    pub proof fn law_one_handle_per_stream(self)
        requires
            self.wf(),
        ensures
            self.ids().len() == self.handles().len(),
            distinct(self.ids()),
    {
    }

    pub open spec fn spec_get(self, id: Seq<char>) -> Option<H> {
        let i = index_of(self.ids(), id);
        if i >= 0 {
            Some(self.handles()[i])
        } else {
            None
        }
    }

    /// A session with no stream, its peer not yet heard of.
    pub fn new() -> (r: Client<H>)
        ensures
            r.wf(),
            r.ids().len() == 0,
            r.handles().len() == 0,
            r.peer() == PeerState::Unspecified,
            !r.has_failed(),
            r.phase() == SignalPhase::Idle,
    {
        Client {
            streams: IdMap::new(),
            peer_state: PeerState::Unspecified,
            failed: false,
            phase: SignalPhase::Idle,
        }
    }

    /// The ids of the attached streams.
    pub fn stream_ids(&self) -> (r: Vec<String>)
        requires
            self.wf(),
        ensures
            ids_of(r@) == self.ids(),
    {
        self.streams.keys()
    }

    pub fn peer_state(&self) -> (r: PeerState)
        ensures
            r == self.peer(),
    {
        self.peer_state
    }

    /// Whether the failure signal has fired.
    pub fn watch_fail(&self) -> (r: bool)
        ensures
            r == self.has_failed(),
    {
        self.failed
    }

    /// Whether an offer/answer exchange is in flight.
    pub fn is_signalling(&self) -> (r: bool)
        ensures
            r == (self.phase() != SignalPhase::Idle),
    {
        self.phase != SignalPhase::Idle
    }

    /// Whether attaching the stream would change anything: it has a track
    /// and is not attached yet.
    pub fn wants_stream(&self, def: &StreamDef) -> (r: bool)
        requires
            self.wf(),
        ensures
            r == (def.spec_has_track() && !self.ids().contains(def.id@)),
    {
        def.has_track() && !self.streams.contains_key(&def.id)
    }

    /// Attaches a stream. A second attach under one id changes nothing. A
    /// stream attached to a connected peer is to be resynced after
    /// `RESYNC_DELAY_MS`, so that the client gets the keyframe prelude.
    pub fn add_stream(&mut self, stream_id: String, handle: H) -> (r: AddOutcome<H>)
        requires
            old(self).wf(),
        ensures
            final(self).wf(),
            final(self).peer() == old(self).peer(),
            final(self).has_failed() == old(self).has_failed(),
            final(self).phase() == old(self).phase(),
            match r {
                AddOutcome::Added { resync_after_ms } => {
                    &&& !old(self).ids().contains(stream_id@)
                    &&& final(self).ids() == old(self).ids().push(stream_id@)
                    &&& final(self).handles() == old(self).handles().push(handle)
                    &&& resync_after_ms == if old(self).peer() == PeerState::Connected {
                        Some(RESYNC_DELAY_MS)
                    } else {
                        None
                    }
                },
                AddOutcome::AlreadyPresent(h) => {
                    &&& old(self).ids().contains(stream_id@)
                    &&& h == handle
                    &&& final(self).ids() == old(self).ids()
                    &&& final(self).handles() == old(self).handles()
                },
            },
            forall|k: Seq<char>|
                final(self).ids().contains(k) <==> old(self).ids().contains(k) || k == stream_id@,
    {
        match self.streams.insert_new(stream_id, handle) {
            Ok(()) => {
                let resync_after_ms = if self.peer_state == PeerState::Connected {
                    Some(RESYNC_DELAY_MS)
                } else {
                    None
                };
                AddOutcome::Added { resync_after_ms }
            },
            Err(h) => AddOutcome::AlreadyPresent(h),
        }
    }

    /// The handle of an attached stream.
    pub fn get_stream(&self, stream_id: &String) -> (r: Option<&H>)
        requires
            self.wf(),
        ensures
            match r {
                Some(h) => self.spec_get(stream_id@) == Some(*h),
                None => self.spec_get(stream_id@) is None,
            },
    {
        self.streams.get(stream_id)
    }

    /// Detaches a stream and hands its handle over: the caller takes the
    /// sender off the peer connection and drops the pusher. `NotFound` where
    /// no stream of that id is attached.
    pub fn remove_stream(&mut self, stream_id: &String) -> (r: Result<H, GatewayError>)
        requires
            old(self).wf(),
        ensures
            final(self).wf(),
            final(self).peer() == old(self).peer(),
            final(self).has_failed() == old(self).has_failed(),
            final(self).phase() == old(self).phase(),
            match r {
                Ok(h) => {
                    let i = index_of(old(self).ids(), stream_id@);
                    &&& old(self).spec_get(stream_id@) == Some(h)
                    &&& final(self).ids() == old(self).ids().remove(i)
                    &&& final(self).handles() == old(self).handles().remove(i)
                },
                Err(e) => {
                    &&& e == GatewayError::NotFound
                    &&& !old(self).ids().contains(stream_id@)
                    &&& final(self).ids() == old(self).ids()
                    &&& final(self).handles() == old(self).handles()
                },
            },
            forall|k: Seq<char>|
                final(self).ids().contains(k) <==> old(self).ids().contains(k) && k != stream_id@,
    {
        proof {
            lemma_index_of(self.streams.ids(), stream_id@);
        }
        match self.streams.remove(stream_id) {
            Some(h) => Ok(h),
            None => Err(GatewayError::NotFound),
        }
    }

    /// Plans what brings the session to the wanted streams: attach those
    /// that are wanted, not attached, and that the registry can send; detach
    /// those that are attached and not wanted.
    pub fn sync_active_streams<T>(&self, stream_ids: &Vec<String>, manager: &StreamManager<T>) -> (r:
        SyncPlan)
        requires
            self.wf(),
            manager.wf(),
        ensures
            ids_of(r.add@) == select(ids_of(stream_ids@), self.ids(), manager.sendable()),
            ids_of(r.remove@) == select(self.ids(), ids_of(stream_ids@), self.ids()),
    {
        let current = self.streams.keys();
        let sendable = manager.sendable_ids();
        let add = select_ids(stream_ids, &current, &sendable);
        let remove = select_ids(&current, stream_ids, &current);
        SyncPlan { add, remove }
    }

    /// The handle to resync for one stream: that of the stream, if it is
    /// attached and the peer is connected; otherwise none.
    pub fn resync_stream(&self, stream_id: &String) -> (r: Option<&H>)
        requires
            self.wf(),
        ensures
            match r {
                Some(h) => self.peer() == PeerState::Connected && self.spec_get(stream_id@)
                    == Some(*h),
                None => self.peer() != PeerState::Connected || self.spec_get(stream_id@) is None,
            },
    {
        if self.peer_state == PeerState::Connected {
            self.streams.get(stream_id)
        } else {
            None
        }
    }

    /// The handles to resync for a list of streams.
    pub open spec fn spec_resync_targets(self, wanted: Seq<Seq<char>>) -> Seq<H> {
        if self.peer() == PeerState::Connected {
            handles_of(self.ids(), self.handles(), wanted)
        } else {
            Seq::empty()
        }
    }

    /// The handles to resync for a list of streams, in the order of the
    /// list.
    pub fn resync_rtp_streams(&self, stream_ids: &Vec<String>) -> (r: Vec<&H>)
        requires
            self.wf(),
        ensures
            r@.map_values(|h: &H| *h) == self.spec_resync_targets(ids_of(stream_ids@)),
    {
        let mut out: Vec<&H> = Vec::new();
        if self.peer_state != PeerState::Connected {
            assert(out@.map_values(|h: &H| *h) =~= Seq::<H>::empty());
            return out;
        }
        let mut i: usize = 0;
        assert(ids_of(stream_ids@).subrange(0, 0) =~= Seq::<Seq<char>>::empty());
        assert(out@.map_values(|h: &H| *h) =~= Seq::<H>::empty());
        while i < stream_ids.len()
            invariant
                self.wf(),
                i <= stream_ids.len(),
                out@.map_values(|h: &H| *h) == handles_of(
                    self.ids(),
                    self.handles(),
                    ids_of(stream_ids@).subrange(0, i as int),
                ),
            decreases stream_ids.len() - i,
        {
            let ghost before = out@.map_values(|h: &H| *h);
            let ghost next = ids_of(stream_ids@).subrange(0, i + 1);
            assert(next.drop_last() =~= ids_of(stream_ids@).subrange(0, i as int));
            assert(next.last() == stream_ids@[i as int]@);
            match self.streams.get(&stream_ids[i]) {
                Some(h) => {
                    out.push(h);
                    assert(out@.map_values(|h: &H| *h) =~= before.push(*h));
                },
                None => {},
            }
            i = i + 1;
        }
        assert(ids_of(stream_ids@).subrange(0, stream_ids.len() as int) =~= ids_of(stream_ids@));
        out
    }

    /// Every handle, in order: what a connected peer has resynced.
    pub fn all_streams(&self) -> (r: Vec<&H>)
        requires
            self.wf(),
        ensures
            r@.map_values(|h: &H| *h) == self.handles(),
    {
        let mut out: Vec<&H> = Vec::new();
        let n = self.streams.len();
        let mut i: usize = 0;
        assert(out@.map_values(|h: &H| *h) =~= self.handles().subrange(0, 0));
        while i < n
            invariant
                self.wf(),
                n == self.ids().len(),
                i <= n,
                out@.map_values(|h: &H| *h) == self.handles().subrange(0, i as int),
            decreases n - i,
        {
            let ghost before = out@.map_values(|h: &H| *h);
            let entry = self.streams.get_at(i);
            out.push(entry.1);
            assert(out@.map_values(|h: &H| *h) =~= before.push(*entry.1));
            assert(out@.map_values(|h: &H| *h) =~= self.handles().subrange(0, i + 1));
            i = i + 1;
        }
        assert(self.handles().subrange(0, n as int) =~= self.handles());
        out
    }

    /// Takes note of a new state of the peer connection and says what it
    /// asks for. Once the failure signal has fired the observer is gone:
    /// nothing is noted and nothing asked.
    pub fn on_peer_state(&mut self, state: PeerState) -> (r: PeerEvent)
        ensures
            final(self).ids() == old(self).ids(),
            final(self).handles() == old(self).handles(),
            final(self).wf() == old(self).wf(),
            final(self).phase() == old(self).phase(),
            old(self).has_failed() ==> r == PeerEvent::Ignore && final(self).peer() == old(
                self,
            ).peer() && final(self).has_failed(),
            !old(self).has_failed() ==> {
                &&& r == spec_peer_event(state)
                &&& final(self).peer() == state
                &&& final(self).has_failed() == (r == PeerEvent::Fail)
            },
    {
        if self.failed {
            return PeerEvent::Ignore;
        }
        self.peer_state = state;
        match state {
            PeerState::Connected => PeerEvent::ResyncAll,
            PeerState::Disconnected => {
                self.failed = true;
                PeerEvent::Fail
            },
            PeerState::Failed => {
                self.failed = true;
                PeerEvent::Fail
            },
            _ => PeerEvent::Ignore,
        }
    }

    /// Ends the session: the peer is closed and every handle is handed
    /// over, for the caller to close the connection and drop the pushers.
    pub fn discard(&mut self) -> (r: Vec<H>)
        requires
            old(self).wf(),
        ensures
            final(self).wf(),
            final(self).ids().len() == 0,
            final(self).peer() == PeerState::Closed,
            final(self).has_failed() == old(self).has_failed(),
            final(self).phase() == SignalPhase::Idle,
            r@ == old(self).handles(),
    {
        self.peer_state = PeerState::Closed;
        self.phase = SignalPhase::Idle;
        self.streams.drain()
    }

    /// Opens an offer/answer exchange. Granted where none is in flight: the
    /// first step is to set the remote description. Refused, with nothing
    /// changed, while one is in flight.
    pub fn signal(&mut self) -> (r: Option<SignalAction>)
        ensures
            final(self).ids() == old(self).ids(),
            final(self).handles() == old(self).handles(),
            final(self).wf() == old(self).wf(),
            final(self).peer() == old(self).peer(),
            final(self).has_failed() == old(self).has_failed(),
            old(self).phase() == SignalPhase::Idle ==> r == Some(
                SignalAction::SetRemoteDescription,
            ) && final(self).phase() == SignalPhase::SettingRemote,
            old(self).phase() != SignalPhase::Idle ==> r is None && final(self).phase() == old(
                self,
            ).phase(),
    {
        if self.phase == SignalPhase::Idle {
            self.phase = SignalPhase::SettingRemote;
            Some(SignalAction::SetRemoteDescription)
        } else {
            None
        }
    }

    /// Takes the outcome of the step in hand and names the next one. Any
    /// failed step ends the exchange with `SignallingFailed` and its reason,
    /// but for the wait for gathering, whose outcome is not looked at.
    /// Outside an exchange the answer is `NotSignalling`.
    pub fn signal_step(&mut self, outcome: StepOutcome) -> (r: SignalAction)
        ensures
            final(self).ids() == old(self).ids(),
            final(self).handles() == old(self).handles(),
            final(self).wf() == old(self).wf(),
            final(self).peer() == old(self).peer(),
            final(self).has_failed() == old(self).has_failed(),
            final(self).phase() == spec_advance(old(self).phase(), outcome).0,
            r == spec_advance(old(self).phase(), outcome).1,
    {
        match self.phase {
            SignalPhase::Idle => SignalAction::NotSignalling,
            SignalPhase::Gathering => {
                self.phase = SignalPhase::ReadingLocal;
                SignalAction::ReadLocalDescription
            },
            phase => {
                match outcome {
                    StepOutcome::Failed(reason) => {
                        self.phase = SignalPhase::Idle;
                        SignalAction::Failed(GatewayError::SignallingFailed { reason })
                    },
                    StepOutcome::Succeeded => {
                        match phase {
                            SignalPhase::SettingRemote => {
                                self.phase = SignalPhase::CreatingAnswer;
                                SignalAction::CreateAnswer
                            },
                            SignalPhase::CreatingAnswer => {
                                self.phase = SignalPhase::SettingLocal;
                                SignalAction::SetLocalDescription
                            },
                            SignalPhase::SettingLocal => {
                                self.phase = SignalPhase::Gathering;
                                SignalAction::AwaitGathering
                            },
                            _ => {
                                self.phase = SignalPhase::Idle;
                                SignalAction::Done
                            },
                        }
                    },
                }
            },
        }
    }
}

/// Sync idempotence. Let a plan be made for a session and carried out, so
/// that the session holds what it held, less what the plan detaches, plus
/// what it attaches. The plan made next for the same wanted streams, against
/// the same registry, attaches nothing and detaches nothing, so the set of
/// attached streams stays as it is.
///
/// `sendable` is the registry's ids of streams with a track; `after` is the
/// session's ids once the plan is done.
pub proof fn law_sync_is_idempotent(
    current: Seq<Seq<char>>,
    wanted: Seq<Seq<char>>,
    sendable: Seq<Seq<char>>,
    after: Seq<Seq<char>>,
)
    requires
        forall|k: Seq<char>|
            after.contains(k) <==> (current.contains(k) && !select(
                current,
                wanted,
                current,
            ).contains(k)) || select(wanted, current, sendable).contains(k),
    ensures
        select(wanted, after, sendable).len() == 0,
        select(after, wanted, after).len() == 0,
{
    lemma_select(current, wanted, current);
    lemma_select(wanted, current, sendable);
    lemma_select(wanted, after, sendable);
    lemma_select(after, wanted, after);
    let add2 = select(wanted, after, sendable);
    let remove2 = select(after, wanted, after);
    if add2.len() > 0 {
        assert(add2.contains(add2[0]));
    }
    if remove2.len() > 0 {
        assert(remove2.contains(remove2[0]));
    }
}

/// What a plan leaves attached: every wanted stream that the registry can
/// send or that was attached before, and nothing else.
pub proof fn law_sync_reaches_the_wanted(
    current: Seq<Seq<char>>,
    wanted: Seq<Seq<char>>,
    sendable: Seq<Seq<char>>,
    after: Seq<Seq<char>>,
    k: Seq<char>,
)
    requires
        forall|k: Seq<char>|
            after.contains(k) <==> (current.contains(k) && !select(
                current,
                wanted,
                current,
            ).contains(k)) || select(wanted, current, sendable).contains(k),
    ensures
        after.contains(k) <==> wanted.contains(k) && (current.contains(k) || sendable.contains(k)),
{
    lemma_select(current, wanted, current);
    lemma_select(wanted, current, sendable);
}

/// What happens to a session's signalling.
pub enum SignalEvent {
    /// A caller asks to open an exchange.
    Open,
    /// The step in hand ended with this outcome.
    Step(StepOutcome),
}

/// The phase after one event.
pub open spec fn signal_next(phase: SignalPhase, event: SignalEvent) -> SignalPhase {
    match event {
        SignalEvent::Open => if phase == SignalPhase::Idle {
            SignalPhase::SettingRemote
        } else {
            phase
        },
        SignalEvent::Step(outcome) => spec_advance(phase, outcome).0,
    }
}

/// The phase after a run of events, from a fresh session.
pub open spec fn signal_run(events: Seq<SignalEvent>) -> SignalPhase
    decreases events.len(),
{
    if events.len() == 0 {
        SignalPhase::Idle
    } else {
        signal_next(signal_run(events.drop_last()), events.last())
    }
}

/// How many exchanges are open after a run of events: those granted, less
/// those that ended.
pub open spec fn exchanges_open(events: Seq<SignalEvent>) -> int
    decreases events.len(),
{
    if events.len() == 0 {
        0
    } else {
        let before = signal_run(events.drop_last());
        let after = signal_run(events);
        let granted: int = if events.last() is Open && before == SignalPhase::Idle {
            1
        } else {
            0
        };
        let ended: int = if events.last() is Step && before != SignalPhase::Idle && after
            == SignalPhase::Idle {
            1
        } else {
            0
        };
        exchanges_open(events.drop_last()) + granted - ended
    }
}

/// Signalling serialization. Whatever callers ask and however steps end, a
/// session never has two exchanges open: there is one while the phase is
/// not idle, and none while it is. An exchange is granted only when none is
/// open.
pub proof fn law_signalling_is_serial(events: Seq<SignalEvent>)
    ensures
        exchanges_open(events) == if signal_run(events) == SignalPhase::Idle {
            0int
        } else {
            1int
        },
        0 <= exchanges_open(events) <= 1,
    decreases events.len(),
{
    if events.len() > 0 {
        law_signalling_is_serial(events.drop_last());
    }
}

/// An exchange that meets no failure runs its five steps in order and ends.
pub proof fn law_signalling_order()
    ensures
        spec_advance(SignalPhase::SettingRemote, StepOutcome::Succeeded) == (
            SignalPhase::CreatingAnswer,
            SignalAction::CreateAnswer,
        ),
        spec_advance(SignalPhase::CreatingAnswer, StepOutcome::Succeeded) == (
            SignalPhase::SettingLocal,
            SignalAction::SetLocalDescription,
        ),
        spec_advance(SignalPhase::SettingLocal, StepOutcome::Succeeded) == (
            SignalPhase::Gathering,
            SignalAction::AwaitGathering,
        ),
        spec_advance(SignalPhase::Gathering, StepOutcome::Succeeded) == (
            SignalPhase::ReadingLocal,
            SignalAction::ReadLocalDescription,
        ),
        spec_advance(SignalPhase::ReadingLocal, StepOutcome::Succeeded) == (
            SignalPhase::Idle,
            SignalAction::Done,
        ),
{
}

} // verus!
