//! The pusher: for one client and one track, which packet goes to the
//! sending track next.
//!
//! The pusher decides; the task around it waits, reads and writes. The task
//! calls `poll`, does what the action says, and reports back: the snapshot
//! through `primed`, each packet of the live bus through `live`.

use crate::packet::{packet_views, share, Packet, PacketView};
use crate::rtp_track::RtpTrack;
use std::collections::VecDeque;
use std::sync::Arc;
use vstd::prelude::*;

verus! {

/// Where a pusher stands.
#[derive(Clone, Copy, Debug, PartialEq, Eq, Structural)]
pub enum PusherState {
    /// Waiting for `play`.
    Idle,
    /// Told to play; the snapshot has not arrived yet.
    Priming,
    /// Forwarding: first the snapshot, then the live bus.
    Live,
    /// Ended for good.
    Dead,
}

/// The control signals that wait to be acted on. Each is a single slot:
/// raising one that is up changes nothing.
#[derive(Clone, Copy, Debug, PartialEq, Eq, Structural)]
pub struct TaskControls {
    pub play: bool,
    pub stop: bool,
    pub kill: bool,
}

impl TaskControls {
    /// No signal raised.
    pub open spec fn spec_none() -> TaskControls {
        TaskControls { play: false, stop: false, kill: false }
    }

    pub fn none() -> (r: TaskControls)
        ensures
            r == Self::spec_none(),
    {
        TaskControls { play: false, stop: false, kill: false }
    }
}

/// What the task does next.
pub enum PusherAction {
    /// Sleep until a control signal is raised.
    AwaitControl,
    /// Subscribe to the live bus and take the snapshot of the fast-start
    /// buffer in one step, then hand the snapshot to `primed`.
    Prime,
    /// Write this packet to the sending track, then poll again.
    Write(Arc<Packet>),
    /// Sleep until a control signal is raised or the live bus delivers.
    AwaitLive,
    /// End the task.
    Exit,
}

/// An action, its packet taken by its view.
pub enum ActionView {
    AwaitControl,
    Prime,
    Write(PacketView),
    AwaitLive,
    Exit,
}

impl View for PusherAction {
    type V = ActionView;

    open spec fn view(&self) -> ActionView {
        match self {
            PusherAction::AwaitControl => ActionView::AwaitControl,
            PusherAction::Prime => ActionView::Prime,
            PusherAction::Write(p) => ActionView::Write(p@),
            PusherAction::AwaitLive => ActionView::AwaitLive,
            PusherAction::Exit => ActionView::Exit,
        }
    }
}

/// A pusher as mathematics: its state, the raised signals, and the packets
/// that wait to be written, oldest first.
pub struct PusherModel {
    pub state: PusherState,
    pub controls: TaskControls,
    pub queue: Seq<PacketView>,
}

impl PusherModel {
    /// A pusher that waits for `play`, with no signal raised.
    pub open spec fn idle() -> PusherModel {
        PusherModel {
            state: PusherState::Idle,
            controls: TaskControls::spec_none(),
            queue: Seq::empty(),
        }
    }

    /// A pusher that has ended.
    pub open spec fn dead() -> PusherModel {
        PusherModel {
            state: PusherState::Dead,
            controls: TaskControls::spec_none(),
            queue: Seq::empty(),
        }
    }

    /// Packets wait only while live; `stop` is raised only against a pusher
    /// that plays; a dead pusher holds nothing.
    pub open spec fn wf(self) -> bool {
        &&& !(self.state is Live) ==> self.queue.len() == 0
        &&& self.controls.stop ==> self.state is Priming || self.state is Live
        &&& self.state is Dead ==> self.controls == TaskControls::spec_none()
    }

    /// Raise `play`.
    pub open spec fn play(self) -> PusherModel {
        if self.state is Dead {
            self
        } else {
            PusherModel { controls: TaskControls { play: true, ..self.controls }, ..self }
        }
    }

    /// Raise `stop`: a waiting `play` is withdrawn, and a pusher that plays
    /// will go idle.
    pub open spec fn stop(self) -> PusherModel {
        if self.state is Dead {
            self
        } else {
            PusherModel {
                controls: TaskControls {
                    play: false,
                    stop: self.state is Priming || self.state is Live,
                    ..self.controls
                },
                ..self
            }
        }
    }

    /// `stop`, then `play`.
    pub open spec fn resync(self) -> PusherModel {
        self.stop().play()
    }

    /// Raise `kill`.
    pub open spec fn kill(self) -> PusherModel {
        if self.state is Dead {
            self
        } else {
            PusherModel { controls: TaskControls { kill: true, ..self.controls }, ..self }
        }
    }

    /// The track or the write side is gone: the pusher is dead at once.
    pub open spec fn fail(self) -> PusherModel {
        PusherModel::dead()
    }

    /// The snapshot arrives: a priming pusher goes live with it.
    pub open spec fn primed(self, snapshot: Seq<PacketView>) -> PusherModel {
        if self.state is Priming {
            PusherModel { state: PusherState::Live, queue: snapshot, ..self }
        } else {
            self
        }
    }

    /// The live bus delivers: a live pusher queues the packet behind what
    /// still waits; any other drops it.
    pub open spec fn live(self, p: PacketView) -> PusherModel {
        if self.state is Live {
            PusherModel { queue: self.queue.push(p), ..self }
        } else {
            self
        }
    }

    /// The pusher once a raised `stop` has been acted on.
    pub open spec fn stopped(self) -> PusherModel {
        if self.controls.stop {
            PusherModel {
                state: PusherState::Idle,
                controls: TaskControls { stop: false, ..self.controls },
                queue: Seq::empty(),
            }
        } else {
            self
        }
    }

    /// One decision, in strict priority: `kill`, then `stop`, then the
    /// oldest waiting packet, then the live bus.
    pub open spec fn poll(self) -> (PusherModel, ActionView) {
        if self.state is Dead {
            (self, ActionView::Exit)
        } else if self.controls.kill {
            (PusherModel::dead(), ActionView::Exit)
        } else {
            let s = self.stopped();
            match s.state {
                PusherState::Idle => if s.controls.play {
                    (
                        PusherModel {
                            state: PusherState::Priming,
                            controls: TaskControls { play: false, ..s.controls },
                            ..s
                        },
                        ActionView::Prime,
                    )
                } else {
                    (s, ActionView::AwaitControl)
                },
                PusherState::Priming => (s, ActionView::Prime),
                PusherState::Live => if s.queue.len() > 0 {
                    (PusherModel { queue: s.queue.drop_first(), ..s }, ActionView::Write(s.queue[0]))
                } else {
                    (s, ActionView::AwaitLive)
                },
                PusherState::Dead => (s, ActionView::Exit),
            }
        }
    }
}

/// The pusher of one tracked stream.
pub struct BufferedTrack {
    state: PusherState,
    controls: TaskControls,
    queue: VecDeque<Arc<Packet>>,
}

impl BufferedTrack {
    /// The pusher as mathematics.
    pub closed spec fn model(self) -> PusherModel {
        PusherModel {
            state: self.state,
            controls: self.controls,
            queue: packet_views(self.queue@),
        }
    }

    /// An idle pusher with no signal raised.
    pub fn new() -> (r: BufferedTrack)
        ensures
            r.model() == PusherModel::idle(),
            r.model().wf(),
    {
        let r = BufferedTrack {
            state: PusherState::Idle,
            controls: TaskControls::none(),
            queue: VecDeque::new(),
        };
        assert(r.model().queue =~= Seq::empty());
        r
    }

    /// Where the pusher stands.
    pub fn state(&self) -> (r: PusherState)
        ensures
            r == self.model().state,
    {
        self.state
    }

    /// The signals that are raised.
    pub fn controls(&self) -> (r: TaskControls)
        ensures
            r == self.model().controls,
    {
        self.controls
    }

    /// How many packets wait to be written.
    pub fn pending(&self) -> (r: usize)
        ensures
            r == self.model().queue.len(),
    {
        self.queue.len()
    }

    /// Raises `play`: an idle pusher will prime and go live.
    pub fn play(&mut self)
        ensures
            final(self).model() == old(self).model().play(),
    {
        if self.state != PusherState::Dead {
            self.controls.play = true;
        }
    }

    /// Raises `stop`: a pusher that plays will go idle; the task stays.
    pub fn stop(&mut self)
        ensures
            final(self).model() == old(self).model().stop(),
    {
        if self.state != PusherState::Dead {
            self.controls.play = false;
            self.controls.stop = self.state == PusherState::Priming || self.state
                == PusherState::Live;
        }
    }

    /// `stop`, then `play`: the pusher starts over from a fresh snapshot.
    pub fn resync(&mut self)
        ensures
            final(self).model() == old(self).model().resync(),
    {
        self.stop();
        self.play();
    }

    /// Raises `kill`: the task will end.
    pub fn kill(&mut self)
        ensures
            final(self).model() == old(self).model().kill(),
    {
        if self.state != PusherState::Dead {
            self.controls.kill = true;
        }
    }

    /// The track behind the pusher is gone, or a write to the sending track
    /// failed.
    pub fn fail(&mut self)
        ensures
            final(self).model() == old(self).model().fail(),
    {
        self.state = PusherState::Dead;
        self.controls = TaskControls::none();
        self.queue.clear();
        assert(self.model().queue =~= Seq::empty());
    }

    /// Hands in the snapshot that `Prime` asked for.
    pub fn primed(&mut self, snapshot: &Vec<Arc<Packet>>)
        ensures
            final(self).model() == old(self).model().primed(packet_views(snapshot@)),
    {
        if self.state == PusherState::Priming {
            self.queue.clear();
            let mut i: usize = 0;
            while i < snapshot.len()
                invariant
                    i <= snapshot.len(),
                    self.queue@ == snapshot@.subrange(0, i as int),
                    self.state == old(self).state,
                    self.controls == old(self).controls,
                decreases snapshot.len() - i,
            {
                self.queue.push_back(share(&snapshot[i]));
                assert(self.queue@ =~= snapshot@.subrange(0, i + 1));
                i = i + 1;
            }
            assert(self.queue@ =~= snapshot@);
            self.state = PusherState::Live;
        }
    }

    /// Hands in a packet that the live bus delivered.
    pub fn live(&mut self, pkt: Arc<Packet>)
        ensures
            final(self).model() == old(self).model().live(pkt@),
    {
        if self.state == PusherState::Live {
            let ghost before = self.queue@;
            self.queue.push_back(pkt);
            assert(packet_views(self.queue@) =~= packet_views(before).push(pkt@));
        }
    }

    /// Decides what the task does next.
    pub fn poll(&mut self) -> (r: PusherAction)
        ensures
            final(self).model() == old(self).model().poll().0,
            r@ == old(self).model().poll().1,
    {
        if self.state == PusherState::Dead {
            return PusherAction::Exit;
        }
        if self.controls.kill {
            self.state = PusherState::Dead;
            self.controls = TaskControls::none();
            self.queue.clear();
            assert(self.model().queue =~= Seq::empty());
            return PusherAction::Exit;
        }
        if self.controls.stop {
            self.state = PusherState::Idle;
            self.controls.stop = false;
            self.queue.clear();
            assert(self.model().queue =~= Seq::empty());
        }
        match self.state {
            PusherState::Idle => {
                if self.controls.play {
                    self.controls.play = false;
                    self.state = PusherState::Priming;
                    PusherAction::Prime
                } else {
                    PusherAction::AwaitControl
                }
            },
            PusherState::Priming => PusherAction::Prime,
            PusherState::Live => {
                let ghost before = self.queue@;
                match self.queue.pop_front() {
                    Some(p) => {
                        assert(packet_views(self.queue@) =~= packet_views(before).drop_first());
                        PusherAction::Write(p)
                    },
                    None => PusherAction::AwaitLive,
                }
            },
            PusherState::Dead => PusherAction::Exit,
        }
    }
}

/// What a sending track is created with.
pub struct LocalTrackSpec {
    /// MIME type of the codec.
    pub mime_type: String,
    /// Names the track inside its stream.
    pub id: String,
    /// Names the stream the track belongs to.
    pub stream_id: String,
}

/// The sending track that carries an ingested track to a client.
pub fn local_track_spec(rtp_track: &RtpTrack) -> (r: LocalTrackSpec)
    ensures
        r.mime_type@ == rtp_track.def().codec.spec_mime_type(),
        r.id@ == rtp_track.def().spec_stream_id(),
        r.stream_id@ == rtp_track.stream().id@,
{
    LocalTrackSpec {
        mime_type: rtp_track.track_def().codec.mime_type().to_owned(),
        id: rtp_track.track_def().stream_id().to_owned(),
        stream_id: rtp_track.stream_def().id.clone(),
    }
}

/// What reaches a pusher while it forwards.
pub enum PusherInput {
    /// The task asks for its next action.
    Poll,
    /// The live bus delivers a packet.
    Live(PacketView),
}

/// The pusher after a run of inputs, and the packets it had the task write,
/// in order.
pub open spec fn feed(m: PusherModel, inputs: Seq<PusherInput>) -> (PusherModel, Seq<PacketView>)
    decreases inputs.len(),
{
    if inputs.len() == 0 {
        (m, Seq::empty())
    } else {
        let (m0, w0) = feed(m, inputs.drop_last());
        match inputs.last() {
            PusherInput::Poll => {
                let (m1, a) = m0.poll();
                match a {
                    ActionView::Write(p) => (m1, w0.push(p)),
                    _ => (m1, w0),
                }
            },
            PusherInput::Live(p) => (m0.live(p), w0),
        }
    }
}

/// The packets that the live bus delivered in a run of inputs, in order.
pub open spec fn live_packets(inputs: Seq<PusherInput>) -> Seq<PacketView>
    decreases inputs.len(),
{
    if inputs.len() == 0 {
        Seq::empty()
    } else {
        match inputs.last() {
            PusherInput::Poll => live_packets(inputs.drop_last()),
            PusherInput::Live(p) => live_packets(inputs.drop_last()).push(p),
        }
    }
}

/// Pusher ordering. While a pusher forwards and neither `stop` nor `kill` is
/// raised, what it has had written, followed by what still waits, is what
/// waited at the start followed by what the live bus delivered since: no
/// packet is reordered, repeated or lost, and every packet of the snapshot
/// goes out before the first live one.
pub proof fn law_pusher_ordering(m: PusherModel, inputs: Seq<PusherInput>)
    requires
        m.state is Live,
        !m.controls.stop,
        !m.controls.kill,
    ensures
        feed(m, inputs).0.state is Live,
        feed(m, inputs).0.controls == m.controls,
        feed(m, inputs).1 + feed(m, inputs).0.queue == m.queue + live_packets(inputs),
    decreases inputs.len(),
{
    if inputs.len() == 0 {
        assert(feed(m, inputs).1 + feed(m, inputs).0.queue =~= m.queue + live_packets(inputs));
    } else {
        law_pusher_ordering(m, inputs.drop_last());
        let (m0, w0) = feed(m, inputs.drop_last());
        let lp = live_packets(inputs.drop_last());
        assert(w0 + m0.queue == m.queue + lp);
        match inputs.last() {
            PusherInput::Poll => {
                if m0.queue.len() > 0 {
                    assert(w0.push(m0.queue[0]) + m0.queue.drop_first() =~= w0 + m0.queue);
                }
            },
            PusherInput::Live(p) => {
                assert(w0 + m0.queue.push(p) =~= (w0 + m0.queue).push(p));
                assert(m.queue + lp.push(p) =~= (m.queue + lp).push(p));
            },
        }
    }
}

/// A play cycle from its start: an idle pusher told to play asks for the
/// snapshot, and once it has it writes the snapshot and then the live
/// packets, in order.
pub proof fn law_play_cycle(snapshot: Seq<PacketView>, inputs: Seq<PusherInput>)
    ensures
        PusherModel::idle().play().poll().1 == ActionView::Prime,
        ({
            let live = PusherModel::idle().play().poll().0.primed(snapshot);
            feed(live, inputs).1 + feed(live, inputs).0.queue == snapshot + live_packets(inputs)
        }),
{
    let live = PusherModel::idle().play().poll().0.primed(snapshot);
    law_pusher_ordering(live, inputs);
}

/// Resync restarts a pusher that plays: one `stop`, one `play`, and the next
/// thing it asks for is a fresh snapshot.
pub proof fn law_resync_primes(m: PusherModel)
    requires
        m.wf(),
        !(m.state is Dead),
        !m.controls.kill,
    ensures
        m.resync().poll().1 == ActionView::Prime,
        m.resync().poll().0.state is Priming,
        m.resync().poll().0.queue.len() == 0,
        m.resync().poll().0.controls == TaskControls::spec_none(),
{
}

/// Every signal, report and decision keeps a well-formed pusher well-formed.
pub proof fn law_pusher_stays_well_formed(m: PusherModel, snapshot: Seq<PacketView>, p: PacketView)
    requires
        m.wf(),
    ensures
        PusherModel::idle().wf(),
        m.play().wf(),
        m.stop().wf(),
        m.resync().wf(),
        m.kill().wf(),
        m.fail().wf(),
        m.primed(snapshot).wf(),
        m.live(p).wf(),
        m.poll().0.wf(),
{
}

/// Kill wins over everything: whatever else is raised or waits, the next
/// decision ends the task and nothing more is written.
pub proof fn law_kill_wins(m: PusherModel)
    requires
        m.wf(),
    ensures
        m.kill().poll().1 == ActionView::Exit,
        m.kill().poll().0.state is Dead,
        m.kill().poll().0.queue.len() == 0,
{
}

} // verus!
