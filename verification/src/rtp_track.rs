//! The ingestor of one track: what it does with each datagram.

use crate::error::GatewayError;
use crate::fast_start::{BufferModel, FastStartBuffer};
use crate::gop::{buffer_start, law_buffer_contents};
use crate::packet::{
    decode_datagram, packet_views, share, spec_decode_datagram, Packet, PacketView,
};
use crate::track_def::{StreamDef, TrackDef};
use std::sync::Arc;
use vstd::prelude::*;

verus! {

/// Slots of the live fan-out bus of a track.
pub const MAX_PACKETS: usize = 10000;

/// What the ingest loop does after a datagram.
pub enum Ingest {
    /// The packet was buffered; publish it on the live bus.
    Publish(Arc<Packet>),
    /// The datagram was dropped; go on with the next one.
    Discard(GatewayError),
    /// The track ends.
    Stop(GatewayError),
}

/// An ingestor attached to one UDP endpoint, with its fast-start buffer.
pub struct RtpTrack {
    stream_def: StreamDef,
    track_def: TrackDef,
    ff_packets: FastStartBuffer,
    ingested: Ghost<Seq<PacketView>>,
}

impl RtpTrack {
    /// The description of the stream the track belongs to.
    pub closed spec fn stream(self) -> StreamDef {
        self.stream_def
    }

    /// The description of the track.
    pub closed spec fn def(self) -> TrackDef {
        self.track_def
    }

    /// Every packet the track has taken in, oldest first.
    pub closed spec fn ingested(self) -> Seq<PacketView> {
        self.ingested@
    }

    /// The fast-start buffer, as mathematics.
    pub closed spec fn buffer(self) -> BufferModel {
        self.ff_packets.model()
    }

    /// The shared packets of the fast-start buffer.
    pub closed spec fn shared(self) -> Seq<Arc<Packet>> {
        self.ff_packets.packets()
    }

    /// The buffer is what the buffering policy makes of the packets taken
    /// in.
    pub closed spec fn wf(self) -> bool {
        self.ff_packets.model() == BufferModel::run(self.track_def.codec, self.ingested@)
    }

    pub fn new(track_def: &TrackDef, stream_def: &StreamDef) -> (r: RtpTrack)
        ensures
            r.wf(),
            r.ingested() == Seq::<PacketView>::empty(),
            r.buffer() == BufferModel::empty(),
            r.def() == *track_def,
            r.stream() == *stream_def,
    {
        RtpTrack {
            stream_def: stream_def.duplicate(),
            track_def: track_def.duplicate(),
            ff_packets: FastStartBuffer::new(),
            ingested: Ghost(Seq::empty()),
        }
    }

    pub fn track_def(&self) -> (r: &TrackDef)
        ensures
            *r == self.def(),
    {
        &self.track_def
    }

    pub fn stream_def(&self) -> (r: &StreamDef)
        ensures
            *r == self.stream(),
    {
        &self.stream_def
    }

    /// Takes one packet into the fast-start buffer.
    pub fn handle_fast_start_buffering(&mut self, pkt: Arc<Packet>)
        requires
            old(self).wf(),
        ensures
            final(self).wf(),
            final(self).ingested() == old(self).ingested().push(pkt@),
            final(self).buffer() == old(self).buffer().step(old(self).def().codec, pkt@),
            final(self).def() == old(self).def(),
            final(self).stream() == old(self).stream(),
    {
        proof {
            law_buffer_contents(self.track_def.codec, self.ingested@);
            assert(self.ingested@.push(pkt@).drop_last() =~= self.ingested@);
        }
        self.ff_packets.push(self.track_def.codec, pkt);
        self.ingested = Ghost(self.ingested@.push(pkt@));
    }

    /// A snapshot of the fast-start buffer: an ordered copy, the packets
    /// themselves shared. It is the tail of what the track has taken in,
    /// from the start of the buffer on.
    pub fn ff_buf(&self) -> (r: Vec<Arc<Packet>>)
        requires
            self.wf(),
        ensures
            r@ == self.shared(),
            packet_views(r@) == self.buffer().packets,
            packet_views(r@) == self.ingested().subrange(
                buffer_start(self.def().codec, self.ingested()),
                self.ingested().len() as int,
            ),
    {
        proof {
            law_buffer_contents(self.track_def.codec, self.ingested@);
        }
        self.ff_packets.snapshot()
    }

    /// The same snapshot under the name the pusher knows it by.
    pub fn fast_start_packets(&self) -> (r: Vec<Arc<Packet>>)
        requires
            self.wf(),
        ensures
            r@ == self.shared(),
            packet_views(r@) == self.buffer().packets,
            packet_views(r@) == self.ingested().subrange(
                buffer_start(self.def().codec, self.ingested()),
                self.ingested().len() as int,
            ),
    {
        self.ff_buf()
    }

    /// What the track has taken in once it has seen a datagram: the packet
    /// that the datagram decodes to joins the others; a datagram that does
    /// not decode leaves no trace.
    pub open spec fn spec_after_datagram(self, data: Seq<u8>) -> Seq<PacketView> {
        match spec_decode_datagram(data) {
            Ok(p) => self.ingested().push(p),
            Err(_) => self.ingested(),
        }
    }

    /// One turn of the ingest loop. An oversize datagram ends the track and
    /// a malformed one is dropped, the buffer untouched either way; any
    /// other is buffered and handed back for the live bus.
    pub fn handle_datagram(&mut self, data: &[u8]) -> (r: Ingest)
        requires
            old(self).wf(),
        ensures
            final(self).wf(),
            final(self).def() == old(self).def(),
            final(self).stream() == old(self).stream(),
            final(self).ingested() == old(self).spec_after_datagram(data@),
            match spec_decode_datagram(data@) {
                Ok(p) => {
                    &&& r matches Ingest::Publish(q)
                    &&& q@ == p
                    &&& final(self).buffer() == old(self).buffer().step(old(self).def().codec, p)
                },
                Err(e) => {
                    &&& final(self).buffer() == old(self).buffer()
                    &&& final(self).shared() == old(self).shared()
                    &&& r == if e == GatewayError::OversizePacket {
                        Ingest::Stop(e)
                    } else {
                        Ingest::Discard(e)
                    }
                },
            },
    {
        match decode_datagram(data) {
            Ok(p) => {
                let shared_pkt = Arc::new(p);
                self.handle_fast_start_buffering(share(&shared_pkt));
                Ingest::Publish(shared_pkt)
            },
            Err(e) => {
                if e.is_fatal_for_track() {
                    Ingest::Stop(e)
                } else {
                    Ingest::Discard(e)
                }
            },
        }
    }
}

} // verus!
