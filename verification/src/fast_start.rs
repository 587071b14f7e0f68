//! The fast-start buffer: a bounded history of one track's packets, kept so
//! that a client joining late starts from a keyframe.

use crate::keyframe::{is_keyframe_payload, keyframe_payload};
use crate::packet::{packet_views, share, Packet, PacketView};
use crate::track_def::Codec;
use std::sync::Arc;
use vstd::prelude::*;

verus! {

/// The ingestor's bookkeeping. A group is a run of packets that share a
/// timestamp, that is, one frame.
#[derive(Clone, Copy, Debug, PartialEq, Eq)]
pub struct StreamState {
    /// Where the group in progress starts in the buffer.
    pub idx_last_gop: usize,
    /// Where the group that the next trim will keep starts in the buffer.
    pub idx_last_kframe_gop: usize,
    /// Whether a keyframe was seen since the group in progress started.
    pub found_kf: bool,
    /// How many packets the buffer holds.
    pub num_packets_buffered: usize,
}

impl StreamState {
    /// The bookkeeping of an empty buffer.
    pub fn new() -> (r: StreamState)
        ensures
            r == (StreamState {
                idx_last_gop: 0,
                idx_last_kframe_gop: 0,
                found_kf: false,
                num_packets_buffered: 0,
            }),
    {
        StreamState {
            idx_last_gop: 0,
            idx_last_kframe_gop: 0,
            found_kf: false,
            num_packets_buffered: 0,
        }
    }
}

impl Default for StreamState {
    fn default() -> (r: StreamState)
        ensures
            r == (StreamState {
                idx_last_gop: 0,
                idx_last_kframe_gop: 0,
                found_kf: false,
                num_packets_buffered: 0,
            }),
    {
        StreamState::new()
    }
}

/// The buffer and its bookkeeping, as mathematics.
pub struct BufferModel {
    pub packets: Seq<PacketView>,
    pub idx_last_gop: int,
    pub idx_last_kframe_gop: int,
    pub found_kf: bool,
    pub num_packets_buffered: int,
}

impl BufferModel {
    /// The empty buffer.
    pub open spec fn empty() -> BufferModel {
        BufferModel {
            packets: Seq::empty(),
            idx_last_gop: 0,
            idx_last_kframe_gop: 0,
            found_kf: false,
            num_packets_buffered: 0,
        }
    }

    /// The indices point into the buffer, in order, and the count is the
    /// buffer's length.
    pub open spec fn wf(self) -> bool {
        &&& 0 <= self.idx_last_kframe_gop <= self.idx_last_gop <= self.packets.len()
        &&& self.packets.len() > 0 ==> self.idx_last_gop < self.packets.len()
        &&& self.num_packets_buffered == self.packets.len()
    }

    /// The buffer after one more packet.
    ///
    /// The first packet is stored as it comes. For a later one: a timestamp
    /// other than that of the newest stored packet opens a new group; the
    /// keyframe flag takes in the packet; where a group opens with the flag
    /// up, everything before the kept group is dropped, the group that just
    /// ended becomes the kept one and the flag falls; where a group opens,
    /// it starts at the end of the buffer; then the packet is appended.
    pub open spec fn step(self, codec: Codec, p: PacketView) -> BufferModel {
        if self.packets.len() == 0 {
            BufferModel {
                packets: self.packets.push(p),
                num_packets_buffered: self.num_packets_buffered + 1,
                ..self
            }
        } else {
            let new_gop = self.packets.last().header.timestamp != p.header.timestamp;
            let found = self.found_kf || is_keyframe_payload(codec, p.payload);
            if new_gop && found {
                let cut = self.idx_last_kframe_gop;
                let kept = self.packets.subrange(cut, self.packets.len() as int);
                BufferModel {
                    packets: kept.push(p),
                    idx_last_gop: kept.len() as int,
                    idx_last_kframe_gop: self.idx_last_gop - cut,
                    found_kf: false,
                    num_packets_buffered: self.num_packets_buffered - cut + 1,
                }
            } else if new_gop {
                BufferModel {
                    packets: self.packets.push(p),
                    idx_last_gop: self.packets.len() as int,
                    found_kf: found,
                    num_packets_buffered: self.num_packets_buffered + 1,
                    ..self
                }
            } else {
                BufferModel {
                    packets: self.packets.push(p),
                    found_kf: found,
                    num_packets_buffered: self.num_packets_buffered + 1,
                    ..self
                }
            }
        }
    }

    /// The buffer after a whole run of packets, from empty.
    pub open spec fn run(codec: Codec, pkts: Seq<PacketView>) -> BufferModel
        decreases pkts.len(),
    {
        if pkts.len() == 0 {
            BufferModel::empty()
        } else {
            BufferModel::run(codec, pkts.drop_last()).step(codec, pkts.last())
        }
    }
}

/// The packets a late joiner is sent first, oldest first.
pub struct FastStartBuffer {
    packets: Vec<Arc<Packet>>,
    state: StreamState,
}

impl FastStartBuffer {
    /// The buffer and its bookkeeping, as mathematics.
    pub closed spec fn model(self) -> BufferModel {
        BufferModel {
            packets: packet_views(self.packets@),
            idx_last_gop: self.state.idx_last_gop as int,
            idx_last_kframe_gop: self.state.idx_last_kframe_gop as int,
            found_kf: self.state.found_kf,
            num_packets_buffered: self.state.num_packets_buffered as int,
        }
    }

    /// An empty buffer.
    pub fn new() -> (r: FastStartBuffer)
        ensures
            r.model() == BufferModel::empty(),
            r.model().wf(),
    {
        let r = FastStartBuffer { packets: Vec::new(), state: StreamState::new() };
        assert(r.model().packets =~= Seq::empty());
        r
    }

    /// Takes in one packet of a track of the given codec.
    pub fn push(&mut self, codec: Codec, pkt: Arc<Packet>)
        requires
            old(self).model().wf(),
        ensures
            final(self).model() == old(self).model().step(codec, pkt@),
            final(self).model().wf(),
    {
        let ghost before = self.model();
        let n: usize = self.packets.len();
        let mut state = self.state;
        if n > 0 {
            let new_gop: bool = self.packets[n - 1].header.timestamp != pkt.header.timestamp;
            assert(self.packets@[n - 1]@ == before.packets.last());
            let kf: bool = keyframe_payload(codec, pkt.payload.as_slice());
            state.found_kf = state.found_kf || kf;
            if new_gop {
                if state.found_kf {
                    let cut: usize = state.idx_last_kframe_gop;
                    state.idx_last_kframe_gop = state.idx_last_gop - cut;
                    state.found_kf = false;
                    let kept = self.packets.split_off(cut);
                    self.packets = kept;
                    assert(packet_views(self.packets@) =~= before.packets.subrange(
                        cut as int,
                        n as int,
                    ));
                }
                state.idx_last_gop = self.packets.len();
            }
        }
        let ghost mid = self.packets@;
        self.packets.push(pkt);
        assert(packet_views(self.packets@) =~= packet_views(mid).push(pkt@));
        state.num_packets_buffered = self.packets.len();
        self.state = state;
    }

    /// An ordered copy of the buffer; the packets themselves are shared.
    pub fn snapshot(&self) -> (r: Vec<Arc<Packet>>)
        ensures
            r@ == self.packets(),
            packet_views(r@) == self.model().packets,
    {
        let mut out: Vec<Arc<Packet>> = Vec::new();
        let mut i: usize = 0;
        while i < self.packets.len()
            invariant
                i <= self.packets.len(),
                out@ == self.packets@.subrange(0, i as int),
            decreases self.packets.len() - i,
        {
            out.push(share(&self.packets[i]));
            assert(out@ =~= self.packets@.subrange(0, i + 1));
            i = i + 1;
        }
        assert(out@ =~= self.packets@);
        out
    }

    /// The shared packets the buffer holds.
    pub closed spec fn packets(self) -> Seq<Arc<Packet>> {
        self.packets@
    }

    /// How many packets the buffer holds.
    pub fn len(&self) -> (r: usize)
        ensures
            r == self.model().packets.len(),
    {
        self.packets.len()
    }

    /// The bookkeeping as it stands.
    pub fn state(&self) -> (r: StreamState)
        ensures
            r.idx_last_gop == self.model().idx_last_gop,
            r.idx_last_kframe_gop == self.model().idx_last_kframe_gop,
            r.found_kf == self.model().found_kf,
            r.num_packets_buffered == self.model().num_packets_buffered,
    {
        self.state
    }
}

} // verus!
