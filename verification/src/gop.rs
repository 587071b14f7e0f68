//! What the fast-start buffer holds, stated over the packets that were
//! ingested, and the laws that follow.
//!
//! A group is a maximal run of consecutive packets with one timestamp. A
//! boundary is a packet at which the buffer re-anchors: it opens a group, and
//! a keyframe packet was seen since the group before it opened, or it is one
//! itself.

use crate::fast_start::BufferModel;
use crate::keyframe::is_keyframe_payload;
use crate::packet::PacketView;
use crate::track_def::Codec;
use vstd::prelude::*;

verus! {

/// Whether packet `i` is the first of its group.
pub open spec fn opens_group(s: Seq<PacketView>, i: int) -> bool {
    i == 0 || s[i].header.timestamp != s[i - 1].header.timestamp
}

/// Index of the first packet of the group that packet `i` lies in.
pub open spec fn group_start(s: Seq<PacketView>, i: int) -> int
    decreases i,
{
    if i <= 0 {
        0
    } else if opens_group(s, i) {
        i
    } else {
        group_start(s, i - 1)
    }
}

/// Whether a keyframe packet lies in the group of packet `k`, after the
/// packet that opens the group and not after `k`.
pub open spec fn keyframe_seen(codec: Codec, s: Seq<PacketView>, k: int) -> bool
    decreases k,
{
    if k <= 0 || opens_group(s, k) {
        false
    } else {
        keyframe_seen(codec, s, k - 1) || is_keyframe_payload(codec, s[k].payload)
    }
}

/// Whether the buffer re-anchors at packet `i`.
pub open spec fn is_boundary(codec: Codec, s: Seq<PacketView>, i: int) -> bool {
    &&& 0 < i < s.len()
    &&& opens_group(s, i)
    &&& keyframe_seen(codec, s, i - 1) || is_keyframe_payload(codec, s[i].payload)
}

/// The last boundary before index `n`, or -1 where there is none.
pub open spec fn last_boundary(codec: Codec, s: Seq<PacketView>, n: int) -> int
    decreases n,
{
    if n <= 0 {
        -1
    } else if is_boundary(codec, s, n - 1) {
        n - 1
    } else {
        last_boundary(codec, s, n - 1)
    }
}

/// Where the group kept by the last boundary before `n` starts: the start of
/// the group that ended at that boundary, or 0 where there is no boundary.
pub open spec fn anchor(codec: Codec, s: Seq<PacketView>, n: int) -> int {
    let t = last_boundary(codec, s, n);
    if t < 0 {
        0
    } else {
        group_start(s, t - 1)
    }
}

/// Index, among the ingested packets, of the first packet the buffer still
/// holds: the anchor as it stood before the last boundary.
pub open spec fn buffer_start(codec: Codec, s: Seq<PacketView>) -> int {
    let t = last_boundary(codec, s, s.len() as int);
    if t < 0 {
        0
    } else {
        anchor(codec, s, t)
    }
}

/// `s` is the beginning of `t`.
pub open spec fn is_prefix_of(s: Seq<PacketView>, t: Seq<PacketView>) -> bool {
    &&& s.len() <= t.len()
    &&& forall|i: int| 0 <= i < s.len() ==> s[i] == t[i]
}

proof fn lemma_group_start_bounds(s: Seq<PacketView>, i: int)
    requires
        0 <= i,
    ensures
        0 <= group_start(s, i) <= i,
        opens_group(s, group_start(s, i)),
        forall|j: int| group_start(s, i) < j <= i ==> !opens_group(s, j),
        forall|j: int|
            group_start(s, i) <= j <= i ==> #[trigger] group_start(s, j) == group_start(s, i),
    decreases i,
{
    if i > 0 && !opens_group(s, i) {
        lemma_group_start_bounds(s, i - 1);
    }
}

proof fn lemma_keyframe_seen_witness(codec: Codec, s: Seq<PacketView>, k: int)
    requires
        0 <= k,
        keyframe_seen(codec, s, k),
    ensures
        exists|j: int|
            group_start(s, k) < j <= k && #[trigger] is_keyframe_payload(codec, s[j].payload),
    decreases k,
{
    if is_keyframe_payload(codec, s[k].payload) {
        lemma_group_start_bounds(s, k);
    } else {
        lemma_keyframe_seen_witness(codec, s, k - 1);
        let j = choose|j: int|
            group_start(s, k - 1) < j <= k - 1 && #[trigger] is_keyframe_payload(
                codec,
                s[j].payload,
            );
        assert(group_start(s, k) < j <= k && is_keyframe_payload(codec, s[j].payload));
    }
}

proof fn lemma_prefix_groups(codec: Codec, s: Seq<PacketView>, t: Seq<PacketView>, k: int)
    requires
        is_prefix_of(s, t),
        0 <= k < s.len(),
    ensures
        group_start(s, k) == group_start(t, k),
        keyframe_seen(codec, s, k) == keyframe_seen(codec, t, k),
        is_boundary(codec, s, k) == is_boundary(codec, t, k),
    decreases k,
{
    if k > 0 {
        lemma_prefix_groups(codec, s, t, k - 1);
    }
}

proof fn lemma_prefix_boundaries(codec: Codec, s: Seq<PacketView>, t: Seq<PacketView>, n: int)
    requires
        is_prefix_of(s, t),
        0 <= n <= s.len(),
    ensures
        last_boundary(codec, s, n) == last_boundary(codec, t, n),
        anchor(codec, s, n) == anchor(codec, t, n),
    decreases n,
{
    if n > 0 {
        lemma_prefix_groups(codec, s, t, n - 1);
        lemma_prefix_boundaries(codec, s, t, n - 1);
        lemma_last_boundary(codec, s, n);
        let b = last_boundary(codec, s, n);
        if b > 0 {
            lemma_prefix_groups(codec, s, t, b - 1);
        }
    }
}

proof fn lemma_last_boundary(codec: Codec, s: Seq<PacketView>, n: int)
    requires
        0 <= n <= s.len(),
    ensures
        -1 <= last_boundary(codec, s, n) < n,
        last_boundary(codec, s, n) >= 0 ==> is_boundary(codec, s, last_boundary(codec, s, n)),
        forall|i: int| last_boundary(codec, s, n) < i < n ==> !is_boundary(codec, s, i),
    decreases n,
{
    if n > 0 && !is_boundary(codec, s, n - 1) {
        lemma_last_boundary(codec, s, n - 1);
    }
}

/// What the buffer holds after any run of packets, and what its bookkeeping
/// means.
///
/// The buffer is the tail of the ingested packets that begins at
/// `buffer_start`: nothing is reordered, repeated or left out after that
/// point, and the newest packet is always in it. The kept group starts at
/// the anchor, the group in progress at the start of the newest packet's
/// group, and the flag tells whether a keyframe was seen in that group after
/// its first packet.
pub proof fn law_buffer_contents(codec: Codec, s: Seq<PacketView>)
    ensures
        ({
            let m = BufferModel::run(codec, s);
            let n = s.len() as int;
            let off = buffer_start(codec, s);
            &&& m.wf()
            &&& 0 <= off <= n
            &&& n > 0 ==> off < n
            &&& m.packets == s.subrange(off, n)
            &&& off + m.idx_last_kframe_gop == anchor(codec, s, n)
            &&& n > 0 ==> off + m.idx_last_gop == group_start(s, n - 1)
            &&& n > 0 ==> m.found_kf == keyframe_seen(codec, s, n - 1)
        }),
    decreases s.len(),
{
    let n1 = s.len() as int;
    if n1 == 0 {
        assert(BufferModel::run(codec, s).packets =~= s.subrange(0, 0));
    } else {
        let pre = s.drop_last();
        let p = s.last();
        let n = n1 - 1;
        law_buffer_contents(codec, pre);
        let m = BufferModel::run(codec, pre);
        let m1 = m.step(codec, p);
        let off = buffer_start(codec, pre);
        assert(is_prefix_of(pre, s));
        lemma_prefix_boundaries(codec, pre, s, n);
        lemma_last_boundary(codec, s, n);
        lemma_last_boundary(codec, pre, n);
        if n == 0 {
            assert(pre =~= Seq::empty());
            assert(m1.packets =~= s.subrange(0, 1));
        } else {
            lemma_prefix_groups(codec, pre, s, n - 1);
            assert(m.packets.last() == s[n - 1]);
            let t = last_boundary(codec, pre, n);
            if t >= 0 {
                lemma_prefix_boundaries(codec, pre, s, t);
            }
            if is_boundary(codec, s, n) {
                let cut = m.idx_last_kframe_gop as int;
                assert(m1.packets =~= s.subrange(off + cut, n1));
            } else {
                assert(m1.packets =~= s.subrange(off, n1));
            }
        }
    }
}

/// The buffer is a tail of what was ingested, in arrival order.
pub proof fn law_buffer_is_tail(codec: Codec, s: Seq<PacketView>)
    ensures
        BufferModel::run(codec, s).packets.len() <= s.len(),
        BufferModel::run(codec, s).packets == s.subrange(
            s.len() - BufferModel::run(codec, s).packets.len(),
            s.len() as int,
        ),
        s.len() > 0 ==> BufferModel::run(codec, s).packets.len() > 0,
{
    law_buffer_contents(codec, s);
}

/// Buffer bound. No three boundaries lie inside the buffer after its first
/// packet: it spans at most two complete stretches between boundaries and
/// the stretch in progress.
pub proof fn law_buffer_bound(codec: Codec, s: Seq<PacketView>, i: int, j: int, k: int)
    requires
        s.len() - BufferModel::run(codec, s).packets.len() < i < j < k < s.len(),
    ensures
        !(is_boundary(codec, s, i) && is_boundary(codec, s, j) && is_boundary(codec, s, k)),
{
    law_buffer_contents(codec, s);
    let n = s.len() as int;
    let t2 = last_boundary(codec, s, n);
    lemma_last_boundary(codec, s, n);
    if is_boundary(codec, s, i) && is_boundary(codec, s, j) && is_boundary(codec, s, k) {
        assert(k <= t2);
        let t1 = last_boundary(codec, s, t2);
        lemma_last_boundary(codec, s, t2);
        assert(j <= t1);
        lemma_group_start_bounds(s, t1 - 1);
        assert(false);
    }
}

/// Keyframe anchoring. Take a source in which no keyframe packet is the
/// first of its group (parameter sets come first). Once the first group is a
/// keyframe group, or two boundaries have passed, the first packet of the
/// buffer opens a group that holds a keyframe packet.
pub proof fn law_keyframe_anchoring(codec: Codec, s: Seq<PacketView>)
    requires
        s.len() > 0,
        forall|i: int|
            0 <= i < s.len() && #[trigger] is_keyframe_payload(codec, s[i].payload)
                ==> !opens_group(s, i),
        ({
            ||| exists|j: int|
                0 <= j < s.len() && group_start(s, j) == 0 && #[trigger] is_keyframe_payload(
                    codec,
                    s[j].payload,
                )
            ||| last_boundary(codec, s, last_boundary(codec, s, s.len() as int)) >= 0
        }),
    ensures
        ({
            let m = BufferModel::run(codec, s);
            let off = s.len() - m.packets.len();
            &&& m.packets.len() > 0
            &&& m.packets[0] == s[off]
            &&& opens_group(s, off)
            &&& exists|j: int|
                off <= j < s.len() && group_start(s, j) == off && #[trigger] is_keyframe_payload(
                    codec,
                    s[j].payload,
                )
        }),
{
    law_buffer_contents(codec, s);
    let n = s.len() as int;
    let m = BufferModel::run(codec, s);
    let off = buffer_start(codec, s);
    let t2 = last_boundary(codec, s, n);
    lemma_last_boundary(codec, s, n);
    let t1 = last_boundary(codec, s, t2);
    if t2 >= 0 {
        lemma_last_boundary(codec, s, t2);
    }
    if t2 >= 0 && t1 >= 0 {
        assert(off == group_start(s, t1 - 1));
        lemma_group_start_bounds(s, t1 - 1);
        assert(keyframe_seen(codec, s, t1 - 1));
        lemma_keyframe_seen_witness(codec, s, t1 - 1);
        let j = choose|j: int|
            group_start(s, t1 - 1) < j <= t1 - 1 && #[trigger] is_keyframe_payload(
                codec,
                s[j].payload,
            );
        assert(group_start(s, j) == off);
        assert(off <= j < s.len() && group_start(s, j) == off && is_keyframe_payload(
            codec,
            s[j].payload,
        ));
    } else {
        assert(off == 0);
    }
}

/// For any source: once two boundaries have passed, the first packet of the
/// buffer opens a group, and a keyframe packet lies in that group after it
/// or opens the group that follows.
pub proof fn law_keyframe_near_front(codec: Codec, s: Seq<PacketView>)
    requires
        last_boundary(codec, s, last_boundary(codec, s, s.len() as int)) >= 0,
    ensures
        ({
            let m = BufferModel::run(codec, s);
            let off = s.len() - m.packets.len();
            &&& m.packets.len() > 0
            &&& m.packets[0] == s[off]
            &&& opens_group(s, off)
            &&& exists|j: int|
                off < j < s.len() && group_start(s, j - 1) == off && #[trigger] is_keyframe_payload(
                    codec,
                    s[j].payload,
                )
        }),
{
    law_buffer_contents(codec, s);
    let n = s.len() as int;
    let off = buffer_start(codec, s);
    let t2 = last_boundary(codec, s, n);
    lemma_last_boundary(codec, s, n);
    let t1 = last_boundary(codec, s, t2);
    lemma_last_boundary(codec, s, t2);
    lemma_group_start_bounds(s, t1 - 1);
    if is_keyframe_payload(codec, s[t1].payload) {
        assert(off < t1 < s.len() && group_start(s, t1 - 1) == off && is_keyframe_payload(
            codec,
            s[t1].payload,
        ));
    } else {
        lemma_keyframe_seen_witness(codec, s, t1 - 1);
        let j = choose|j: int|
            group_start(s, t1 - 1) < j <= t1 - 1 && #[trigger] is_keyframe_payload(
                codec,
                s[j].payload,
            );
        assert(group_start(s, j - 1) == off);
        assert(off < j < s.len() && group_start(s, j - 1) == off && is_keyframe_payload(
            codec,
            s[j].payload,
        ));
    }
}

} // verus!
