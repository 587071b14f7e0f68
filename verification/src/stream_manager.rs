//! The stream registry: which streams run, under which id.

use crate::config::{def_ids, def_views, valid_defs, Config};
use crate::id_map::{distinct, ids_of, index_of, lemma_index_of, IdMap};
use crate::track_def::{StreamDef, StreamDefView};
use vstd::prelude::*;

verus! {

/// A running stream: its description and a handle on each of its tracks.
pub struct Stream<T> {
    pub video: Option<T>,
    pub audio: Option<T>,
    pub def: StreamDef,
}

/// What has to happen for the registry to hold a given set of streams.
pub struct SyncTracks {
    /// Ids of the streams to delete, in registry order. Delete before
    /// creating: a changed description keeps its id.
    pub delete: Vec<String>,
    /// Descriptions of the streams to create, in the order wanted.
    pub create: Vec<StreamDef>,
}

/// The descriptions that `wanted` holds and `current` does not.
pub open spec fn missing(wanted: Seq<StreamDefView>, current: Seq<StreamDefView>) -> Seq<
    StreamDefView,
> {
    wanted.filter(|d: StreamDefView| !current.contains(d))
}

/// The descriptions that `current` holds and `wanted` does not.
pub open spec fn stale(current: Seq<StreamDefView>, wanted: Seq<StreamDefView>) -> Seq<
    StreamDefView,
> {
    current.filter(|d: StreamDefView| !wanted.contains(d))
}

/// The registry's descriptions once a plan has been carried out: those that
/// were not deleted, then those created.
pub open spec fn after_sync(
    current: Seq<StreamDefView>,
    delete: Seq<Seq<char>>,
    create: Seq<StreamDefView>,
) -> Seq<StreamDefView> {
    current.filter(|d: StreamDefView| !delete.contains(d.id)) + create
}

/// The streams of the gateway, each under the id of its description.
pub struct StreamManager<T> {
    streams: IdMap<Stream<T>>,
}

impl<T> StreamManager<T> {
    /// The ids, in the order in which the streams were created.
    pub closed spec fn ids(self) -> Seq<Seq<char>> {
        self.streams.ids()
    }

    /// The streams, each at the position of its id.
    pub closed spec fn streams(self) -> Seq<Stream<T>> {
        self.streams.values()
    }

    /// The descriptions of the streams, in the same order.
    pub open spec fn defs(self) -> Seq<StreamDefView> {
        self.streams().map_values(|s: Stream<T>| s.def@)
    }

    /// No id twice, and every stream stands under its own id.
    pub closed spec fn wf(self) -> bool {
        &&& self.streams.wf()
        &&& forall|i: int|
            0 <= i < self.streams.ids().len() ==> self.streams.ids()[i]
                == (#[trigger] self.streams.values()[i]).def.id@
    }

    /// Each id names one stream, and each stream stands under the id of
    /// its own description.
    pub proof fn law_one_stream_per_id(self)
        requires
            self.wf(),
        ensures
            self.ids().len() == self.streams().len(),
            distinct(self.ids()),
            self.ids() == def_ids(self.defs()),
    {
        assert(self.ids() =~= def_ids(self.defs()));
    }

    pub open spec fn spec_get(self, id: Seq<char>) -> Option<Stream<T>> {
        let i = index_of(self.ids(), id);
        if i >= 0 {
            Some(self.streams()[i])
        } else {
            None
        }
    }

    pub fn new() -> (r: StreamManager<T>)
        ensures
            r.wf(),
            r.ids().len() == 0,
            r.streams().len() == 0,
    {
        StreamManager { streams: IdMap::new() }
    }

    /// Registers a stream under the id of its description. An id that is
    /// taken is refused: the stream comes back and nothing changes.
    pub fn create_stream(&mut self, stream: Stream<T>) -> (r: Result<(), Stream<T>>)
        requires
            old(self).wf(),
        ensures
            final(self).wf(),
            match r {
                Ok(()) => {
                    &&& !old(self).ids().contains(stream.def.id@)
                    &&& final(self).ids() == old(self).ids().push(stream.def.id@)
                    &&& final(self).streams() == old(self).streams().push(stream)
                },
                Err(s) => {
                    &&& old(self).ids().contains(stream.def.id@)
                    &&& s == stream
                    &&& final(self).ids() == old(self).ids()
                    &&& final(self).streams() == old(self).streams()
                },
            },
    {
        let id = stream.def.id.clone();
        self.streams.insert_new(id, stream)
    }

    /// Takes a stream out of the registry and hands it over; dropping it
    /// ends its ingest loops.
    pub fn delete_stream(&mut self, id: &String) -> (r: Option<Stream<T>>)
        requires
            old(self).wf(),
        ensures
            final(self).wf(),
            r == old(self).spec_get(id@),
            !final(self).ids().contains(id@),
            match r {
                Some(_) => {
                    let i = index_of(old(self).ids(), id@);
                    &&& final(self).ids() == old(self).ids().remove(i)
                    &&& final(self).streams() == old(self).streams().remove(i)
                },
                None => {
                    &&& final(self).ids() == old(self).ids()
                    &&& final(self).streams() == old(self).streams()
                },
            },
    {
        proof {
            lemma_index_of(self.streams.ids(), id@);
        }
        self.streams.remove(id)
    }

    pub fn get_stream(&self, stream_id: &String) -> (r: Option<&Stream<T>>)
        requires
            self.wf(),
        ensures
            match r {
                Some(s) => self.spec_get(stream_id@) == Some(*s),
                None => self.spec_get(stream_id@) is None,
            },
    {
        self.streams.get(stream_id)
    }

    /// The descriptions of all streams, in registry order.
    pub fn stream_defs(&self) -> (r: Vec<StreamDef>)
        requires
            self.wf(),
        ensures
            def_views(r@) == self.defs(),
    {
        let mut out: Vec<StreamDef> = Vec::new();
        let n = self.streams.len();
        let mut i: usize = 0;
        while i < n
            invariant
                self.wf(),
                n == self.streams.ids().len(),
                i <= n,
                def_views(out@) == self.defs().subrange(0, i as int),
            decreases n - i,
        {
            let ghost before = def_views(out@);
            let entry = self.streams.get_at(i);
            let d = entry.1.def.duplicate();
            out.push(d);
            assert(def_views(out@) =~= before.push(d@));
            assert(def_views(out@) =~= self.defs().subrange(0, i + 1));
            i = i + 1;
        }
        assert(self.defs().subrange(0, n as int) =~= self.defs());
        out
    }

    /// The ids of the streams that can be sent: those with a track.
    pub open spec fn sendable(self) -> Seq<Seq<char>> {
        def_ids(self.defs().filter(|d: StreamDefView| d.video is Some || d.audio is Some))
    }

    /// All ids, in registry order.
    pub fn stream_ids(&self) -> (r: Vec<String>)
        requires
            self.wf(),
        ensures
            ids_of(r@) == self.ids(),
    {
        self.streams.keys()
    }

    /// Computes `sendable`.
    pub fn sendable_ids(&self) -> (r: Vec<String>)
        requires
            self.wf(),
        ensures
            ids_of(r@) == self.sendable(),
    {
        let mut out: Vec<String> = Vec::new();
        let n = self.streams.len();
        let ghost pred = |d: StreamDefView| d.video is Some || d.audio is Some;
        let mut i: usize = 0;
        proof {
            reveal(Seq::filter);
            assert(self.defs().subrange(0, 0).filter(pred) =~= Seq::<StreamDefView>::empty());
            assert(ids_of(out@) =~= def_ids(self.defs().subrange(0, 0).filter(pred)));
        }
        while i < n
            invariant
                self.wf(),
                n == self.streams.ids().len(),
                i <= n,
                pred == (|d: StreamDefView| d.video is Some || d.audio is Some),
                ids_of(out@) == def_ids(self.defs().subrange(0, i as int).filter(pred)),
            decreases n - i,
        {
            let ghost before = ids_of(out@);
            let ghost seen = self.defs().subrange(0, i as int);
            let entry = self.streams.get_at(i);
            proof {
                assert(self.defs().subrange(0, i + 1) =~= seen.push(entry.1.def@));
                seen.lemma_filter_push(entry.1.def@, pred);
            }
            if entry.1.def.has_track() {
                out.push(entry.1.def.id.clone());
                assert(ids_of(out@) =~= before.push(entry.1.def.id@));
                assert(def_ids(seen.filter(pred).push(entry.1.def@)) =~= def_ids(
                    seen.filter(pred),
                ).push(entry.1.def.id@));
            }
            i = i + 1;
        }
        assert(self.defs().subrange(0, n as int) =~= self.defs());
        out
    }

    /// Whether some stream is described by `def`.
    fn holds_def(&self, def: &StreamDef) -> (r: bool)
        requires
            self.wf(),
        ensures
            r == self.defs().contains(def@),
    {
        let n = self.streams.len();
        let mut i: usize = 0;
        while i < n
            invariant
                self.wf(),
                n == self.streams.ids().len(),
                i <= n,
                forall|j: int| 0 <= j < i ==> self.defs()[j] != def@,
            decreases n - i,
        {
            let entry = self.streams.get_at(i);
            if entry.1.def.same(def) {
                assert(self.defs()[i as int] == def@);
                return true;
            }
            i = i + 1;
        }
        false
    }

    /// Plans what brings the registry to the configured set: every stream
    /// whose description the configuration does not hold is deleted, every
    /// description that no stream has is created.
    pub fn sync_tracks(&self, config: &Config) -> (r: SyncTracks)
        requires
            self.wf(),
        ensures
            ids_of(r.delete@) == def_ids(stale(self.defs(), config.defs())),
            def_views(r.create@) == missing(config.defs(), self.defs()),
    {
        let wanted = config.streams();
        let ghost cur = self.defs();
        let ghost want = def_views(wanted@);
        let ghost is_stale = |d: StreamDefView| !want.contains(d);
        let ghost is_missing = |d: StreamDefView| !cur.contains(d);
        let mut delete: Vec<String> = Vec::new();
        let mut create: Vec<StreamDef> = Vec::new();
        let n = self.streams.len();
        let mut i: usize = 0;
        proof {
            reveal(Seq::filter);
            assert(cur.subrange(0, 0).filter(is_stale) =~= Seq::<StreamDefView>::empty());
            assert(ids_of(delete@) =~= def_ids(cur.subrange(0, 0).filter(is_stale)));
        }
        while i < n
            invariant
                self.wf(),
                n == self.streams.ids().len(),
                i <= n,
                cur == self.defs(),
                want == def_views(wanted@),
                is_stale == (|d: StreamDefView| !want.contains(d)),
                ids_of(delete@) == def_ids(cur.subrange(0, i as int).filter(is_stale)),
            decreases n - i,
        {
            let ghost before = ids_of(delete@);
            let ghost seen = cur.subrange(0, i as int);
            let entry = self.streams.get_at(i);
            proof {
                assert(cur.subrange(0, i + 1) =~= seen.push(entry.1.def@));
                seen.lemma_filter_push(entry.1.def@, is_stale);
            }
            if !holds_view(wanted, &entry.1.def) {
                delete.push(entry.1.def.id.clone());
                assert(ids_of(delete@) =~= before.push(entry.1.def.id@));
                assert(def_ids(seen.filter(is_stale).push(entry.1.def@)) =~= def_ids(
                    seen.filter(is_stale),
                ).push(entry.1.def.id@));
            }
            i = i + 1;
        }
        assert(cur.subrange(0, n as int) =~= cur);
        let mut j: usize = 0;
        proof {
            reveal(Seq::filter);
            assert(want.subrange(0, 0).filter(is_missing) =~= Seq::<StreamDefView>::empty());
            assert(def_views(create@) =~= want.subrange(0, 0).filter(is_missing));
        }
        while j < wanted.len()
            invariant
                self.wf(),
                j <= wanted.len(),
                cur == self.defs(),
                want == def_views(wanted@),
                is_missing == (|d: StreamDefView| !cur.contains(d)),
                def_views(create@) == want.subrange(0, j as int).filter(is_missing),
            decreases wanted.len() - j,
        {
            let ghost before = def_views(create@);
            let ghost seen = want.subrange(0, j as int);
            proof {
                assert(want.subrange(0, j + 1) =~= seen.push(wanted@[j as int]@));
                seen.lemma_filter_push(wanted@[j as int]@, is_missing);
            }
            if !self.holds_def(&wanted[j]) {
                let d = wanted[j].duplicate();
                create.push(d);
                assert(def_views(create@) =~= before.push(d@));
            }
            j = j + 1;
        }
        assert(want.subrange(0, wanted.len() as int) =~= want);
        SyncTracks { delete, create }
    }
}

/// Whether `def` is among `defs`.
pub fn holds_view(defs: &Vec<StreamDef>, def: &StreamDef) -> (r: bool)
    ensures
        r == def_views(defs@).contains(def@),
{
    let mut i: usize = 0;
    while i < defs.len()
        invariant
            i <= defs.len(),
            forall|j: int| 0 <= j < i ==> def_views(defs@)[j] != def@,
        decreases defs.len() - i,
    {
        if defs[i].same(def) {
            assert(def_views(defs@)[i as int] == def@);
            return true;
        }
        i = i + 1;
    }
    false
}

/// A filtered list holds exactly the members that pass.
pub proof fn lemma_filter_member<A>(s: Seq<A>, p: spec_fn(A) -> bool, d: A)
    ensures
        s.filter(p).contains(d) <==> s.contains(d) && p(d),
{
    if s.filter(p).contains(d) {
        s.lemma_filter_contains_rev(p, d);
        let i = choose|i: int| 0 <= i < s.filter(p).len() && s.filter(p)[i] == d;
        s.lemma_filter_pred(p, i);
    }
    if s.contains(d) && p(d) {
        let i = choose|i: int| 0 <= i < s.len() && s[i] == d;
        s.lemma_filter_contains(p, i);
    }
}

/// A list without members is empty.
pub proof fn lemma_no_member_is_empty<A>(s: Seq<A>)
    requires
        forall|d: A| !s.contains(d),
    ensures
        s.len() == 0,
{
    if s.len() > 0 {
        assert(s.contains(s[0]));
    }
}

/// Registry sync reaches the configuration and then rests. Once a plan has
/// been carried out the registry holds exactly the configured descriptions,
/// and the plan made for the same configuration next deletes nothing and
/// creates nothing.
pub proof fn law_sync_tracks_settles(current: Seq<StreamDefView>, wanted: Seq<StreamDefView>)
    requires
        distinct(def_ids(current)),
    ensures
        ({
            let after = after_sync(
                current,
                def_ids(stale(current, wanted)),
                missing(wanted, current),
            );
            &&& forall|d: StreamDefView| after.contains(d) <==> wanted.contains(d)
            &&& stale(after, wanted).len() == 0
            &&& missing(wanted, after).len() == 0
        }),
{
    let gone = stale(current, wanted);
    let delete = def_ids(gone);
    let create = missing(wanted, current);
    let kept = current.filter(|d: StreamDefView| !delete.contains(d.id));
    let after = kept + create;
    assert forall|d: StreamDefView| after.contains(d) <==> wanted.contains(d) by {
        lemma_filter_member(current, |d: StreamDefView| !delete.contains(d.id), d);
        lemma_filter_member(current, |d: StreamDefView| !wanted.contains(d), d);
        lemma_filter_member(wanted, |d: StreamDefView| !current.contains(d), d);
        if current.contains(d) && delete.contains(d.id) {
            let j = choose|j: int| 0 <= j < delete.len() && delete[j] == d.id;
            let g = gone[j];
            assert(gone.contains(g));
            lemma_filter_member(current, |d: StreamDefView| !wanted.contains(d), g);
            let a = choose|a: int| 0 <= a < current.len() && current[a] == g;
            let b = choose|b: int| 0 <= b < current.len() && current[b] == d;
            assert(def_ids(current)[a] == def_ids(current)[b]);
            assert(g == d);
        }
        if current.contains(d) && !wanted.contains(d) {
            let j = choose|j: int| 0 <= j < gone.len() && gone[j] == d;
            assert(delete[j] == d.id);
        }
        if kept.contains(d) {
            let i = choose|i: int| 0 <= i < kept.len() && kept[i] == d;
            assert(after[i] == d);
        }
        if create.contains(d) {
            let i = choose|i: int| 0 <= i < create.len() && create[i] == d;
            assert(after[kept.len() + i] == d);
        }
        if after.contains(d) {
            let i = choose|i: int| 0 <= i < after.len() && after[i] == d;
            if i < kept.len() {
                assert(kept[i] == d);
            } else {
                assert(create[i - kept.len()] == d);
            }
        }
    }
    assert forall|d: StreamDefView| !stale(after, wanted).contains(d) by {
        lemma_filter_member(after, |d: StreamDefView| !wanted.contains(d), d);
    }
    lemma_no_member_is_empty(stale(after, wanted));
    assert forall|d: StreamDefView| !missing(wanted, after).contains(d) by {
        lemma_filter_member(wanted, |d: StreamDefView| !after.contains(d), d);
    }
    lemma_no_member_is_empty(missing(wanted, after));
}

/// Filtering keeps ids apart.
proof fn lemma_filter_keeps_ids_apart(s: Seq<StreamDefView>, p: spec_fn(StreamDefView) -> bool)
    requires
        distinct(def_ids(s)),
    ensures
        distinct(def_ids(s.filter(p))),
    decreases s.len(),
{
    reveal(Seq::filter);
    if s.len() > 0 {
        let pre = s.drop_last();
        assert forall|i: int, j: int| 0 <= i < j < pre.len() implies def_ids(pre)[i] != def_ids(
            pre,
        )[j] by {
            assert(def_ids(s)[i] != def_ids(s)[j]);
        }
        lemma_filter_keeps_ids_apart(pre, p);
        let sub = pre.filter(p);
        if p(s.last()) {
            let out = sub.push(s.last());
            assert forall|i: int, j: int| 0 <= i < j < out.len() implies def_ids(out)[i]
                != def_ids(out)[j] by {
                if j == sub.len() {
                    assert(sub.contains(sub[i]));
                    pre.lemma_filter_contains_rev(p, sub[i]);
                    let a = choose|a: int| 0 <= a < pre.len() && pre[a] == sub[i];
                    assert(def_ids(s)[a] != def_ids(s)[s.len() - 1]);
                } else {
                    assert(def_ids(sub)[i] != def_ids(sub)[j]);
                }
            }
        }
    }
}

/// A plan made for a checked configuration can be carried out: after the
/// deletions no stream that stays has the id of one to be created, and no
/// two to be created share one, so the registry still has one stream per
/// id.
pub proof fn law_sync_tracks_keeps_ids_apart(
    current: Seq<StreamDefView>,
    wanted: Seq<StreamDefView>,
)
    requires
        distinct(def_ids(current)),
        valid_defs(wanted),
    ensures
        distinct(
            def_ids(after_sync(current, def_ids(stale(current, wanted)), missing(wanted, current))),
        ),
{
    let gone = stale(current, wanted);
    let delete = def_ids(gone);
    let create = missing(wanted, current);
    let kept = current.filter(|d: StreamDefView| !delete.contains(d.id));
    let after = kept + create;
    law_sync_tracks_settles(current, wanted);
    lemma_filter_keeps_ids_apart(current, |d: StreamDefView| !delete.contains(d.id));
    lemma_filter_keeps_ids_apart(wanted, |d: StreamDefView| !current.contains(d));
    assert forall|i: int, j: int| 0 <= i < j < after.len() implies def_ids(after)[i] != def_ids(
        after,
    )[j] by {
        if j < kept.len() {
            assert(def_ids(kept)[i] != def_ids(kept)[j]);
        } else if i >= kept.len() {
            assert(def_ids(create)[i - kept.len()] != def_ids(create)[j - kept.len()]);
        } else {
            let k = kept[i];
            let c = create[j - kept.len()];
            assert(after[i] == k && after[j] == c);
            assert(after.contains(k));
            assert(create.contains(c));
            assert(kept.contains(k));
            lemma_filter_member(wanted, |d: StreamDefView| !current.contains(d), c);
            lemma_filter_member(current, |d: StreamDefView| !delete.contains(d.id), k);
            if k.id == c.id {
                let a = choose|a: int| 0 <= a < wanted.len() && wanted[a] == k;
                let b = choose|b: int| 0 <= b < wanted.len() && wanted[b] == c;
                assert(def_ids(wanted)[a] == def_ids(wanted)[b]);
                assert(false);
            }
        }
    }
}

} // verus!
