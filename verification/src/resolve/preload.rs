//! Which queued tracks are resolved ahead of their turn.
use vstd::prelude::*;
use dashmap::DashSet;
use crate::collections::{
    add_preloading, drop_preloading, has_preloading, new_preloading, preloading_ids,
};
use crate::model::{GuildSessionState, QueueItemView, Track, TrackView};

verus! {

/// How many of the queued tracks behind the head are resolved ahead.
pub const PRELOAD_AHEAD: usize = 2;

/// The tracks that are being resolved ahead, by identifier.
#[derive(Debug)]
pub struct PreloadSet {
    ids: DashSet<u128>,
}

/// The tracks of `queue` from `from` up to `to` that are not being resolved yet, each once.
pub open spec fn to_preload(
    queue: Seq<QueueItemView>,
    from: int,
    to: int,
    busy: Set<u128>,
) -> Seq<TrackView>
    decreases to - from,
{
    if from >= to {
        Seq::empty()
    } else {
        let track = queue[from].track;
        if busy.contains(track.id) {
            to_preload(queue, from + 1, to, busy)
        } else {
            seq![track] + to_preload(queue, from + 1, to, busy.insert(track.id))
        }
    }
}

/// Where the part of the queue that is looked at ends: behind the head and the two tracks
/// after it.
pub open spec fn preload_end(queue: Seq<QueueItemView>) -> int {
    if queue.len() > 1 + PRELOAD_AHEAD {
        1 + PRELOAD_AHEAD
    } else {
        queue.len() as int
    }
}

/// The identifiers of a row of tracks.
pub open spec fn track_ids(tracks: Seq<TrackView>) -> Set<u128> {
    Set::new(|id: u128| exists|i: int| 0 <= i < tracks.len() && (#[trigger] tracks[i]).id == id)
}

impl PreloadSet {
    /// The tracks that are being resolved ahead, by identifier.
    pub closed spec fn busy(&self) -> Set<u128> {
        preloading_ids(self.ids)
    }

    /// No track is being resolved.
    pub fn new() -> (r: Self)
        ensures
            r.busy() == Set::<u128>::empty(),
    {
        PreloadSet { ids: new_preloading() }
    }

    /// The tracks to resolve ahead: of the two queued behind the head, those that are not
    /// being resolved yet. They count as being resolved from now on.
    pub fn trigger_preload(&mut self, session: &GuildSessionState) -> (r: Vec<Track>)
        ensures
            r.deep_view() == to_preload(
                session@.queue,
                1,
                preload_end(session@.queue),
                old(self).busy(),
            ),
            final(self).busy() == old(self).busy().union(track_ids(r.deep_view())),
    {
        let queue = &session.queue;
        let ghost all = session@.queue;
        let end: usize = if queue.len() > 1 + PRELOAD_AHEAD {
            1 + PRELOAD_AHEAD
        } else {
            queue.len()
        };
        let mut out: Vec<Track> = Vec::new();
        assert(out.deep_view() =~= Seq::<TrackView>::empty());
        assert(self.busy() =~= old(self).busy().union(track_ids(out.deep_view())));
        let mut i: usize = 1;
        proof {
            let rest = to_preload(all, 1, end as int, self.busy());
            assert(out.deep_view() + rest =~= rest);
        }
        while i < end
            invariant
                1 <= i,
                end <= queue@.len(),
                all == queue.deep_view(),
                self.busy() == old(self).busy().union(track_ids(out.deep_view())),
                to_preload(all, 1, end as int, old(self).busy()) == out.deep_view() + to_preload(
                    all,
                    i as int,
                    end as int,
                    self.busy(),
                ),
            decreases end - i,
        {
            let id: u128 = queue[i].track.id;
            assert(all[i as int] == queue@[i as int]@);
            if !has_preloading(&self.ids, id) {
                let ghost before = out.deep_view();
                let ghost busy = self.busy();
                let ghost track = all[i as int].track;
                add_preloading(&mut self.ids, id);
                out.push(queue[i].track.clone());
                proof {
                    let after = out.deep_view();
                    let rest = to_preload(all, i + 1, end as int, self.busy());
                    assert(after =~= before.push(track));
                    assert(before + (seq![track] + rest) =~= after + rest);
                    assert forall|x: u128| track_ids(after).contains(x) <==> track_ids(
                        before,
                    ).contains(x) || x == id by {
                        if track_ids(before).contains(x) {
                            let k = choose|k: int|
                                0 <= k < before.len() && (#[trigger] before[k]).id == x;
                            assert(after[k].id == x);
                        }
                        if x == id {
                            assert(after[before.len() as int].id == x);
                        }
                        if track_ids(after).contains(x) && x != id {
                            let k = choose|k: int|
                                0 <= k < after.len() && (#[trigger] after[k]).id == x;
                            assert(before[k].id == x);
                        }
                    }
                    assert(self.busy() =~= old(self).busy().union(track_ids(after)));
                }
            }
            i += 1;
        }
        assert(out.deep_view() + Seq::<TrackView>::empty() =~= out.deep_view());
        out
    }

    /// The track is no longer being resolved.
    pub fn finish(&mut self, id: u128)
        ensures
            final(self).busy() == old(self).busy().remove(id),
    {
        drop_preloading(&mut self.ids, id);
    }
}

/// No more than two tracks are resolved ahead; none of them is being resolved already, and none
/// comes twice.
pub proof fn law_preloads_are_few_and_new(
    queue: Seq<QueueItemView>,
    from: int,
    to: int,
    busy: Set<u128>,
)
    requires
        0 <= from <= to <= queue.len(),
    ensures
        ({
            let tracks = to_preload(queue, from, to, busy);
            &&& tracks.len() <= to - from
            &&& preload_end(queue) - 1 <= PRELOAD_AHEAD
            &&& forall|i: int| 0 <= i < tracks.len() ==> !busy.contains((#[trigger] tracks[i]).id)
            &&& forall|i: int, j: int|
                0 <= i < j < tracks.len() ==> (#[trigger] tracks[i]).id != (
                #[trigger] tracks[j]).id
        }),
    decreases to - from,
{
    if from < to {
        let track = queue[from].track;
        if busy.contains(track.id) {
            law_preloads_are_few_and_new(queue, from + 1, to, busy);
        } else {
            let more = busy.insert(track.id);
            law_preloads_are_few_and_new(queue, from + 1, to, more);
            let rest = to_preload(queue, from + 1, to, more);
            let tracks = to_preload(queue, from, to, busy);
            assert(tracks =~= seq![track] + rest);
            assert forall|i: int| 0 <= i < tracks.len() implies !busy.contains(
                (#[trigger] tracks[i]).id,
            ) by {
                if i > 0 {
                    assert(tracks[i] == rest[i - 1]);
                }
            }
            assert forall|i: int, j: int| 0 <= i < j < tracks.len() implies (
            #[trigger] tracks[i]).id != (#[trigger] tracks[j]).id by {
                assert(tracks[j] == rest[j - 1]);
                if i > 0 {
                    assert(tracks[i] == rest[i - 1]);
                } else {
                    assert(!more.contains(rest[j - 1].id));
                }
            }
        }
    }
}

} // verus!
