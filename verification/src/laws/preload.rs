//! Laws of the tracks that are resolved ahead of their turn.
use vstd::prelude::*;
use crate::model::{GuildSessionState, QueueItemView, Track, TrackView};
use crate::resolve::preload::{to_preload, PreloadSet};

verus! {

/// Nothing is being resolved at first, and what is finished is no longer being resolved, whatever
/// else is.
pub proof fn law_preload_set(fresh: PreloadSet, set: &mut PreloadSet, id: u128, other: u128)
    requires
        call_ensures(PreloadSet::new, (), fresh),
        call_ensures(PreloadSet::finish, (set, id), ()),
    ensures
        !fresh.busy().contains(other),
        final(set).busy().contains(other) <==> old(set).busy().contains(other) && other != id,
{
}

proof fn lemma_two_ahead(queue: Seq<QueueItemView>, to: int, busy: Set<u128>)
    requires
        to <= 3,
    ensures
        to <= 1 ==> to_preload(queue, 1, to, busy) == Seq::<TrackView>::empty(),
        to == 2 ==> to_preload(queue, 1, to, busy) == if busy.contains(queue[1].track.id) {
            Seq::<TrackView>::empty()
        } else {
            seq![queue[1].track]
        },
        to == 3 ==> {
            let (one, two) = (queue[1].track, queue[2].track);
            let first = !busy.contains(one.id);
            let second = !busy.contains(two.id) && !(first && two.id == one.id);
            let both = to_preload(queue, 1, to, busy);
            &&& first && second ==> both == seq![one, two]
            &&& first && !second ==> both == seq![one]
            &&& !first && second ==> both == seq![two]
            &&& !first && !second ==> both == Seq::<TrackView>::empty()
        },
{
    reveal_with_fuel(to_preload, 4);
    if to == 2 {
        assert(seq![queue[1].track] + Seq::<TrackView>::empty() =~= seq![queue[1].track]);
    }
    if to == 3 {
        let (one, two) = (queue[1].track, queue[2].track);
        let none = Seq::<TrackView>::empty();
        assert(seq![two] + none =~= seq![two]);
        assert(seq![one] + none =~= seq![one]);
        assert(seq![one] + seq![two] =~= seq![one, two]);
    }
}

/// Of the two tracks behind the head of the queue, those are resolved ahead that are not being
/// resolved yet, in their order and each once; no track further back is, nor the head.
pub proof fn law_two_are_resolved_ahead(
    set: &mut PreloadSet,
    session: &GuildSessionState,
    r: Vec<Track>,
)
    requires
        call_ensures(PreloadSet::trigger_preload, (set, session), r),
    ensures
        ({
            let queue = session@.queue;
            let busy = old(set).busy();
            let (one, two) = (queue[1].track, queue[2].track);
            let first = queue.len() > 1 && !busy.contains(one.id);
            let second = queue.len() > 2 && !busy.contains(two.id) && !(first && two.id == one.id);
            &&& first && second ==> r.deep_view() == seq![one, two]
            &&& first && !second ==> r.deep_view() == seq![one]
            &&& !first && second ==> r.deep_view() == seq![two]
            &&& !first && !second ==> r@.len() == 0
        }),
{
    let queue = session@.queue;
    let to: int = if queue.len() > 3 {
        3
    } else {
        queue.len() as int
    };
    lemma_two_ahead(queue, to, old(set).busy());
    assert(r.deep_view().len() == r@.len());
}

/// From then on exactly those are being resolved in addition.
pub proof fn law_resolved_ahead_are_busy(
    set: &mut PreloadSet,
    session: &GuildSessionState,
    r: Vec<Track>,
    id: u128,
)
    requires
        call_ensures(PreloadSet::trigger_preload, (set, session), r),
    ensures
        final(set).busy().contains(id) <==> old(set).busy().contains(id) || exists|i: int|
            0 <= i < r@.len() && (#[trigger] r@[i]).id == id,
{
    let views = r.deep_view();
    assert(views.len() == r@.len());
    assert forall|i: int| 0 <= i < r@.len() implies (#[trigger] r@[i]).id == views[i].id by {
        assert(views[i] == r@[i]@);
    }
    if exists|i: int| 0 <= i < r@.len() && (#[trigger] r@[i]).id == id {
        let i = choose|i: int| 0 <= i < r@.len() && (#[trigger] r@[i]).id == id;
        assert(views[i].id == id);
    }
    if crate::resolve::preload::track_ids(views).contains(id) {
        let i = choose|i: int| 0 <= i < views.len() && (#[trigger] views[i]).id == id;
        assert(r@[i].id == id);
    }
}

} // verus!
