//! Records that were read one by one, some of which could not be read.
use vstd::prelude::*;

verus! {

/// The records that could be read, in their order. `None` stands for one that could not.
pub open spec fn readable<T>(records: Seq<Option<T>>) -> Seq<T>
    decreases records.len(),
{
    if records.len() == 0 {
        Seq::empty()
    } else {
        match records.last() {
            Some(record) => readable(records.drop_last()).push(record),
            None => readable(records.drop_last()),
        }
    }
}

/// The records that could be read, in their order.
pub fn keep_readable<T>(records: Vec<Option<T>>) -> (r: Vec<T>)
    ensures
        r@ == readable(records@),
{
    let mut out: Vec<T> = Vec::new();
    for record in it: records
        invariant
            it.seq() == records@,
            out@ == readable(records@.take(it.index() as int)),
    {
        let ghost i = it.index() as int;
        assert(records@.take(i + 1).drop_last() =~= records@.take(i));
        assert(records@.take(i + 1).last() == records@[i]);
        if let Some(value) = record {
            out.push(value);
        }
    }
    assert(records@.take(records@.len() as int) =~= records@);
    out
}

/// Where every record could be read, none is lost.
pub proof fn law_readable_keeps_all<T>(records: Seq<Option<T>>)
    requires
        forall|i: int| 0 <= i < records.len() ==> #[trigger] records[i] is Some,
    ensures
        readable(records).len() == records.len(),
        forall|i: int|
            0 <= i < records.len() ==> Some(#[trigger] readable(records)[i]) == records[i],
    decreases records.len(),
{
    if records.len() > 0 {
        assert(records[records.len() - 1] is Some);
        let fewer = records.drop_last();
        assert forall|i: int| 0 <= i < fewer.len() implies #[trigger] fewer[i] is Some by {
            assert(records[i] is Some);
        }
        law_readable_keeps_all(fewer);
        assert forall|i: int| 0 <= i < records.len() implies Some(#[trigger] readable(records)[i])
            == records[i] by {
            if i < fewer.len() {
                assert(Some(readable(fewer)[i]) == fewer[i]);
            }
        }
    }
}

} // verus!
