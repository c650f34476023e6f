//! Handing an account's visits to the browser client when it synchronises.

use vstd::prelude::*;

verus! {

/// Whether a visit, by its id (the time it began, in milliseconds), is
/// newer than `since`.
pub open spec fn is_newer<V>(since: i64) -> spec_fn((i64, V)) -> bool {
    |visit: (i64, V)| visit.0 > since
}

/// The visits handed over: all of them when the client names no time,
/// otherwise those newer than the time it names, in their order.
pub open spec fn visits_to_sync<V>(visits: Seq<(i64, V)>, since: Option<i64>) -> Seq<(i64, V)> {
    match since {
        None => visits,
        Some(t) => visits.filter(is_newer::<V>(t)),
    }
}

/// The visits to hand to a client that last synchronised at `since`.
/// Each visit comes with its id.
pub fn sync_visits<V>(visits: Vec<(i64, V)>, since: Option<i64>) -> (r: Vec<(i64, V)>)
    ensures
        r@ == visits_to_sync(visits@, since),
{
    match since {
        None => visits,
        Some(t) => {
            let ghost all = visits@;
            let mut kept: Vec<(i64, V)> = Vec::new();
            for visit in it: visits.into_iter()
                invariant
                    it.seq() == all,
                    kept@ == all.take(it.index() as int).filter(is_newer::<V>(t)),
            {
                proof {
                    let i = it.index() as int;
                    all.take(i).lemma_filter_push(all[i], is_newer::<V>(t));
                    assert(all.take(i + 1) =~= all.take(i).push(all[i]));
                }
                if visit.0 > t {
                    kept.push(visit);
                }
            }
            assert(all.take(all.len() as int) =~= all);
            kept
        },
    }
}

/// Every visit handed over for a given time is newer than it, and a visit
/// that is newer is handed over.
pub proof fn law_sync_keeps_exactly_newer<V>(visits: Seq<(i64, V)>, since: i64)
    ensures
        forall|i: int|
            0 <= i < visits_to_sync(visits, Some(since)).len() ==> #[trigger] visits_to_sync(
                visits,
                Some(since),
            )[i].0 > since,
        forall|i: int|
            0 <= i < visits.len() && visits[i].0 > since ==> visits_to_sync(
                visits,
                Some(since),
            ).contains(#[trigger] visits[i]),
{
    broadcast use vstd::seq_lib::group_filter_ensures;

    let kept = visits.filter(is_newer::<V>(since));
    assert forall|i: int| 0 <= i < kept.len() implies #[trigger] kept[i].0 > since by {
        assert(is_newer::<V>(since)(kept[i]));
    }
    assert forall|i: int| 0 <= i < visits.len() && visits[i].0 > since implies kept.contains(
        #[trigger] visits[i],
    ) by {
        assert(is_newer::<V>(since)(visits[i]));
    }
}

} // verus!
