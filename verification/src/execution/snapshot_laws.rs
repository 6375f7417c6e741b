//! What holds of every snapshot that is returned.

use vstd::prelude::*;

use crate::execution::merge::{
    cleared, client_place_bounds, consistent, correlated, has_venue, merge_all, merge_one,
    merge_order_status_reports, nothing_leaves, place_of, places_are_sound, reports_of,
    share_client, supersedes, superseding, yields_to, OrderReportObservation,
};
use crate::execution::merge_laws::{
    broker_identity_is_never_lost, held_in, no_order_goes_unreported, observed_since,
    orders_have_one_report, places_follow_the_order_of_arrival, places_of,
    two_observations_of_one_order_give_one_report, unrelated_observations_are_kept,
};
use crate::model::NautilusOrderStatus;
use crate::reports::OrderStatusReport;

verus! {

/// Two observations speak of one order: both carry a permanent identifier and have the same venue
/// identity, or exactly one carries it and they have the same client identity.
pub open spec fn one_order(a: OrderReportObservation, b: OrderReportObservation) -> bool {
    match (a.broker_perm_id, b.broker_perm_id) {
        (Some(_), Some(_)) => a.report.venue_order_id@ == b.report.venue_order_id@,
        (None, None) => false,
        _ => match (a.report.client_order_id, b.report.client_order_id) {
            (Some(x), Some(y)) => x@ == y@,
            _ => false,
        },
    }
}

/// The order is over: denied, rejected, canceled, expired or filled.
pub open spec fn over(report: OrderStatusReport) -> bool {
    let status = report.order_status;
    status == NautilusOrderStatus::Denied || status == NautilusOrderStatus::Rejected || status
        == NautilusOrderStatus::Canceled || status == NautilusOrderStatus::Expired || status
        == NautilusOrderStatus::Filled
}

/// A later observation is believed over an earlier one of the same order: it has the permanent
/// identifier that the earlier one lacks; or, unless it lacks the one that the earlier one has, it
/// says that the order is over where the earlier one does not; or both have the identifier and say
/// that the order is over.
pub open spec fn believed_over(later: OrderReportObservation, earlier: OrderReportObservation) -> bool {
    match (later.broker_perm_id, earlier.broker_perm_id) {
        (Some(_), None) => true,
        (None, Some(_)) => false,
        (Some(_), Some(_)) => over(later.report),
        (None, None) => over(later.report) && !over(earlier.report),
    }
}

/// An observation supersedes another exactly where it is believed over it.
pub proof fn superseding_is_being_believed(
    incoming: &OrderReportObservation,
    existing: &OrderReportObservation,
    r: bool,
)
    requires
        call_ensures(supersedes, (incoming, existing), r),
    ensures
        r == believed_over(*incoming, *existing),
{
}

/// The reports that are returned are those of the snapshot, place by place.
pub proof fn reports_are_those_of_the_places(
    open: Vec<OrderReportObservation>,
    completed: Vec<OrderReportObservation>,
    r: Vec<OrderStatusReport>,
)
    requires
        call_ensures(merge_order_status_reports, (open, completed), r),
    ensures
        r@.len() == merge_all(open@ + completed@).len(),
        forall|i: int|
            #![trigger r@[i]]
            0 <= i < r@.len() ==> r@[i] == merge_all(open@ + completed@)[i].report,
{
}

/// Observations of which no two speak of one order are all reported, unchanged and in their order,
/// whether or not they carry a client identity.
pub proof fn unrelated_orders_are_all_reported(
    open: Vec<OrderReportObservation>,
    completed: Vec<OrderReportObservation>,
    r: Vec<OrderStatusReport>,
)
    requires
        call_ensures(merge_order_status_reports, (open, completed), r),
        forall|i: int, j: int|
            #![trigger (open@ + completed@)[i], (open@ + completed@)[j]]
            0 <= i < j < (open@ + completed@).len() ==> !one_order(
                (open@ + completed@)[i],
                (open@ + completed@)[j],
            ),
    ensures
        r@.len() == open@.len() + completed@.len(),
        forall|i: int|
            #![trigger r@[i]]
            0 <= i < r@.len() ==> r@[i] == (open@ + completed@)[i].report,
{
    let all = open@ + completed@;
    assert forall|i: int, j: int|
        #![trigger all[i], all[j]]
        0 <= i < j < all.len() implies !correlated(all[i], all[j]) by {
        assert(!one_order(all[i], all[j]));
    }
    unrelated_observations_are_kept(all);
}

/// Two observations of one order give one report, that of the one that is believed.
pub proof fn one_order_gives_one_report(
    open: Vec<OrderReportObservation>,
    completed: Vec<OrderReportObservation>,
    r: Vec<OrderStatusReport>,
    first: OrderReportObservation,
    second: OrderReportObservation,
)
    requires
        call_ensures(merge_order_status_reports, (open, completed), r),
        open@ + completed@ == seq![first, second],
        one_order(first, second),
    ensures
        r@.len() == 1,
        r@[0] == (if believed_over(second, first) {
            second.report
        } else {
            first.report
        }),
{
    two_observations_of_one_order_give_one_report(first, second);
}

/// Every report is that of an observation, and no two of the observations behind the reports speak
/// of one order.
pub proof fn reports_are_of_different_orders(
    open: Vec<OrderReportObservation>,
    completed: Vec<OrderReportObservation>,
    r: Vec<OrderStatusReport>,
)
    requires
        call_ensures(merge_order_status_reports, (open, completed), r),
    ensures
        exists|behind: Seq<OrderReportObservation>|
            #![trigger behind.len()]
            {
                &&& behind.len() == r@.len()
                &&& forall|i: int|
                    #![trigger behind[i]]
                    0 <= i < behind.len() ==> (open@ + completed@).contains(behind[i]) && r@[i]
                        == behind[i].report
                &&& forall|i: int, j: int|
                    #![trigger behind[i], behind[j]]
                    0 <= i < j < behind.len() ==> !one_order(behind[i], behind[j])
            },
{
    let all = open@ + completed@;
    let behind = merge_all(all);
    orders_have_one_report(all);
    places_follow_the_order_of_arrival(all);
    assert(behind.len() == r@.len());
    assert forall|i: int| #![trigger behind[i]] 0 <= i < behind.len() implies all.contains(
        behind[i],
    ) && r@[i] == behind[i].report by {
        let place = places_of(all)[i];
        assert(held_in(places_of(all))[i] == place.held);
        assert(observed_since(all, place.first, place.held));
    }
    assert forall|i: int, j: int|
        #![trigger behind[i], behind[j]]
        0 <= i < j < behind.len() implies !one_order(behind[i], behind[j]) by {
        assert(!correlated(behind[i], behind[j]));
    }
}

/// An order that was observed with a permanent identifier is reported under its venue identity, and
/// as over where any such observation says that it is.
pub proof fn identified_orders_are_reported(
    open: Vec<OrderReportObservation>,
    completed: Vec<OrderReportObservation>,
    r: Vec<OrderStatusReport>,
    k: int,
)
    requires
        call_ensures(merge_order_status_reports, (open, completed), r),
        0 <= k < open@.len() + completed@.len(),
        (open@ + completed@)[k].broker_perm_id is Some,
    ensures
        exists|i: int|
            {
                &&& 0 <= i < r@.len()
                &&& (#[trigger] r@[i]).venue_order_id@ == (open@ + completed@)[k].report
                    .venue_order_id@
                &&& over((open@ + completed@)[k].report) ==> over(r@[i])
            },
{
    let all = open@ + completed@;
    broker_identity_is_never_lost(all, k);
    let i = choose|i: int|
        {
            &&& #[trigger] has_venue(merge_all(all), i, all[k].venue())
            &&& all[k].closed() ==> merge_all(all)[i].closed()
        };
    assert(r@[i] == merge_all(all)[i].report);
}

/// An observation without a permanent identifier is reported itself, unless its order was observed
/// with one, and then the order is reported under that venue identity.
pub proof fn unidentified_orders_are_reported(
    open: Vec<OrderReportObservation>,
    completed: Vec<OrderReportObservation>,
    r: Vec<OrderStatusReport>,
    k: int,
)
    requires
        call_ensures(merge_order_status_reports, (open, completed), r),
        0 <= k < open@.len() + completed@.len(),
        (open@ + completed@)[k].broker_perm_id is None,
    ensures
        r@.contains((open@ + completed@)[k].report) || exists|m: int, i: int|
            {
                &&& 0 <= m < (open@ + completed@).len() && 0 <= i < r@.len()
                &&& (open@ + completed@)[m].broker_perm_id is Some
                &&& one_order((open@ + completed@)[m], (open@ + completed@)[k])
                &&& (#[trigger] r@[i]).venue_order_id@ == (#[trigger] (open@ + completed@)[m])
                    .report.venue_order_id@
            },
{
    let all = open@ + completed@;
    let merged = merge_all(all);
    no_order_goes_unreported(all, k);
    if merged.contains(all[k]) {
        let i = choose|i: int| 0 <= i < merged.len() && merged[i] == all[k];
        assert(r@[i] == all[k].report);
    } else {
        let (m, i) = choose|m: int, i: int|
            #![trigger has_venue(merged, i, all[m].venue())]
            {
                &&& 0 <= m < all.len()
                &&& all[m].identified()
                &&& correlated(all[m], all[k])
                &&& has_venue(merged, i, all[m].venue())
            };
        assert(r@[i] == merged[i].report);
        assert(one_order(all[m], all[k]));
        assert(r@[i].venue_order_id@ == all[m].report.venue_order_id@);
    }
}

/// The places of a snapshot that stay, in their order.
pub open spec fn thinned(
    after: Seq<OrderStatusReport>,
    before: Seq<OrderStatusReport>,
    kept: Seq<int>,
) -> bool {
    &&& kept.len() == after.len()
    &&& forall|i: int|
        #![trigger kept[i]]
        0 <= i < kept.len() ==> 0 <= kept[i] < before.len() && after[i] == before[kept[i]]
    &&& forall|i: int, j: int|
        #![trigger kept[i], kept[j]]
        0 <= i < j < kept.len() ==> kept[i] < kept[j]
}

proof fn clearing_thins(
    merged: Seq<OrderReportObservation>,
    incoming: OrderReportObservation,
) -> (kept: Seq<int>)
    ensures
        thinned(reports_of(cleared(merged, incoming)), reports_of(merged), kept),
        forall|i: int|
            0 <= i < merged.len() && !yields_to(#[trigger] merged[i], incoming) ==> kept.contains(i),
    decreases merged.len(),
{
    reveal(Seq::filter);
    if merged.len() == 0 {
        Seq::empty()
    } else {
        let before = merged.drop_last();
        let fewer = clearing_thins(before, incoming);
        let last = merged.len() - 1;
        let kept = if yields_to(merged.last(), incoming) {
            fewer
        } else {
            fewer.push(last)
        };
        let rest = cleared(before, incoming);
        let all = cleared(merged, incoming);
        if !yields_to(merged.last(), incoming) {
            assert(all =~= rest.push(merged.last()));
        }
        assert forall|i: int|
            #![trigger kept[i]]
            0 <= i < kept.len() implies 0 <= kept[i] < merged.len() && reports_of(all)[i]
            == reports_of(merged)[kept[i]] by {
            if i < fewer.len() {
                assert(kept[i] == fewer[i]);
                assert(reports_of(rest)[i] == reports_of(before)[fewer[i]]);
            }
        }
        assert forall|i: int|
            0 <= i < merged.len() && !yields_to(#[trigger] merged[i], incoming) implies kept.contains(
            i,
        ) by {
            if i < last {
                assert(before[i] == merged[i]);
                assert(fewer.contains(i));
                let k = choose|k: int| 0 <= k < fewer.len() && fewer[k] == i;
                assert(kept[k] == i);
            } else {
                assert(kept[fewer.len() as int] == i);
            }
        }
        kept
    }
}

/// One more observation changes one place at most: it is left out, takes a place, or stands behind
/// the rest. All other reports stay as they are and in their order, but for those that it makes
/// leave, and it makes none leave without a permanent identifier and a client identity.
pub proof fn one_more_observation_changes_one_place(
    open: Vec<OrderReportObservation>,
    completed: Vec<OrderReportObservation>,
    more: Vec<OrderReportObservation>,
    incoming: OrderReportObservation,
    before: Vec<OrderStatusReport>,
    after: Vec<OrderStatusReport>,
)
    requires
        call_ensures(merge_order_status_reports, (open, completed), before),
        call_ensures(merge_order_status_reports, (open, more), after),
        more@ == completed@.push(incoming),
    ensures
        exists|next: Seq<OrderStatusReport>, kept: Seq<int>|
            {
                &&& #[trigger] thinned(after@, next, kept)
                &&& {
                    ||| next == before@
                    ||| next == before@.push(incoming.report)
                    ||| exists|i: int|
                        0 <= i < before@.len() && next == #[trigger] before@.update(
                            i,
                            incoming.report,
                        )
                }
                &&& incoming.broker_perm_id is None || incoming.report.client_order_id is None
                    ==> after@ == next
            },
        incoming.broker_perm_id is None ==> after@ == before@ || after@ == before@.push(
            incoming.report,
        ),
{
    let all = open@ + completed@;
    let merged = merge_all(all);
    assert((open@ + more@).drop_last() =~= all);
    assert((open@ + more@).last() == incoming);
    snapshots_stay_consistent(all);
    places_are_sound(merged, incoming);
    let next = match place_of(merged, incoming) {
        Some(place) => if superseding(incoming, merged[place]) {
            merged.update(place, incoming)
        } else {
            merged
        },
        None => merged.push(incoming),
    };
    let reports = reports_of(next);
    match place_of(merged, incoming) {
        Some(place) => {
            if superseding(incoming, merged[place]) {
                assert(reports =~= before@.update(place, incoming.report));
            }
        },
        None => {
            assert(reports =~= before@.push(incoming.report));
        },
    }
    if place_of(merged, incoming) matches Some(place) && !superseding(incoming, merged[place]) {
        let kept = Seq::new(before@.len(), |i: int| i);
        assert(thinned(after@, reports, kept));
    } else {
        let kept = clearing_thins(next, incoming);
        assert(thinned(after@, reports, kept));
        if incoming.broker_perm_id is None || incoming.report.client_order_id is None {
            nothing_leaves(next, incoming);
        }
    }
}

proof fn snapshots_stay_consistent(observations: Seq<OrderReportObservation>)
    ensures
        consistent(merge_all(observations)),
{
    orders_have_one_report(observations);
    let merged = merge_all(observations);
    assert forall|i: int, j: int|
        #![trigger merged[i], merged[j]]
        0 <= i < merged.len() && 0 <= j < merged.len() && i != j implies !correlated(
        merged[i],
        merged[j],
    ) by {
        if i < j {
            assert(!correlated(merged[i], merged[j]));
        } else {
            assert(!correlated(merged[j], merged[i]));
        }
    }
}

/// Of observations of one venue order, all with a permanent identifier, the last one that says that
/// the order is over is reported, and the first one where none does.
pub proof fn last_word_on_an_order_counts(
    open: Vec<OrderReportObservation>,
    completed: Vec<OrderReportObservation>,
    r: Vec<OrderStatusReport>,
    k: int,
)
    requires
        call_ensures(merge_order_status_reports, (open, completed), r),
        forall|i: int|
            #![trigger (open@ + completed@)[i]]
            0 <= i < (open@ + completed@).len() ==> (open@ + completed@)[i].broker_perm_id is Some
                && (open@ + completed@)[i].report.venue_order_id@ == (open@ + completed@)[0].report
                .venue_order_id@,
        0 <= k < (open@ + completed@).len(),
        k > 0 ==> over((open@ + completed@)[k].report),
        forall|i: int|
            #![trigger (open@ + completed@)[i]]
            k < i < (open@ + completed@).len() ==> !over((open@ + completed@)[i].report),
    ensures
        r@.len() == 1,
        r@[0] == (open@ + completed@)[k].report,
{
    last_word_is_held(open@ + completed@, k);
}

proof fn last_word_is_held(all: Seq<OrderReportObservation>, k: int)
    requires
        forall|i: int|
            #![trigger all[i]]
            0 <= i < all.len() ==> all[i].broker_perm_id is Some && all[i].report.venue_order_id@
                == all[0].report.venue_order_id@,
        0 <= k < all.len(),
        k > 0 ==> over(all[k].report),
        forall|i: int| #![trigger all[i]] k < i < all.len() ==> !over(all[i].report),
    ensures
        merge_all(all) == seq![all[k]],
    decreases all.len(),
{
    let before = all.drop_last();
    let last = all.len() - 1;
    let incoming = all.last();
    if last == 0 {
        assert(all =~= seq![all[0]]);
        unrelated_observations_are_kept(all);
    } else {
        assert(before[0] == all[0]);
        let held = if k < last {
            k
        } else {
            last_over(before)
        };
        last_word_is_held(before, held);
        let merged = merge_all(before);
        assert(merged == seq![all[held]]);
        assert(has_venue(merged, 0, incoming.venue()));
        let place = choose|i: int| has_venue(merged, i, incoming.venue());
        assert(has_venue(merged, place, incoming.venue()));
        assert(place == 0);
        assert(place_of(merged, incoming) == Some(0int));
        if k == last {
            assert(merged.update(0, incoming) =~= seq![incoming]);
            nothing_leaves(seq![incoming], incoming);
        }
    }
}

proof fn last_over(all: Seq<OrderReportObservation>) -> (k: int)
    requires
        all.len() > 0,
    ensures
        0 <= k < all.len(),
        k > 0 ==> over(all[k].report),
        forall|i: int| #![trigger all[i]] k < i < all.len() ==> !over(all[i].report),
    decreases all.len(),
{
    let last = all.len() - 1;
    if last == 0 || over(all[last].report) {
        last
    } else {
        let k = last_over(all.drop_last());
        assert(all.drop_last()[k] == all[k]);
        assert forall|i: int| #![trigger all[i]] k < i < all.len() implies !over(all[i].report) by {
            if i < last {
                assert(all.drop_last()[i] == all[i]);
            }
        }
        k
    }
}

/// Nothing in a snapshot speaks of the order of an observation.
pub open spec fn not_seen(
    snapshot: Seq<OrderReportObservation>,
    incoming: OrderReportObservation,
) -> bool {
    forall|i: int|
        #![trigger snapshot[i]]
        0 <= i < snapshot.len() ==> !one_order(snapshot[i], incoming)
}

/// The place in a snapshot that speaks of the order of an observation: the one with its venue
/// identity, where both carry a permanent identifier, and otherwise the first.
pub open spec fn place_taken(
    snapshot: Seq<OrderReportObservation>,
    incoming: OrderReportObservation,
    place: int,
) -> bool {
    &&& 0 <= place < snapshot.len()
    &&& one_order(snapshot[place], incoming)
    &&& {
        ||| incoming.broker_perm_id is Some && snapshot[place].broker_perm_id is Some
        ||| forall|i: int|
            #![trigger snapshot[i]]
            0 <= i < snapshot.len() && one_order(snapshot[i], incoming) ==> place <= i && (
            incoming.broker_perm_id is None || snapshot[i].broker_perm_id is None)
    }
}

/// What an observation with a permanent identifier makes leave: every observation of its order that
/// carries none.
pub open spec fn outdone(
    held: OrderReportObservation,
    incoming: OrderReportObservation,
) -> bool {
    held.broker_perm_id is None && incoming.broker_perm_id is Some && one_order(held, incoming)
}

/// A snapshot with one more observation: behind the rest where its order was not seen; otherwise in
/// the place of its order where it is believed over what stands there, and then what it outdoes
/// leaves; and not at all where it is not believed.
pub open spec fn with_one_more(
    before: Seq<OrderReportObservation>,
    incoming: OrderReportObservation,
    after: Seq<OrderReportObservation>,
) -> bool {
    if not_seen(before, incoming) {
        after == before.push(incoming)
    } else {
        exists|place: int|
            {
                &&& #[trigger] place_taken(before, incoming, place)
                &&& if believed_over(incoming, before[place]) {
                    after == before.update(place, incoming).filter(
                        |held: OrderReportObservation| !outdone(held, incoming),
                    )
                } else {
                    after == before
                }
            }
    }
}

/// Step `k + 1` is step `k` with one more observation.
pub open spec fn grows(
    steps: Seq<Seq<OrderReportObservation>>,
    observations: Seq<OrderReportObservation>,
    k: int,
) -> bool {
    with_one_more(steps[k], observations[k], steps[k + 1])
}

/// The reports are those of what is gathered, step by step and from nothing, from the observations.
pub open spec fn gathered(
    steps: Seq<Seq<OrderReportObservation>>,
    observations: Seq<OrderReportObservation>,
    reports: Seq<OrderStatusReport>,
) -> bool {
    &&& steps.len() == observations.len() + 1
    &&& steps[0].len() == 0
    &&& forall|k: int| 0 <= k < observations.len() ==> #[trigger] grows(steps, observations, k)
    &&& steps.last().len() == reports.len()
    &&& forall|i: int|
        #![trigger reports[i]]
        0 <= i < reports.len() ==> reports[i] == steps.last()[i].report
}

/// The observations behind the reports that are returned are gathered one after the other, the open
/// ones first: from nothing, each adds to what there is in the one way that is left to it.
pub proof fn snapshots_are_gathered_one_by_one(
    open: Vec<OrderReportObservation>,
    completed: Vec<OrderReportObservation>,
    r: Vec<OrderStatusReport>,
)
    requires
        call_ensures(merge_order_status_reports, (open, completed), r),
    ensures
        exists|steps: Seq<Seq<OrderReportObservation>>| #[trigger]
            gathered(steps, open@ + completed@, r@),
{
    let all = open@ + completed@;
    let steps = Seq::new(all.len() + 1, |k: int| merge_all(all.take(k)));
    assert(all.take(all.len() as int) =~= all);
    assert(all.take(0) =~= Seq::empty());
    assert forall|k: int| 0 <= k < all.len() implies #[trigger] grows(steps, all, k) by {
        assert(all.take(k + 1).drop_last() =~= all.take(k));
        assert(all.take(k + 1).last() == all[k]);
        snapshots_stay_consistent(all.take(k));
        merging_adds_one(steps[k], all[k]);
    }
    assert(gathered(steps, all, r@));
}

proof fn merging_adds_one(merged: Seq<OrderReportObservation>, incoming: OrderReportObservation)
    requires
        consistent(merged),
    ensures
        with_one_more(merged, incoming, merge_one(merged, incoming)),
{
    places_are_sound(merged, incoming);
    let stays = |held: OrderReportObservation| !yields_to(held, incoming);
    let left = |held: OrderReportObservation| !outdone(held, incoming);
    assert forall|held: OrderReportObservation| #[trigger] stays(held) == left(held) by {}
    assert(stays =~= left);
    match place_of(merged, incoming) {
        Some(place) => {
            assert(one_order(merged[place], incoming));
            assert(!not_seen(merged, incoming));
            client_place_bounds(merged, incoming, 0);
            assert forall|i: int| #![trigger merged[i]] 0 <= i < merged.len() implies (one_order(
                merged[i],
                incoming,
            ) <==> has_venue(merged, i, incoming.venue()) && incoming.identified()
                || share_client(merged[i], incoming)) by {}
            assert(place_taken(merged, incoming, place));
        },
        None => {
            assert forall|i: int|
                #![trigger merged[i]]
                0 <= i < merged.len() implies !one_order(merged[i], incoming) by {
                assert(!correlated(merged[i], incoming));
            }
            let more = merged.push(incoming);
            assert forall|i: int| #![trigger more[i]] 0 <= i < more.len() implies !yields_to(
                more[i],
                incoming,
            ) by {
                if i < merged.len() {
                    assert(!one_order(merged[i], incoming));
                }
            }
            nothing_leaves(more, incoming);
        },
    }
}

} // verus!
