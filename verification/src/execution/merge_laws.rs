//! What holds of every snapshot of open and completed orders.

use vstd::prelude::*;

use crate::execution::merge::{
    cleared, cleared_holds_what_stays, consistent, correlated, has_venue, merge_all,
    merging_stays_consistent, nothing_leaves, place_of, places_are_sound, superseding, yields_to,
    OrderReportObservation,
};

verus! {

proof fn snapshots_are_consistent(observations: Seq<OrderReportObservation>)
    ensures
        consistent(merge_all(observations)),
    decreases observations.len(),
{
    if observations.len() > 0 {
        snapshots_are_consistent(observations.drop_last());
        merging_stays_consistent(merge_all(observations.drop_last()), observations.last());
    }
}

/// A snapshot holds one report for each order: no two of its observations speak of one order.
pub proof fn orders_have_one_report(observations: Seq<OrderReportObservation>)
    ensures
        forall|i: int, j: int|
            #![trigger merge_all(observations)[i], merge_all(observations)[j]]
            0 <= i < j < merge_all(observations).len() ==> !correlated(
                merge_all(observations)[i],
                merge_all(observations)[j],
            ),
{
    snapshots_are_consistent(observations);
}

/// A place of a snapshot.
pub struct Place {
    /// The observation that opened the place, by its position in the order of arrival.
    pub first: int,
    /// What the place holds.
    pub held: OrderReportObservation,
}

/// The places that stay once `incoming` is in the snapshot.
pub open spec fn staying(places: Seq<Place>, incoming: OrderReportObservation) -> Seq<Place> {
    places.filter(|place: Place| !yields_to(place.held, incoming))
}

/// The places of a snapshot with what opened them.
pub open spec fn places_of(observations: Seq<OrderReportObservation>) -> Seq<Place>
    decreases observations.len(),
{
    if observations.len() == 0 {
        Seq::empty()
    } else {
        let before = observations.drop_last();
        let incoming = observations.last();
        match place_of(merge_all(before), incoming) {
            Some(i) => if superseding(incoming, merge_all(before)[i]) {
                staying(
                    places_of(before).update(
                        i,
                        Place { first: places_of(before)[i].first, held: incoming },
                    ),
                    incoming,
                )
            } else {
                places_of(before)
            },
            None => staying(
                places_of(before).push(Place { first: before.len() as int, held: incoming }),
                incoming,
            ),
        }
    }
}

/// What places hold.
pub open spec fn held_in(places: Seq<Place>) -> Seq<OrderReportObservation> {
    Seq::new(places.len(), |i: int| places[i].held)
}

/// `held` is one of the observations from `start` on.
pub open spec fn observed_since(
    observations: Seq<OrderReportObservation>,
    start: int,
    held: OrderReportObservation,
) -> bool {
    exists|j: int|
        #![trigger observations[j]]
        0 <= start <= j < observations.len() && observations[j] == held
}

/// Places stand in the order in which they were opened.
pub open spec fn in_order(places: Seq<Place>) -> bool {
    forall|i: int, j: int|
        #![trigger places[i], places[j]]
        0 <= i < j < places.len() ==> places[i].first < places[j].first
}

/// The places that stay were there, those that need not leave stay, and they stay in order.
proof fn staying_keeps(places: Seq<Place>, incoming: OrderReportObservation)
    ensures
        held_in(staying(places, incoming)) == cleared(held_in(places), incoming),
        in_order(places) ==> in_order(staying(places, incoming)),
        forall|i: int|
            #![trigger staying(places, incoming)[i]]
            0 <= i < staying(places, incoming).len() ==> places.contains(
                staying(places, incoming)[i],
            ),
        forall|i: int|
            #![trigger places[i]]
            0 <= i < places.len() && !yields_to(places[i].held, incoming) ==> staying(
                places,
                incoming,
            ).contains(places[i]),
    decreases places.len(),
{
    reveal(Seq::filter);
    let stays = |place: Place| !yields_to(place.held, incoming);
    let rest = staying(places, incoming);
    assert forall|i: int| #![trigger rest[i]] 0 <= i < rest.len() implies places.contains(
        rest[i],
    ) by {
        assert(places.filter(stays).contains(rest[i]));
        places.lemma_filter_contains_rev(stays, rest[i]);
    }
    assert forall|i: int|
        #![trigger places[i]]
        0 <= i < places.len() && !yields_to(places[i].held, incoming) implies rest.contains(
        places[i],
    ) by {
        places.lemma_filter_contains(stays, i);
    }
    if places.len() > 0 {
        let before = places.drop_last();
        let last = places.last();
        staying_keeps(before, incoming);
        assert(held_in(places).drop_last() =~= held_in(before));
        assert(held_in(places).last() == last.held);
        let fewer = staying(before, incoming);
        if !yields_to(last.held, incoming) {
            assert(rest =~= fewer.push(last));
            assert(held_in(rest) =~= held_in(fewer).push(last.held));
            if in_order(places) {
                assert forall|i: int, j: int|
                    #![trigger before[i], before[j]]
                    0 <= i < j < before.len() implies before[i].first < before[j].first by {
                    assert(places[i].first < places[j].first);
                }
                assert forall|i: int, j: int|
                    #![trigger rest[i], rest[j]]
                    0 <= i < j < rest.len() implies rest[i].first < rest[j].first by {
                    assert(rest[i] == fewer[i]);
                    if j < fewer.len() {
                        assert(rest[j] == fewer[j]);
                    } else {
                        assert(before.contains(fewer[i]));
                        let k = choose|k: int| 0 <= k < before.len() && before[k] == fewer[i];
                        assert(places[k] == before[k]);
                        assert(places[k].first < places[places.len() - 1].first);
                    }
                }
            }
        } else {
            assert(rest == fewer);
            if in_order(places) {
                assert forall|i: int, j: int|
                    #![trigger before[i], before[j]]
                    0 <= i < j < before.len() implies before[i].first < before[j].first by {
                    assert(places[i].first < places[j].first);
                }
            }
        }
    } else {
        assert(held_in(rest) =~= cleared(held_in(places), incoming));
    }
}

/// Places stand in the order in which their orders were first observed, and each holds an
/// observation of the input: the one that opened the place or a later one.
pub proof fn places_follow_the_order_of_arrival(observations: Seq<OrderReportObservation>)
    ensures
        held_in(places_of(observations)) == merge_all(observations),
        in_order(places_of(observations)),
        forall|i: int|
            #![trigger places_of(observations)[i]]
            0 <= i < places_of(observations).len() ==> observed_since(
                observations,
                places_of(observations)[i].first,
                places_of(observations)[i].held,
            ),
    decreases observations.len(),
{
    if observations.len() > 0 {
        let before = observations.drop_last();
        let incoming = observations.last();
        places_follow_the_order_of_arrival(before);
        snapshots_are_consistent(before);
        let merged = merge_all(before);
        places_are_sound(merged, incoming);
        let earlier = places_of(before);
        assert(merged.len() == earlier.len());
        let next = match place_of(merged, incoming) {
            Some(i) => if superseding(incoming, merged[i]) {
                earlier.update(i, Place { first: earlier[i].first, held: incoming })
            } else {
                earlier
            },
            None => earlier.push(Place { first: before.len() as int, held: incoming }),
        };
        assert forall|i: int|
            #![trigger next[i]]
            0 <= i < next.len() implies observed_since(
            observations,
            next[i].first,
            next[i].held,
        ) by {
            assert(observations[observations.len() - 1] == incoming);
            if i < earlier.len() {
                assert(observed_since(before, earlier[i].first, earlier[i].held));
                let k = choose|k: int|
                    #![trigger before[k]]
                    0 <= earlier[i].first <= k < before.len() && before[k] == earlier[i].held;
                assert(observations[k] == before[k]);
            }
        }
        assert forall|i: int, j: int|
            #![trigger next[i], next[j]]
            0 <= i < j < next.len() implies next[i].first < next[j].first by {
            assert(observed_since(before, earlier[i].first, earlier[i].held));
            if j < earlier.len() {
                assert(earlier[i].first < earlier[j].first);
            }
        }
        staying_keeps(next, incoming);
        match place_of(merged, incoming) {
            Some(i) => {
                if superseding(incoming, merged[i]) {
                    assert(held_in(next) =~= merged.update(i, incoming));
                }
            },
            None => {
                assert(held_in(next) =~= merged.push(incoming));
            },
        }
        assert forall|i: int|
            #![trigger places_of(observations)[i]]
            0 <= i < places_of(observations).len() implies observed_since(
            observations,
            places_of(observations)[i].first,
            places_of(observations)[i].held,
        ) by {
            let place = places_of(observations)[i];
            assert(next.contains(place));
            let k = choose|k: int| 0 <= k < next.len() && next[k] == place;
            assert(observed_since(observations, next[k].first, next[k].held));
        }
    }
}

/// An observation of a snapshot is one of the input.
proof fn snapshots_hold_observations(observations: Seq<OrderReportObservation>, i: int)
    requires
        0 <= i < merge_all(observations).len(),
    ensures
        observations.contains(merge_all(observations)[i]),
{
    places_follow_the_order_of_arrival(observations);
    let place = places_of(observations)[i];
    assert(held_in(places_of(observations))[i] == place.held);
    assert(observed_since(observations, place.first, place.held));
}

/// Observations of which no two speak of one order are all kept, unchanged and in their order. So
/// orders that merely resemble each other stay apart, and open orders stay as they are where there
/// is no completed one.
pub proof fn unrelated_observations_are_kept(observations: Seq<OrderReportObservation>)
    requires
        forall|i: int, j: int|
            #![trigger observations[i], observations[j]]
            0 <= i < j < observations.len() ==> !correlated(observations[i], observations[j]),
    ensures
        merge_all(observations) == observations,
    decreases observations.len(),
{
    if observations.len() > 0 {
        let before = observations.drop_last();
        let last = observations.len() - 1;
        let incoming = observations.last();
        assert forall|i: int, j: int|
            #![trigger before[i], before[j]]
            0 <= i < j < before.len() implies !correlated(before[i], before[j]) by {
            assert(!correlated(observations[i], observations[j]));
        }
        unrelated_observations_are_kept(before);
        snapshots_are_consistent(before);
        places_are_sound(before, incoming);
        match place_of(before, incoming) {
            Some(place) => {
                assert(before[place] == observations[place]);
                assert(!correlated(observations[place], observations[last]));
            },
            None => {
                assert(before.push(incoming) =~= observations);
                assert forall|i: int|
                    #![trigger observations[i]]
                    0 <= i < observations.len() implies !yields_to(observations[i], incoming) by {
                    if i < last {
                        assert(!correlated(observations[i], observations[last]));
                    }
                }
                nothing_leaves(observations, incoming);
            },
        }
    } else {
        assert(merge_all(observations) =~= observations);
    }
}

/// Two observations of one order give one report: the later one where it supersedes the earlier.
pub proof fn two_observations_of_one_order_give_one_report(
    first: OrderReportObservation,
    second: OrderReportObservation,
)
    requires
        correlated(first, second),
    ensures
        merge_all(seq![first, second]) == seq![
            if superseding(second, first) {
                second
            } else {
                first
            },
        ],
{
    let both = seq![first, second];
    let one = seq![first];
    assert(both.drop_last() =~= one);
    unrelated_observations_are_kept(one);
    snapshots_are_consistent(one);
    places_are_sound(one, second);
    if place_of(one, second) is None {
        assert(!correlated(one[0], second));
    }
    assert(place_of(one, second) == Some(0int));
    if superseding(second, first) {
        assert(one.update(0, second) =~= seq![second]);
        nothing_leaves(seq![second], second);
    }
}

/// An order that was once observed with broker venue identity keeps it, and keeps being closed:
/// whatever else arrives, the snapshot has a report with that identity, and a closed one where the
/// observation was closed.
pub proof fn broker_identity_is_never_lost(observations: Seq<OrderReportObservation>, k: int)
    requires
        0 <= k < observations.len(),
        observations[k].identified(),
    ensures
        exists|i: int|
            {
                &&& #[trigger] has_venue(merge_all(observations), i, observations[k].venue())
                &&& observations[k].closed() ==> merge_all(observations)[i].closed()
            },
    decreases observations.len(),
{
    let before = observations.drop_last();
    let incoming = observations.last();
    let merged = merge_all(before);
    let venue = observations[k].venue();
    let closed = observations[k].closed();
    snapshots_are_consistent(before);
    places_are_sound(merged, incoming);
    let next = match place_of(merged, incoming) {
        Some(place) => if superseding(incoming, merged[place]) {
            merged.update(place, incoming)
        } else {
            merged
        },
        None => merged.push(incoming),
    };
    let i = if k == observations.len() - 1 {
        match place_of(merged, incoming) {
            Some(place) => place,
            None => merged.len() as int,
        }
    } else {
        assert(before[k] == observations[k]);
        broker_identity_is_never_lost(before, k);
        choose|i: int|
            {
                &&& #[trigger] has_venue(merged, i, venue)
                &&& closed ==> merged[i].closed()
            }
    };
    assert(has_venue(next, i, venue) && (closed ==> next[i].closed()));
    cleared_holds_what_stays(next, incoming);
    assert(!yields_to(next[i], incoming));
    assert(cleared(next, incoming).contains(next[i]));
    let j = choose|j: int|
        0 <= j < cleared(next, incoming).len() && cleared(next, incoming)[j] == next[i];
    assert(has_venue(cleared(next, incoming), j, venue));
    assert(has_venue(merge_all(observations), i, venue) || has_venue(
        merge_all(observations),
        j,
        venue,
    ));
}

/// What a snapshot lacks is reported by another: an observation is in the snapshot, or its order
/// was observed with broker venue identity, and the snapshot has a report with that identity.
pub proof fn no_order_goes_unreported(observations: Seq<OrderReportObservation>, k: int)
    requires
        0 <= k < observations.len(),
    ensures
        merge_all(observations).contains(observations[k]) || exists|m: int, i: int|
            #![trigger has_venue(merge_all(observations), i, observations[m].venue())]
            {
                &&& 0 <= m < observations.len()
                &&& observations[m].identified()
                &&& correlated(observations[m], observations[k])
                &&& has_venue(merge_all(observations), i, observations[m].venue())
            },
{
    if !merge_all(observations).contains(observations[k]) {
        let m = missing_observation_is_superseded(observations, k);
        broker_identity_is_never_lost(observations, m);
        let i = choose|i: int|
            #[trigger] has_venue(merge_all(observations), i, observations[m].venue());
        assert(has_venue(merge_all(observations), i, observations[m].venue()));
    }
}

/// An observation that a snapshot lacks speaks of an order that was observed with broker venue
/// identity.
proof fn missing_observation_is_superseded(
    observations: Seq<OrderReportObservation>,
    k: int,
) -> (m: int)
    requires
        0 <= k < observations.len(),
        !merge_all(observations).contains(observations[k]),
    ensures
        0 <= m < observations.len(),
        observations[m].identified(),
        correlated(observations[m], observations[k]),
    decreases observations.len(),
{
    let before = observations.drop_last();
    let incoming = observations.last();
    let last = observations.len() - 1;
    let merged = merge_all(before);
    snapshots_are_consistent(before);
    places_are_sound(merged, incoming);
    if observations[k].identified() {
        k
    } else if k == last {
        match place_of(merged, incoming) {
            Some(place) => {
                snapshots_hold_observations(before, place);
                let m = choose|m: int| 0 <= m < before.len() && before[m] == merged[place];
                assert(observations[m] == before[m]);
                m
            },
            None => {
                let next = merged.push(incoming);
                cleared_holds_what_stays(next, incoming);
                assert(next[merged.len() as int] == incoming);
                assert(!yields_to(next[merged.len() as int], incoming));
                k
            },
        }
    } else {
        assert(before[k] == observations[k]);
        if merged.contains(before[k]) {
            let i = choose|i: int| 0 <= i < merged.len() && merged[i] == before[k];
            match place_of(merged, incoming) {
                Some(place) => {
                    if superseding(incoming, merged[place]) && i != place {
                        let next = merged.update(place, incoming);
                        cleared_holds_what_stays(next, incoming);
                        assert(next[i] == merged[i]);
                    }
                },
                None => {
                    let next = merged.push(incoming);
                    cleared_holds_what_stays(next, incoming);
                    assert(next[i] == merged[i]);
                },
            }
            last
        } else {
            let m = missing_observation_is_superseded(before, k);
            assert(observations[m] == before[m]);
            m
        }
    }
}

/// A place is still there and holds what it held, or a completed observation with broker venue
/// identity.
pub open spec fn place_kept(
    place: Place,
    after: Seq<Place>,
    completed: Seq<OrderReportObservation>,
) -> bool {
    exists|j: int|
        {
            &&& 0 <= j < after.len()
            &&& (#[trigger] after[j]).first == place.first
            &&& after[j].held == place.held || (after[j].held.identified() && completed.contains(
                after[j].held,
            ))
        }
}

/// A place left because a completed observation speaks of its order with broker venue identity.
pub open spec fn place_left(place: Place, completed: Seq<OrderReportObservation>) -> bool {
    exists|k: int|
        0 <= k < completed.len() && yields_to(place.held, #[trigger] completed[k])
}

/// Completed orders never move an open one: every place of the open snapshot stays, and holds what
/// it held or a completed observation, unless it lacked broker venue identity and a completed
/// observation speaks of its order with it. What completed orders add stands behind.
pub proof fn open_orders_keep_their_places(
    open: Seq<OrderReportObservation>,
    completed: Seq<OrderReportObservation>,
)
    ensures
        forall|i: int|
            #![trigger places_of(open)[i]]
            0 <= i < places_of(open).len() ==> place_kept(
                places_of(open)[i],
                places_of(open + completed),
                completed,
            ) || place_left(places_of(open)[i], completed),
        forall|j: int|
            #![trigger places_of(open + completed)[j]]
            0 <= j < places_of(open + completed).len() ==> {
                ||| exists|i: int|
                    0 <= i < places_of(open).len() && (#[trigger] places_of(open)[i]).first
                        == places_of(open + completed)[j].first
                ||| places_of(open + completed)[j].first >= open.len() && completed.contains(
                    places_of(open + completed)[j].held,
                )
            },
    decreases completed.len(),
{
    let opened = places_of(open);
    if completed.len() == 0 {
        assert(open + completed =~= open);
    } else {
        let fewer = completed.drop_last();
        let incoming = completed.last();
        assert((open + completed).drop_last() =~= open + fewer);
        assert((open + completed).last() == incoming);
        assert(completed[completed.len() - 1] == incoming);
        open_orders_keep_their_places(open, fewer);
        snapshots_are_consistent(open + fewer);
        places_follow_the_order_of_arrival(open + fewer);
        let merged = merge_all(open + fewer);
        places_are_sound(merged, incoming);
        let earlier = places_of(open + fewer);
        let after = places_of(open + completed);
        assert(merged.len() == earlier.len());
        assert forall|o: OrderReportObservation| fewer.contains(o) implies completed.contains(
            o,
        ) by {
            let j = choose|j: int| 0 <= j < fewer.len() && fewer[j] == o;
            assert(completed[j] == o);
        }
        let next = match place_of(merged, incoming) {
            Some(i) => if superseding(incoming, merged[i]) {
                earlier.update(i, Place { first: earlier[i].first, held: incoming })
            } else {
                earlier
            },
            None => earlier.push(
                Place { first: (open.len() + fewer.len()) as int, held: incoming },
            ),
        };
        staying_keeps(next, incoming);
        assert forall|i: int|
            #![trigger opened[i]]
            0 <= i < opened.len() implies place_kept(opened[i], after, completed) || place_left(
            opened[i],
            completed,
        ) by {
            if place_kept(opened[i], earlier, fewer) {
                let j = choose|j: int|
                    {
                        &&& 0 <= j < earlier.len()
                        &&& (#[trigger] earlier[j]).first == opened[i].first
                        &&& earlier[j].held == opened[i].held || (earlier[j].held.identified()
                            && fewer.contains(earlier[j].held))
                    };
                assert(next[j].first == opened[i].first);
                if !yields_to(next[j].held, incoming) {
                    assert(after.contains(next[j])) by {
                        assert(staying(next, incoming).contains(next[j]));
                        assert(next.contains(next[j]));
                    }
                    let l = choose|l: int| 0 <= l < after.len() && after[l] == next[j];
                    assert(after[l].first == opened[i].first);
                    assert(place_kept(opened[i], after, completed));
                } else {
                    assert(yields_to(opened[i].held, completed[completed.len() - 1]));
                }
            } else {
                let k = choose|k: int|
                    0 <= k < fewer.len() && yields_to(opened[i].held, #[trigger] fewer[k]);
                assert(completed[k] == fewer[k]);
            }
        }
        assert forall|j: int|
            #![trigger after[j]]
            0 <= j < after.len() implies {
            ||| exists|i: int|
                0 <= i < opened.len() && (#[trigger] opened[i]).first == after[j].first
            ||| after[j].first >= open.len() && completed.contains(after[j].held)
        } by {
            assert(next.contains(after[j]));
            let l = choose|l: int| 0 <= l < next.len() && next[l] == after[j];
            if l < earlier.len() {
                assert(earlier[l].first == next[l].first);
            }
        }
    }
}

} // verus!
