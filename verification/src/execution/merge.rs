//! Open and completed orders in one snapshot.
//!
//! The broker may report one order from both of its sources, and may know it by its permanent
//! identifier in one of them only. Two observations speak of one order where both carry broker
//! venue identity and it is the same, or where exactly one carries it and they share their client
//! identity. A snapshot holds no two observations of one order.

use vstd::prelude::*;

use crate::index::{
    index_contents, index_get, index_insert, index_insert_if_absent, index_new,
};
use crate::reports::OrderStatusReport;
use crate::text::text_eq;

verus! {

/// One observation of an order.
#[derive(Debug, PartialEq, Eq)]
pub struct OrderReportObservation {
    pub report: OrderStatusReport,
    /// The positive permanent identifier that the venue identity of the report was made from;
    /// `None` where the report carries the identifier of the live order only.
    pub broker_perm_id: Option<i64>,
}

impl Clone for OrderReportObservation {
    fn clone(&self) -> (r: Self)
        ensures
            r == *self,
    {
        OrderReportObservation {
            report: self.report.clone(),
            broker_perm_id: self.broker_perm_id,
        }
    }
}

impl OrderReportObservation {
    /// The observation carries broker venue identity.
    pub open spec fn identified(&self) -> bool {
        self.broker_perm_id is Some
    }

    /// The venue identity of the order.
    pub open spec fn venue(&self) -> Seq<char> {
        self.report.venue_order_id@
    }

    /// The client identity of the order.
    pub open spec fn client(&self) -> Option<Seq<char>> {
        match self.report.client_order_id {
            Some(id) => Some(id@),
            None => None,
        }
    }

    /// The order has come to its end.
    pub open spec fn closed(&self) -> bool {
        self.report.order_status.closed()
    }
}

/// Two observations of one order.
pub open spec fn correlated(a: OrderReportObservation, b: OrderReportObservation) -> bool {
    ||| a.identified() && b.identified() && a.venue() == b.venue()
    ||| share_client(a, b)
}

/// `incoming` takes the place of `existing`: by broker venue identity where the other has none, by
/// being terminal where the other is not, or as the later of two terminal observations with broker
/// venue identity. One without broker venue identity never takes the place of one with it.
pub open spec fn superseding(
    incoming: OrderReportObservation,
    existing: OrderReportObservation,
) -> bool {
    ||| incoming.identified() && !existing.identified()
    ||| incoming.closed() && !existing.closed() && (incoming.identified() || !existing.identified())
    ||| incoming.closed() && existing.closed() && incoming.identified() && existing.identified()
}

/// The order at place `i` has the broker venue identity `venue`.
pub open spec fn has_venue(
    merged: Seq<OrderReportObservation>,
    i: int,
    venue: Seq<char>,
) -> bool {
    0 <= i < merged.len() && merged[i].identified() && merged[i].venue() == venue
}

/// Exactly one of two observations carries broker venue identity, and they share their client
/// identity.
pub open spec fn share_client(a: OrderReportObservation, b: OrderReportObservation) -> bool {
    a.identified() != b.identified() && a.client() is Some && a.client() == b.client()
}

/// The first place at or after `start` that shares its client identity with an observation; the
/// number of places where there is none.
pub open spec fn client_place(
    merged: Seq<OrderReportObservation>,
    incoming: OrderReportObservation,
    start: int,
) -> int
    decreases merged.len() - start,
{
    if start >= merged.len() || share_client(merged[start], incoming) {
        start
    } else {
        client_place(merged, incoming, start + 1)
    }
}

/// The place of the order that an observation speaks of: the one with its broker venue identity,
/// and otherwise the first one that shares its client identity.
pub open spec fn place_of(
    merged: Seq<OrderReportObservation>,
    incoming: OrderReportObservation,
) -> Option<int> {
    if incoming.identified() && exists|i: int| has_venue(merged, i, incoming.venue()) {
        Some(choose|i: int| has_venue(merged, i, incoming.venue()))
    } else if client_place(merged, incoming, 0) < merged.len() {
        Some(client_place(merged, incoming, 0))
    } else {
        None
    }
}

/// `held` leaves the snapshot once `incoming` is in it: it speaks of the same order and lacks the
/// broker venue identity that `incoming` has.
pub open spec fn yields_to(held: OrderReportObservation, incoming: OrderReportObservation) -> bool {
    incoming.identified() && share_client(held, incoming)
}

/// The snapshot without what leaves it for `incoming`.
pub open spec fn cleared(
    merged: Seq<OrderReportObservation>,
    incoming: OrderReportObservation,
) -> Seq<OrderReportObservation> {
    merged.filter(|held: OrderReportObservation| !yields_to(held, incoming))
}

/// Merges one more observation: into the place of its order where that is known, and otherwise at
/// the end. Whatever else speaks of its order without broker venue identity then leaves.
pub open spec fn merge_one(
    merged: Seq<OrderReportObservation>,
    incoming: OrderReportObservation,
) -> Seq<OrderReportObservation> {
    match place_of(merged, incoming) {
        Some(place) => if superseding(incoming, merged[place]) {
            cleared(merged.update(place, incoming), incoming)
        } else {
            merged
        },
        None => cleared(merged.push(incoming), incoming),
    }
}

/// Merges observations in the order of their arrival.
pub open spec fn merge_all(observations: Seq<OrderReportObservation>) -> Seq<
    OrderReportObservation,
>
    decreases observations.len(),
{
    if observations.len() == 0 {
        Seq::empty()
    } else {
        merge_one(merge_all(observations.drop_last()), observations.last())
    }
}

/// The reports of observations.
pub open spec fn reports_of(observations: Seq<OrderReportObservation>) -> Seq<OrderStatusReport> {
    observations.map_values(|o: OrderReportObservation| o.report)
}

/// No two places speak of one order.
pub open spec fn consistent(merged: Seq<OrderReportObservation>) -> bool {
    forall|i: int, j: int|
        #![trigger merged[i], merged[j]]
        0 <= i < merged.len() && 0 <= j < merged.len() && i != j ==> !correlated(
            merged[i],
            merged[j],
        )
}

/// The place that is found shares the client identity, and none before it does.
pub(crate) proof fn client_place_bounds(
    merged: Seq<OrderReportObservation>,
    incoming: OrderReportObservation,
    start: int,
)
    requires
        0 <= start <= merged.len(),
    ensures
        start <= client_place(merged, incoming, start) <= merged.len(),
        client_place(merged, incoming, start) < merged.len() ==> share_client(
            merged[client_place(merged, incoming, start)],
            incoming,
        ),
        forall|i: int|
            #![trigger merged[i]]
            start <= i < client_place(merged, incoming, start) ==> !share_client(
                merged[i],
                incoming,
            ),
    decreases merged.len() - start,
{
    if start < merged.len() && !share_client(merged[start], incoming) {
        client_place_bounds(merged, incoming, start + 1);
    }
}

/// What stays of a snapshot was in it, and nothing that stays has to leave.
pub(crate) proof fn cleared_holds_what_stays(
    merged: Seq<OrderReportObservation>,
    incoming: OrderReportObservation,
)
    ensures
        cleared(merged, incoming).len() <= merged.len(),
        forall|i: int|
            #![trigger cleared(merged, incoming)[i]]
            0 <= i < cleared(merged, incoming).len() ==> merged.contains(
                cleared(merged, incoming)[i],
            ) && !yields_to(cleared(merged, incoming)[i], incoming),
        forall|i: int|
            #![trigger merged[i]]
            0 <= i < merged.len() && !yields_to(merged[i], incoming) ==> cleared(
                merged,
                incoming,
            ).contains(merged[i]),
{
    let stays = |held: OrderReportObservation| !yields_to(held, incoming);
    let rest = cleared(merged, incoming);
    merged.lemma_filter_len(stays);
    assert forall|i: int|
        #![trigger rest[i]]
        0 <= i < rest.len() implies merged.contains(rest[i]) && !yields_to(rest[i], incoming) by {
        merged.lemma_filter_pred(stays, i);
        assert(merged.filter(stays).contains(rest[i]));
        merged.lemma_filter_contains_rev(stays, rest[i]);
    }
    assert forall|i: int|
        #![trigger merged[i]]
        0 <= i < merged.len() && !yields_to(merged[i], incoming) implies rest.contains(
        merged[i],
    ) by {
        merged.lemma_filter_contains(stays, i);
    }
}

/// Nothing leaves where nothing has to.
pub(crate) proof fn nothing_leaves(
    merged: Seq<OrderReportObservation>,
    incoming: OrderReportObservation,
)
    requires
        forall|i: int|
            #![trigger merged[i]]
            0 <= i < merged.len() ==> !yields_to(merged[i], incoming),
    ensures
        cleared(merged, incoming) == merged,
    decreases merged.len(),
{
    reveal(Seq::filter);
    if merged.len() > 0 {
        let before = merged.drop_last();
        assert forall|i: int|
            #![trigger before[i]]
            0 <= i < before.len() implies !yields_to(before[i], incoming) by {
            assert(before[i] == merged[i]);
        }
        nothing_leaves(before, incoming);
        assert(!yields_to(merged[merged.len() - 1], incoming));
        assert(cleared(merged, incoming) =~= merged);
    }
}

/// A snapshot in which every two places either speak of different orders or one of them leaves is
/// consistent once it is cleared.
proof fn clearing_makes_consistent(
    merged: Seq<OrderReportObservation>,
    incoming: OrderReportObservation,
)
    requires
        forall|i: int, j: int|
            #![trigger merged[i], merged[j]]
            0 <= i < merged.len() && 0 <= j < merged.len() && i != j && correlated(
                merged[i],
                merged[j],
            ) ==> yields_to(merged[i], incoming) || yields_to(merged[j], incoming),
    ensures
        consistent(cleared(merged, incoming)),
    decreases merged.len(),
{
    reveal(Seq::filter);
    if merged.len() > 0 {
        let before = merged.drop_last();
        let last = merged.len() - 1;
        assert forall|i: int, j: int|
            #![trigger before[i], before[j]]
            0 <= i < before.len() && 0 <= j < before.len() && i != j && correlated(
                before[i],
                before[j],
            ) implies yields_to(before[i], incoming) || yields_to(before[j], incoming) by {
            assert(before[i] == merged[i] && before[j] == merged[j]);
        }
        clearing_makes_consistent(before, incoming);
        cleared_holds_what_stays(before, incoming);
        let rest = cleared(before, incoming);
        let all = cleared(merged, incoming);
        if !yields_to(merged[last], incoming) {
            assert(all =~= rest.push(merged[last]));
            assert forall|i: int|
                #![trigger rest[i]]
                0 <= i < rest.len() implies !correlated(rest[i], merged[last]) && !correlated(
                merged[last],
                rest[i],
            ) by {
                assert(before.contains(rest[i]));
                let k = choose|k: int| 0 <= k < before.len() && before[k] == rest[i];
                assert(merged[k] == rest[i]);
            }
            assert forall|i: int, j: int|
                #![trigger all[i], all[j]]
                0 <= i < all.len() && 0 <= j < all.len() && i != j implies !correlated(
                all[i],
                all[j],
            ) by {
                if i < rest.len() {
                    assert(all[i] == rest[i]);
                }
                if j < rest.len() {
                    assert(all[j] == rest[j]);
                }
            }
        } else {
            assert(all == rest);
        }
    }
}

/// The place of an observation is one of the snapshot and speaks of the same order; an observation
/// that takes a place carries broker venue identity, and one that gets no place speaks of no order
/// of the snapshot.
pub(crate) proof fn places_are_sound(
    merged: Seq<OrderReportObservation>,
    incoming: OrderReportObservation,
)
    requires
        consistent(merged),
    ensures
        match place_of(merged, incoming) {
            Some(place) => 0 <= place < merged.len() && correlated(merged[place], incoming) && (
            superseding(incoming, merged[place]) ==> incoming.identified()),
            None => forall|i: int|
                #![trigger merged[i]]
                0 <= i < merged.len() ==> !correlated(merged[i], incoming),
        },
{
    client_place_bounds(merged, incoming, 0);
    if incoming.identified() && exists|i: int| has_venue(merged, i, incoming.venue()) {
        let place = choose|i: int| has_venue(merged, i, incoming.venue());
        assert(has_venue(merged, place, incoming.venue()));
    } else if place_of(merged, incoming) is None {
        assert forall|i: int|
            #![trigger merged[i]]
            0 <= i < merged.len() implies !correlated(merged[i], incoming) by {
            assert(!share_client(merged[i], incoming));
            if incoming.identified() {
                assert(!has_venue(merged, i, incoming.venue()));
            }
        }
    }
}

/// Merging keeps a snapshot consistent.
pub(crate) proof fn merging_stays_consistent(
    merged: Seq<OrderReportObservation>,
    incoming: OrderReportObservation,
)
    requires
        consistent(merged),
    ensures
        consistent(merge_one(merged, incoming)),
{
    places_are_sound(merged, incoming);
    match place_of(merged, incoming) {
        Some(place) => {
            if superseding(incoming, merged[place]) {
                let next = merged.update(place, incoming);
                assert forall|i: int, j: int|
                    #![trigger next[i], next[j]]
                    0 <= i < next.len() && 0 <= j < next.len() && i != j && correlated(
                        next[i],
                        next[j],
                    ) implies yields_to(next[i], incoming) || yields_to(next[j], incoming) by {
                    if i != place && j != place {
                        assert(!correlated(merged[i], merged[j]));
                    } else {
                        let k = if i == place {
                            j
                        } else {
                            i
                        };
                        assert(next[k] == merged[k]);
                        assert(!correlated(merged[k], merged[place]));
                        if merged[k].identified() {
                            assert(has_venue(merged, k, incoming.venue()));
                            let p = choose|p: int| has_venue(merged, p, incoming.venue());
                            assert(has_venue(merged, p, incoming.venue()));
                            assert(p == place);
                        }
                    }
                }
                clearing_makes_consistent(next, incoming);
            }
        },
        None => {
            let next = merged.push(incoming);
            assert forall|i: int, j: int|
                #![trigger next[i], next[j]]
                0 <= i < next.len() && 0 <= j < next.len() && i != j && correlated(
                    next[i],
                    next[j],
                ) implies yields_to(next[i], incoming) || yields_to(next[j], incoming) by {
                if i < merged.len() {
                    assert(next[i] == merged[i]);
                }
                if j < merged.len() {
                    assert(next[j] == merged[j]);
                }
            }
            clearing_makes_consistent(next, incoming);
        },
    }
}

/// The contents of [`Indexes`].
struct IndexesView {
    /// The place of each broker venue identity.
    venues: Map<Seq<char>, u64>,
    /// The first place of each client identity.
    clients: Map<Seq<char>, u64>,
    /// The client identities that several places without broker venue identity have.
    crowded: Map<Seq<char>, u64>,
}

/// `place` is the first one with the client identity `client`.
spec fn first_with_client(
    merged: Seq<OrderReportObservation>,
    place: int,
    client: Seq<char>,
) -> bool {
    &&& 0 <= place < merged.len()
    &&& merged[place].client() == Some(client)
    &&& forall|j: int| #![trigger merged[j]] 0 <= j < place ==> merged[j].client() != Some(client)
}

/// The indexes are those of a snapshot.
spec fn describes(view: IndexesView, merged: Seq<OrderReportObservation>) -> bool {
    &&& forall|venue: Seq<char>| #[trigger]
        view.venues.dom().contains(venue) ==> has_venue(merged, view.venues[venue] as int, venue)
    &&& forall|i: int, venue: Seq<char>| #[trigger]
        has_venue(merged, i, venue) ==> view.venues.dom().contains(venue)
    &&& forall|client: Seq<char>| #[trigger]
        view.clients.dom().contains(client) ==> first_with_client(
            merged,
            view.clients[client] as int,
            client,
        )
    &&& forall|i: int|
        #![trigger merged[i]]
        0 <= i < merged.len() && merged[i].client() is Some ==> view.clients.dom().contains(
            merged[i].client()->0,
        )
    &&& forall|i: int, j: int|
        #![trigger merged[i], merged[j]]
        0 <= i < j < merged.len() && !merged[i].identified() && !merged[j].identified()
            && merged[i].client() is Some && merged[i].client() == merged[j].client()
            ==> view.crowded.dom().contains(merged[i].client()->0)
}

/// The indexes after an observation took the place behind the last.
spec fn noted(view: IndexesView, observation: OrderReportObservation, place: u64) -> IndexesView {
    IndexesView {
        venues: if observation.identified() {
            view.venues.insert(observation.venue(), place)
        } else {
            view.venues
        },
        clients: match observation.client() {
            Some(client) => if view.clients.dom().contains(client) {
                view.clients
            } else {
                view.clients.insert(client, place)
            },
            None => view.clients,
        },
        crowded: match observation.client() {
            Some(client) => if view.clients.dom().contains(client) {
                view.crowded.insert(client, place)
            } else {
                view.crowded
            },
            None => view.crowded,
        },
    }
}

/// The indexes stay those of the snapshot where an observation is noted behind the last.
proof fn noting_describes(
    view: IndexesView,
    merged: Seq<OrderReportObservation>,
    observation: OrderReportObservation,
    place: u64,
)
    requires
        describes(view, merged),
        place == merged.len(),
    ensures
        describes(noted(view, observation, place), merged.push(observation)),
{
    let next = noted(view, observation, place);
    let all = merged.push(observation);
    assert forall|venue: Seq<char>| #[trigger] next.venues.dom().contains(venue) implies has_venue(
        all,
        next.venues[venue] as int,
        venue,
    ) by {
        if !(observation.identified() && venue == observation.venue()) {
            assert(has_venue(merged, view.venues[venue] as int, venue));
        }
    }
    assert forall|i: int, venue: Seq<char>| #[trigger] has_venue(
        all,
        i,
        venue,
    ) implies next.venues.dom().contains(venue) by {
        if i < merged.len() {
            assert(has_venue(merged, i, venue));
        }
    }
    assert forall|client: Seq<char>| #[trigger]
        next.clients.dom().contains(client) implies first_with_client(
        all,
        next.clients[client] as int,
        client,
    ) by {
        if view.clients.dom().contains(client) {
            let k = view.clients[client] as int;
            assert(first_with_client(merged, k, client));
            assert(all[k] == merged[k]);
            assert forall|j: int| #![trigger all[j]] 0 <= j < k implies all[j].client() != Some(
                client,
            ) by {
                assert(all[j] == merged[j]);
            }
        } else {
            assert forall|j: int|
                #![trigger all[j]]
                0 <= j < merged.len() implies all[j].client() != Some(client) by {
                assert(all[j] == merged[j]);
            }
        }
    }
    assert forall|i: int|
        #![trigger all[i]]
        0 <= i < all.len() && all[i].client() is Some implies next.clients.dom().contains(
        all[i].client()->0,
    ) by {
        if i < merged.len() {
            assert(all[i] == merged[i]);
        }
    }
    assert forall|i: int, j: int|
        #![trigger all[i], all[j]]
        0 <= i < j < all.len() && !all[i].identified() && !all[j].identified() && all[i].client()
            is Some && all[i].client() == all[j].client() implies next.crowded.dom().contains(
        all[i].client()->0,
    ) by {
        assert(all[i] == merged[i]);
        if j < merged.len() {
            assert(all[j] == merged[j]);
        }
    }
}

/// The indexes stay those of the snapshot where an observation with broker venue identity takes a
/// place and keeps its client identity.
proof fn replacing_describes(
    view: IndexesView,
    merged: Seq<OrderReportObservation>,
    place: int,
    incoming: OrderReportObservation,
)
    requires
        describes(view, merged),
        0 <= place < merged.len() <= u64::MAX,
        incoming.identified(),
        correlated(merged[place], incoming),
        merged[place].client() == incoming.client(),
    ensures
        describes(
            (IndexesView {
                venues: view.venues.insert(incoming.venue(), place as u64),
                ..view
            }),
            merged.update(place, incoming),
        ),
{
    let next = IndexesView {
        venues: view.venues.insert(incoming.venue(), place as u64),
        ..view
    };
    let all = merged.update(place, incoming);
    assert forall|venue: Seq<char>| #[trigger] next.venues.dom().contains(venue) implies has_venue(
        all,
        next.venues[venue] as int,
        venue,
    ) by {
        if venue != incoming.venue() {
            assert(has_venue(merged, view.venues[venue] as int, venue));
        }
    }
    assert forall|i: int, venue: Seq<char>| #[trigger] has_venue(
        all,
        i,
        venue,
    ) implies next.venues.dom().contains(venue) by {
        if i != place {
            assert(has_venue(merged, i, venue));
        }
    }
    assert forall|client: Seq<char>| #[trigger]
        next.clients.dom().contains(client) implies first_with_client(
        all,
        next.clients[client] as int,
        client,
    ) by {
        let k = view.clients[client] as int;
        assert(first_with_client(merged, k, client));
        assert forall|j: int| #![trigger all[j]] 0 <= j < k implies all[j].client() != Some(
            client,
        ) by {
            assert(merged[j].client() != Some(client));
        }
    }
    assert forall|i: int|
        #![trigger all[i]]
        0 <= i < all.len() && all[i].client() is Some implies next.clients.dom().contains(
        all[i].client()->0,
    ) by {
        assert(merged[i].client() == all[i].client());
    }
    assert forall|i: int, j: int|
        #![trigger all[i], all[j]]
        0 <= i < j < all.len() && !all[i].identified() && !all[j].identified() && all[i].client()
            is Some && all[i].client() == all[j].client() implies next.crowded.dom().contains(
        all[i].client()->0,
    ) by {
        assert(all[i] == merged[i] && all[j] == merged[j]);
    }
}

/// Where the orders of a snapshot are found.
struct Indexes {
    by_venue: ahash::AHashMap<String, u64, ahash::RandomState>,
    by_client: ahash::AHashMap<String, u64, ahash::RandomState>,
    crowded: ahash::AHashMap<String, u64, ahash::RandomState>,
}

impl View for Indexes {
    type V = IndexesView;

    closed spec fn view(&self) -> IndexesView {
        IndexesView {
            venues: index_contents(self.by_venue),
            clients: index_contents(self.by_client),
            crowded: index_contents(self.crowded),
        }
    }
}

impl Indexes {
    fn new() -> (r: Self)
        ensures
            describes(r@, Seq::empty()),
    {
        Indexes { by_venue: index_new(), by_client: index_new(), crowded: index_new() }
    }

    fn note(&mut self, observation: &OrderReportObservation, place: usize)
        ensures
            final(self)@ == noted(old(self)@, *observation, place as u64),
    {
        if observation.broker_perm_id.is_some() {
            index_insert(
                &mut self.by_venue,
                observation.report.venue_order_id.as_str(),
                place as u64,
            );
        }
        if let Some(client) = &observation.report.client_order_id {
            if index_get(&self.by_client, client.as_str()).is_some() {
                index_insert(&mut self.crowded, client.as_str(), place as u64);
            }
            index_insert_if_absent(&mut self.by_client, client.as_str(), place as u64);
        }
    }
}

/// A snapshot with the indexes to find its orders by.
struct Merger {
    merged: Vec<OrderReportObservation>,
    indexes: Indexes,
}

impl Merger {
    spec fn wf(&self) -> bool {
        consistent(self.merged@) && describes(self.indexes@, self.merged@)
    }

    fn new() -> (r: Self)
        ensures
            r.wf(),
            r.merged@ == merge_all(Seq::empty()),
    {
        Merger { merged: Vec::new(), indexes: Indexes::new() }
    }

    /// Finds the orders of a snapshot anew.
    fn indexed(merged: Vec<OrderReportObservation>) -> (r: Self)
        requires
            consistent(merged@),
        ensures
            r.wf(),
            r.merged@ == merged@,
    {
        let mut indexes = Indexes::new();
        let mut i: usize = 0;
        assert(merged@.take(0) =~= Seq::empty());
        while i < merged.len()
            invariant
                i <= merged@.len(),
                describes(indexes@, merged@.take(i as int)),
            decreases merged.len() - i,
        {
            proof {
                noting_describes(
                    indexes@,
                    merged@.take(i as int),
                    merged@[i as int],
                    i as u64,
                );
                assert(merged@.take(i + 1) =~= merged@.take(i as int).push(merged@[i as int]));
            }
            indexes.note(&merged[i], i);
            i += 1;
        }
        assert(merged@.take(merged@.len() as int) =~= merged@);
        Merger { merged, indexes }
    }

    fn find(&self, incoming: &OrderReportObservation) -> (r: Option<usize>)
        requires
            self.wf(),
        ensures
            match r {
                Some(place) => place_of(self.merged@, *incoming) == Some(place as int) && place
                    < self.merged@.len(),
                None => place_of(self.merged@, *incoming) is None,
            },
    {
        let ghost m = self.merged@;
        let count: usize = self.merged.len();
        proof {
            client_place_bounds(m, *incoming, 0);
        }
        if incoming.broker_perm_id.is_some() {
            let by_venue = index_get(
                &self.indexes.by_venue,
                incoming.report.venue_order_id.as_str(),
            );
            if let Some(place) = by_venue {
                proof {
                    assert(self.indexes@.venues.dom().contains(incoming.venue()));
                    assert(has_venue(m, place as int, incoming.venue()));
                    let i = choose|i: int| has_venue(m, i, incoming.venue());
                    assert(has_venue(m, i, incoming.venue()));
                    if i != place {
                        assert(!correlated(m[i], m[place as int]));
                    }
                }
                return Some(place as usize);
            }
            assert(!exists|i: int| has_venue(m, i, incoming.venue())) by {
                assert(!self.indexes@.venues.dom().contains(incoming.venue()));
            }
        }
        match &incoming.report.client_order_id {
            Some(client) => match index_get(&self.indexes.by_client, client.as_str()) {
                Some(place) => {
                    proof {
                        assert(self.indexes@.clients.dom().contains(client@));
                        assert(first_with_client(m, place as int, client@));
                    }
                    let place: usize = place as usize;
                    if self.merged[place].broker_perm_id.is_some()
                        != incoming.broker_perm_id.is_some() {
                        assert(share_client(m[place as int], *incoming));
                        assert(client_place(m, *incoming, 0) == place) by {
                            let k = client_place(m, *incoming, 0);
                            if k > place {
                                assert(!share_client(m[place as int], *incoming));
                            }
                            if k < place {
                                assert(m[k].client() != Some(client@));
                            }
                        }
                        Some(place)
                    } else {
                        assert(client_place(m, *incoming, 0) >= count) by {
                            let k = client_place(m, *incoming, 0);
                            if k < count {
                                assert(share_client(m[k], *incoming));
                                assert(!correlated(m[k], m[place as int]));
                            }
                        }
                        None
                    }
                },
                None => {
                    assert(client_place(m, *incoming, 0) >= count) by {
                        let k = client_place(m, *incoming, 0);
                        if k < count {
                            assert(share_client(m[k], *incoming));
                            assert(self.indexes@.clients.dom().contains(m[k].client()->0));
                        }
                    }
                    None
                },
            },
            None => None,
        }
    }

    /// Whether it can be told from the indexes that `incoming`, put at `place`, keeps the client
    /// identity that is found there and that no other observation leaves for it.
    fn leaves_alone(&self, place: usize, incoming: &OrderReportObservation) -> (r: bool)
        requires
            self.wf(),
            place < self.merged@.len(),
            incoming.identified(),
            correlated(self.merged@[place as int], *incoming),
        ensures
            r ==> self.merged@[place as int].client() == incoming.client(),
            r ==> forall|i: int|
                #![trigger self.merged@[i]]
                0 <= i < self.merged@.len() && i != place ==> !yields_to(
                    self.merged@[i],
                    *incoming,
                ),
    {
        let ghost m = self.merged@;
        let held = &self.merged[place];
        match (&held.report.client_order_id, &incoming.report.client_order_id) {
            (Some(previous), Some(client)) => {
                let kept = text_eq(previous.as_str(), client.as_str());
                if held.broker_perm_id.is_some() {
                    proof {
                        if kept {
                            assert forall|i: int|
                                #![trigger m[i]]
                                0 <= i < m.len() && i != place implies !yields_to(
                                m[i],
                                *incoming,
                            ) by {
                                assert(!correlated(m[i], m[place as int]));
                            }
                        }
                    }
                    kept
                } else {
                    let alone = index_get(&self.indexes.crowded, client.as_str()).is_none();
                    proof {
                        if alone {
                            assert(!self.indexes@.crowded.dom().contains(client@));
                            assert forall|i: int|
                                #![trigger m[i]]
                                0 <= i < m.len() && i != place implies !yields_to(
                                m[i],
                                *incoming,
                            ) by {
                                assert(m[place as int].client() == Some(client@));
                            }
                        }
                    }
                    alone
                }
            },
            (None, None) => true,
            _ => false,
        }
    }

    fn absorb(self, incoming: OrderReportObservation) -> (r: Self)
        requires
            self.wf(),
        ensures
            r.wf(),
            r.merged@ == merge_one(self.merged@, incoming),
    {
        let ghost before = self.merged@;
        proof {
            places_are_sound(before, incoming);
            merging_stays_consistent(before, incoming);
        }
        let mut merger = self;
        let count: usize = merger.merged.len();
        match merger.find(&incoming) {
            Some(place) => {
                if !supersedes(&incoming, &merger.merged[place]) {
                    return merger;
                }
                if merger.leaves_alone(place, &incoming) {
                    proof {
                        replacing_describes(merger.indexes@, before, place as int, incoming);
                        nothing_leaves(before.update(place as int, incoming), incoming);
                    }
                    index_insert(
                        &mut merger.indexes.by_venue,
                        incoming.report.venue_order_id.as_str(),
                        place as u64,
                    );
                    merger.merged[place] = incoming;
                    merger
                } else {
                    merger.merged[place] = incoming.clone();
                    Merger::indexed(without_weaker(merger.merged, &incoming))
                }
            },
            None => {
                proof {
                    noting_describes(merger.indexes@, before, incoming, count as u64);
                    let all = before.push(incoming);
                    assert forall|i: int|
                        #![trigger all[i]]
                        0 <= i < all.len() implies !yields_to(all[i], incoming) by {
                        if i < before.len() {
                            assert(all[i] == before[i]);
                        }
                    }
                    nothing_leaves(all, incoming);
                }
                merger.indexes.note(&incoming, count);
                merger.merged.push(incoming);
                merger
            },
        }
    }
}

/// The snapshot without what leaves it for an observation.
fn without_weaker(merged: Vec<OrderReportObservation>, incoming: &OrderReportObservation) -> (r: Vec<
    OrderReportObservation,
>)
    ensures
        r@ == cleared(merged@, *incoming),
{
    let ghost all = merged@;
    let mut rest: Vec<OrderReportObservation> = Vec::new();
    proof {
        reveal(Seq::filter);
        assert(cleared(all.take(0), *incoming) =~= Seq::empty());
    }
    for held in it: merged.into_iter()
        invariant
            it.seq() == all,
            rest@ == cleared(all.take(it.index() as int), *incoming),
    {
        proof {
            let k = it.index() as int;
            reveal(Seq::filter);
            assert(all.take(k + 1).drop_last() =~= all.take(k));
            assert(all.take(k + 1).last() == held);
        }
        if !must_yield(&held, incoming) {
            rest.push(held);
        }
    }
    assert(all.take(all.len() as int) =~= all);
    rest
}

/// Whether an observation leaves the snapshot for another.
fn must_yield(held: &OrderReportObservation, incoming: &OrderReportObservation) -> (r: bool)
    ensures
        r == yields_to(*held, *incoming),
{
    if incoming.broker_perm_id.is_none() || held.broker_perm_id.is_some() {
        return false;
    }
    match (&held.report.client_order_id, &incoming.report.client_order_id) {
        (Some(a), Some(b)) => text_eq(a.as_str(), b.as_str()),
        _ => false,
    }
}

/// Whether an incoming observation takes the place of one already merged for the same order.
pub fn supersedes(
    incoming: &OrderReportObservation,
    existing: &OrderReportObservation,
) -> (r: bool)
    ensures
        r == superseding(*incoming, *existing),
{
    let incoming_identified = incoming.broker_perm_id.is_some();
    let existing_identified = existing.broker_perm_id.is_some();
    let incoming_closed = incoming.report.order_status.is_closed();
    let existing_closed = existing.report.order_status.is_closed();
    let stronger_venue_identity = incoming_identified && !existing_identified;
    let terminal_evidence = incoming_closed && !existing_closed && (incoming_identified
        || !existing_identified);
    let explicit_terminal_authority = incoming_closed && existing_closed && incoming_identified
        && existing_identified;
    stronger_venue_identity || terminal_evidence || explicit_terminal_authority
}

/// Merges open and completed orders into one snapshot with one report for each order.
pub fn merge_order_status_reports(
    open_observations: Vec<OrderReportObservation>,
    completed_observations: Vec<OrderReportObservation>,
) -> (r: Vec<OrderStatusReport>)
    ensures
        r@ == reports_of(merge_all(open_observations@ + completed_observations@)),
{
    let ghost all = open_observations@ + completed_observations@;
    let ghost opened = open_observations@.len() as int;
    let mut merger = Merger::new();
    assert(all.take(0) =~= Seq::empty());
    assert(all.take(opened) =~= open_observations@);
    assert(all.skip(opened) =~= completed_observations@);
    for observation in it: open_observations.into_iter()
        invariant
            it.seq() == all.take(opened),
            0 <= opened <= all.len(),
            merger.wf(),
            merger.merged@ == merge_all(all.take(it.index() as int)),
    {
        proof {
            let k = it.index() as int;
            assert(all.take(k + 1).drop_last() =~= all.take(k));
            assert(all.take(k + 1).last() == observation);
        }
        merger = merger.absorb(observation);
    }
    for observation in it: completed_observations.into_iter()
        invariant
            it.seq() == all.skip(opened),
            0 <= opened <= all.len(),
            merger.wf(),
            merger.merged@ == merge_all(all.take(opened + it.index())),
    {
        proof {
            let k = opened + it.index();
            assert(all.take(k + 1).drop_last() =~= all.take(k));
            assert(all.take(k + 1).last() == observation);
        }
        merger = merger.absorb(observation);
    }
    assert(all.take(all.len() as int) =~= all);
    let ghost merged = merger.merged@;
    let mut reports: Vec<OrderStatusReport> = Vec::new();
    for observation in it: merger.merged.into_iter()
        invariant
            it.seq() == merged,
            reports@ == reports_of(merged.take(it.index() as int)),
    {
        proof {
            let k = it.index() as int;
            assert(merged.take(k + 1) =~= merged.take(k).push(observation));
            assert(reports_of(merged.take(k + 1)) =~= reports_of(merged.take(k)).push(
                observation.report,
            ));
        }
        reports.push(observation.report);
    }
    assert(merged.take(merged.len() as int) =~= merged);
    reports
}

} // verus!
