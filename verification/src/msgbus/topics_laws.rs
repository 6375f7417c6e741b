//! What lists of topics and subscriptions hold.

use vstd::prelude::*;

use crate::msgbus::bus::{BusError, PyMessageBus};
use crate::msgbus::topics::{
    any_selected, ascending, contents, flags_of, is_subscribed, listed, selected, selected_texts,
    sorted_topics, subscribed, subscription_texts, text_before, Subscription,
};

verus! {

/// `a` comes before `b`: they share what stands before the first place at which they differ, and
/// there `a` has the smaller character or ends.
pub open spec fn precedes(a: Seq<char>, b: Seq<char>) -> bool {
    exists|k: int|
        {
            &&& 0 <= k <= a.len() && k < b.len()
            &&& #[trigger] a.take(k) == b.take(k)
            &&& k < a.len() ==> a[k] < b[k]
        }
}

proof fn earlier_texts_precede(a: Seq<char>, b: Seq<char>)
    requires
        text_before(a, b),
    ensures
        precedes(a, b),
    decreases a.len(),
{
    if a.len() == 0 || a[0] != b[0] {
        assert(a.take(0) =~= b.take(0));
    } else {
        earlier_texts_precede(a.drop_first(), b.drop_first());
        let x = a.drop_first();
        let y = b.drop_first();
        let k = choose|k: int|
            {
                &&& 0 <= k <= x.len() && k < y.len()
                &&& #[trigger] x.take(k) == y.take(k)
                &&& k < x.len() ==> x[k] < y[k]
            };
        assert(a.take(k + 1) =~= seq![a[0]] + x.take(k));
        assert(b.take(k + 1) =~= seq![b[0]] + y.take(k));
        assert(a.take(k + 1) == b.take(k + 1));
    }
}

/// The topics are the patterns, each once, in the order of their characters.
pub open spec fn sorted_from(topics: Seq<String>, patterns: Seq<String>) -> bool {
    &&& forall|i: int, j: int|
        #![trigger topics[i], topics[j]]
        0 <= i < j < topics.len() ==> precedes(topics[i]@, topics[j]@)
    &&& forall|i: int| 0 <= i < topics.len() ==> occurs(patterns, (#[trigger] topics[i])@)
    &&& forall|i: int| 0 <= i < patterns.len() ==> occurs(topics, (#[trigger] patterns[i])@)
}

/// One of the texts is this one.
pub open spec fn occurs(texts: Seq<String>, text: Seq<char>) -> bool {
    exists|i: int| 0 <= i < texts.len() && (#[trigger] texts[i])@ == text
}

/// The topics of a bus are the patterns of its subscriptions, each once and in order.
pub proof fn topics_are_the_patterns_in_order(
    bus: &PyMessageBus,
    patterns: Vec<String>,
    topics: Vec<String>,
    sorted: Vec<String>,
)
    requires
        call_ensures(PyMessageBus::py_topics, (bus, patterns), topics),
        call_ensures(sorted_topics, (patterns,), sorted),
    ensures
        sorted_from(topics@, patterns@),
        sorted_from(sorted@, patterns@),
{
    listed_texts_are_sorted(topics@, patterns@);
    listed_texts_are_sorted(sorted@, patterns@);
}

proof fn listed_texts_are_sorted(topics: Seq<String>, patterns: Seq<String>)
    requires
        ascending(topics),
        forall|t: Seq<char>| #[trigger] listed(topics, t) <==> listed(patterns, t),
    ensures
        sorted_from(topics, patterns),
{
    assert forall|i: int, j: int|
        #![trigger topics[i], topics[j]]
        0 <= i < j < topics.len() implies precedes(topics[i]@, topics[j]@) by {
        earlier_texts_precede(topics[i]@, topics[j]@);
    }
    assert forall|i: int| 0 <= i < topics.len() implies occurs(
        patterns,
        (#[trigger] topics[i])@,
    ) by {
        assert(listed(topics, topics[i]@));
        assert(listed(patterns, topics[i]@));
    }
    assert forall|i: int| 0 <= i < patterns.len() implies occurs(
        topics,
        (#[trigger] patterns[i])@,
    ) by {
        assert(listed(patterns, patterns[i]@));
        assert(listed(topics, patterns[i]@));
    }
}

/// No subscriptions have no texts.
pub proof fn no_subscriptions_have_no_texts(
    bus: &PyMessageBus,
    subscriptions: &Vec<Subscription>,
    pattern_valid: bool,
    matches: Option<&Vec<bool>>,
    texts: Vec<String>,
)
    requires
        subscriptions@.len() == 0,
        matches matches Some(flags) ==> flags@.len() == 0,
        call_ensures(
            PyMessageBus::py_subscriptions,
            (bus, subscriptions, pattern_valid, matches),
            Ok::<Vec<String>, BusError>(texts),
        ),
    ensures
        texts@.len() == 0,
{
    assert(contents(texts@).len() == texts@.len());
}

/// One more subscription adds its text behind those of the others where no pattern is asked for or
/// it matches the one that is, and adds nothing otherwise.
pub proof fn one_more_subscription_adds_its_text(
    bus: &PyMessageBus,
    fewer: &Vec<Subscription>,
    more: &Vec<Subscription>,
    added: Subscription,
    pattern_valid: bool,
    fewer_matches: Option<&Vec<bool>>,
    more_matches: Option<&Vec<bool>>,
    matching: bool,
    before: Vec<String>,
    after: Vec<String>,
)
    requires
        more@ == fewer@.push(added),
        match (fewer_matches, more_matches) {
            (Some(a), Some(b)) => a@.len() == fewer@.len() && b@ == a@.push(matching),
            (None, None) => matching,
            _ => false,
        },
        call_ensures(
            PyMessageBus::py_subscriptions,
            (bus, fewer, pattern_valid, fewer_matches),
            Ok::<Vec<String>, BusError>(before),
        ),
        call_ensures(
            PyMessageBus::py_subscriptions,
            (bus, more, pattern_valid, more_matches),
            Ok::<Vec<String>, BusError>(after),
        ),
    ensures
        after@.len() == before@.len() + (if matching {
            1int
        } else {
            0
        }),
        forall|i: int| 0 <= i < before@.len() ==> (#[trigger] after@[i])@ == before@[i]@,
{
    fewer_texts_stay(fewer@, more@, flags(fewer_matches), flags(more_matches), fewer@.len() as int);
    let x = contents(before@);
    let y = contents(after@);
    assert(x.len() == before@.len() && y.len() == after@.len());
    assert forall|i: int| 0 <= i < before@.len() implies (#[trigger] after@[i])@
        == before@[i]@ by {
        assert(x[i] == before@[i]@);
        assert(y[i] == after@[i]@);
    }
}

/// The flags behind an optional reference.
spec fn flags(matches: Option<&Vec<bool>>) -> Option<Seq<bool>> {
    match matches {
        Some(flags) => Some(flags@),
        None => None,
    }
}

proof fn fewer_texts_stay(
    fewer: Seq<Subscription>,
    more: Seq<Subscription>,
    fewer_matches: Option<Seq<bool>>,
    more_matches: Option<Seq<bool>>,
    n: int,
)
    requires
        0 <= n <= fewer.len() < more.len(),
        forall|i: int| 0 <= i < fewer.len() ==> #[trigger] fewer[i] == more[i],
        match (fewer_matches, more_matches) {
            (Some(a), Some(b)) => a.len() == fewer.len() && b.len() == more.len() && forall|i: int|
                0 <= i < fewer.len() ==> #[trigger] a[i] == b[i],
            (None, None) => true,
            _ => false,
        },
    ensures
        selected_texts(fewer, fewer_matches, n) == selected_texts(more, more_matches, n),
    decreases n,
{
    if n > 0 {
        fewer_texts_stay(fewer, more, fewer_matches, more_matches, n - 1);
        assert(fewer[n - 1] == more[n - 1]);
        assert(selected(fewer_matches, n - 1) == selected(more_matches, n - 1));
    }
}

/// The text of the last subscription names its pattern and its handler.
pub proof fn subscriptions_are_told_by_pattern_and_handler(
    bus: &PyMessageBus,
    subscriptions: &Vec<Subscription>,
    pattern_valid: bool,
    matches: Option<&Vec<bool>>,
    texts: Vec<String>,
)
    requires
        subscriptions@.len() > 0,
        matches matches Some(flags) ==> flags@.len() == subscriptions@.len() && flags@.last(),
        call_ensures(
            PyMessageBus::py_subscriptions,
            (bus, subscriptions, pattern_valid, matches),
            Ok::<Vec<String>, BusError>(texts),
        ),
    ensures
        texts@.len() > 0,
        texts@.last()@ == "Subscription(topic="@ + subscriptions@.last().pattern@ + ", handler="@
            + subscriptions@.last().handler_id@ + ")"@,
{
    let told = contents(texts@);
    assert(told.len() == texts@.len());
    assert(selected(flags(matches), subscriptions@.len() - 1));
    assert(told.last() == texts@.last()@);
}

/// Subscriptions are told as the bus tells them, and any is there where one is told.
pub proof fn subscriptions_are_told_alike(
    bus: &PyMessageBus,
    subscriptions: &Vec<Subscription>,
    pattern_valid: bool,
    matches: Option<&Vec<bool>>,
    told: Result<Vec<String>, BusError>,
    texts: Vec<String>,
    any: Result<bool, BusError>,
    selected_any: bool,
)
    requires
        matches matches Some(flags) ==> flags@.len() == subscriptions@.len(),
        call_ensures(
            PyMessageBus::py_subscriptions,
            (bus, subscriptions, pattern_valid, matches),
            told,
        ),
        call_ensures(subscription_texts, (subscriptions, matches), texts),
        call_ensures(
            PyMessageBus::py_has_subscribers,
            (bus, subscriptions, pattern_valid, matches),
            any,
        ),
        call_ensures(any_selected, (subscriptions, matches), selected_any),
    ensures
        matches is Some && !pattern_valid ==> told == Err::<Vec<String>, BusError>(
            BusError::InvalidPattern,
        ) && any == Err::<bool, BusError>(BusError::InvalidPattern),
        matches is None || pattern_valid ==> {
            &&& told matches Ok(list)
            &&& list@.len() == texts@.len()
            &&& forall|i: int| 0 <= i < texts@.len() ==> (#[trigger] list@[i])@ == texts@[i]@
            &&& any == Ok::<bool, BusError>(selected_any)
        },
        matches is None ==> (selected_any <==> subscriptions@.len() > 0),
        matches matches Some(flags) ==> (selected_any <==> flags@.contains(true)),
{
    if let Ok(list) = told {
        let a = contents(list@);
        let b = contents(texts@);
        assert(a.len() == list@.len() && b.len() == texts@.len());
        assert forall|i: int| 0 <= i < texts@.len() implies (#[trigger] list@[i])@
            == texts@[i]@ by {
            assert(a[i] == list@[i]@);
            assert(b[i] == texts@[i]@);
        }
    }
    let chosen = flags_of(matches);
    match matches {
        None => {
            if subscriptions@.len() > 0 {
                assert(selected(chosen, 0));
            }
        },
        Some(given) => {
            if given@.contains(true) {
                let i = choose|i: int| 0 <= i < given@.len() && given@[i] == true;
                assert(selected(chosen, i));
            }
            if selected_any {
                let i = choose|i: int|
                    0 <= i < subscriptions@.len() && #[trigger] selected(chosen, i);
                assert(given@[i] == true);
            }
        },
    }
}

/// A handler is subscribed to a topic where one of the subscriptions has both; a text that is no
/// topic is refused.
pub proof fn handlers_are_subscribed_to_their_topics(
    bus: &PyMessageBus,
    subscriptions: &Vec<Subscription>,
    topic_valid: bool,
    topic: &str,
    handler_id: &str,
    r: Result<bool, BusError>,
    found: bool,
)
    requires
        call_ensures(
            PyMessageBus::py_is_subscribed,
            (bus, subscriptions, topic_valid, topic, handler_id),
            r,
        ),
        call_ensures(is_subscribed, (subscriptions, topic, handler_id), found),
    ensures
        !topic_valid ==> r == Err::<bool, BusError>(BusError::InvalidPattern),
        topic_valid ==> r == Ok::<bool, BusError>(found),
        found <==> exists|i: int|
            {
                &&& 0 <= i < subscriptions@.len()
                &&& (#[trigger] subscriptions@[i]).pattern@ == topic@
                &&& subscriptions@[i].handler_id@ == handler_id@
            },
{
    if exists|i: int|
        {
            &&& 0 <= i < subscriptions@.len()
            &&& (#[trigger] subscriptions@[i]).pattern@ == topic@
            &&& subscriptions@[i].handler_id@ == handler_id@
        } {
        assert(subscribed(subscriptions@, topic@, handler_id@));
    }
}

} // verus!
