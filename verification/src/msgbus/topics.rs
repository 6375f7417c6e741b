//! Lists of topics and subscriptions.

use vstd::prelude::*;

use crate::text::{chars_of, text_eq};

verus! {

/// A subscription.
#[derive(Debug)]
pub struct Subscription {
    pub pattern: String,
    pub handler_id: String,
}

/// `a` comes before `b` in the order of their characters.
pub open spec fn text_before(a: Seq<char>, b: Seq<char>) -> bool
    decreases a.len(),
{
    if b.len() == 0 {
        false
    } else if a.len() == 0 {
        true
    } else if a[0] != b[0] {
        a[0] < b[0]
    } else {
        text_before(a.drop_first(), b.drop_first())
    }
}

/// The order of texts is total.
proof fn text_order_is_total(a: Seq<char>, b: Seq<char>)
    ensures
        a == b || text_before(a, b) || text_before(b, a),
        !(text_before(a, b) && text_before(b, a)),
        !text_before(a, a),
    decreases a.len(),
{
    if a.len() > 0 {
        text_order_is_total(a.drop_first(), a.drop_first());
    }
    if a.len() == 0 && b.len() == 0 {
        assert(a =~= b);
    } else if a.len() > 0 && b.len() > 0 && a[0] == b[0] {
        text_order_is_total(a.drop_first(), b.drop_first());
        if a.drop_first() == b.drop_first() {
            assert(a =~= seq![a[0]] + a.drop_first());
            assert(b =~= seq![b[0]] + b.drop_first());
        }
    }
}

/// The order of texts is transitive.
proof fn text_order_is_transitive(a: Seq<char>, b: Seq<char>, c: Seq<char>)
    requires
        text_before(a, b),
        text_before(b, c),
    ensures
        text_before(a, c),
    decreases a.len(),
{
    if a.len() > 0 && b.len() > 0 && c.len() > 0 && a[0] == b[0] && b[0] == c[0] {
        text_order_is_transitive(a.drop_first(), b.drop_first(), c.drop_first());
    }
}

fn is_before(a: &str, b: &str) -> (r: bool)
    ensures
        r == text_before(a@, b@),
{
    let x = chars_of(a);
    let y = chars_of(b);
    let mut i: usize = 0;
    assert(a@.skip(0) =~= a@);
    assert(b@.skip(0) =~= b@);
    while i < x.len() && i < y.len()
        invariant
            x@ == a@,
            y@ == b@,
            i <= x.len(),
            i <= y.len(),
            text_before(a@, b@) == text_before(a@.skip(i as int), b@.skip(i as int)),
        decreases x.len() - i,
    {
        assert(a@.skip(i as int)[0] == a@[i as int]);
        assert(b@.skip(i as int)[0] == b@[i as int]);
        if x[i] != y[i] {
            return x[i] < y[i];
        }
        assert(a@.skip(i as int).drop_first() =~= a@.skip(i + 1));
        assert(b@.skip(i as int).drop_first() =~= b@.skip(i + 1));
        i += 1;
    }
    i < y.len()
}

/// Each text comes before the next; so none occurs twice.
pub open spec fn ascending(texts: Seq<String>) -> bool {
    forall|i: int, j: int|
        #![trigger texts[i], texts[j]]
        0 <= i < j < texts.len() ==> text_before(texts[i]@, texts[j]@)
}

/// A text occurs in a list.
pub open spec fn listed(texts: Seq<String>, text: Seq<char>) -> bool {
    exists|i: int| 0 <= i < texts.len() && (#[trigger] texts[i])@ == text
}

fn insert_ascending(texts: &mut Vec<String>, text: String)
    requires
        ascending(old(texts)@),
    ensures
        ascending(final(texts)@),
        forall|t: Seq<char>| #[trigger]
            listed(final(texts)@, t) <==> listed(old(texts)@, t) || t == text@,
{
    let ghost before = texts@;
    let mut i: usize = 0;
    while i < texts.len() && is_before(texts[i].as_str(), text.as_str())
        invariant
            texts@ == before,
            i <= texts@.len(),
            forall|j: int| 0 <= j < i ==> text_before((#[trigger] before[j])@, text@),
        decreases texts.len() - i,
    {
        i += 1;
    }
    if i < texts.len() && text_eq(texts[i].as_str(), text.as_str()) {
        assert(before[i as int]@ == text@);
        return;
    }
    texts.insert(i, text);
    proof {
        let after = texts@;
        if i < before.len() {
            text_order_is_total(before[i as int]@, text@);
        }
        assert forall|j: int| i <= j < before.len() implies text_before(
            text@,
            (#[trigger] before[j])@,
        ) by {
            if j > i {
                assert(text_before(before[i as int]@, before[j]@));
                text_order_is_transitive(text@, before[i as int]@, before[j]@);
            }
        }
        assert forall|j: int, k: int|
            #![trigger after[j], after[k]]
            0 <= j < k < after.len() implies text_before(after[j]@, after[k]@) by {
            if j < i {
                assert(after[j] == before[j]);
                if k < i {
                    assert(after[k] == before[k]);
                } else if k == i {
                } else {
                    assert(after[k] == before[k - 1]);
                    assert(text_before(before[j]@, before[k - 1]@));
                }
            } else {
                assert(after[k] == before[k - 1]);
                if j > i {
                    assert(after[j] == before[j - 1]);
                }
            }
        }
        assert forall|t: Seq<char>| #[trigger] listed(after, t) <==> listed(before, t) || t
            == text@ by {
            if listed(after, t) {
                let j = choose|j: int| 0 <= j < after.len() && (#[trigger] after[j])@ == t;
                if j < i {
                    assert(before[j]@ == t);
                } else if j > i {
                    assert(before[j - 1]@ == t);
                }
            }
            if listed(before, t) {
                let j = choose|j: int| 0 <= j < before.len() && (#[trigger] before[j])@ == t;
                if j < i {
                    assert(after[j]@ == t);
                } else {
                    assert(after[j + 1]@ == t);
                }
            }
            if t == text@ {
                assert(after[i as int]@ == t);
            }
        }
    }
}

/// The topics of the given patterns, in order and each once.
pub fn sorted_topics(patterns: Vec<String>) -> (r: Vec<String>)
    ensures
        ascending(r@),
        forall|t: Seq<char>| #[trigger] listed(r@, t) <==> listed(patterns@, t),
{
    let ghost all = patterns@;
    let mut topics: Vec<String> = Vec::new();
    for pattern in it: patterns.into_iter()
        invariant
            it.seq() == all,
            ascending(topics@),
            forall|t: Seq<char>| #[trigger]
                listed(topics@, t) <==> listed(all.take(it.index() as int), t),
    {
        let ghost k = it.index() as int;
        let ghost before = topics@;
        insert_ascending(&mut topics, pattern);
        proof {
            assert forall|t: Seq<char>| #[trigger] listed(topics@, t) <==> listed(
                all.take(k + 1),
                t,
            ) by {
                if listed(all.take(k), t) {
                    let j = choose|j: int|
                        0 <= j < all.take(k).len() && (#[trigger] all.take(k)[j])@ == t;
                    assert(all.take(k + 1)[j]@ == t);
                }
                if t == pattern@ {
                    assert(all.take(k + 1)[k]@ == t);
                }
                if listed(all.take(k + 1), t) {
                    let j = choose|j: int|
                        0 <= j < all.take(k + 1).len() && (#[trigger] all.take(k + 1)[j])@ == t;
                    if j < k {
                        assert(all.take(k)[j]@ == t);
                    }
                }
                assert(listed(before, t) <==> listed(all.take(k), t));
            }
        }
    }
    assert(all.take(all.len() as int) =~= all);
    topics
}

/// Two lists of topics in order and without repetition that hold the same texts are the same: the
/// list of topics is determined by the patterns.
pub proof fn sorted_topics_are_determined(a: Seq<String>, b: Seq<String>)
    requires
        ascending(a),
        ascending(b),
        forall|t: Seq<char>| #[trigger] listed(a, t) <==> listed(b, t),
    ensures
        a.len() == b.len(),
        forall|i: int| 0 <= i < a.len() ==> (#[trigger] a[i])@ == b[i]@,
    decreases a.len(),
{
    if a.len() == 0 || b.len() == 0 {
        if b.len() > 0 {
            assert(listed(b, b[0]@));
            assert(listed(a, b[0]@));
        }
        if a.len() > 0 {
            assert(listed(a, a[0]@));
            assert(listed(b, a[0]@));
        }
    } else {
        let x = a.last()@;
        let y = b.last()@;
        assert(a[a.len() - 1]@ == x);
        assert(b[b.len() - 1]@ == y);
        assert(listed(a, x));
        assert(listed(b, y));
        assert(listed(b, x));
        assert(listed(a, y));
        let i = choose|i: int| 0 <= i < b.len() && (#[trigger] b[i])@ == x;
        let j = choose|j: int| 0 <= j < a.len() && (#[trigger] a[j])@ == y;
        text_order_is_total(x, y);
        assert(x == y) by {
            if i < b.len() - 1 {
                assert(text_before(b[i]@, b[b.len() - 1]@));
                if j < a.len() - 1 {
                    assert(text_before(a[j]@, a[a.len() - 1]@));
                }
            }
        }
        let a1 = a.drop_last();
        let b1 = b.drop_last();
        assert forall|t: Seq<char>| #[trigger] listed(a1, t) <==> listed(b1, t) by {
            if listed(a1, t) {
                let k = choose|k: int| 0 <= k < a1.len() && (#[trigger] a1[k])@ == t;
                assert(a[k]@ == t);
                assert(text_before(a[k]@, a[a.len() - 1]@));
                text_order_is_total(t, x);
                assert(listed(a, t));
                assert(listed(b, t));
                let m = choose|m: int| 0 <= m < b.len() && (#[trigger] b[m])@ == t;
                assert(b1[m]@ == t);
            }
            if listed(b1, t) {
                let k = choose|k: int| 0 <= k < b1.len() && (#[trigger] b1[k])@ == t;
                assert(b[k]@ == t);
                assert(text_before(b[k]@, b[b.len() - 1]@));
                text_order_is_total(t, y);
                assert(listed(b, t));
                assert(listed(a, t));
                let m = choose|m: int| 0 <= m < a.len() && (#[trigger] a[m])@ == t;
                assert(a1[m]@ == t);
            }
        }
        assert forall|k: int, m: int|
            #![trigger a1[k], a1[m]]
            0 <= k < m < a1.len() implies text_before(a1[k]@, a1[m]@) by {
            assert(text_before(a[k]@, a[m]@));
        }
        assert forall|k: int, m: int|
            #![trigger b1[k], b1[m]]
            0 <= k < m < b1.len() implies text_before(b1[k]@, b1[m]@) by {
            assert(text_before(b[k]@, b[m]@));
        }
        sorted_topics_are_determined(a1, b1);
        assert forall|k: int| 0 <= k < a.len() implies (#[trigger] a[k])@ == b[k]@ by {
            if k < a1.len() {
                assert(a1[k]@ == b1[k]@);
            }
        }
    }
}

/// The text of a subscription.
pub open spec fn subscription_text(subscription: Subscription) -> Seq<char> {
    "Subscription(topic="@ + subscription.pattern@ + ", handler="@ + subscription.handler_id@
        + ")"@
}

/// Whether a subscription is selected: all of them without flags, and otherwise those whose flag
/// is set.
pub open spec fn selected(matches: Option<Seq<bool>>, i: int) -> bool {
    match matches {
        Some(flags) => flags[i],
        None => true,
    }
}

/// The texts of the selected ones of the first `n` subscriptions.
pub open spec fn selected_texts(
    subscriptions: Seq<Subscription>,
    matches: Option<Seq<bool>>,
    n: int,
) -> Seq<Seq<char>>
    decreases n,
{
    if n <= 0 {
        Seq::empty()
    } else if selected(matches, n - 1) {
        selected_texts(subscriptions, matches, n - 1).push(
            subscription_text(subscriptions[n - 1]),
        )
    } else {
        selected_texts(subscriptions, matches, n - 1)
    }
}

/// The contents of texts.
pub open spec fn contents(texts: Seq<String>) -> Seq<Seq<char>> {
    texts.map_values(|t: String| t@)
}

/// The flags behind an optional reference.
pub open spec fn flags_of(matches: Option<&Vec<bool>>) -> Option<Seq<bool>> {
    match matches {
        Some(flags) => Some(flags@),
        None => None,
    }
}

fn subscription_repr(subscription: &Subscription) -> (r: String)
    ensures
        r@ == subscription_text(*subscription),
{
    "Subscription(topic=".to_owned().concat(subscription.pattern.as_str()).concat(
        ", handler=",
    ).concat(subscription.handler_id.as_str()).concat(")")
}

fn is_selected(matches: Option<&Vec<bool>>, i: usize) -> (r: bool)
    requires
        matches matches Some(flags) ==> i < flags@.len(),
    ensures
        r == selected(flags_of(matches), i as int),
{
    match matches {
        Some(flags) => flags[i],
        None => true,
    }
}

/// The texts of subscriptions. `matches` says of each whether it matches the pattern that was
/// asked for, where one was.
pub fn subscription_texts(
    subscriptions: &Vec<Subscription>,
    matches: Option<&Vec<bool>>,
) -> (r: Vec<String>)
    requires
        matches matches Some(flags) ==> flags@.len() == subscriptions@.len(),
    ensures
        contents(r@) == selected_texts(
            subscriptions@,
            flags_of(matches),
            subscriptions@.len() as int,
        ),
{
    let mut texts: Vec<String> = Vec::new();
    let mut i: usize = 0;
    assert(contents(texts@) =~= Seq::empty());
    while i < subscriptions.len()
        invariant
            matches matches Some(flags) ==> flags@.len() == subscriptions@.len(),
            i <= subscriptions@.len(),
            contents(texts@) == selected_texts(subscriptions@, flags_of(matches), i as int),
        decreases subscriptions.len() - i,
    {
        if is_selected(matches, i) {
            let ghost before = texts@;
            let text = subscription_repr(&subscriptions[i]);
            texts.push(text);
            assert(contents(texts@) =~= contents(before).push(text@));
        }
        i += 1;
    }
    texts
}

/// Whether any subscription is selected.
pub fn any_selected(
    subscriptions: &Vec<Subscription>,
    matches: Option<&Vec<bool>>,
) -> (r: bool)
    requires
        matches matches Some(flags) ==> flags@.len() == subscriptions@.len(),
    ensures
        r <==> exists|i: int|
            0 <= i < subscriptions@.len() && #[trigger] selected(flags_of(matches), i),
{
    let mut i: usize = 0;
    while i < subscriptions.len()
        invariant
            matches matches Some(flags) ==> flags@.len() == subscriptions@.len(),
            i <= subscriptions@.len(),
            forall|j: int| 0 <= j < i ==> !#[trigger] selected(flags_of(matches), j),
        decreases subscriptions.len() - i,
    {
        if is_selected(matches, i) {
            return true;
        }
        i += 1;
    }
    false
}

/// A handler is subscribed to a pattern.
pub open spec fn subscribed(
    subscriptions: Seq<Subscription>,
    pattern: Seq<char>,
    handler_id: Seq<char>,
) -> bool {
    exists|i: int|
        0 <= i < subscriptions.len() && (#[trigger] subscriptions[i]).pattern@ == pattern
            && subscriptions[i].handler_id@ == handler_id
}

/// Whether a handler is subscribed to a pattern.
pub fn is_subscribed(
    subscriptions: &Vec<Subscription>,
    pattern: &str,
    handler_id: &str,
) -> (r: bool)
    ensures
        r == subscribed(subscriptions@, pattern@, handler_id@),
{
    let mut i: usize = 0;
    while i < subscriptions.len()
        invariant
            i <= subscriptions@.len(),
            forall|j: int|
                0 <= j < i ==> !((#[trigger] subscriptions@[j]).pattern@ == pattern@
                    && subscriptions@[j].handler_id@ == handler_id@),
        decreases subscriptions.len() - i,
    {
        if text_eq(subscriptions[i].pattern.as_str(), pattern) && text_eq(
            subscriptions[i].handler_id.as_str(),
            handler_id,
        ) {
            assert(subscriptions@[i as int].pattern@ == pattern@);
            return true;
        }
        i += 1;
    }
    false
}

} // verus!
