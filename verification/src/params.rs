//! Named values that accompany an instrument.

use vstd::prelude::*;

use crate::text::text_eq;
use crate::wire::WireNumber;

verus! {

/// A named value.
#[derive(Debug, PartialEq, Eq)]
pub enum InfoValue {
    Null,
    Text(String),
    Number(WireNumber),
    Integer(i64),
    Object(Params),
}

/// The contents of an [`InfoValue`].
pub enum InfoView {
    Null,
    Text(Seq<char>),
    Number(WireNumber),
    Integer(i64),
    Object(Params),
}

impl View for InfoValue {
    type V = InfoView;

    open spec fn view(&self) -> InfoView {
        match self {
            InfoValue::Null => InfoView::Null,
            InfoValue::Text(text) => InfoView::Text(text@),
            InfoValue::Number(number) => InfoView::Number(*number),
            InfoValue::Integer(n) => InfoView::Integer(*n),
            InfoValue::Object(params) => InfoView::Object(*params),
        }
    }
}

/// A number as a named value: what is not finite has none.
pub open spec fn number_view(value: WireNumber) -> InfoView {
    if value.finite() {
        InfoView::Number(value)
    } else {
        InfoView::Null
    }
}

/// A number as a named value.
pub fn number_value(value: &WireNumber) -> (r: InfoValue)
    ensures
        r@ == number_view(*value),
{
    if value.is_finite() {
        InfoValue::Number(value.clone())
    } else {
        InfoValue::Null
    }
}

/// Values under distinct names.
#[derive(Debug, PartialEq, Eq)]
pub struct Params {
    entries: Vec<(String, InfoValue)>,
}

/// The map that a sequence of named values makes.
spec fn map_of(entries: Seq<(String, InfoValue)>) -> Map<Seq<char>, InfoView>
    decreases entries.len(),
{
    if entries.len() == 0 {
        Map::empty()
    } else {
        map_of(entries.drop_last()).insert(entries.last().0@, entries.last().1@)
    }
}

/// No two of the names are the same.
spec fn distinct(entries: Seq<(String, InfoValue)>) -> bool {
    forall|i: int, j: int|
        #![trigger entries[i], entries[j]]
        0 <= i < entries.len() && 0 <= j < entries.len() && i != j ==> entries[i].0@
            != entries[j].0@
}

proof fn map_holds_the_entries(entries: Seq<(String, InfoValue)>)
    requires
        distinct(entries),
    ensures
        forall|i: int|
            #![trigger entries[i]]
            0 <= i < entries.len() ==> map_of(entries).dom().contains(entries[i].0@) && map_of(
                entries,
            )[entries[i].0@] == entries[i].1@,
        forall|name: Seq<char>| #[trigger]
            map_of(entries).dom().contains(name) ==> exists|i: int|
                #![trigger entries[i]]
                0 <= i < entries.len() && entries[i].0@ == name,
    decreases entries.len(),
{
    if entries.len() > 0 {
        let before = entries.drop_last();
        assert forall|i: int, j: int|
            #![trigger before[i], before[j]]
            0 <= i < before.len() && 0 <= j < before.len() && i != j implies before[i].0@
            != before[j].0@ by {
            assert(entries[i].0@ != entries[j].0@);
        }
        map_holds_the_entries(before);
        let last = entries.len() - 1;
        assert forall|i: int|
            #![trigger entries[i]]
            0 <= i < entries.len() implies map_of(entries).dom().contains(entries[i].0@)
            && map_of(entries)[entries[i].0@] == entries[i].1@ by {
            if i < last {
                assert(before[i] == entries[i]);
                assert(entries[i].0@ != entries[last].0@);
            }
        }
        assert forall|name: Seq<char>| #[trigger]
            map_of(entries).dom().contains(name) implies exists|i: int|
            #![trigger entries[i]]
            0 <= i < entries.len() && entries[i].0@ == name by {
            if name == entries[last].0@ {
            } else {
                assert(map_of(before).dom().contains(name));
                let i = choose|i: int|
                    #![trigger before[i]]
                    0 <= i < before.len() && before[i].0@ == name;
                assert(entries[i].0@ == name);
            }
        }
    }
}

/// The named values are those of a map, each name once.
pub open spec fn lists(entries: Seq<(String, InfoValue)>, map: Map<Seq<char>, InfoView>) -> bool {
    &&& forall|i: int, j: int|
        #![trigger entries[i], entries[j]]
        0 <= i < j < entries.len() ==> entries[i].0@ != entries[j].0@
    &&& forall|i: int|
        #![trigger entries[i]]
        0 <= i < entries.len() ==> map.dom().contains(entries[i].0@) && map[entries[i].0@]
            == entries[i].1@
    &&& forall|name: Seq<char>| #[trigger]
        map.dom().contains(name) ==> exists|i: int|
            #![trigger entries[i]]
            0 <= i < entries.len() && entries[i].0@ == name
}

impl View for Params {
    type V = Map<Seq<char>, InfoView>;

    closed spec fn view(&self) -> Map<Seq<char>, InfoView> {
        map_of(self.entries@)
    }
}

impl Params {
    /// The names are distinct.
    pub closed spec fn wf(&self) -> bool {
        distinct(self.entries@)
    }

    /// No values.
    pub fn new() -> (r: Self)
        ensures
            r.wf(),
            r@ == Map::<Seq<char>, InfoView>::empty(),
    {
        Params { entries: Vec::new() }
    }

    /// The names with their values.
    pub fn entries(&self) -> (r: &Vec<(String, InfoValue)>)
        requires
            self.wf(),
        ensures
            lists(r@, self@),
    {
        proof {
            map_holds_the_entries(self.entries@);
        }
        &self.entries
    }

    fn position(&self, name: &str) -> (r: Option<usize>)
        ensures
            match r {
                Some(i) => i < self.entries@.len() && self.entries@[i as int].0@ == name@,
                None => forall|i: int|
                    0 <= i < self.entries@.len() ==> #[trigger] self.entries@[i].0@ != name@,
            },
    {
        let mut i: usize = 0;
        while i < self.entries.len()
            invariant
                i <= self.entries@.len(),
                forall|j: int| 0 <= j < i ==> #[trigger] self.entries@[j].0@ != name@,
            decreases self.entries.len() - i,
        {
            if text_eq(self.entries[i].0.as_str(), name) {
                return Some(i);
            }
            i += 1;
        }
        None
    }

    /// Holds a value under a name, in place of any earlier one.
    pub fn insert(&mut self, name: &str, value: InfoValue)
        requires
            old(self).wf(),
        ensures
            final(self).wf(),
            final(self)@ == old(self)@.insert(name@, value@),
    {
        let ghost before = self.entries@;
        proof {
            map_holds_the_entries(before);
        }
        match self.position(name) {
            Some(i) => {
                self.entries[i] = (name.to_owned(), value);
                proof {
                    let after = self.entries@;
                    assert forall|j: int, k: int|
                        #![trigger after[j], after[k]]
                        0 <= j < after.len() && 0 <= k < after.len() && j != k implies after[j].0@
                        != after[k].0@ by {
                        assert(before[j].0@ != before[k].0@);
                    }
                    map_holds_the_entries(after);
                    assert(after[i as int].0@ == name@);
                    let expected = map_of(before).insert(name@, value@);
                    assert forall|n: Seq<char>|
                        map_of(after).dom().contains(n) == expected.dom().contains(n) by {
                        if map_of(after).dom().contains(n) {
                            let j = choose|j: int|
                                #![trigger after[j]]
                                0 <= j < after.len() && after[j].0@ == n;
                            assert(before[j].0@ == n);
                        }
                        if map_of(before).dom().contains(n) {
                            let j = choose|j: int|
                                #![trigger before[j]]
                                0 <= j < before.len() && before[j].0@ == n;
                            assert(after[j].0@ == n);
                        }
                    }
                    assert forall|n: Seq<char>| map_of(after).dom().contains(n) implies map_of(
                        after,
                    )[n] == expected[n] by {
                        let j = choose|j: int|
                            #![trigger after[j]]
                            0 <= j < after.len() && after[j].0@ == n;
                        assert(map_of(after)[after[j].0@] == after[j].1@);
                        if j != i {
                            assert(before[j] == after[j]);
                            assert(after[j].0@ != after[i as int].0@);
                            assert(map_of(before)[before[j].0@] == before[j].1@);
                        }
                    }
                    assert(map_of(after) =~= expected);
                }
            },
            None => {
                self.entries.push((name.to_owned(), value));
                proof {
                    let after = self.entries@;
                    assert(after.drop_last() =~= before);
                    assert forall|j: int, k: int|
                        #![trigger after[j], after[k]]
                        0 <= j < after.len() && 0 <= k < after.len() && j != k implies after[j].0@
                        != after[k].0@ by {
                        if j < before.len() && k < before.len() {
                            assert(before[j].0@ != before[k].0@);
                        } else if j < before.len() {
                            assert(before[j].0@ != name@);
                        } else {
                            assert(before[k].0@ != name@);
                        }
                    }
                }
            },
        }
    }

    /// The value under a name.
    pub fn get(&self, name: &str) -> (r: Option<&InfoValue>)
        requires
            self.wf(),
        ensures
            match r {
                Some(value) => self@.dom().contains(name@) && self@[name@] == value@,
                None => !self@.dom().contains(name@),
            },
    {
        proof {
            map_holds_the_entries(self.entries@);
        }
        match self.position(name) {
            Some(i) => {
                assert(self.entries@[i as int].0@ == name@);
                Some(&self.entries[i].1)
            },
            None => None,
        }
    }
}

} // verus!
