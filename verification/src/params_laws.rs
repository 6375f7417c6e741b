//! What named values hold.

use vstd::prelude::*;

use crate::contracts::ContractDetails;
use crate::params::{InfoValue, InfoView, Params};
use crate::providers::info::{
    entries_view, ib_contract_info, ib_contract_info_for_contract, insert_entries, with_entries,
};
use crate::providers::instrument_laws::{contract_values, value_names_differ};

verus! {

/// A value that is held under a name is found under it, in place of any earlier one, and what is
/// held under other names stays; nothing is found where nothing is held.
pub proof fn values_are_found_under_their_name(
    empty: Params,
    inserting: &mut Params,
    before: Params,
    after: Params,
    name: &str,
    value: InfoValue,
    other: &str,
    in_empty: Option<&InfoValue>,
    found: Option<&InfoValue>,
    other_before: Option<&InfoValue>,
    other_after: Option<&InfoValue>,
)
    requires
        call_ensures(Params::new, (), empty),
        call_ensures(Params::get, (&empty, name), in_empty),
        *inserting == before,
        *final(inserting) == after,
        before.wf(),
        call_ensures(Params::insert, (inserting, name, value), ()),
        call_ensures(Params::get, (&after, name), found),
        call_ensures(Params::get, (&before, other), other_before),
        call_ensures(Params::get, (&after, other), other_after),
        other@ != name@,
    ensures
        in_empty is None,
        found matches Some(held) && held@ == value@,
        other_before is Some <==> other_after is Some,
        other_before is Some ==> other_before->0@ == other_after->0@,
        after.wf(),
{
}

/// The list of the names has every name that a value is found under, with that value, once.
pub proof fn lists_hold_what_is_found(
    params: &Params,
    entries: &Vec<(String, InfoValue)>,
    name: &str,
    found: Option<&InfoValue>,
)
    requires
        params.wf(),
        call_ensures(Params::entries, (params,), entries),
        call_ensures(Params::get, (params, name), found),
    ensures
        forall|i: int|
            0 <= i < entries@.len() && (#[trigger] entries@[i]).0@ == name@ ==> (
            found matches Some(value) && value@ == entries@[i].1@),
        forall|i: int, j: int|
            0 <= i < j < entries@.len() ==> (#[trigger] entries@[i]).0@ != (
            #[trigger] entries@[j]).0@,
        found is Some ==> exists|k: int|
            0 <= k < entries@.len() && (#[trigger] entries@[k]).0@ == name@,
{
}

/// A contract gives its fields and its price magnifier and nothing else; one without trading rules
/// gives its fields alone.
pub proof fn contracts_give_their_named_values(
    details: &ContractDetails,
    contract_params: Params,
    info: Params,
    bare: Params,
    name: &str,
    value: Option<&InfoValue>,
    bare_value: Option<&InfoValue>,
)
    requires
        call_ensures(ib_contract_info, (details, contract_params), info),
        call_ensures(ib_contract_info_for_contract, (contract_params,), bare),
        call_ensures(Params::get, (&info, name), value),
        call_ensures(Params::get, (&bare, name), bare_value),
    ensures
        contract_values(name@, value, *details, contract_params),
        name@ != "contract"@ && name@ != "priceMagnifier"@ ==> value is None,
        name@ == "contract"@ ==> (bare_value matches Some(InfoValue::Object(params)) && *params
            == contract_params),
        name@ != "contract"@ ==> bare_value is None,
{
    value_names_differ();
}

proof fn later_entries_win(
    map: Map<Seq<char>, InfoView>,
    entries: Seq<(Seq<char>, InfoView)>,
    name: Seq<char>,
    i: int,
)
    requires
        0 <= i < entries.len(),
        entries[i].0 == name,
        forall|j: int| i < j < entries.len() ==> (#[trigger] entries[j]).0 != name,
    ensures
        with_entries(map, entries).dom().contains(name),
        with_entries(map, entries)[name] == entries[i].1,
    decreases entries.len(),
{
    if i < entries.len() - 1 {
        let fewer = entries.drop_last();
        assert forall|j: int| i < j < fewer.len() implies (#[trigger] fewer[j]).0 != name by {
            assert(entries[j].0 != name);
        }
        later_entries_win(map, fewer, name, i);
        assert(entries[entries.len() - 1].0 != name);
    }
}

proof fn unnamed_entries_stay(
    map: Map<Seq<char>, InfoView>,
    entries: Seq<(Seq<char>, InfoView)>,
    name: Seq<char>,
)
    requires
        forall|j: int| 0 <= j < entries.len() ==> (#[trigger] entries[j]).0 != name,
    ensures
        with_entries(map, entries).dom().contains(name)
            == map.dom().contains(name),
        map.dom().contains(name) ==> with_entries(map, entries)[name]
            == map[name],
    decreases entries.len(),
{
    if entries.len() > 0 {
        let fewer = entries.drop_last();
        assert forall|j: int| 0 <= j < fewer.len() implies (#[trigger] fewer[j]).0 != name by {
            assert(entries[j].0 != name);
        }
        unnamed_entries_stay(map, fewer, name);
        assert(entries[entries.len() - 1].0 != name);
    }
}

/// Named values that are added are found, the last under each name, and what is held under other
/// names stays.
pub proof fn added_values_are_found(
    info: &mut Params,
    before: Params,
    after: Params,
    entries: Vec<(&'static str, InfoValue)>,
    i: int,
    name: &str,
    found: Option<&InfoValue>,
    other: &str,
    other_before: Option<&InfoValue>,
    other_after: Option<&InfoValue>,
)
    requires
        *info == before,
        *final(info) == after,
        before.wf(),
        call_ensures(insert_entries, (info, entries), ()),
        0 <= i < entries@.len(),
        entries@[i].0@ == name@,
        forall|j: int| i < j < entries@.len() ==> (#[trigger] entries@[j]).0@ != name@,
        call_ensures(Params::get, (&after, name), found),
        forall|j: int| 0 <= j < entries@.len() ==> (#[trigger] entries@[j]).0@ != other@,
        call_ensures(Params::get, (&before, other), other_before),
        call_ensures(Params::get, (&after, other), other_after),
    ensures
        found matches Some(value) && value@ == entries@[i].1@,
        other_before is Some <==> other_after is Some,
        other_before is Some ==> other_before->0@ == other_after->0@,
{
    let views = entries_view(entries@);
    assert forall|j: int| 0 <= j < views.len() implies (#[trigger] views[j]).0
        == entries@[j].0@ by {}
    later_entries_win(before@, views, name@, i);
    unnamed_entries_stay(before@, views, other@);
}

} // verus!
