//! The named values that an instrument carries from its contract.

use vstd::prelude::*;

use crate::contracts::ContractDetails;
use crate::decimal::{normalized_text, normalized_text_spec, ExactDecimal};
use crate::params::{InfoValue, InfoView, Params};
use crate::providers::min_quantity::EquityMinQuantity;

verus! {

/// The values of a contract: its fields and its price magnifier.
pub open spec fn contract_info(
    details: ContractDetails,
    contract_params: Params,
) -> Map<Seq<char>, InfoView> {
    Map::<Seq<char>, InfoView>::empty().insert(
        "contract"@,
        InfoView::Object(contract_params),
    ).insert("priceMagnifier"@, InfoView::Integer(details.price_magnifier as i64))
}

/// The values of a contract, given its fields.
pub fn ib_contract_info(details: &ContractDetails, contract_params: Params) -> (r: Params)
    ensures
        r.wf(),
        r@ == contract_info(*details, contract_params),
{
    let mut info = Params::new();
    info.insert("contract", InfoValue::Object(contract_params));
    info.insert("priceMagnifier", InfoValue::Integer(details.price_magnifier as i64));
    info
}

/// The values of a contract without trading rules: its fields.
pub open spec fn bag_info(contract_params: Params) -> Map<Seq<char>, InfoView> {
    Map::<Seq<char>, InfoView>::empty().insert("contract"@, InfoView::Object(contract_params))
}

/// The values of a contract without trading rules, given its fields.
pub fn ib_contract_info_for_contract(contract_params: Params) -> (r: Params)
    ensures
        r.wf(),
        r@ == bag_info(contract_params),
{
    let mut info = Params::new();
    info.insert("contract", InfoValue::Object(contract_params));
    info
}

/// An optional decimal as a named value: its text without trailing zeros.
pub open spec fn decimal_view(value: Option<ExactDecimal>) -> InfoView {
    match value {
        Some(d) => InfoView::Text(normalized_text_spec(d.mantissa as int, d.scale as nat)),
        None => InfoView::Null,
    }
}

/// The named values that a decision on a minimum quantity contributes.
pub open spec fn provenance_view(decision: EquityMinQuantity) -> Seq<(Seq<char>, InfoView)> {
    seq![
        ("minQuantityRawMinSize"@, decimal_view(decision.raw_min_size)),
        ("minQuantityRawSizeIncrement"@, decimal_view(decision.raw_size_increment)),
        ("minQuantityEffective"@, decimal_view(decision.effective)),
        ("minQuantitySystemIncrement"@, decimal_view(Some(decision.system_increment))),
        ("minQuantityNormalizationRule"@, InfoView::Text(decision.source.label())),
    ]
}

/// Every decimal of a decision can be written.
pub open spec fn writable(decision: EquityMinQuantity) -> bool {
    &&& decision.raw_min_size matches Some(d) ==> d.fits()
    &&& decision.raw_size_increment matches Some(d) ==> d.fits()
    &&& decision.effective matches Some(d) ==> d.fits()
    &&& decision.system_increment.fits()
}

fn decimal_value(value: Option<ExactDecimal>) -> (r: InfoValue)
    requires
        value matches Some(d) ==> d.fits(),
    ensures
        r@ == decimal_view(value),
{
    match value {
        Some(d) => InfoValue::Text(normalized_text(d)),
        None => InfoValue::Null,
    }
}

/// The contents of named values.
pub open spec fn entries_view(entries: Seq<(&'static str, InfoValue)>) -> Seq<
    (Seq<char>, InfoView),
> {
    entries.map_values(|e: (&'static str, InfoValue)| (e.0@, e.1@))
}

impl EquityMinQuantity {
    /// The named values that the decision contributes.
    pub fn provenance(&self) -> (r: Vec<(&'static str, InfoValue)>)
        requires
            writable(*self),
        ensures
            entries_view(r@) == provenance_view(*self),
    {
        let mut r: Vec<(&'static str, InfoValue)> = Vec::new();
        r.push(("minQuantityRawMinSize", decimal_value(self.raw_min_size)));
        r.push(("minQuantityRawSizeIncrement", decimal_value(self.raw_size_increment)));
        r.push(("minQuantityEffective", decimal_value(self.effective)));
        r.push(("minQuantitySystemIncrement", decimal_value(Some(self.system_increment))));
        r.push(
            (
                "minQuantityNormalizationRule",
                InfoValue::Text(self.source.as_str().to_owned()),
            ),
        );
        assert(entries_view(r@) =~= provenance_view(*self));
        r
    }
}

/// A map with further named values, the later of which win.
pub open spec fn with_entries(
    map: Map<Seq<char>, InfoView>,
    entries: Seq<(Seq<char>, InfoView)>,
) -> Map<Seq<char>, InfoView>
    decreases entries.len(),
{
    if entries.len() == 0 {
        map
    } else {
        with_entries(map, entries.drop_last()).insert(entries.last().0, entries.last().1)
    }
}

/// Adds named values.
pub fn insert_entries(info: &mut Params, entries: Vec<(&'static str, InfoValue)>)
    requires
        old(info).wf(),
    ensures
        final(info).wf(),
        final(info)@ == with_entries(old(info)@, entries_view(entries@)),
{
    let ghost start = info@;
    let ghost all = entries_view(entries@);
    assert(all.take(0) =~= Seq::empty());
    for entry in it: entries.into_iter()
        invariant
            entries_view(it.seq()) == all,
            info.wf(),
            info@ == with_entries(start, all.take(it.index() as int)),
    {
        proof {
            let k = it.index() as int;
            assert(all[k] == (entry.0@, entry.1@));
            assert(all.take(k + 1).drop_last() =~= all.take(k));
        }
        info.insert(entry.0, entry.1);
    }
    assert(all.take(all.len() as int) =~= all);
}

} // verus!
