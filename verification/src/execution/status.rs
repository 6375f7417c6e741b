//! Updates on working orders to reports.

use vstd::prelude::*;

use crate::decimal::ExactDecimal;
use crate::execution::identity::{
    client_identity, ib_venue_order_id, normalized_order_ref, should_use_avg_fill_price,
    usable_average, venue_order_id_text,
};
use crate::execution::pricing::{
    decimal_from_number, decimal_of, digits_of_number, exact_offsets_of, has_exact_offsets,
    offset_decimals_of, parse_ib_order_pricing_fields, pricing_of, scaled_price, PricingFields,
};
use crate::execution::vocabulary::{
    action_side, ib_status_of, map_ib_order_type, map_time_in_force, mapped_order_type,
    mapped_time_in_force, side_of_action, IbOrderStatus,
};
use crate::model::{
    InstrumentId, NautilusOrderStatus, OrderSide, OrderType, Price, Quantity, TimeInForce,
};
use crate::orders::{Order, OrderStatus};
use crate::reports::{InstrumentFacts, NumberField, OrderStatusReport};
use crate::wire::WireNumber;

verus! {

/// Where and for whom a report is made.
#[derive(Debug)]
pub struct ReportContext {
    pub instrument_id: InstrumentId,
    /// The configured account.
    pub account_id: String,
    pub instrument: InstrumentFacts,
    /// The time of the report in nanoseconds.
    pub ts_init: u64,
    /// A fresh identifier for the report.
    pub report_id: u128,
}

/// The part of a report that is one and the same for working and completed orders.
#[derive(Debug)]
pub struct OrderFacts<'a> {
    pub order_id: i32,
    pub perm_id: i64,
    /// The status as the broker worded it.
    pub raw_status: &'a str,
    /// The normalized status.
    pub status: NautilusOrderStatus,
    pub filled: &'a WireNumber,
    pub order: Option<&'a Order>,
    /// The average fill price, where it says something.
    pub avg_px: Option<ExactDecimal>,
}

/// The contents of [`OrderFacts`].
pub struct OrderFactsView {
    pub order_id: i32,
    pub perm_id: i64,
    pub raw_status: Seq<char>,
    pub status: NautilusOrderStatus,
    pub filled: WireNumber,
    pub order: Option<Order>,
    pub avg_px: Option<ExactDecimal>,
}

impl View for OrderFacts<'_> {
    type V = OrderFactsView;

    open spec fn view(&self) -> OrderFactsView {
        OrderFactsView {
            order_id: self.order_id,
            perm_id: self.perm_id,
            raw_status: self.raw_status@,
            status: self.status,
            filled: *self.filled,
            order: owned(self.order),
            avg_px: self.avg_px,
        }
    }
}

/// A reference that carries either no client identity or one that is not empty.
pub open spec fn usable_reference(order_ref: Seq<char>) -> bool {
    client_identity(order_ref) != Some(Seq::<char>::empty())
}

/// The status of a working order: partially filled while some of it is filled and some is not,
/// otherwise what the broker says, and submitted where the broker's word is not known.
pub open spec fn working_status(order_status: OrderStatus, order: Option<Order>) -> NautilusOrderStatus {
    if order_status.filled.positive() && (order_status.remaining.positive() || (order matches Some(
        order,
    ) && order_status.filled.below(&order.total_quantity))) {
        NautilusOrderStatus::PartiallyFilled
    } else {
        match ib_status_of(order_status.status.wire_text()) {
            Some(status) => status.normalized(),
            None => NautilusOrderStatus::Submitted,
        }
    }
}

/// The side of an order; a buy where the order is not known.
pub open spec fn side_of(order: Option<Order>) -> OrderSide {
    match order {
        Some(order) => action_side(order.action),
        None => OrderSide::Buy,
    }
}

/// The type of an order; a market order where the order is not known.
pub open spec fn type_of(order: Option<Order>) -> OrderType {
    match order {
        Some(order) => mapped_order_type(order.order_type@, order.limit_price),
        None => OrderType::Market,
    }
}

/// How long an order stays at work; a day where the order is not known.
pub open spec fn lifetime_of(order: Option<Order>) -> TimeInForce {
    match order {
        Some(order) => mapped_time_in_force(order.tif, order.good_till_date@),
        None => TimeInForce::Day,
    }
}

/// The pricing of an order; none where the order is not known.
pub open spec fn order_pricing(order: Option<Order>, instrument: InstrumentFacts) -> Result<
    PricingFields,
    NumberField,
> {
    match order {
        Some(order) => pricing_of(
            order,
            type_of(Some(order)),
            instrument.price_magnifier,
            instrument.price_precision_spec(),
            offset_decimals_of(order),
        ),
        None => Ok(
            PricingFields {
                trigger_price: None,
                limit_offset: None,
                trailing_offset: None,
                trailing_offset_type: None,
            },
        ),
    }
}

/// Every offset that an order has denotes a decimal digit for digit.
pub open spec fn has_exact_pricing(order: Option<Order>) -> bool {
    order matches Some(order) ==> has_exact_offsets(order)
}

/// The pricing of an order whose offsets are read digit for digit.
pub open spec fn exact_pricing(order: Option<Order>, instrument: InstrumentFacts) -> Result<
    PricingFields,
    NumberField,
> {
    match order {
        Some(order) => pricing_of(
            order,
            type_of(Some(order)),
            instrument.price_magnifier,
            instrument.price_precision_spec(),
            exact_offsets_of(order),
        ),
        None => order_pricing(None, instrument),
    }
}

/// The client identity of a report is the one that the order's reference carries.
pub open spec fn client_of(client_order_id: Option<String>, order: Option<Order>) -> bool {
    match (client_order_id, order) {
        (Some(id), Some(order)) => client_identity(order.order_ref@) == Some(id@),
        (None, Some(order)) => client_identity(order.order_ref@) is None,
        (Some(_), None) => false,
        (None, None) => true,
    }
}

/// The report on an order with the given pricing.
pub open spec fn is_order_report(
    report: OrderStatusReport,
    facts: OrderFactsView,
    pricing: PricingFields,
    context: ReportContext,
) -> bool {
    let order = facts.order;
    &&& report.account_id@ == context.account_id@
    &&& report.instrument_id == context.instrument_id
    &&& client_of(report.client_order_id, order)
    &&& report.venue_order_id@ == venue_order_id_text(facts.order_id, facts.perm_id)
    &&& report.order_side == side_of(order)
    &&& report.order_type == type_of(order)
    &&& report.time_in_force == lifetime_of(order)
    &&& report.order_status == facts.status
    &&& report.quantity == (match order {
        Some(order) => Quantity::Wire {
            value: order.total_quantity,
            precision: context.instrument.size_precision_spec(),
        },
        None => Quantity::Zero { precision: context.instrument.size_precision_spec() },
    })
    &&& report.filled_qty == (Quantity::Wire {
        value: facts.filled,
        precision: context.instrument.size_precision_spec(),
    })
    &&& report.ts_accepted == context.ts_init
    &&& report.ts_last == context.ts_init
    &&& report.ts_init == context.ts_init
    &&& report.report_id == context.report_id
    &&& (report.raw_order_status matches Some(raw) && raw@ == facts.raw_status)
    &&& report.price == (match order {
        Some(order) => scaled_price(
            order.limit_price,
            context.instrument.price_magnifier,
            context.instrument.price_precision_spec(),
        ),
        None => None,
    })
    &&& report.trigger_price == pricing.trigger_price
    &&& report.limit_offset == pricing.limit_offset
    &&& report.trailing_offset == pricing.trailing_offset
    &&& report.trailing_offset_type == pricing.trailing_offset_type
    &&& report.avg_px == facts.avg_px
}

/// The order behind an optional reference.
pub open spec fn owned(order: Option<&Order>) -> Option<Order> {
    match order {
        Some(order) => Some(*order),
        None => None,
    }
}

/// Makes the report on an order with the given pricing.
pub fn order_report_of(
    facts: &OrderFacts<'_>,
    pricing: PricingFields,
    context: &ReportContext,
) -> (report: OrderStatusReport)
    requires
        facts.order matches Some(order) ==> usable_reference(order.order_ref@),
    ensures
        is_order_report(report, facts@, pricing, *context),
{
    let size_precision: u8 = context.instrument.size_precision();
    let price_precision: u8 = context.instrument.price_precision();
    let (quantity, client_order_id, order_side, order_type, time_in_force, price): (
        Quantity,
        Option<String>,
        OrderSide,
        OrderType,
        TimeInForce,
        Option<Price>,
    ) = match facts.order {
        Some(order) => (
            Quantity::Wire { value: order.total_quantity.clone(), precision: size_precision },
            match normalized_order_ref(order.order_ref.as_str()) {
                Some(base) => Some(base.to_owned()),
                None => None,
            },
            side_of_action(order.action),
            map_ib_order_type(order.order_type.as_str(), &order.limit_price),
            map_time_in_force(order.tif, order.good_till_date.as_str()),
            match &order.limit_price {
                Some(limit_price) => Some(
                    Price {
                        native: limit_price.clone(),
                        magnifier: context.instrument.price_magnifier,
                        precision: price_precision,
                    },
                ),
                None => None,
            },
        ),
        None => (
            Quantity::Zero { precision: size_precision },
            None,
            OrderSide::Buy,
            OrderType::Market,
            TimeInForce::Day,
            None,
        ),
    };
    OrderStatusReport {
        account_id: context.account_id.clone(),
        instrument_id: context.instrument_id.clone(),
        client_order_id,
        venue_order_id: ib_venue_order_id(facts.order_id, facts.perm_id),
        order_side,
        order_type,
        time_in_force,
        order_status: facts.status,
        quantity,
        filled_qty: Quantity::Wire { value: facts.filled.clone(), precision: size_precision },
        ts_accepted: context.ts_init,
        ts_last: context.ts_init,
        ts_init: context.ts_init,
        report_id: context.report_id,
        raw_order_status: Some(facts.raw_status.to_owned()),
        price,
        trigger_price: pricing.trigger_price,
        limit_offset: pricing.limit_offset,
        trailing_offset: pricing.trailing_offset,
        trailing_offset_type: pricing.trailing_offset_type,
        avg_px: facts.avg_px,
    }
}

/// The pricing of an order, or none where the order is not known.
pub(crate) fn pricing_for(order: Option<&Order>, instrument: &InstrumentFacts) -> (r: Result<
    PricingFields,
    NumberField,
>)
    ensures
        r == order_pricing(owned(order), *instrument),
        has_exact_pricing(owned(order)) ==> r == exact_pricing(owned(order), *instrument),
{
    match order {
        Some(order) => {
            let order_type = map_ib_order_type(order.order_type.as_str(), &order.limit_price);
            parse_ib_order_pricing_fields(
                order,
                order_type,
                instrument.price_magnifier,
                instrument.price_precision(),
            )
        },
        None => Ok(
            PricingFields {
                trigger_price: None,
                limit_offset: None,
                trailing_offset: None,
                trailing_offset_type: None,
            },
        ),
    }
}

/// The status of a working order.
pub fn working_order_status(order_status: &OrderStatus, order: Option<&Order>) -> (r:
    NautilusOrderStatus)
    ensures
        r == working_status(*order_status, owned(order)),
{
    let below_total = match order {
        Some(order) => order_status.filled.is_below(&order.total_quantity),
        None => false,
    };
    if order_status.filled.is_positive() && (order_status.remaining.is_positive() || below_total) {
        return NautilusOrderStatus::PartiallyFilled;
    }
    match IbOrderStatus::from_str(order_status.status.as_str()) {
        Some(status) => status.nautilus_status(),
        None => NautilusOrderStatus::Submitted,
    }
}

/// The average fill price of an update says something.
pub open spec fn has_average(order_status: OrderStatus, instrument: InstrumentFacts) -> bool {
    order_status.average_fill_price matches Some(price) && usable_average(
        price,
        instrument.is_spread,
    )
}

/// What an update says of an order, given the decimal of its magnified average fill price.
pub open spec fn status_facts(
    order_status: OrderStatus,
    order: Option<Order>,
    average: Option<ExactDecimal>,
    instrument: InstrumentFacts,
) -> OrderFactsView {
    OrderFactsView {
        order_id: order_status.order_id,
        perm_id: order_status.perm_id,
        raw_status: order_status.status.wire_text(),
        status: working_status(order_status, order),
        filled: order_status.filled,
        order,
        avg_px: if has_average(order_status, instrument) {
            average
        } else {
            None
        },
    }
}

/// The outcome of an update, given the pricing of the order and the decimal of its magnified
/// average fill price: the pricing is needed first, then the decimal where the average says
/// something.
pub open spec fn is_status_outcome(
    outcome: Result<OrderStatusReport, NumberField>,
    order_status: OrderStatus,
    order: Option<Order>,
    pricing: Result<PricingFields, NumberField>,
    average: Option<ExactDecimal>,
    context: ReportContext,
) -> bool {
    match pricing {
        Err(field) => outcome == Err::<OrderStatusReport, NumberField>(field),
        Ok(pricing) => if has_average(order_status, context.instrument) && average is None {
            outcome == Err::<OrderStatusReport, NumberField>(NumberField::AverageFillPrice)
        } else {
            outcome matches Ok(report) && is_order_report(
                report,
                status_facts(order_status, order, average, context.instrument),
                pricing,
                context,
            )
        },
    }
}

/// Reports on an update, given the pricing of the order and the decimal of its magnified average
/// fill price.
pub fn status_report_of(
    order_status: &OrderStatus,
    order: Option<&Order>,
    pricing: Result<PricingFields, NumberField>,
    average: Option<ExactDecimal>,
    context: &ReportContext,
) -> (outcome: Result<OrderStatusReport, NumberField>)
    requires
        order matches Some(order) ==> usable_reference(order.order_ref@),
    ensures
        is_status_outcome(outcome, *order_status, owned(order), pricing, average, *context),
{
    let pricing = match pricing {
        Ok(pricing) => pricing,
        Err(field) => {
            return Err(field);
        },
    };
    let include_avg_px = match &order_status.average_fill_price {
        Some(price) => should_use_avg_fill_price(price, context.instrument.is_spread),
        None => false,
    };
    if include_avg_px && average.is_none() {
        return Err(NumberField::AverageFillPrice);
    }
    let facts = OrderFacts {
        order_id: order_status.order_id,
        perm_id: order_status.perm_id,
        raw_status: order_status.status.as_str(),
        status: working_order_status(order_status, order),
        filled: &order_status.filled,
        order,
        avg_px: if include_avg_px {
            average
        } else {
            None
        },
    };
    Ok(order_report_of(&facts, pricing, context))
}

/// Reports on an update of a working order.
///
/// `magnified_average` is the average fill price times the price magnifier of the instrument; it
/// is read only where the average fill price says something.
pub fn parse_order_status_to_report(
    order_status: &OrderStatus,
    order: Option<&Order>,
    magnified_average: &Option<WireNumber>,
    context: &ReportContext,
) -> (outcome: Result<OrderStatusReport, NumberField>)
    requires
        order matches Some(order) ==> usable_reference(order.order_ref@),
    ensures
        is_status_outcome(
            outcome,
            *order_status,
            owned(order),
            order_pricing(owned(order), context.instrument),
            decimal_of(*magnified_average),
            *context,
        ),
        has_exact_pricing(owned(order)) && (magnified_average is Some ==> digits_of_number(
            *magnified_average,
        ) is Some) ==> is_status_outcome(
            outcome,
            *order_status,
            owned(order),
            exact_pricing(owned(order), context.instrument),
            digits_of_number(*magnified_average),
            *context,
        ),
{
    let pricing = pricing_for(order, &context.instrument);
    let average = decimal_from_number(magnified_average);
    status_report_of(order_status, order, pricing, average, context)
}

/// The broker's own word for the status reaches the report unchanged, whether or not it is known.
pub proof fn raw_status_is_preserved(
    report: OrderStatusReport,
    order_status: OrderStatus,
    order: Option<Order>,
    pricing: Result<PricingFields, NumberField>,
    average: Option<ExactDecimal>,
    context: ReportContext,
)
    requires
        is_status_outcome(Ok(report), order_status, order, pricing, average, context),
    ensures
        report.raw_order_status matches Some(raw) && raw@ == order_status.status.wire_text(),
{
}

} // verus!
