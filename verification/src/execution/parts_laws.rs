//! What a report says of the parts that it is given ready made: the pricing of its order, its
//! average price and its time.

use vstd::prelude::*;

use crate::decimal::ExactDecimal;
use crate::execution::completed::{
    completed_report_of, parse_completed_order_to_report, CompletedOrderError, RefusalReason,
};
use crate::execution::fill::{fill_report_of, Commission, FillError};
use crate::execution::identity_laws::{
    identifies, references_carry_their_client, says_something, venue_texts_identify,
};
use crate::execution::pricing::{
    parse_ib_order_pricing_fields, pricing_fields_of, OffsetDecimals, PricingFields,
};
use crate::execution::report_laws::{
    client_from, evidence_against, offsets_spell, order_types_are_told, priced,
    references_without_a_client, sized, spelled_offsets_are_exact, tells_of_the_context,
    tells_of_the_order,
};
use crate::execution::status::{
    order_report_of, parse_order_status_to_report, status_report_of, working_order_status,
    OrderFacts, ReportContext,
};
use crate::execution::time::ExecutionTimeError;
use crate::execution::vocabulary_laws::{
    known_type_word, means, status_words_are_distinct, type_word, type_words_differ,
};
use crate::model::{
    LiquiditySide, NautilusOrderStatus, OrderSide, OrderType, Price, Quantity, TimeInForce,
    TrailingOffsetType,
};
use crate::orders::{Execution, ExecutionSide, Order, OrderData, OrderStatus};
use crate::orders_laws::worded;
use crate::reports::{FillReport, InstrumentFacts, NumberField, OrderStatusReport};
use crate::wire::WireNumber;

verus! {

/// A report has the pricing that it was given.
pub open spec fn has_pricing(report: OrderStatusReport, pricing: PricingFields) -> bool {
    &&& report.trigger_price == pricing.trigger_price
    &&& report.limit_offset == pricing.limit_offset
    &&& report.trailing_offset == pricing.trailing_offset
    &&& report.trailing_offset_type == pricing.trailing_offset_type
}

/// What a report says of an order that is not known: nothing but the defaults.
pub open spec fn tells_of_no_order(report: OrderStatusReport, context: ReportContext) -> bool {
    &&& report.client_order_id is None
    &&& report.order_side == OrderSide::Buy
    &&& report.order_type == OrderType::Market
    &&& report.time_in_force == TimeInForce::Day
    &&& report.price is None
    &&& report.quantity matches Quantity::Zero { precision } && match context.instrument.precisions {
        Some(precisions) => precision == precisions.size,
        None => precision == 0,
    }
}

/// An instrument that is known has its two precisions, and one that is not has none.
pub proof fn instruments_have_their_precisions(
    instrument: &InstrumentFacts,
    size: u8,
    price: u8,
)
    requires
        call_ensures(InstrumentFacts::size_precision, (instrument,), size),
        call_ensures(InstrumentFacts::price_precision, (instrument,), price),
    ensures
        instrument.precisions matches Some(p) ==> size == p.size && price == p.price,
        instrument.precisions is None ==> size == 0 && price == 0,
{
}

/// The report on an order says what is known of it, and has the pricing and the average price that
/// it was given.
pub proof fn order_reports_say_what_is_known(
    facts: &OrderFacts<'_>,
    pricing: PricingFields,
    context: &ReportContext,
    report: OrderStatusReport,
)
    requires
        call_ensures(order_report_of, (facts, pricing, context), report),
    ensures
        tells_of_the_context(report, *context),
        identifies(report.venue_order_id@, facts.order_id, facts.perm_id),
        report.raw_order_status matches Some(raw) && raw@ == facts.raw_status@,
        report.order_status == facts.status,
        sized(report.filled_qty, *facts.filled, *context),
        report.avg_px == facts.avg_px,
        has_pricing(report, pricing),
        match facts.order {
            Some(order) => tells_of_the_order(report, *order, *context),
            None => tells_of_no_order(report, *context),
        },
{
    venue_texts_identify(facts.order_id, facts.perm_id);
    if let Some(order) = facts.order {
        references_carry_their_client(order.order_ref@);
        order_types_are_told(order.order_type@);
    }
}

/// An update is reported with the pricing that it is given and, where its average price says
/// something, the average that it is given; it is refused for a pricing that was, and then for an
/// average that is needed and not given.
pub proof fn updates_are_reported_with_their_pricing(
    order_status: &OrderStatus,
    order: Option<&Order>,
    pricing: Result<PricingFields, NumberField>,
    average: Option<ExactDecimal>,
    context: &ReportContext,
    outcome: Result<OrderStatusReport, NumberField>,
    status: NautilusOrderStatus,
)
    requires
        call_ensures(
            status_report_of,
            (order_status, order, pricing, average, context),
            outcome,
        ),
        call_ensures(working_order_status, (order_status, order), status),
    ensures
        ({
            let needed = order_status.average_fill_price matches Some(price) && says_something(
                price,
                context.instrument.is_spread,
            );
            match pricing {
                Err(field) => outcome == Err::<OrderStatusReport, NumberField>(field),
                Ok(pricing) => if needed && average is None {
                    outcome == Err::<OrderStatusReport, NumberField>(NumberField::AverageFillPrice)
                } else {
                    &&& outcome matches Ok(report)
                    &&& has_pricing(report, pricing)
                    &&& report.avg_px == (if needed {
                        average
                    } else {
                        None
                    })
                    &&& report.order_status == status
                    &&& tells_of_the_context(report, *context)
                    &&& identifies(
                        report.venue_order_id@,
                        order_status.order_id,
                        order_status.perm_id,
                    )
                    &&& report.raw_order_status matches Some(raw) && worded(
                        order_status.status,
                        raw@,
                    )
                    &&& sized(report.filled_qty, order_status.filled, *context)
                    &&& match order {
                        Some(order) => tells_of_the_order(report, *order, *context),
                        None => tells_of_no_order(report, *context),
                    }
                },
            }
        }),
{
    venue_texts_identify(order_status.order_id, order_status.perm_id);
    if let Some(order) = order {
        references_carry_their_client(order.order_ref@);
        order_types_are_told(order.order_type@);
    }
}

/// A completed record is refused for the first thing that speaks against it and then for a pricing
/// that was refused; otherwise it is reported with the pricing that it is given.
pub proof fn records_are_reported_with_their_pricing(
    data: &OrderData,
    raw_account: &str,
    pricing: Result<PricingFields, NumberField>,
    context: &ReportContext,
    outcome: Result<OrderStatusReport, CompletedOrderError>,
    word: Seq<char>,
)
    requires
        call_ensures(completed_report_of, (data, raw_account, pricing, context), outcome),
        worded(data.order_state.status, word),
    ensures
        match outcome {
            Err(error) => {
                &&& evidence_against(*data, raw_account@, word, error.reason)
                &&& error.reason is Number <==> evidence_against(
                    *data,
                    raw_account@,
                    word,
                    RefusalReason::Number(NumberField::AuxPrice),
                )
                &&& error.reason matches RefusalReason::Number(field) ==> (pricing matches Err(
                    refused,
                ) && field == refused)
                &&& error.perm_id == data.order.perm_id
                &&& error.raw_status@ == word
            },
            Ok(report) => {
                &&& evidence_against(
                    *data,
                    raw_account@,
                    word,
                    RefusalReason::Number(NumberField::AuxPrice),
                )
                &&& pricing matches Ok(pricing)
                &&& has_pricing(report, pricing)
                &&& report.avg_px is None
                &&& means(word, report.order_status)
                &&& report.raw_order_status matches Some(raw) && raw@ == word
                &&& identifies(report.venue_order_id@, data.order_id, data.order.perm_id)
                &&& sized(report.filled_qty, data.order.filled_quantity, *context)
                &&& tells_of_the_context(report, *context)
                &&& tells_of_the_order(report, data.order, *context)
            },
        },
{
    venue_texts_identify(data.order_id, data.order.perm_id);
    references_carry_their_client(data.order.order_ref@);
    references_without_a_client(data.order.order_ref@);
    order_types_are_told(data.order.order_type@);
    status_words_are_distinct();
}

/// A fill is reported at the time that it is given, and refused for a time that was; before that it
/// is refused for an instrument and then for a currency that is not known.
pub proof fn fills_are_reported_at_their_time(
    execution: &Execution,
    commission: &Commission<'_>,
    time: Result<u64, ExecutionTimeError>,
    avg_px: Option<ExactDecimal>,
    context: &ReportContext,
    outcome: Result<FillReport, FillError>,
)
    requires
        call_ensures(fill_report_of, (execution, commission, time, avg_px, context), outcome),
    ensures
        if context.instrument.precisions is None {
            outcome == Err::<FillReport, FillError>(FillError::InstrumentNotFound)
        } else if !commission.currency_known {
            outcome == Err::<FillReport, FillError>(FillError::UnknownCurrency)
        } else {
            match time {
                Err(error) => outcome == Err::<FillReport, FillError>(FillError::Time(error)),
                Ok(instant) => {
                    &&& outcome matches Ok(report)
                    &&& report.ts_event == instant
                    &&& report.account_id@ == context.account_id@
                    &&& report.instrument_id == context.instrument_id
                    &&& identifies(report.venue_order_id@, execution.order_id, execution.perm_id)
                    &&& report.trade_id@ == execution.execution_id@
                    &&& report.order_side == OrderSide::Buy <==> execution.side
                        == ExecutionSide::Bought
                    &&& sized(report.last_qty, execution.shares, *context)
                    &&& priced(Some(report.last_px), Some(execution.price), *context)
                    &&& report.commission.currency@ == commission.currency@
                    &&& report.commission.amount == (if commission.amount.bits
                        == 0xBFF0_0000_0000_0000 {
                        None
                    } else {
                        Some(*commission.amount)
                    })
                    &&& report.liquidity_side == LiquiditySide::NoLiquiditySide
                    &&& client_from(report.client_order_id, execution.order_reference@)
                    &&& report.ts_init == context.ts_init
                    &&& report.report_id == context.report_id
                    &&& report.avg_px == avg_px
                },
            }
        },
{
    venue_texts_identify(execution.order_id, execution.perm_id);
    references_carry_their_client(execution.order_reference@);
}

/// A price is the broker's own number with the magnifier and the precision that it was given.
pub open spec fn is_priced(
    price: Option<Price>,
    native: Option<WireNumber>,
    magnifier: i32,
    precision: u8,
) -> bool {
    match (price, native) {
        (Some(price), Some(native)) => price.native == native && price.magnifier == magnifier
            && price.precision == precision,
        (None, None) => true,
        _ => false,
    }
}

/// An order type trails the market.
pub open spec fn is_trailing(order_type: OrderType) -> bool {
    order_type == OrderType::TrailingStopMarket || order_type == OrderType::TrailingStopLimit
}

/// The pricing of an order that trails nothing is its auxiliary price as a trigger. That of a
/// trailing one is its stop price as a trigger, what it trails by (the auxiliary price, or else the
/// basis points of its percentage) and, for a limit order, the offset of its limit; it is refused
/// for the first of these that it has and that has no decimal.
pub open spec fn is_pricing(
    outcome: Result<PricingFields, NumberField>,
    order: Order,
    order_type: OrderType,
    magnifier: i32,
    precision: u8,
    decimals: OffsetDecimals,
) -> bool {
    let by_price = order.aux_price is Some;
    let by_percent = !by_price && order.trailing_percent is Some;
    let limited = order_type == OrderType::TrailingStopLimit && order.limit_price_offset is Some;
    if !is_trailing(order_type) {
        &&& outcome matches Ok(pricing)
        &&& is_priced(pricing.trigger_price, order.aux_price, magnifier, precision)
        &&& pricing.limit_offset is None && pricing.trailing_offset is None
        &&& pricing.trailing_offset_type is None
    } else if by_price && decimals.aux_price is None {
        outcome == Err::<PricingFields, NumberField>(NumberField::AuxPrice)
    } else if by_percent && decimals.basis_points is None {
        outcome == Err::<PricingFields, NumberField>(NumberField::TrailingPercent)
    } else if limited && decimals.limit_price_offset is None {
        outcome == Err::<PricingFields, NumberField>(NumberField::LimitPriceOffset)
    } else {
        &&& outcome matches Ok(pricing)
        &&& is_priced(pricing.trigger_price, order.trail_stop_price, magnifier, precision)
        &&& by_price ==> pricing.trailing_offset == decimals.aux_price
            && pricing.trailing_offset_type == Some(TrailingOffsetType::Price)
        &&& by_percent ==> pricing.trailing_offset == decimals.basis_points
            && pricing.trailing_offset_type == Some(TrailingOffsetType::BasisPoints)
        &&& !by_price && !by_percent ==> pricing.trailing_offset is None
            && pricing.trailing_offset_type == (if limited {
            Some(TrailingOffsetType::Price)
        } else {
            None
        })
        &&& pricing.limit_offset == (if limited {
            decimals.limit_price_offset
        } else {
            None
        })
    }
}

/// The pricing of an order has the decimals that it is given.
pub proof fn pricings_have_their_decimals(
    order: &Order,
    order_type: OrderType,
    magnifier: i32,
    precision: u8,
    decimals: OffsetDecimals,
    outcome: Result<PricingFields, NumberField>,
)
    requires
        call_ensures(
            pricing_fields_of,
            (order, order_type, magnifier, precision, decimals),
            outcome,
        ),
    ensures
        is_pricing(outcome, *order, order_type, magnifier, precision, decimals),
{
}

/// The pricing of an order whose offsets are spelled out has the decimals that they spell; a
/// percentage comes to a hundred times as many basis points.
pub proof fn pricings_have_what_is_spelled(
    order: &Order,
    order_type: OrderType,
    magnifier: i32,
    precision: u8,
    outcome: Result<PricingFields, NumberField>,
    aux: ExactDecimal,
    percent: ExactDecimal,
    limit: ExactDecimal,
)
    requires
        call_ensures(
            parse_ib_order_pricing_fields,
            (order, order_type, magnifier, precision),
            outcome,
        ),
        offsets_spell(*order, aux, percent, limit),
    ensures
        is_pricing(
            outcome,
            *order,
            order_type,
            magnifier,
            precision,
            OffsetDecimals {
                aux_price: Some(aux),
                basis_points: Some(
                    ExactDecimal {
                        mantissa: (100 * percent.mantissa) as i128,
                        scale: if percent.mantissa == 0 {
                            0
                        } else {
                            percent.scale
                        },
                    },
                ),
                limit_price_offset: Some(limit),
            },
        ),
{
    spelled_offsets_are_exact(*order, aux, percent, limit);
}

/// Whatever its numbers are, an order is reported with the pricing that it has, and refused where
/// that is; beyond that it is refused for its average price alone.
pub proof fn orders_are_reported_with_the_pricing_they_have(
    order_status: &OrderStatus,
    order: &Order,
    magnified_average: &Option<WireNumber>,
    context: &ReportContext,
    outcome: Result<OrderStatusReport, NumberField>,
    order_type: OrderType,
    precision: u8,
    pricing: Result<PricingFields, NumberField>,
)
    requires
        call_ensures(
            parse_order_status_to_report,
            (order_status, Some(order), magnified_average, context),
            outcome,
        ),
        call_ensures(InstrumentFacts::price_precision, (&context.instrument,), precision),
        known_type_word(order.order_type@) && type_word(order.order_type@, order_type),
        call_ensures(
            parse_ib_order_pricing_fields,
            (order, order_type, context.instrument.price_magnifier, precision),
            pricing,
        ),
    ensures
        pricing matches Err(field) ==> outcome == Err::<OrderStatusReport, NumberField>(field),
        pricing matches Ok(fields) ==> match outcome {
            Ok(report) => has_pricing(report, fields) && report.order_type == order_type,
            Err(field) => field == NumberField::AverageFillPrice,
        },
{
    order_types_are_told(order.order_type@);
    type_words_differ();
}

/// Whatever its numbers are, a completed record that nothing speaks against is reported with the
/// pricing that its order has, and refused where that is.
pub proof fn records_are_reported_with_the_pricing_they_have(
    data: &OrderData,
    raw_account: &str,
    context: &ReportContext,
    outcome: Result<OrderStatusReport, CompletedOrderError>,
    word: Seq<char>,
    order_type: OrderType,
    precision: u8,
    pricing: Result<PricingFields, NumberField>,
)
    requires
        call_ensures(parse_completed_order_to_report, (data, raw_account, context), outcome),
        worded(data.order_state.status, word),
        evidence_against(
            *data,
            raw_account@,
            word,
            RefusalReason::Number(NumberField::AuxPrice),
        ),
        call_ensures(InstrumentFacts::price_precision, (&context.instrument,), precision),
        known_type_word(data.order.order_type@) && type_word(data.order.order_type@, order_type),
        call_ensures(
            parse_ib_order_pricing_fields,
            (&data.order, order_type, context.instrument.price_magnifier, precision),
            pricing,
        ),
    ensures
        match pricing {
            Err(field) => outcome matches Err(error) && error.reason == RefusalReason::Number(field),
            Ok(fields) => outcome matches Ok(report) && has_pricing(report, fields),
        },
{
    order_types_are_told(data.order.order_type@);
    type_words_differ();
    references_without_a_client(data.order.order_ref@);
    status_words_are_distinct();
}

/// The average price of a report rests on the magnified average alone: two updates with the same
/// one have the same average price, where they have any.
pub proof fn averages_rest_on_the_magnified_average(
    order_status: &OrderStatus,
    other_status: &OrderStatus,
    order: Option<&Order>,
    other_order: Option<&Order>,
    magnified_average: &Option<WireNumber>,
    context: &ReportContext,
    other_context: &ReportContext,
    report: OrderStatusReport,
    other: OrderStatusReport,
)
    requires
        call_ensures(
            parse_order_status_to_report,
            (order_status, order, magnified_average, context),
            Ok::<OrderStatusReport, NumberField>(report),
        ),
        call_ensures(
            parse_order_status_to_report,
            (other_status, other_order, magnified_average, other_context),
            Ok::<OrderStatusReport, NumberField>(other),
        ),
    ensures
        report.avg_px is Some && other.avg_px is Some ==> report.avg_px == other.avg_px,
{
}

/// The offset that an order trails by in price units rests on its auxiliary price alone, that in
/// basis points on its percentage and that of its limit on its own number.
pub proof fn offsets_rest_on_their_numbers(
    order: &Order,
    other: &Order,
    magnifier: i32,
    other_magnifier: i32,
    precision: u8,
    other_precision: u8,
    pricing: PricingFields,
    other_pricing: PricingFields,
)
    requires
        call_ensures(
            parse_ib_order_pricing_fields,
            (order, OrderType::TrailingStopLimit, magnifier, precision),
            Ok::<PricingFields, NumberField>(pricing),
        ),
        call_ensures(
            parse_ib_order_pricing_fields,
            (other, OrderType::TrailingStopLimit, other_magnifier, other_precision),
            Ok::<PricingFields, NumberField>(other_pricing),
        ),
    ensures
        order.aux_price is Some && order.aux_price == other.aux_price ==> pricing.trailing_offset
            == other_pricing.trailing_offset,
        order.aux_price is None && other.aux_price is None && order.trailing_percent
            == other.trailing_percent ==> pricing.trailing_offset == other_pricing.trailing_offset,
        order.limit_price_offset == other.limit_price_offset ==> pricing.limit_offset
            == other_pricing.limit_offset,
{
}

} // verus!
