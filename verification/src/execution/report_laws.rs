//! What a report says of the order, the update, the record or the fill that it was made from.

use vstd::prelude::*;

use crate::decimal::ExactDecimal;
use crate::decimal_laws::{spelled_decimals_are_denoted, spells};
use crate::execution::completed::{
    parse_completed_order_to_report, CompletedOrderError, RefusalReason,
};
use crate::execution::fill::{parse_execution_to_fill_report, Commission, FillError};
use crate::execution::identity::client_identity;
use crate::execution::identity_laws::{
    carries, identifies, identities_tell_orders_apart, references_carry_one_client,
    references_carry_their_client, says_something, venue_texts_identify,
};
use crate::execution::pricing::{exact_offsets_of, has_exact_offsets};
use crate::execution::status::{parse_order_status_to_report, working_order_status, ReportContext};
use crate::execution::time::{parse_execution_time, ExecutionTimeError};
use crate::execution::vocabulary::{ib_order_type_of, ib_status_of};
use crate::execution::vocabulary_laws::{
    known_type_word, known_word, means, status_words_are_distinct, type_word, type_words_differ,
};
use crate::model::{
    LiquiditySide, NautilusOrderStatus, OrderSide, OrderType, Price, Quantity, TimeInForce,
    TrailingOffsetType,
};
use crate::orders::{Action, Execution, ExecutionSide, Order, OrderData, OrderLifetime, OrderStatus};
use crate::orders_laws::worded;
use crate::reports::{FillReport, NumberField, OrderStatusReport};
use crate::text::int_text;
use crate::text_laws::{renderings_write_their_integers, writes, writing_is_unique};
use crate::wire::WireNumber;
use crate::wire_laws::{above_zero, less, zero_bits};

verus! {

/// A broker price in a report: the broker's own number with the magnifier and the price precision
/// of the instrument.
pub open spec fn priced(price: Option<Price>, native: Option<WireNumber>, context: ReportContext) -> bool {
    match (price, native) {
        (Some(price), Some(native)) => {
            &&& price.native == native
            &&& price.magnifier == context.instrument.price_magnifier
            &&& match context.instrument.precisions {
                Some(precisions) => price.precision == precisions.price,
                None => price.precision == 0,
            }
        },
        (None, None) => true,
        _ => false,
    }
}

/// A broker quantity in a report: the broker's own number with the size precision of the
/// instrument.
pub open spec fn sized(quantity: Quantity, native: WireNumber, context: ReportContext) -> bool {
    quantity matches Quantity::Wire { value, precision } && value == native && match context
        .instrument.precisions {
        Some(precisions) => precision == precisions.size,
        None => precision == 0,
    }
}

/// The client identity of a report is the one that a reference carries.
pub open spec fn client_from(client_order_id: Option<String>, order_ref: Seq<char>) -> bool {
    carries(
        order_ref,
        match client_order_id {
            Some(id) => Some(id@),
            None => None,
        },
    )
}

/// What every report on an order says of the order itself: its identities, its side, its type, how
/// long it stays, how much of what it is for and its limit price.
pub open spec fn tells_of_the_order(
    report: OrderStatusReport,
    order: Order,
    context: ReportContext,
) -> bool {
    &&& client_from(report.client_order_id, order.order_ref@)
    &&& report.order_side == OrderSide::Buy <==> order.action == Action::Buy
    &&& known_type_word(order.order_type@) ==> type_word(order.order_type@, report.order_type)
    &&& !known_type_word(order.order_type@) ==> report.order_type == (if order.order_type@
        == "IBALGO"@ && (order.limit_price matches Some(price) && !zero_bits(price.bits)) {
        OrderType::Limit
    } else {
        OrderType::Market
    })
    &&& order.good_till_date@.len() > 0 ==> report.time_in_force == TimeInForce::Gtd
    &&& order.good_till_date@.len() == 0 ==> match order.tif {
        OrderLifetime::Day => report.time_in_force == TimeInForce::Day,
        OrderLifetime::GoodTilCanceled => report.time_in_force == TimeInForce::Gtc,
        OrderLifetime::ImmediateOrCancel => report.time_in_force == TimeInForce::Ioc,
        OrderLifetime::GoodTilDate => report.time_in_force == TimeInForce::Gtd,
        OrderLifetime::OnOpen => report.time_in_force == TimeInForce::AtTheOpen,
        OrderLifetime::FillOrKill => report.time_in_force == TimeInForce::Fok,
    }
    &&& sized(report.quantity, order.total_quantity, context)
    &&& priced(report.price, order.limit_price, context)
}

/// A report trails the market.
pub open spec fn trails(report: OrderStatusReport) -> bool {
    report.order_type == OrderType::TrailingStopMarket || report.order_type
        == OrderType::TrailingStopLimit
}

/// What every report on an order says of its triggers and offsets: the stop price triggers a
/// trailing order and the auxiliary price any other; only a trailing order has offsets, the one it
/// trails by in price units where it has an auxiliary price and otherwise in basis points, and only
/// a trailing limit order has an offset of its limit.
pub open spec fn tells_of_the_triggers(
    report: OrderStatusReport,
    order: Order,
    context: ReportContext,
) -> bool {
    if trails(report) {
        &&& priced(report.trigger_price, order.trail_stop_price, context)
        &&& report.trailing_offset is Some <==> order.aux_price is Some || order.trailing_percent
            is Some
        &&& order.aux_price is Some ==> report.trailing_offset_type == Some(
            TrailingOffsetType::Price,
        )
        &&& order.aux_price is None && order.trailing_percent is Some
            ==> report.trailing_offset_type == Some(TrailingOffsetType::BasisPoints)
        &&& report.limit_offset is Some <==> report.order_type == OrderType::TrailingStopLimit
            && order.limit_price_offset is Some
        &&& order.aux_price is None && order.trailing_percent is None
            ==> report.trailing_offset_type == (if report.limit_offset is Some {
            Some(TrailingOffsetType::Price)
        } else {
            None
        })
    } else {
        &&& priced(report.trigger_price, order.aux_price, context)
        &&& report.trailing_offset is None
        &&& report.trailing_offset_type is None
        &&& report.limit_offset is None
    }
}

/// What every report on an order says of where and for whom it was made.
pub open spec fn tells_of_the_context(report: OrderStatusReport, context: ReportContext) -> bool {
    &&& report.account_id@ == context.account_id@
    &&& report.instrument_id == context.instrument_id
    &&& report.ts_accepted == context.ts_init
    &&& report.ts_last == context.ts_init
    &&& report.ts_init == context.ts_init
    &&& report.report_id == context.report_id
}

pub(crate) proof fn order_types_are_told(word: Seq<char>)
    ensures
        known_type_word(word) <==> ib_order_type_of(word) is Some,
        known_type_word(word) ==> type_word(word, ib_order_type_of(word)->0),
        !known_type_word("IBALGO"@),
{
    type_words_differ();
}

/// The report on an update says what the update and the order say, each number with the precision
/// of the instrument that is meant for it.
pub proof fn status_reports_say_what_the_order_says(
    order_status: &OrderStatus,
    order: Option<&Order>,
    magnified_average: &Option<WireNumber>,
    context: &ReportContext,
    report: OrderStatusReport,
)
    requires
        call_ensures(
            parse_order_status_to_report,
            (order_status, order, magnified_average, context),
            Ok::<OrderStatusReport, NumberField>(report),
        ),
    ensures
        tells_of_the_context(report, *context),
        identifies(report.venue_order_id@, order_status.order_id, order_status.perm_id),
        report.raw_order_status matches Some(raw) && worded(order_status.status, raw@),
        sized(report.filled_qty, order_status.filled, *context),
        match order {
            Some(order) => tells_of_the_order(report, *order, *context) && tells_of_the_triggers(
                report,
                *order,
                *context,
            ),
            None => {
                &&& report.client_order_id is None
                &&& report.order_side == OrderSide::Buy
                &&& report.order_type == OrderType::Market
                &&& report.time_in_force == TimeInForce::Day
                &&& report.price is None && report.trigger_price is None
                &&& report.trailing_offset is None && report.trailing_offset_type is None
                &&& report.limit_offset is None
                &&& report.quantity matches Quantity::Zero { precision } && match context
                    .instrument.precisions {
                    Some(precisions) => precision == precisions.size,
                    None => precision == 0,
                }
            },
        },
        report.avg_px is Some <==> (order_status.average_fill_price matches Some(price)
            && says_something(price, context.instrument.is_spread)),
{
    venue_texts_identify(order_status.order_id, order_status.perm_id);
    match order {
        Some(order) => {
            references_carry_their_client(order.order_ref@);
            order_types_are_told(order.order_type@);
        },
        None => {},
    }
}

/// An order is reported as partially filled while some of it is filled and some is not, and
/// otherwise as what the broker's word means; a word that is not known leaves it submitted.
pub proof fn statuses_follow_fills_and_words(
    order_status: &OrderStatus,
    order: Option<&Order>,
    magnified_average: &Option<WireNumber>,
    context: &ReportContext,
    report: OrderStatusReport,
    word: Seq<char>,
)
    requires
        call_ensures(
            parse_order_status_to_report,
            (order_status, order, magnified_average, context),
            Ok::<OrderStatusReport, NumberField>(report),
        ),
        worded(order_status.status, word),
    ensures
        ({
            let filled = order_status.filled.bits;
            let partly = above_zero(filled) && (above_zero(order_status.remaining.bits) || (order
                matches Some(order) && less(filled, order.total_quantity.bits)));
            &&& partly ==> report.order_status == NautilusOrderStatus::PartiallyFilled
            &&& !partly && known_word(word) ==> means(word, report.order_status)
            &&& !partly && !known_word(word) ==> report.order_status
                == NautilusOrderStatus::Submitted
        }),
{
    status_words_are_distinct();
    assert(ib_status_of(word) is Some <==> known_word(word));
}

/// The status of a working order is the one that its report has.
pub proof fn working_statuses_are_reported(
    order_status: &OrderStatus,
    order: Option<&Order>,
    magnified_average: &Option<WireNumber>,
    context: &ReportContext,
    report: OrderStatusReport,
    status: NautilusOrderStatus,
)
    requires
        call_ensures(
            parse_order_status_to_report,
            (order_status, order, magnified_average, context),
            Ok::<OrderStatusReport, NumberField>(report),
        ),
        call_ensures(working_order_status, (order_status, order), status),
    ensures
        report.order_status == status,
{
}

/// What the offsets of an order spell; a percentage comes to a hundred times as many basis points.
pub open spec fn offsets_spell(
    order: Order,
    aux: ExactDecimal,
    percent: ExactDecimal,
    limit: ExactDecimal,
) -> bool {
    &&& order.aux_price matches Some(number) ==> spells(number.text@, aux)
    &&& order.trailing_percent matches Some(number) ==> spells(number.text@, percent)
        && -0x1_0000_0000_0000_0000_0000_0000 < 100 * percent.mantissa
        < 0x1_0000_0000_0000_0000_0000_0000
    &&& order.limit_price_offset matches Some(number) ==> spells(number.text@, limit)
}

/// The offsets of a report, where those of the order spell these decimals.
pub open spec fn offsets_told(
    report: OrderStatusReport,
    order: Order,
    aux: ExactDecimal,
    percent: ExactDecimal,
    limit: ExactDecimal,
) -> bool {
    &&& trails(report) && order.aux_price is Some ==> report.trailing_offset == Some(aux)
    &&& trails(report) && order.aux_price is None && order.trailing_percent is Some ==> {
        &&& report.trailing_offset matches Some(points)
        &&& points.mantissa == 100 * percent.mantissa
        &&& points.scale == (if percent.mantissa == 0 {
            0
        } else {
            percent.scale
        })
    }
    &&& report.order_type == OrderType::TrailingStopLimit && order.limit_price_offset is Some
        ==> report.limit_offset == Some(limit)
}

pub(crate) proof fn spelled_offsets_are_exact(
    order: Order,
    aux: ExactDecimal,
    percent: ExactDecimal,
    limit: ExactDecimal,
)
    requires
        offsets_spell(order, aux, percent, limit),
    ensures
        has_exact_offsets(order),
        order.aux_price is Some ==> exact_offsets_of(order).aux_price == Some(aux),
        order.trailing_percent is Some ==> exact_offsets_of(order).basis_points == Some(
            ExactDecimal {
                mantissa: (100 * percent.mantissa) as i128,
                scale: if percent.mantissa == 0 {
                    0
                } else {
                    percent.scale
                },
            },
        ),
        order.limit_price_offset is Some ==> exact_offsets_of(order).limit_price_offset == Some(
            limit,
        ),
{
    if order.aux_price is Some {
        spelled_decimals_are_denoted(order.aux_price->0.text@, aux);
    }
    if order.trailing_percent is Some {
        spelled_decimals_are_denoted(order.trailing_percent->0.text@, percent);
    }
    if order.limit_price_offset is Some {
        spelled_decimals_are_denoted(order.limit_price_offset->0.text@, limit);
    }
}

/// An update whose numbers are spelled out is always reported, with the offsets and the average
/// fill price that they spell: a trailing percentage in basis points, a hundred to the percent.
pub proof fn spelled_numbers_reach_the_status_report(
    order_status: &OrderStatus,
    order: &Order,
    magnified_average: &Option<WireNumber>,
    context: &ReportContext,
    outcome: Result<OrderStatusReport, NumberField>,
    aux: ExactDecimal,
    percent: ExactDecimal,
    limit: ExactDecimal,
    average: ExactDecimal,
)
    requires
        call_ensures(
            parse_order_status_to_report,
            (order_status, Some(order), magnified_average, context),
            outcome,
        ),
        offsets_spell(*order, aux, percent, limit),
        magnified_average matches Some(number) && spells(number.text@, average),
    ensures
        outcome matches Ok(report) && offsets_told(report, *order, aux, percent, limit) && (
        report.avg_px is Some ==> report.avg_px == Some(average)),
{
    spelled_offsets_are_exact(*order, aux, percent, limit);
    spelled_decimals_are_denoted(magnified_average->0.text@, average);
}

/// An update on an order that is not known is always reported where its average fill price says
/// nothing or is spelled out.
pub proof fn updates_without_an_order_are_reported(
    order_status: &OrderStatus,
    magnified_average: &Option<WireNumber>,
    context: &ReportContext,
    outcome: Result<OrderStatusReport, NumberField>,
    average: ExactDecimal,
)
    requires
        call_ensures(
            parse_order_status_to_report,
            (order_status, None::<&Order>, magnified_average, context),
            outcome,
        ),
        magnified_average matches Some(number) ==> spells(number.text@, average),
        order_status.average_fill_price is Some ==> magnified_average is Some,
    ensures
        outcome matches Ok(report) && (report.avg_px is Some ==> report.avg_px == Some(average)),
{
    if magnified_average is Some {
        spelled_decimals_are_denoted(magnified_average->0.text@, average);
    }
}

/// An update is refused only for a number that is there and needed: one that a trailing order
/// trails by, the offset of its limit, or an average fill price that says something.
pub proof fn updates_are_refused_for_a_number_that_is_needed(
    order_status: &OrderStatus,
    order: Option<&Order>,
    magnified_average: &Option<WireNumber>,
    context: &ReportContext,
    field: NumberField,
)
    requires
        call_ensures(
            parse_order_status_to_report,
            (order_status, order, magnified_average, context),
            Err::<OrderStatusReport, NumberField>(field),
        ),
    ensures
        match field {
            NumberField::AuxPrice => order matches Some(order) && order.aux_price is Some && (
            order.order_type@ == "TRAIL"@ || order.order_type@ == "TRAIL LIMIT"@),
            NumberField::TrailingPercent => order matches Some(order) && order.aux_price is None
                && order.trailing_percent is Some && (order.order_type@ == "TRAIL"@
                || order.order_type@ == "TRAIL LIMIT"@),
            NumberField::LimitPriceOffset => order matches Some(order) && order.limit_price_offset
                is Some && order.order_type@ == "TRAIL LIMIT"@,
            NumberField::AverageFillPrice => order_status.average_fill_price matches Some(price)
                && says_something(price, context.instrument.is_spread),
        },
{
    if order is Some {
        order_types_are_told(order->0.order_type@);
    }
}

/// The reported prices of an order rest on the price precision alone and its quantities on the size
/// precision alone: contexts that differ in the other give the same.
pub proof fn precisions_are_not_mixed_up(
    order_status: &OrderStatus,
    order: Option<&Order>,
    magnified_average: &Option<WireNumber>,
    context: &ReportContext,
    other: &ReportContext,
    report: OrderStatusReport,
    other_report: OrderStatusReport,
)
    requires
        call_ensures(
            parse_order_status_to_report,
            (order_status, order, magnified_average, context),
            Ok::<OrderStatusReport, NumberField>(report),
        ),
        call_ensures(
            parse_order_status_to_report,
            (order_status, order, magnified_average, other),
            Ok::<OrderStatusReport, NumberField>(other_report),
        ),
        context.instrument.precisions is Some,
        other.instrument.precisions is Some,
        context.instrument.price_magnifier == other.instrument.price_magnifier,
    ensures
        context.instrument.precisions->0.price == other.instrument.precisions->0.price ==> {
            &&& report.price == other_report.price
            &&& report.trigger_price == other_report.trigger_price
        },
        context.instrument.precisions->0.size == other.instrument.precisions->0.size ==> {
            &&& report.quantity == other_report.quantity
            &&& report.filled_qty == other_report.filled_qty
        },
{
}

/// What refuses a completed record, in the order in which it is looked at.
pub open spec fn evidence_against(data: OrderData, raw_account: Seq<char>, word: Seq<char>, reason: RefusalReason) -> bool {
    let order = data.order;
    let identified = order.perm_id > 0;
    let owned = identified && order.account@.len() > 0 && order.account@ == raw_account;
    let nameless = order.order_ref@.len() == 0 || carries(
        order.order_ref@,
        Some(Seq::<char>::empty()),
    );
    let finished = word == "ApiCancelled"@ || word == "Cancelled"@ || word == "Filled"@ || word
        == "Inactive"@;
    match reason {
        RefusalReason::NotVenueIdentity => !identified,
        RefusalReason::NoBrokerAccount => identified && order.account@.len() == 0,
        RefusalReason::ForeignBrokerAccount => identified && order.account@.len() > 0
            && order.account@ != raw_account,
        RefusalReason::NoClientOrderRef => owned && nameless,
        RefusalReason::UnmappableStatus => owned && !nameless && !known_word(word),
        RefusalReason::NonTerminalStatus => owned && !nameless && known_word(word) && !finished,
        RefusalReason::Number(_) => owned && !nameless && finished,
    }
}

pub(crate) proof fn references_without_a_client(order_ref: Seq<char>)
    ensures
        (client_identity(order_ref) matches Some(base) && base.len() > 0) <==> !(order_ref.len()
            == 0 || carries(order_ref, Some(Seq::<char>::empty()))),
{
    references_carry_their_client(order_ref);
    if carries(order_ref, Some(Seq::<char>::empty())) {
        references_carry_one_client(
            order_ref,
            client_identity(order_ref),
            Some(Seq::<char>::empty()),
        );
    }
    if client_identity(order_ref) matches Some(base) && base.len() == 0 {
        assert(client_identity(order_ref)->0 =~= Seq::<char>::empty());
    }
}

/// A completed record is refused for the first thing that speaks against it, which the error names
/// together with the permanent identifier and the broker's word for the status.
pub proof fn refusals_name_what_speaks_against_the_record(
    data: &OrderData,
    raw_account: &str,
    context: &ReportContext,
    error: CompletedOrderError,
    word: Seq<char>,
)
    requires
        call_ensures(
            parse_completed_order_to_report,
            (data, raw_account, context),
            Err::<OrderStatusReport, CompletedOrderError>(error),
        ),
        worded(data.order_state.status, word),
    ensures
        evidence_against(*data, raw_account@, word, error.reason),
        error.perm_id == data.order.perm_id,
        error.raw_status@ == word,
        error.number@ == (match error.reason {
            RefusalReason::Number(NumberField::AuxPrice) => data.order.aux_price->0.text@,
            RefusalReason::Number(NumberField::TrailingPercent) =>
                data.order.trailing_percent->0.text@,
            RefusalReason::Number(NumberField::LimitPriceOffset) =>
                data.order.limit_price_offset->0.text@,
            _ => Seq::empty(),
        }),
{
    references_without_a_client(data.order.order_ref@);
    status_words_are_distinct();
    order_types_are_told(data.order.order_type@);
}

/// The report on a completed record says what the record says: it is made only from a record with a
/// positive permanent identifier, of the configured account, with a client identity and a finished
/// status, which is the status that it has.
pub proof fn completed_reports_say_what_the_record_says(
    data: &OrderData,
    raw_account: &str,
    context: &ReportContext,
    report: OrderStatusReport,
    word: Seq<char>,
)
    requires
        call_ensures(
            parse_completed_order_to_report,
            (data, raw_account, context),
            Ok::<OrderStatusReport, CompletedOrderError>(report),
        ),
        worded(data.order_state.status, word),
    ensures
        data.order.perm_id > 0,
        identifies(report.venue_order_id@, data.order_id, data.order.perm_id),
        data.order.account@ == raw_account@ && raw_account@.len() > 0,
        report.client_order_id matches Some(id) && id@.len() > 0,
        report.raw_order_status matches Some(raw) && raw@ == word,
        means(word, report.order_status),
        report.order_status == NautilusOrderStatus::Canceled || report.order_status
            == NautilusOrderStatus::Filled || report.order_status == NautilusOrderStatus::Rejected,
        sized(report.filled_qty, data.order.filled_quantity, *context),
        report.avg_px is None,
        tells_of_the_context(report, *context),
        tells_of_the_order(report, data.order, *context),
        tells_of_the_triggers(report, data.order, *context),
{
    venue_texts_identify(data.order_id, data.order.perm_id);
    references_carry_their_client(data.order.order_ref@);
    references_without_a_client(data.order.order_ref@);
    order_types_are_told(data.order.order_type@);
    status_words_are_distinct();
}

/// A completed record that nothing speaks against and whose numbers are spelled out is reported,
/// with the offsets that they spell.
pub proof fn spelled_numbers_reach_the_completed_report(
    data: &OrderData,
    raw_account: &str,
    context: &ReportContext,
    outcome: Result<OrderStatusReport, CompletedOrderError>,
    word: Seq<char>,
    aux: ExactDecimal,
    percent: ExactDecimal,
    limit: ExactDecimal,
)
    requires
        call_ensures(parse_completed_order_to_report, (data, raw_account, context), outcome),
        worded(data.order_state.status, word),
        offsets_spell(data.order, aux, percent, limit),
    ensures
        outcome is Err <==> {
            ||| evidence_against(*data, raw_account@, word, RefusalReason::NotVenueIdentity)
            ||| evidence_against(*data, raw_account@, word, RefusalReason::NoBrokerAccount)
            ||| evidence_against(*data, raw_account@, word, RefusalReason::ForeignBrokerAccount)
            ||| evidence_against(*data, raw_account@, word, RefusalReason::NoClientOrderRef)
            ||| evidence_against(*data, raw_account@, word, RefusalReason::UnmappableStatus)
            ||| evidence_against(*data, raw_account@, word, RefusalReason::NonTerminalStatus)
        },
        outcome matches Ok(report) ==> offsets_told(report, data.order, aux, percent, limit),
{
    spelled_offsets_are_exact(data.order, aux, percent, limit);
    references_without_a_client(data.order.order_ref@);
    status_words_are_distinct();
}

/// The text of a refusal: it names the permanent identifier where the identifier or the status is
/// at fault, quotes the broker's word where that is, and gives the number where that is.
pub proof fn refusals_say_what_is_at_fault(
    error: &CompletedOrderError,
    message: String,
    perm_id: Seq<char>,
)
    requires
        call_ensures(CompletedOrderError::message, (error,), message),
        writes(perm_id, error.perm_id as int),
    ensures
        match error.reason {
            RefusalReason::NotVenueIdentity => message@ == "IBKR completed order perm_id "@
                + perm_id
                + " is not a positive broker venue identity; refusing to fabricate a venue order id"@,
            RefusalReason::NoBrokerAccount => message@
                == "IBKR completed order carries no broker account; refusing to attribute it to the configured Nautilus account"@,
            RefusalReason::ForeignBrokerAccount => message@
                == "IBKR completed order does not belong to the configured Nautilus account"@,
            RefusalReason::NoClientOrderRef => message@
                == "IBKR completed order carries no usable client order_ref; refusing to publish a terminal report without client order identity"@,
            RefusalReason::UnmappableStatus => message@ == "IBKR completed order perm_id "@
                + perm_id + " has an unmappable raw status '"@ + error.raw_status@ + "'"@,
            RefusalReason::NonTerminalStatus => message@ == "IBKR completed order perm_id "@
                + perm_id + " reports the non-terminal status '"@ + error.raw_status@
                + "'; the completed-order source accepts terminal evidence only"@,
            RefusalReason::Number(_) => message@ == "Failed to convert IB floating-point value "@
                + error.number@ + " to Decimal"@,
        },
{
    renderings_write_their_integers(error.perm_id as int);
    writing_is_unique(perm_id, int_text(error.perm_id as int), error.perm_id as int);
}

/// The report on a fill says what the execution says, each number with the precision of the
/// instrument that is meant for it; a commission of minus one is one that is still pending, and
/// counts as none.
pub proof fn fill_reports_say_what_the_execution_says(
    execution: &Execution,
    commission: &Commission<'_>,
    avg_px: Option<ExactDecimal>,
    context: &ReportContext,
    report: FillReport,
)
    requires
        call_ensures(
            parse_execution_to_fill_report,
            (execution, commission, avg_px, context),
            Ok::<FillReport, FillError>(report),
        ),
    ensures
        context.instrument.precisions is Some,
        commission.currency_known,
        report.account_id@ == context.account_id@,
        report.instrument_id == context.instrument_id,
        identifies(report.venue_order_id@, execution.order_id, execution.perm_id),
        report.trade_id@ == execution.execution_id@,
        report.order_side == OrderSide::Buy <==> execution.side == ExecutionSide::Bought,
        sized(report.last_qty, execution.shares, *context),
        priced(Some(report.last_px), Some(execution.price), *context),
        report.commission.currency@ == commission.currency@,
        report.commission.amount == (if commission.amount.bits == 0xBFF0_0000_0000_0000 {
            None
        } else {
            Some(*commission.amount)
        }),
        report.liquidity_side == LiquiditySide::NoLiquiditySide,
        client_from(report.client_order_id, execution.order_reference@),
        report.ts_init == context.ts_init,
        report.report_id == context.report_id,
        report.avg_px == avg_px,
{
    venue_texts_identify(execution.order_id, execution.perm_id);
    references_carry_their_client(execution.order_reference@);
}

/// A fill has the instant at which its time is read, and is refused, for the reason for which its
/// time is, where that is no instant; before that it is refused for an instrument and then for a
/// currency that is not known.
pub proof fn fills_happen_when_their_time_says(
    execution: &Execution,
    commission: &Commission<'_>,
    avg_px: Option<ExactDecimal>,
    context: &ReportContext,
    outcome: Result<FillReport, FillError>,
    text: &str,
    time: Result<u64, ExecutionTimeError>,
)
    requires
        call_ensures(
            parse_execution_to_fill_report,
            (execution, commission, avg_px, context),
            outcome,
        ),
        text@ == execution.time@,
        call_ensures(parse_execution_time, (text,), time),
    ensures
        outcome == Err::<FillReport, FillError>(FillError::InstrumentNotFound)
            <==> context.instrument.precisions is None,
        outcome == Err::<FillReport, FillError>(FillError::UnknownCurrency)
            <==> context.instrument.precisions is Some && !commission.currency_known,
        context.instrument.precisions is Some && commission.currency_known ==> match time {
            Ok(instant) => outcome matches Ok(report) && report.ts_event == instant,
            Err(error) => outcome == Err::<FillReport, FillError>(FillError::Time(error)),
        },
{
}

/// A fill and a report on its order have the same venue identity: they are made from the same
/// identifiers.
pub proof fn fills_match_their_orders(
    execution: &Execution,
    commission: &Commission<'_>,
    avg_px: Option<ExactDecimal>,
    fill_context: &ReportContext,
    fill: FillReport,
    order_status: &OrderStatus,
    order: Option<&Order>,
    magnified_average: &Option<WireNumber>,
    order_context: &ReportContext,
    report: OrderStatusReport,
)
    requires
        call_ensures(
            parse_execution_to_fill_report,
            (execution, commission, avg_px, fill_context),
            Ok::<FillReport, FillError>(fill),
        ),
        call_ensures(
            parse_order_status_to_report,
            (order_status, order, magnified_average, order_context),
            Ok::<OrderStatusReport, NumberField>(report),
        ),
        execution.perm_id == order_status.perm_id,
        execution.order_id == order_status.order_id,
    ensures
        fill.venue_order_id@ == report.venue_order_id@,
{
}

/// Fills of orders with different positive permanent identifiers have different venue identities.
pub proof fn fills_tell_orders_apart(
    execution: &Execution,
    other: &Execution,
    commission: &Commission<'_>,
    other_commission: &Commission<'_>,
    avg_px: Option<ExactDecimal>,
    other_avg_px: Option<ExactDecimal>,
    context: &ReportContext,
    fill: FillReport,
    other_fill: FillReport,
)
    requires
        call_ensures(
            parse_execution_to_fill_report,
            (execution, commission, avg_px, context),
            Ok::<FillReport, FillError>(fill),
        ),
        call_ensures(
            parse_execution_to_fill_report,
            (other, other_commission, other_avg_px, context),
            Ok::<FillReport, FillError>(other_fill),
        ),
        execution.perm_id > 0 && other.perm_id > 0,
        execution.perm_id != other.perm_id,
    ensures
        fill.venue_order_id@ != other_fill.venue_order_id@,
{
    venue_texts_identify(execution.order_id, execution.perm_id);
    venue_texts_identify(other.order_id, other.perm_id);
    if fill.venue_order_id@ == other_fill.venue_order_id@ {
        identities_tell_orders_apart(
            fill.venue_order_id@,
            execution.order_id,
            execution.perm_id,
            other.order_id,
            other.perm_id,
        );
    }
}

} // verus!
