//! Executions to fill reports.

use vstd::prelude::*;

use crate::civil::CivilDateTime;
use crate::decimal::ExactDecimal;
use crate::execution::identity::{
    client_identity, ib_venue_order_id, normalized_order_ref, venue_order_id_text,
};
use crate::execution::status::{usable_reference, ReportContext};
use crate::execution::time::{
    execution_time_of, hyphenated_text, instant_at, naive_part, naive_text, parse_execution_time,
    parsed_naive_datetime, resolved_time, unix_nanos_of, zone_name, zone_part, zoned_text,
    ExecutionTimeError,
};
use crate::execution::vocabulary::{execution_order_side, side_of_execution};
use crate::model::{LiquiditySide, Money, Price, Quantity};
use crate::orders::Execution;
use crate::reports::FillReport;
use crate::text::trimmed;
use crate::wire::{WireNumber, MINUS_ONE_BITS};

verus! {

/// Why an execution became no report.
#[derive(Debug, Clone, Copy, PartialEq, Eq, Structural)]
pub enum FillError {
    /// The instrument is not known.
    InstrumentNotFound,
    /// The currency of the commission is not known.
    UnknownCurrency,
    /// The time of the execution is no instant.
    Time(ExecutionTimeError),
}

/// The commission of a fill.
#[derive(Debug)]
pub struct Commission<'a> {
    pub amount: &'a WireNumber,
    /// The code of the currency.
    pub currency: &'a str,
    /// Whether the currency is known.
    pub currency_known: bool,
}

/// The amount of a commission; minus one says that it is still pending, and counts as zero.
pub open spec fn settled_amount(amount: WireNumber) -> Option<WireNumber> {
    if amount.bits == MINUS_ONE_BITS {
        None
    } else {
        Some(amount)
    }
}

/// The report on an execution at a given time.
pub open spec fn is_fill_report(
    report: FillReport,
    execution: Execution,
    commission: Commission,
    ts_event: u64,
    avg_px: Option<ExactDecimal>,
    context: ReportContext,
) -> bool {
    &&& report.account_id@ == context.account_id@
    &&& report.instrument_id == context.instrument_id
    &&& report.venue_order_id@ == venue_order_id_text(execution.order_id, execution.perm_id)
    &&& report.trade_id@ == execution.execution_id@
    &&& report.order_side == execution_order_side(execution.side)
    &&& report.last_qty == (Quantity::Wire {
        value: execution.shares,
        precision: context.instrument.size_precision_spec(),
    })
    &&& report.last_px == (Price {
        native: execution.price,
        magnifier: context.instrument.price_magnifier,
        precision: context.instrument.price_precision_spec(),
    })
    &&& report.commission.amount == settled_amount(*commission.amount)
    &&& report.commission.currency@ == commission.currency@
    &&& report.liquidity_side == LiquiditySide::NoLiquiditySide
    &&& match report.client_order_id {
        Some(id) => client_identity(execution.order_reference@) == Some(id@),
        None => client_identity(execution.order_reference@) is None,
    }
    &&& report.ts_event == ts_event
    &&& report.ts_init == context.ts_init
    &&& report.report_id == context.report_id
    &&& report.avg_px == avg_px
}

/// The outcome of an execution, given its time: the instrument is needed first, then the currency,
/// then the time.
pub open spec fn is_fill_outcome(
    outcome: Result<FillReport, FillError>,
    execution: Execution,
    commission: Commission,
    time: Result<u64, ExecutionTimeError>,
    avg_px: Option<ExactDecimal>,
    context: ReportContext,
) -> bool {
    if context.instrument.precisions is None {
        outcome == Err::<FillReport, FillError>(FillError::InstrumentNotFound)
    } else if !commission.currency_known {
        outcome == Err::<FillReport, FillError>(FillError::UnknownCurrency)
    } else {
        match time {
            Err(e) => outcome == Err::<FillReport, FillError>(FillError::Time(e)),
            Ok(ts_event) => outcome matches Ok(report) && is_fill_report(
                report,
                execution,
                commission,
                ts_event,
                avg_px,
                context,
            ),
        }
    }
}

/// Reports on an execution, given its time.
pub fn fill_report_of(
    execution: &Execution,
    commission: &Commission<'_>,
    time: Result<u64, ExecutionTimeError>,
    avg_px: Option<ExactDecimal>,
    context: &ReportContext,
) -> (outcome: Result<FillReport, FillError>)
    requires
        usable_reference(execution.order_reference@),
    ensures
        is_fill_outcome(outcome, *execution, *commission, time, avg_px, *context),
{
    if context.instrument.precisions.is_none() {
        return Err(FillError::InstrumentNotFound);
    }
    if !commission.currency_known {
        return Err(FillError::UnknownCurrency);
    }
    let ts_event: u64 = match time {
        Ok(ts_event) => ts_event,
        Err(e) => {
            return Err(FillError::Time(e));
        },
    };
    let amount = if commission.amount.bits == MINUS_ONE_BITS {
        None
    } else {
        Some(commission.amount.clone())
    };
    Ok(
        FillReport {
            account_id: context.account_id.clone(),
            instrument_id: context.instrument_id.clone(),
            venue_order_id: ib_venue_order_id(execution.order_id, execution.perm_id),
            trade_id: execution.execution_id.clone(),
            order_side: side_of_execution(execution.side),
            last_qty: Quantity::Wire {
                value: execution.shares.clone(),
                precision: context.instrument.size_precision(),
            },
            last_px: Price {
                native: execution.price.clone(),
                magnifier: context.instrument.price_magnifier,
                precision: context.instrument.price_precision(),
            },
            commission: Money { amount, currency: commission.currency.to_owned() },
            liquidity_side: LiquiditySide::NoLiquiditySide,
            client_order_id: match normalized_order_ref(execution.order_reference.as_str()) {
                Some(base) => Some(base.to_owned()),
                None => None,
            },
            ts_event,
            ts_init: context.ts_init,
            report_id: context.report_id,
            avg_px,
        },
    )
}

/// Reports on an execution.
///
/// `avg_px` is the average price known from updates on the order.
pub fn parse_execution_to_fill_report(
    execution: &Execution,
    commission: &Commission<'_>,
    avg_px: Option<ExactDecimal>,
    context: &ReportContext,
) -> (outcome: Result<FillReport, FillError>)
    requires
        usable_reference(execution.order_reference@),
    ensures
        is_fill_outcome(
            outcome,
            *execution,
            *commission,
            execution_time_of(execution.time@),
            avg_px,
            *context,
        ),
        zone_name(zone_part(execution.time@)) == "UTC"@ ==> is_fill_outcome(
            outcome,
            *execution,
            *commission,
            resolved_time(parsed_naive_datetime(naive_part(execution.time@)), false, None),
            avg_px,
            *context,
        ),
        forall|time: CivilDateTime, zone: Seq<char>|
            time.valid() && time.year >= 0 && execution.time@ == #[trigger] zoned_text(time, zone)
                && (trimmed(zone) == Seq::<char>::empty() || zone_name(trimmed(zone)) == "UTC"@)
                ==> is_fill_outcome(
                outcome,
                *execution,
                *commission,
                unix_nanos_of(instant_at(time, 0)),
                avg_px,
                *context,
            ),
        forall|time: CivilDateTime|
            time.valid() && time.year >= 0 && (execution.time@ == #[trigger] naive_text(time))
                ==> is_fill_outcome(
                outcome,
                *execution,
                *commission,
                unix_nanos_of(instant_at(time, 0)),
                avg_px,
                *context,
            ),
        forall|time: CivilDateTime|
            time.valid() && time.year >= 0 && (execution.time@ == #[trigger] hyphenated_text(time))
                ==> is_fill_outcome(
                outcome,
                *execution,
                *commission,
                unix_nanos_of(instant_at(time, 0)),
                avg_px,
                *context,
            ),
{
    let time = parse_execution_time(execution.time.as_str());
    fill_report_of(execution, commission, time, avg_px, context)
}

} // verus!
