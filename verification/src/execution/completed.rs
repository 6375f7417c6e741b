//! Records of completed orders to reports.
//!
//! A completed record is terminal broker evidence. It becomes a report only where every identity
//! in the report comes from the broker; otherwise it is refused, and nothing is made up for it.

use vstd::prelude::*;

use crate::execution::identity::{
    broker_perm_id, client_identity, normalized_order_ref, venue_identity,
};
use crate::execution::pricing::{has_exact_offsets, PricingFields};
use crate::execution::status::{
    exact_pricing, is_order_report, order_pricing, order_report_of, pricing_for, OrderFacts,
    OrderFactsView, ReportContext,
};
use crate::execution::vocabulary::{ib_status_of, terminal_statuses_are_closed, IbOrderStatus};
use crate::model::NautilusOrderStatus;
use crate::orders::{Order, OrderData};
use crate::reports::{NumberField, OrderStatusReport};
use crate::text::{int_text, signed_text, text_eq};

verus! {

/// Why a completed record became no report.
#[derive(Debug, Clone, Copy, PartialEq, Eq, Structural)]
pub enum RefusalReason {
    /// The record carries no positive permanent identifier.
    NotVenueIdentity,
    /// The record carries no account.
    NoBrokerAccount,
    /// The record belongs to another account.
    ForeignBrokerAccount,
    /// The record carries no client identity.
    NoClientOrderRef,
    /// The status is outside the vocabulary.
    UnmappableStatus,
    /// The status is that of a working order.
    NonTerminalStatus,
    /// A number of the order has no decimal.
    Number(NumberField),
}

/// A completed record that became no report.
#[derive(Debug)]
pub struct CompletedOrderError {
    pub reason: RefusalReason,
    pub perm_id: i64,
    /// The status as the broker worded it.
    pub raw_status: String,
    /// The text of the number without a decimal; empty where the reason is another one.
    pub number: String,
}

/// The text of a number of an order.
pub open spec fn number_text(order: Order, field: NumberField) -> Seq<char> {
    let value = match field {
        NumberField::AuxPrice => order.aux_price,
        NumberField::TrailingPercent => order.trailing_percent,
        NumberField::LimitPriceOffset => order.limit_price_offset,
        NumberField::AverageFillPrice => None,
    };
    match value {
        Some(value) => value.text@,
        None => Seq::empty(),
    }
}

/// The text of the number that a record is refused for.
pub open spec fn refused_number(order: Order, reason: RefusalReason) -> Seq<char> {
    match reason {
        RefusalReason::Number(field) => number_text(order, field),
        _ => Seq::empty(),
    }
}

fn read_number_text(order: &Order, reason: RefusalReason) -> (r: String)
    ensures
        r@ == refused_number(*order, reason),
{
    let value = match reason {
        RefusalReason::Number(NumberField::AuxPrice) => &order.aux_price,
        RefusalReason::Number(NumberField::TrailingPercent) => &order.trailing_percent,
        RefusalReason::Number(NumberField::LimitPriceOffset) => &order.limit_price_offset,
        _ => {
            return String::new();
        },
    };
    match value {
        Some(value) => value.text.clone(),
        None => String::new(),
    }
}

impl CompletedOrderError {
    /// The text of the error.
    pub open spec fn text(&self) -> Seq<char> {
        let named = "IBKR completed order perm_id "@ + int_text(self.perm_id as int);
        match self.reason {
            RefusalReason::NotVenueIdentity => named
                + " is not a positive broker venue identity; refusing to fabricate a venue order id"@,
            RefusalReason::NoBrokerAccount =>
                "IBKR completed order carries no broker account; refusing to attribute it to the configured Nautilus account"@,
            RefusalReason::ForeignBrokerAccount =>
                "IBKR completed order does not belong to the configured Nautilus account"@,
            RefusalReason::NoClientOrderRef =>
                "IBKR completed order carries no usable client order_ref; refusing to publish a terminal report without client order identity"@,
            RefusalReason::UnmappableStatus => named + " has an unmappable raw status '"@
                + self.raw_status@ + "'"@,
            RefusalReason::NonTerminalStatus => named + " reports the non-terminal status '"@
                + self.raw_status@
                + "'; the completed-order source accepts terminal evidence only"@,
            RefusalReason::Number(_) => "Failed to convert IB floating-point value "@ + self.number@
                + " to Decimal"@,
        }
    }

    /// The text of the error.
    pub fn message(&self) -> (r: String)
        ensures
            r@ == self.text(),
    {
        let mut named = "IBKR completed order perm_id ".to_owned();
        named.append(signed_text(self.perm_id).as_str());
        match self.reason {
            RefusalReason::NotVenueIdentity => named.concat(
                " is not a positive broker venue identity; refusing to fabricate a venue order id",
            ),
            RefusalReason::NoBrokerAccount =>
                "IBKR completed order carries no broker account; refusing to attribute it to the configured Nautilus account".to_owned(),
            RefusalReason::ForeignBrokerAccount =>
                "IBKR completed order does not belong to the configured Nautilus account".to_owned(),
            RefusalReason::NoClientOrderRef =>
                "IBKR completed order carries no usable client order_ref; refusing to publish a terminal report without client order identity".to_owned(),
            RefusalReason::UnmappableStatus => named.concat(" has an unmappable raw status '").concat(
                self.raw_status.as_str(),
            ).concat("'"),
            RefusalReason::NonTerminalStatus => named.concat(
                " reports the non-terminal status '",
            ).concat(self.raw_status.as_str()).concat(
                "'; the completed-order source accepts terminal evidence only",
            ),
            RefusalReason::Number(_) => "Failed to convert IB floating-point value ".to_owned().concat(
                self.number.as_str(),
            ).concat(" to Decimal"),
        }
    }
}

/// The first reason, if any, that the identities or the status of a record give to refuse it.
/// `raw_account` is the broker's code of the configured account.
pub open spec fn evidence_refusal(data: OrderData, raw_account: Seq<char>) -> Option<
    RefusalReason,
> {
    let order = data.order;
    if venue_identity(order.perm_id) is None {
        Some(RefusalReason::NotVenueIdentity)
    } else if order.account@.len() == 0 {
        Some(RefusalReason::NoBrokerAccount)
    } else if order.account@ != raw_account {
        Some(RefusalReason::ForeignBrokerAccount)
    } else if !(client_identity(order.order_ref@) matches Some(base) && base.len() > 0) {
        Some(RefusalReason::NoClientOrderRef)
    } else {
        match ib_status_of(data.order_state.status.wire_text()) {
            None => Some(RefusalReason::UnmappableStatus),
            Some(status) => if status.terminal() {
                None
            } else {
                Some(RefusalReason::NonTerminalStatus)
            },
        }
    }
}

/// What a completed record says of an order.
pub open spec fn completed_facts(data: OrderData, status: NautilusOrderStatus) -> OrderFactsView {
    OrderFactsView {
        order_id: data.order_id,
        perm_id: data.order.perm_id,
        raw_status: data.order_state.status.wire_text(),
        status,
        filled: data.order.filled_quantity,
        order: Some(data.order),
        avg_px: None,
    }
}

/// The record is refused for `reason`.
pub open spec fn is_refused(
    outcome: Result<OrderStatusReport, CompletedOrderError>,
    data: OrderData,
    reason: RefusalReason,
) -> bool {
    outcome matches Err(e) && e.reason == reason && e.perm_id == data.order.perm_id && e.raw_status@
        == data.order_state.status.wire_text() && e.number@ == refused_number(data.order, reason)
}

/// The outcome of a completed record, given the pricing of its order.
pub open spec fn is_completed_outcome(
    outcome: Result<OrderStatusReport, CompletedOrderError>,
    data: OrderData,
    raw_account: Seq<char>,
    pricing: Result<PricingFields, NumberField>,
    context: ReportContext,
) -> bool {
    match evidence_refusal(data, raw_account) {
        Some(reason) => is_refused(outcome, data, reason),
        None => match pricing {
            Err(field) => is_refused(outcome, data, RefusalReason::Number(field)),
            Ok(pricing) => outcome matches Ok(report) && is_order_report(
                report,
                completed_facts(
                    data,
                    ib_status_of(data.order_state.status.wire_text())->0.normalized(),
                ),
                pricing,
                context,
            ),
        },
    }
}

fn refuse(data: &OrderData, reason: RefusalReason) -> (outcome: Result<
    OrderStatusReport,
    CompletedOrderError,
>)
    ensures
        is_refused(outcome, *data, reason),
{
    Err(
        CompletedOrderError {
            reason,
            perm_id: data.order.perm_id,
            raw_status: data.order_state.status.to_string(),
            number: read_number_text(&data.order, reason),
        },
    )
}

/// Reports on a completed record, given the pricing of its order.
pub fn completed_report_of(
    order_data: &OrderData,
    raw_account: &str,
    pricing: Result<PricingFields, NumberField>,
    context: &ReportContext,
) -> (outcome: Result<OrderStatusReport, CompletedOrderError>)
    ensures
        is_completed_outcome(outcome, *order_data, raw_account@, pricing, *context),
{
    let order = &order_data.order;
    if broker_perm_id(order.perm_id).is_none() {
        return refuse(order_data, RefusalReason::NotVenueIdentity);
    }
    if order.account.as_str().is_empty() {
        return refuse(order_data, RefusalReason::NoBrokerAccount);
    }
    if !text_eq(order.account.as_str(), raw_account) {
        return refuse(order_data, RefusalReason::ForeignBrokerAccount);
    }
    let has_client = match normalized_order_ref(order.order_ref.as_str()) {
        Some(base) => !base.is_empty(),
        None => false,
    };
    if !has_client {
        return refuse(order_data, RefusalReason::NoClientOrderRef);
    }
    let status = match IbOrderStatus::from_str(order_data.order_state.status.as_str()) {
        Some(status) => status,
        None => {
            return refuse(order_data, RefusalReason::UnmappableStatus);
        },
    };
    if !status.is_terminal() {
        return refuse(order_data, RefusalReason::NonTerminalStatus);
    }
    let pricing = match pricing {
        Ok(pricing) => pricing,
        Err(field) => {
            return refuse(order_data, RefusalReason::Number(field));
        },
    };
    let facts = OrderFacts {
        order_id: order_data.order_id,
        perm_id: order.perm_id,
        raw_status: order_data.order_state.status.as_str(),
        status: status.nautilus_status(),
        filled: &order.filled_quantity,
        order: Some(order),
        avg_px: None,
    };
    Ok(order_report_of(&facts, pricing, context))
}

/// Reports on a completed record.
///
/// `raw_account` is the broker's code of the configured account. A record is refused where it
/// carries no positive permanent identifier, where its account is absent or another one, where its
/// reference carries no client identity, and where its status is not known or not terminal.
pub fn parse_completed_order_to_report(
    order_data: &OrderData,
    raw_account: &str,
    context: &ReportContext,
) -> (outcome: Result<OrderStatusReport, CompletedOrderError>)
    ensures
        is_completed_outcome(
            outcome,
            *order_data,
            raw_account@,
            order_pricing(Some(order_data.order), context.instrument),
            *context,
        ),
        has_exact_offsets(order_data.order) ==> is_completed_outcome(
            outcome,
            *order_data,
            raw_account@,
            exact_pricing(Some(order_data.order), context.instrument),
            *context,
        ),
{
    let pricing = pricing_for(Some(&order_data.order), &context.instrument);
    completed_report_of(order_data, raw_account, pricing, context)
}

/// Every identity in the report on a completed record is the broker's: the venue identity is made
/// from a positive permanent identifier, the client identity from the reference, and the record
/// belongs to the configured account.
pub proof fn completed_identities_come_from_the_broker(
    report: OrderStatusReport,
    data: OrderData,
    raw_account: Seq<char>,
    pricing: Result<PricingFields, NumberField>,
    context: ReportContext,
)
    requires
        is_completed_outcome(Ok(report), data, raw_account, pricing, context),
    ensures
        data.order.perm_id > 0,
        report.venue_order_id@ == "PERM-"@ + int_text(data.order.perm_id as int),
        report.client_order_id matches Some(id) && id@.len() > 0 && client_identity(
            data.order.order_ref@,
        ) == Some(id@),
        data.order.account@.len() > 0,
        data.order.account@ == raw_account,
        report.account_id@ == context.account_id@,
        report.instrument_id == context.instrument_id,
        report.raw_order_status matches Some(raw) && raw@ == data.order_state.status.wire_text(),
{
}

/// The report on a completed record is closed with the status that the broker's word stands for,
/// however much of the order was filled.
pub proof fn completed_reports_are_terminal(
    report: OrderStatusReport,
    data: OrderData,
    raw_account: Seq<char>,
    pricing: Result<PricingFields, NumberField>,
    context: ReportContext,
)
    requires
        is_completed_outcome(Ok(report), data, raw_account, pricing, context),
    ensures
        report.order_status.closed(),
        report.order_status != NautilusOrderStatus::PartiallyFilled,
        ib_status_of(data.order_state.status.wire_text()) matches Some(status) && status.terminal()
            && report.order_status == status.normalized(),
{
    terminal_statuses_are_closed(ib_status_of(data.order_state.status.wire_text())->0);
}

/// A record with a permanent identifier that is not positive becomes no report.
pub proof fn records_without_venue_identity_are_refused(
    outcome: Result<OrderStatusReport, CompletedOrderError>,
    data: OrderData,
    raw_account: Seq<char>,
    pricing: Result<PricingFields, NumberField>,
    context: ReportContext,
)
    requires
        is_completed_outcome(outcome, data, raw_account, pricing, context),
        data.order.perm_id <= 0,
    ensures
        is_refused(outcome, data, RefusalReason::NotVenueIdentity),
{
}

} // verus!
