//! Reports on orders and fills.

use vstd::prelude::*;

use crate::decimal::ExactDecimal;
use crate::model::{
    InstrumentId, LiquiditySide, Money, NautilusOrderStatus, OrderSide, OrderType, Price, Quantity,
    TimeInForce, TrailingOffsetType,
};

verus! {

/// A report on the status of an order.
#[derive(Debug, PartialEq, Eq)]
pub struct OrderStatusReport {
    pub account_id: String,
    pub instrument_id: InstrumentId,
    pub client_order_id: Option<String>,
    pub venue_order_id: String,
    pub order_side: OrderSide,
    pub order_type: OrderType,
    pub time_in_force: TimeInForce,
    pub order_status: NautilusOrderStatus,
    pub quantity: Quantity,
    pub filled_qty: Quantity,
    pub ts_accepted: u64,
    pub ts_last: u64,
    pub ts_init: u64,
    pub report_id: u128,
    /// The status as the broker worded it.
    pub raw_order_status: Option<String>,
    pub price: Option<Price>,
    pub trigger_price: Option<Price>,
    pub limit_offset: Option<ExactDecimal>,
    pub trailing_offset: Option<ExactDecimal>,
    pub trailing_offset_type: Option<TrailingOffsetType>,
    pub avg_px: Option<ExactDecimal>,
}

impl Clone for OrderStatusReport {
    fn clone(&self) -> (r: Self)
        ensures
            r == *self,
    {
        OrderStatusReport {
            account_id: self.account_id.clone(),
            instrument_id: self.instrument_id.clone(),
            client_order_id: match &self.client_order_id {
                Some(id) => Some(id.clone()),
                None => None,
            },
            venue_order_id: self.venue_order_id.clone(),
            order_side: self.order_side,
            order_type: self.order_type,
            time_in_force: self.time_in_force,
            order_status: self.order_status,
            quantity: self.quantity.clone(),
            filled_qty: self.filled_qty.clone(),
            ts_accepted: self.ts_accepted,
            ts_last: self.ts_last,
            ts_init: self.ts_init,
            report_id: self.report_id,
            raw_order_status: match &self.raw_order_status {
                Some(raw) => Some(raw.clone()),
                None => None,
            },
            price: match &self.price {
                Some(price) => Some(price.clone()),
                None => None,
            },
            trigger_price: match &self.trigger_price {
                Some(price) => Some(price.clone()),
                None => None,
            },
            limit_offset: self.limit_offset,
            trailing_offset: self.trailing_offset,
            trailing_offset_type: self.trailing_offset_type,
            avg_px: self.avg_px,
        }
    }
}

/// A report on a fill.
#[derive(Debug, PartialEq, Eq)]
pub struct FillReport {
    pub account_id: String,
    pub instrument_id: InstrumentId,
    pub venue_order_id: String,
    pub trade_id: String,
    pub order_side: OrderSide,
    pub last_qty: Quantity,
    pub last_px: Price,
    pub commission: Money,
    pub liquidity_side: LiquiditySide,
    pub client_order_id: Option<String>,
    pub ts_event: u64,
    pub ts_init: u64,
    pub report_id: u128,
    pub avg_px: Option<ExactDecimal>,
}

/// What the adapter knows of the instrument that an order is for.
#[derive(Debug, Clone, Copy, PartialEq, Eq, Structural)]
pub struct InstrumentFacts {
    /// The factor between the broker's prices and those of the model.
    pub price_magnifier: i32,
    /// The precisions of the instrument; `None` where it is not known.
    pub precisions: Option<Precisions>,
    /// Whether the instrument is a spread.
    pub is_spread: bool,
}

/// The precisions of an instrument.
#[derive(Debug, Clone, Copy, PartialEq, Eq, Structural)]
pub struct Precisions {
    pub size: u8,
    pub price: u8,
}

impl InstrumentFacts {
    /// The precision of quantities; zero where the instrument is not known.
    pub open spec fn size_precision_spec(&self) -> u8 {
        match self.precisions {
            Some(p) => p.size,
            None => 0,
        }
    }

    /// The precision of prices; zero where the instrument is not known.
    pub open spec fn price_precision_spec(&self) -> u8 {
        match self.precisions {
            Some(p) => p.price,
            None => 0,
        }
    }

    /// The precision of quantities.
    pub fn size_precision(&self) -> (r: u8)
        ensures
            r == self.size_precision_spec(),
    {
        match self.precisions {
            Some(p) => p.size,
            None => 0,
        }
    }

    /// The precision of prices.
    pub fn price_precision(&self) -> (r: u8)
        ensures
            r == self.price_precision_spec(),
    {
        match self.precisions {
            Some(p) => p.price,
            None => 0,
        }
    }
}

/// A number of the broker that had to be turned into a decimal.
#[derive(Debug, Clone, Copy, PartialEq, Eq, Structural)]
pub enum NumberField {
    AuxPrice,
    TrailingPercent,
    LimitPriceOffset,
    AverageFillPrice,
}

} // verus!
