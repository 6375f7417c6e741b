//! The trading model that reports and instruments are written in.

use vstd::prelude::*;

use crate::decimal::ExactDecimal;
use crate::wire::WireNumber;

verus! {

/// The side of an order.
#[derive(Debug, Clone, Copy, PartialEq, Eq, Structural)]
pub enum OrderSide {
    Buy,
    Sell,
}

/// The type of an order.
#[derive(Debug, Clone, Copy, PartialEq, Eq, Structural)]
pub enum OrderType {
    Market,
    Limit,
    StopMarket,
    StopLimit,
    MarketToLimit,
    MarketIfTouched,
    LimitIfTouched,
    TrailingStopMarket,
    TrailingStopLimit,
}

/// How long an order stays at work.
#[derive(Debug, Clone, Copy, PartialEq, Eq, Structural)]
pub enum TimeInForce {
    Gtc,
    Ioc,
    Fok,
    Gtd,
    Day,
    AtTheOpen,
}

/// The normalized status of an order.
#[derive(Debug, Clone, Copy, PartialEq, Eq, Structural)]
pub enum NautilusOrderStatus {
    Initialized,
    Denied,
    Emulated,
    Released,
    Submitted,
    Accepted,
    Rejected,
    Canceled,
    Expired,
    Triggered,
    PendingUpdate,
    PendingCancel,
    PartiallyFilled,
    Filled,
}

impl NautilusOrderStatus {
    /// No further change of status is possible.
    pub open spec fn closed(&self) -> bool {
        match self {
            NautilusOrderStatus::Denied => true,
            NautilusOrderStatus::Rejected => true,
            NautilusOrderStatus::Canceled => true,
            NautilusOrderStatus::Expired => true,
            NautilusOrderStatus::Filled => true,
            _ => false,
        }
    }

    /// Whether no further change of status is possible.
    pub fn is_closed(&self) -> (r: bool)
        ensures
            r == self.closed(),
    {
        match self {
            NautilusOrderStatus::Denied => true,
            NautilusOrderStatus::Rejected => true,
            NautilusOrderStatus::Canceled => true,
            NautilusOrderStatus::Expired => true,
            NautilusOrderStatus::Filled => true,
            _ => false,
        }
    }
}

/// The unit of a trailing offset.
#[derive(Debug, Clone, Copy, PartialEq, Eq, Structural)]
pub enum TrailingOffsetType {
    Price,
    BasisPoints,
}

/// Whether a fill added or took liquidity.
#[derive(Debug, Clone, Copy, PartialEq, Eq, Structural)]
pub enum LiquiditySide {
    NoLiquiditySide,
    Maker,
    Taker,
}

/// The class of the asset that an instrument stands for.
#[derive(Debug, Clone, Copy, PartialEq, Eq, Structural)]
pub enum AssetClass {
    FX,
    Equity,
    Commodity,
    Debt,
    Index,
}

/// The right that an option gives.
#[derive(Debug, Clone, Copy, PartialEq, Eq, Structural)]
pub enum OptionKind {
    Call,
    Put,
}

/// The identity of an instrument.
#[derive(Debug, PartialEq, Eq)]
pub struct InstrumentId {
    pub symbol: String,
    pub venue: String,
}

impl Clone for InstrumentId {
    fn clone(&self) -> (r: Self)
        ensures
            r == *self,
    {
        InstrumentId { symbol: self.symbol.clone(), venue: self.venue.clone() }
    }
}

/// A price: a number of the broker, times a magnifier, rounded to a precision.
#[derive(Debug, PartialEq, Eq)]
pub struct Price {
    pub native: WireNumber,
    pub magnifier: i32,
    pub precision: u8,
}

impl Clone for Price {
    fn clone(&self) -> (r: Self)
        ensures
            r == *self,
    {
        Price {
            native: self.native.clone(),
            magnifier: self.magnifier,
            precision: self.precision,
        }
    }
}

/// A quantity.
#[derive(Debug, PartialEq, Eq)]
pub enum Quantity {
    /// A number of the broker, rounded to a precision.
    Wire { value: WireNumber, precision: u8 },
    /// Zero, with a precision.
    Zero { precision: u8 },
    /// A whole number, with precision zero.
    Whole(u64),
    /// A number read from a decimal text, with the precision that it was written with.
    Parsed(ExactDecimal),
}

impl Clone for Quantity {
    fn clone(&self) -> (r: Self)
        ensures
            r == *self,
    {
        match self {
            Quantity::Wire { value, precision } => Quantity::Wire {
                value: value.clone(),
                precision: *precision,
            },
            Quantity::Zero { precision } => Quantity::Zero { precision: *precision },
            Quantity::Whole(n) => Quantity::Whole(*n),
            Quantity::Parsed(d) => Quantity::Parsed(*d),
        }
    }
}

impl Quantity {
    /// How many digits after the point a quantity has.
    pub open spec fn digits(&self) -> u32 {
        match self {
            Quantity::Wire { precision, .. } => *precision as u32,
            Quantity::Zero { precision } => *precision as u32,
            Quantity::Whole(_) => 0,
            Quantity::Parsed(d) => d.scale,
        }
    }

    /// How many digits after the point the quantity has.
    pub fn precision(&self) -> (r: u32)
        ensures
            r == self.digits(),
    {
        match self {
            Quantity::Wire { precision, .. } => *precision as u32,
            Quantity::Zero { precision } => *precision as u32,
            Quantity::Whole(_) => 0,
            Quantity::Parsed(d) => d.scale,
        }
    }
}

/// An amount of money.
#[derive(Debug, PartialEq, Eq)]
pub struct Money {
    /// The amount; `None` stands for zero.
    pub amount: Option<WireNumber>,
    /// The code of the currency.
    pub currency: String,
}

} // verus!
