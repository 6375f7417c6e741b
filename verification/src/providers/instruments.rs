//! Instruments.

use vstd::prelude::*;

use crate::decimal::ExactDecimal;
use crate::model::{AssetClass, InstrumentId, OptionKind, Price, Quantity};
use crate::params::Params;

verus! {

/// A share, or a bond held as one.
#[derive(Debug)]
pub struct Equity {
    pub instrument_id: InstrumentId,
    pub raw_symbol: String,
    pub currency: String,
    pub price_precision: u8,
    pub price_increment: Price,
    /// The smallest quantity of an order; where it is absent no quantity can be shown to be legal.
    pub min_quantity: Option<Quantity>,
    pub lot_size: Quantity,
    pub info: Params,
    pub ts_event: u64,
    pub ts_init: u64,
}

/// How many digits after the point a quantity of an equity has: equities are held in whole shares.
pub const EQUITY_SIZE_PRECISION: u32 = 0;

impl Equity {
    /// The class of the asset.
    pub fn asset_class(&self) -> (r: AssetClass)
        ensures
            r == AssetClass::Equity,
    {
        AssetClass::Equity
    }

    /// How many digits after the point a quantity has.
    pub fn size_precision(&self) -> (r: u32)
        ensures
            r == EQUITY_SIZE_PRECISION,
    {
        EQUITY_SIZE_PRECISION
    }
}

/// A pair of currencies.
#[derive(Debug)]
pub struct CurrencyPair {
    pub instrument_id: InstrumentId,
    pub raw_symbol: String,
    pub base_currency: String,
    pub quote_currency: String,
    pub price_precision: u8,
    pub size_precision: u8,
    pub price_increment: Price,
    pub size_increment: Quantity,
    pub info: Params,
    pub ts_event: u64,
    pub ts_init: u64,
}

/// A perpetual contract on a crypto currency.
#[derive(Debug)]
pub struct CryptoPerpetual {
    pub instrument_id: InstrumentId,
    pub raw_symbol: String,
    pub base_currency: String,
    pub quote_currency: String,
    pub settlement_currency: String,
    pub is_inverse: bool,
    pub price_precision: u8,
    pub size_precision: u8,
    pub price_increment: Price,
    pub size_increment: Quantity,
    pub min_quantity: Quantity,
    pub info: Params,
    pub ts_event: u64,
    pub ts_init: u64,
}

/// A future.
#[derive(Debug)]
pub struct FuturesContract {
    pub instrument_id: InstrumentId,
    pub raw_symbol: String,
    pub asset_class: AssetClass,
    pub underlying: &'static str,
    pub activation_ns: u64,
    pub expiration_ns: u64,
    pub currency: String,
    pub price_precision: u8,
    pub price_increment: Price,
    pub multiplier: Quantity,
    pub lot_size: Quantity,
    pub info: Params,
    pub ts_event: u64,
    pub ts_init: u64,
}

/// An option.
#[derive(Debug)]
pub struct OptionContract {
    pub instrument_id: InstrumentId,
    pub raw_symbol: String,
    pub asset_class: AssetClass,
    pub underlying: &'static str,
    pub option_kind: OptionKind,
    pub strike_price: Price,
    pub currency: String,
    pub activation_ns: u64,
    pub expiration_ns: u64,
    pub price_precision: u8,
    pub price_increment: Price,
    pub multiplier: Quantity,
    pub lot_size: Quantity,
    pub info: Params,
    pub ts_event: u64,
    pub ts_init: u64,
}

/// An index.
#[derive(Debug)]
pub struct IndexInstrument {
    pub instrument_id: InstrumentId,
    pub raw_symbol: String,
    pub currency: String,
    pub price_precision: u8,
    pub size_precision: u8,
    pub price_increment: Price,
    pub size_increment: Quantity,
    pub info: Params,
    pub ts_event: u64,
    pub ts_init: u64,
}

/// A contract for difference.
#[derive(Debug)]
pub struct Cfd {
    pub instrument_id: InstrumentId,
    pub raw_symbol: String,
    pub asset_class: AssetClass,
    pub base_currency: Option<String>,
    pub quote_currency: String,
    pub price_precision: u8,
    pub size_precision: u8,
    pub price_increment: Price,
    pub size_increment: Quantity,
    pub info: Params,
    pub ts_event: u64,
    pub ts_init: u64,
}

/// A commodity.
#[derive(Debug)]
pub struct Commodity {
    pub instrument_id: InstrumentId,
    pub raw_symbol: String,
    pub asset_class: AssetClass,
    pub quote_currency: String,
    pub price_precision: u8,
    pub size_precision: u8,
    pub price_increment: Price,
    pub size_increment: Quantity,
    pub info: Params,
    pub ts_event: u64,
    pub ts_init: u64,
}

/// A spread of several legs.
#[derive(Debug)]
pub struct SpreadContract {
    pub instrument_id: InstrumentId,
    pub raw_symbol: String,
    pub asset_class: AssetClass,
    pub underlying: &'static str,
    pub strategy_type: &'static str,
    pub activation_ns: u64,
    pub expiration_ns: u64,
    pub currency: String,
    pub price_precision: u8,
    pub price_increment: Price,
    pub multiplier: Quantity,
    pub lot_size: Quantity,
    pub margin_init: ExactDecimal,
    pub margin_maint: ExactDecimal,
    pub maker_fee: ExactDecimal,
    pub taker_fee: ExactDecimal,
    pub info: Option<Params>,
    pub ts_event: u64,
    pub ts_init: u64,
}

/// An instrument.
#[derive(Debug)]
pub enum InstrumentAny {
    Equity(Equity),
    CurrencyPair(CurrencyPair),
    CryptoPerpetual(CryptoPerpetual),
    FuturesContract(FuturesContract),
    OptionContract(OptionContract),
    IndexInstrument(IndexInstrument),
    Cfd(Cfd),
    Commodity(Commodity),
    OptionSpread(SpreadContract),
    FuturesSpread(SpreadContract),
}

} // verus!
