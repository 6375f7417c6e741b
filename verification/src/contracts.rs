//! Contracts as the broker describes them.

use vstd::prelude::*;

use crate::wire::WireNumber;

verus! {

/// The type of a security.
#[derive(Debug, Clone, Copy, PartialEq, Eq, Structural)]
pub enum SecurityType {
    Stock,
    Option,
    Future,
    Index,
    FuturesOption,
    ForexPair,
    Spread,
    Warrant,
    Bond,
    Commodity,
    News,
    MutualFund,
    Crypto,
    CFD,
    ContinuousFuture,
    Other,
}

/// The right of an option.
#[derive(Debug, Clone, Copy, PartialEq, Eq, Structural)]
pub enum OptionRight {
    Call,
    Put,
}

/// A contract.
#[derive(Debug)]
pub struct Contract {
    pub symbol: String,
    pub security_type: SecurityType,
    pub last_trade_date_or_contract_month: String,
    pub strike: WireNumber,
    pub right: Option<OptionRight>,
    pub multiplier: String,
    pub currency: String,
    pub local_symbol: String,
}

/// A contract with its trading rules.
#[derive(Debug)]
pub struct ContractDetails {
    pub contract: Contract,
    pub min_tick: WireNumber,
    pub min_size: WireNumber,
    pub size_increment: WireNumber,
    pub suggested_size_increment: WireNumber,
    pub price_magnifier: i32,
    pub under_symbol: String,
    pub under_security_type: String,
    /// The trading sessions, such as `20240411:0000-20240411:1800`.
    pub trading_hours: Vec<String>,
}

} // verus!
