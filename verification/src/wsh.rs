//! Wall Street Horizon calendar data.

use vstd::prelude::*;

verus! {

/// Metadata of the Wall Street Horizon service.
#[derive(Debug, PartialEq)]
pub struct WshMetadata {
    /// The metadata as JSON text.
    pub data_json: String,
}

impl Clone for WshMetadata {
    fn clone(&self) -> (r: Self)
        ensures
            r == *self,
    {
        WshMetadata { data_json: self.data_json.clone() }
    }
}

/// Calendar and corporate events of the Wall Street Horizon service.
#[derive(Debug, PartialEq)]
pub struct WshEventData {
    /// The events as JSON text.
    pub data_json: String,
}

impl Clone for WshEventData {
    fn clone(&self) -> (r: Self)
        ensures
            r == *self,
    {
        WshEventData { data_json: self.data_json.clone() }
    }
}

/// Which related securities a request for events draws in.
#[derive(Debug, Clone, Copy, PartialEq, Eq, Structural)]
pub struct AutoFill {
    /// Competitors of held positions.
    pub competitors: bool,
    /// The portfolio.
    pub portfolio: bool,
    /// The watchlist.
    pub watchlist: bool,
}

impl AutoFill {
    /// Whether any related securities are drawn in.
    pub fn is_specified(&self) -> (r: bool)
        ensures
            r == (self.competitors || self.portfolio || self.watchlist),
    {
        self.competitors || self.portfolio || self.watchlist
    }
}

impl Default for AutoFill {
    fn default() -> (r: Self)
        ensures
            !r.competitors && !r.portfolio && !r.watchlist,
    {
        AutoFill { competitors: false, portfolio: false, watchlist: false }
    }
}

} // verus!
