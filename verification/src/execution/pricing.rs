//! Trigger prices and offsets of an order.

use vstd::prelude::*;

use crate::decimal::{
    decimal_fits, decimal_product, exactly_read, multiplied, parsed_decimal, plain_value,
    ExactDecimal,
};
use crate::model::{OrderType, Price, TrailingOffsetType};
use crate::orders::Order;
use crate::reports::NumberField;
use crate::wire::WireNumber;

verus! {

/// The pricing of an order beside its limit price.
#[derive(Debug)]
pub struct PricingFields {
    pub trigger_price: Option<Price>,
    pub limit_offset: Option<ExactDecimal>,
    pub trailing_offset: Option<ExactDecimal>,
    pub trailing_offset_type: Option<TrailingOffsetType>,
}

/// The decimals of an order's offsets; each is `None` where the order has no such offset or where
/// it has no decimal.
#[derive(Debug, Clone, Copy, PartialEq, Eq, Structural)]
pub struct OffsetDecimals {
    /// The auxiliary price.
    pub aux_price: Option<ExactDecimal>,
    /// The trailing percentage in basis points.
    pub basis_points: Option<ExactDecimal>,
    /// The offset of the limit price.
    pub limit_price_offset: Option<ExactDecimal>,
}

/// An order that trails the market.
pub open spec fn trailing(order_type: OrderType) -> bool {
    order_type == OrderType::TrailingStopMarket || order_type == OrderType::TrailingStopLimit
}

/// A broker price in the model.
pub open spec fn scaled_price(
    native: Option<WireNumber>,
    magnifier: i32,
    precision: u8,
) -> Option<Price> {
    match native {
        Some(native) => Some(Price { native, magnifier, precision }),
        None => None,
    }
}

/// The offset that an order trails by, with its unit: the auxiliary price where there is one, and
/// otherwise the trailing percentage.
pub open spec fn trailing_offset_of(order: Order, decimals: OffsetDecimals) -> Result<
    Option<(ExactDecimal, TrailingOffsetType)>,
    NumberField,
> {
    if order.aux_price is Some {
        match decimals.aux_price {
            Some(d) => Ok(Some((d, TrailingOffsetType::Price))),
            None => Err(NumberField::AuxPrice),
        }
    } else if order.trailing_percent is Some {
        match decimals.basis_points {
            Some(d) => Ok(Some((d, TrailingOffsetType::BasisPoints))),
            None => Err(NumberField::TrailingPercent),
        }
    } else {
        Ok(None)
    }
}

/// The offset of the limit price, which only a trailing limit order has.
pub open spec fn limit_offset_of(
    order: Order,
    order_type: OrderType,
    decimals: OffsetDecimals,
) -> Result<Option<ExactDecimal>, NumberField> {
    if order_type == OrderType::TrailingStopLimit && order.limit_price_offset is Some {
        match decimals.limit_price_offset {
            Some(d) => Ok(Some(d)),
            None => Err(NumberField::LimitPriceOffset),
        }
    } else {
        Ok(None)
    }
}

/// The pricing of an order, given the decimals of its offsets.
pub open spec fn pricing_of(
    order: Order,
    order_type: OrderType,
    magnifier: i32,
    precision: u8,
    decimals: OffsetDecimals,
) -> Result<PricingFields, NumberField> {
    if !trailing(order_type) {
        Ok(
            PricingFields {
                trigger_price: scaled_price(order.aux_price, magnifier, precision),
                limit_offset: None,
                trailing_offset: None,
                trailing_offset_type: None,
            },
        )
    } else {
        match (
            trailing_offset_of(order, decimals),
            limit_offset_of(order, order_type, decimals),
        ) {
            (Err(field), _) => Err(field),
            (_, Err(field)) => Err(field),
            (Ok(offset), Ok(limit_offset)) => Ok(
                PricingFields {
                    trigger_price: scaled_price(order.trail_stop_price, magnifier, precision),
                    limit_offset,
                    trailing_offset: match offset {
                        Some((d, _)) => Some(d),
                        None => None,
                    },
                    trailing_offset_type: match (offset, limit_offset) {
                        (Some((_, unit)), _) => Some(unit),
                        (None, Some(_)) => Some(TrailingOffsetType::Price),
                        (None, None) => None,
                    },
                },
            ),
        }
    }
}

/// How many basis points are a percent.
pub const BASIS_POINTS_PER_PERCENT: u32 = 100;

/// The decimal of an optional number.
pub open spec fn decimal_of(value: Option<WireNumber>) -> Option<ExactDecimal> {
    match value {
        Some(value) => parsed_decimal(value.text@),
        None => None,
    }
}

/// The basis points of an optional percentage.
pub open spec fn basis_points_of(value: Option<WireNumber>) -> Option<ExactDecimal> {
    match decimal_of(value) {
        Some(d) => decimal_product(d.mantissa as int, d.scale as nat, BASIS_POINTS_PER_PERCENT),
        None => None,
    }
}

/// The decimals of an order's offsets.
pub open spec fn offset_decimals_of(order: Order) -> OffsetDecimals {
    OffsetDecimals {
        aux_price: decimal_of(order.aux_price),
        basis_points: basis_points_of(order.trailing_percent),
        limit_price_offset: decimal_of(order.limit_price_offset),
    }
}

/// The decimal that the rendering of an optional number denotes digit for digit.
pub open spec fn digits_of_number(value: Option<WireNumber>) -> Option<ExactDecimal> {
    match value {
        Some(value) => plain_value(value.text@),
        None => None,
    }
}

/// The basis points of a percentage, where their digits fit.
pub open spec fn exact_basis_points(d: Option<ExactDecimal>) -> Option<ExactDecimal> {
    match d {
        Some(d) => if d.mantissa == 0 {
            Some(ExactDecimal { mantissa: 0, scale: 0 })
        } else if decimal_fits(d.mantissa * BASIS_POINTS_PER_PERCENT, d.scale as nat) {
            Some(
                ExactDecimal {
                    mantissa: (d.mantissa * BASIS_POINTS_PER_PERCENT) as i128,
                    scale: d.scale,
                },
            )
        } else {
            None
        },
        None => None,
    }
}

/// The decimals that the renderings of an order's offsets denote digit for digit.
pub open spec fn exact_offsets_of(order: Order) -> OffsetDecimals {
    OffsetDecimals {
        aux_price: digits_of_number(order.aux_price),
        basis_points: exact_basis_points(digits_of_number(order.trailing_percent)),
        limit_price_offset: digits_of_number(order.limit_price_offset),
    }
}

/// Every offset that an order has denotes a decimal digit for digit.
pub open spec fn has_exact_offsets(order: Order) -> bool {
    let offsets = exact_offsets_of(order);
    &&& order.aux_price is Some ==> offsets.aux_price is Some
    &&& order.trailing_percent is Some ==> offsets.basis_points is Some
    &&& order.limit_price_offset is Some ==> offsets.limit_price_offset is Some
}

/// The decimal of a number, read from its shortest rendering.
pub(crate) fn decimal_from_number(value: &Option<WireNumber>) -> (r: Option<ExactDecimal>)
    ensures
        r == decimal_of(*value),
        r matches Some(d) ==> d.fits(),
        digits_of_number(*value) is Some ==> r == digits_of_number(*value),
{
    match value {
        Some(value) => exactly_read(value.text.as_str()),
        None => None,
    }
}

fn offset_decimals(order: &Order) -> (r: OffsetDecimals)
    ensures
        r == offset_decimals_of(*order),
        has_exact_offsets(*order) ==> r == exact_offsets_of(*order),
{
    let basis_points = match decimal_from_number(&order.trailing_percent) {
        Some(d) => multiplied(d, BASIS_POINTS_PER_PERCENT),
        None => None,
    };
    OffsetDecimals {
        aux_price: decimal_from_number(&order.aux_price),
        basis_points,
        limit_price_offset: decimal_from_number(&order.limit_price_offset),
    }
}

fn scale_price(native: &Option<WireNumber>, magnifier: i32, precision: u8) -> (r: Option<Price>)
    ensures
        r == scaled_price(*native, magnifier, precision),
{
    match native {
        Some(native) => Some(Price { native: native.clone(), magnifier, precision }),
        None => None,
    }
}

/// The pricing of an order, given the decimals of its offsets.
pub fn pricing_fields_of(
    order: &Order,
    order_type: OrderType,
    magnifier: i32,
    precision: u8,
    decimals: OffsetDecimals,
) -> (r: Result<PricingFields, NumberField>)
    ensures
        r == pricing_of(*order, order_type, magnifier, precision, decimals),
{
    if order_type == OrderType::TrailingStopMarket || order_type == OrderType::TrailingStopLimit {
        let trigger_price = scale_price(&order.trail_stop_price, magnifier, precision);
        let mut trailing_offset: Option<ExactDecimal> = None;
        let mut trailing_offset_type: Option<TrailingOffsetType> = None;
        let mut limit_offset: Option<ExactDecimal> = None;
        if order.aux_price.is_some() {
            if decimals.aux_price.is_none() {
                return Err(NumberField::AuxPrice);
            }
            trailing_offset = decimals.aux_price;
            trailing_offset_type = Some(TrailingOffsetType::Price);
        } else if order.trailing_percent.is_some() {
            if decimals.basis_points.is_none() {
                return Err(NumberField::TrailingPercent);
            }
            trailing_offset = decimals.basis_points;
            trailing_offset_type = Some(TrailingOffsetType::BasisPoints);
        }
        if order_type == OrderType::TrailingStopLimit && order.limit_price_offset.is_some() {
            if decimals.limit_price_offset.is_none() {
                return Err(NumberField::LimitPriceOffset);
            }
            limit_offset = decimals.limit_price_offset;
            if trailing_offset_type.is_none() {
                trailing_offset_type = Some(TrailingOffsetType::Price);
            }
        }
        Ok(PricingFields { trigger_price, limit_offset, trailing_offset, trailing_offset_type })
    } else {
        Ok(
            PricingFields {
                trigger_price: scale_price(&order.aux_price, magnifier, precision),
                limit_offset: None,
                trailing_offset: None,
                trailing_offset_type: None,
            },
        )
    }
}

/// The pricing of an order.
pub fn parse_ib_order_pricing_fields(
    order: &Order,
    order_type: OrderType,
    price_magnifier: i32,
    price_precision: u8,
) -> (r: Result<PricingFields, NumberField>)
    ensures
        r == pricing_of(
            *order,
            order_type,
            price_magnifier,
            price_precision,
            offset_decimals_of(*order),
        ),
        has_exact_offsets(*order) ==> r == pricing_of(
            *order,
            order_type,
            price_magnifier,
            price_precision,
            exact_offsets_of(*order),
        ),
{
    pricing_fields_of(order, order_type, price_magnifier, price_precision, offset_decimals(order))
}

} // verus!
