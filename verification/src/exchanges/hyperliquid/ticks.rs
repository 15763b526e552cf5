//! Hyperliquid price ticks and order-size steps, as numbers of decimal
//! places: a tick of `d` decimals is `10^-d`.
use vstd::prelude::*;

verus! {

/// The decimals of the tick of an asset whose sizes have `sz` decimals,
/// taken when no price is known: the observed ticks of BTC and ETH (one
/// decimal), SOL (four) and DOGE (five), else six minus the size decimals.
pub open spec fn base_tick_decimals(sz: u8) -> int {
    if sz == 5 || sz == 4 {
        1
    } else if sz == 2 {
        4
    } else if sz == 0 {
        5
    } else {
        6 - sz
    }
}

/// The decimals that five significant figures allow at a price whose
/// decimal magnitude (the floor of its base-10 logarithm) is `magnitude`;
/// `None` stands for a price below one, which allows four.
pub open spec fn significant_decimals(magnitude: Option<i32>) -> int {
    match magnitude {
        Some(m) => if m >= 4 { 0 } else if m >= 3 { 1 } else if m >= 2 { 2 } else if m >= 1 { 3 } else { 4 },
        None => 4,
    }
}

/// The decimals of the tick at a known price: the coarser of the two
/// limits, at most six minus the size decimals and five significant
/// figures.
pub open spec fn price_tick_decimals(sz: u8, magnitude: Option<i32>) -> int {
    let by_size = 6 - sz;
    let by_figures = significant_decimals(magnitude);
    if by_size <= by_figures { by_size } else { by_figures }
}

/// The tick decimals of an asset, as `base_tick_decimals` says.
pub fn tick_decimals(sz_decimals: u8) -> (r: i32)
    ensures
        r == base_tick_decimals(sz_decimals),
{
    if sz_decimals == 5 || sz_decimals == 4 {
        1
    } else if sz_decimals == 2 {
        4
    } else if sz_decimals == 0 {
        5
    } else {
        6 - sz_decimals as i32
    }
}

/// The tick decimals at a price of decimal magnitude `magnitude` (`None`
/// below one), as `price_tick_decimals` says.
pub fn tick_decimals_for_price(sz_decimals: u8, magnitude: Option<i32>) -> (r: i32)
    ensures
        r == price_tick_decimals(sz_decimals, magnitude),
        r <= 6 - sz_decimals,
        forall|m: i32| magnitude == Some(m) && 0 <= m <= 4 ==> r == (if 6 - sz_decimals <= 4 - m { 6 - sz_decimals } else { 4 - m }),
        forall|m: i32| magnitude == Some(m) && m >= 4 ==> r == (if 6 - sz_decimals <= 0 { 6 - sz_decimals } else { 0 }),
        magnitude is None ==> r == (if 6 - sz_decimals <= 4 { 6 - sz_decimals } else { 4 }),
{
    let by_size: i32 = 6 - sz_decimals as i32;
    let by_figures: i32 = match magnitude {
        Some(m) => if m >= 4 { 0 } else if m >= 3 { 1 } else if m >= 2 { 2 } else if m >= 1 { 3 } else { 4 },
        None => 4,
    };
    if by_size <= by_figures { by_size } else { by_figures }
}

/// A price's tick is never finer than the asset's decimal limit allows, nor
/// than five significant figures need.
pub proof fn lemma_price_tick_is_coarsest(sz: u8, magnitude: Option<i32>)
    ensures
        price_tick_decimals(sz, magnitude) <= 6 - sz,
        price_tick_decimals(sz, magnitude) <= significant_decimals(magnitude),
        price_tick_decimals(sz, magnitude) == 6 - sz || price_tick_decimals(sz, magnitude) == significant_decimals(magnitude),
{
}

/// A price of decimal magnitude `m` (from 0 up) has `m + 1` digits before
/// the point; its tick keeps at most five significant figures in all, and
/// exactly five up to a magnitude of four, whole units beyond. Below one
/// (`None`) four decimals are allowed.
pub proof fn lemma_five_significant_figures(m: i32)
    ensures
        0 <= m <= 4 ==> (m + 1) + significant_decimals(Some(m)) == 5,
        m >= 4 ==> significant_decimals(Some(m)) == 0,
        m >= 0 ==> (m + 1) + significant_decimals(Some(m)) >= 5,
        significant_decimals(None) == 4,
{
}

/// At a known price of magnitude `m` (from 0 up), the tick keeps the price
/// within five significant figures and within the asset's decimal limit, and
/// is the finer of the ticks those two limits allow.
pub proof fn lemma_price_tick_respects_both_limits(sz: u8, m: i32)
    requires
        m >= 0,
    ensures
        price_tick_decimals(sz, Some(m)) <= 6 - sz,
        (m + 1) + price_tick_decimals(sz, Some(m)) <= (if m >= 4 { m + 1 } else { 5 }),
        price_tick_decimals(sz, Some(m)) == 6 - sz
            || price_tick_decimals(sz, Some(m)) == (if m >= 4 { 0 } else { 4 - m }),
{
}

} // verus!
