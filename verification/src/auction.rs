use vstd::prelude::*;

use crate::state::BPS_DENOMINATOR;

verus! {

/// An intent as the orchestrator receives it from an agent. The intent id is
/// the 128-bit value of its UUID.
#[derive(Clone, Debug)]
pub struct SignedIntent {
    pub id: u128,
    pub owner: String,
    pub session: String,
    pub pair: String,
    pub side: String,
    pub size: u64,
    pub limit_price: u64,
    pub max_slippage_bps: u16,
    pub expires_slot: u64,
    pub signature: String,
}

/// A solver's quote for an intent. The intent id is the 128-bit value of its
/// UUID.
#[derive(Clone, Debug)]
pub struct Quote {
    pub intent_id: u128,
    pub solver: String,
    pub execution_price: u64,
    pub filled_size: u64,
    pub slot_hint: u64,
}

/// The number of rounds in a solver auction.
pub const AUCTION_ROUNDS: u64 = 5;

/// The name under which the orchestrator's own solver quotes.
pub open spec fn local_solver_name() -> Seq<char> {
    "solver-local"@
}

/// Whether an intent's side text names the short side; any other text is
/// quoted as long.
pub open spec fn is_short_side(side: Seq<char>) -> bool {
    side == "short"@
}

/// `x * y`, saturated at `u64::MAX`.
pub open spec fn saturating_mul(x: u64, y: u64) -> int {
    if x * y > u64::MAX { u64::MAX as int } else { x * y }
}

/// The price improvement that round `step` offers on a limit price:
/// `limit * step` basis points of one unit, the product saturated at
/// `u64::MAX`.
pub open spec fn price_improvement(limit: u64, step: u64) -> int {
    saturating_mul(limit, step) / 10_000
}

/// The price quoted in round `step`: a short intent is offered its limit plus
/// the improvement (saturated at `u64::MAX`), a long intent its limit minus
/// the improvement (saturated at zero).
pub open spec fn round_price(limit: u64, short: bool, step: u64) -> int {
    let improvement = price_improvement(limit, step);
    if short {
        if limit + improvement > u64::MAX { u64::MAX as int } else { limit + improvement }
    } else {
        if limit - improvement < 0 { 0 } else { limit - improvement }
    }
}

/// The slot by which a quote should land: one before the intent expires,
/// saturated at zero.
pub open spec fn slot_hint_for(expires_slot: u64) -> int {
    if expires_slot == 0 { 0 } else { expires_slot - 1 }
}

/// Whether the intent's side text is the short side.
pub fn side_is_short(side: &String) -> (b: bool)
    ensures
        b == is_short_side(side@),
{
    let short = String::from_str("short");
    *side == short
}

/// The quote the auction starts from: the local solver fills the whole size
/// at the limit price.
pub fn initial_quote(intent: &SignedIntent) -> (q: Quote)
    ensures
        q.intent_id == intent.id,
        q.solver@ == local_solver_name(),
        q.execution_price == intent.limit_price,
        q.filled_size == intent.size,
        q.slot_hint == slot_hint_for(intent.expires_slot),
        intent.expires_slot > 0 ==> q.slot_hint + 1 == intent.expires_slot,
        intent.expires_slot == 0 ==> q.slot_hint == 0,
{
    Quote {
        intent_id: intent.id,
        solver: String::from_str("solver-local"),
        execution_price: intent.limit_price,
        filled_size: intent.size,
        slot_hint: intent.expires_slot.saturating_sub(1),
    }
}

/// The price offered in round `step` of the auction: see `round_price`.
pub fn price_for_step(limit: u64, short: bool, step: u64) -> (p: u64)
    ensures
        p == round_price(limit, short, step),
{
    let product = match limit.checked_mul(step) {
        Some(v) => v,
        None => u64::MAX,
    };
    let improvement = product / BPS_DENOMINATOR;
    if short {
        limit.saturating_add(improvement)
    } else {
        limit.saturating_sub(improvement)
    }
}

/// The quote offered in round `step`: the starting quote at that round's
/// price.
pub fn quote_for_step(intent: &SignedIntent, step: u64) -> (q: Quote)
    ensures
        q.intent_id == intent.id,
        q.solver@ == local_solver_name(),
        q.execution_price == round_price(intent.limit_price, is_short_side(intent.side@), step),
        q.filled_size == intent.size,
        q.slot_hint == slot_hint_for(intent.expires_slot),
        intent.expires_slot > 0 ==> q.slot_hint + 1 == intent.expires_slot,
        intent.expires_slot == 0 ==> q.slot_hint == 0,
{
    let mut q = initial_quote(intent);
    q.execution_price = price_for_step(intent.limit_price, side_is_short(&intent.side), step);
    q
}

/// One round of the auction: the best quote takes round `step`'s price and
/// keeps everything else.
pub fn auction_step(intent: &SignedIntent, best: &mut Quote, step: u64)
    ensures
        final(best).execution_price == round_price(intent.limit_price, is_short_side(intent.side@), step),
        final(best).intent_id == old(best).intent_id,
        final(best).solver@ == old(best).solver@,
        final(best).filled_size == old(best).filled_size,
        final(best).slot_hint == old(best).slot_hint,
{
    best.execution_price = price_for_step(intent.limit_price, side_is_short(&intent.side), step);
}

} // verus!
