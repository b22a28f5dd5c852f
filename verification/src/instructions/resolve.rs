use vstd::prelude::*;

use crate::error::NexusError;
use crate::keys::Pubkey;
use crate::state::{
    IntentState, Position, ProtocolState, ResolveParams, Vault, BPS_DENOMINATOR, INTENT_OPEN,
    INTENT_RESOLVED, SIDE_LONG, SIDE_SHORT,
};

verus! {

/// The accounts that resolving an intent reads and writes: the protocol's
/// configuration, the vault, the intent, the owner's position account for the
/// intent's pair (one that was never written holds the zero owner), the
/// resolving solver, and the position account's address bump.
#[derive(Clone, Copy, Debug, PartialEq, Eq, Structural)]
pub struct Resolve {
    pub protocol: ProtocolState,
    pub vault: Vault,
    pub intent: IntentState,
    pub position: Position,
    pub solver: Pubkey,
    pub position_bump: u8,
}

/// Whether `x` fits in an `i64`.
pub open spec fn fits_i64(x: int) -> bool {
    i64::MIN <= x <= i64::MAX
}

/// The signed value of the 64 bits of `x`, as a cast from `u64` to `i64`
/// reads them.
pub open spec fn wrap_i64(x: u64) -> int {
    if x <= i64::MAX {
        x as int
    } else {
        x - 0x1_0000_0000_0000_0000
    }
}

/// Whether `price` respects the intent's limit on the given side: a long
/// intent buys at or below its limit, a short intent sells at or above it.
pub open spec fn within_limit(side: u8, price: u64, limit: u64) -> bool {
    if side == SIDE_LONG {
        price <= limit
    } else {
        price >= limit
    }
}

/// Half-width of the oracle band: `oracle_price * max_slippage_bps / 10000`.
pub open spec fn oracle_band(oracle_price: u64, max_slippage_bps: u16) -> int {
    (oracle_price * max_slippage_bps) / 10_000
}

/// The outcome of the price checks on a fill: the side must be a trade side,
/// the price must respect the intent's limit, and it must lie in the oracle
/// band `[oracle - band, oracle + band]` (the lower end floored at zero). The
/// band and its upper end must fit in a `u64`.
pub open spec fn price_check(intent: IntentState, params: ResolveParams) -> Result<(), NexusError> {
    let band = oracle_band(params.oracle_price, intent.max_slippage_bps);
    if intent.side != SIDE_LONG && intent.side != SIDE_SHORT {
        Err(NexusError::InvalidSide)
    } else if !within_limit(intent.side, params.execution_price, intent.limit_price) {
        Err(NexusError::PriceOutOfBounds)
    } else if params.oracle_price * intent.max_slippage_bps > u64::MAX {
        Err(NexusError::MathOverflow)
    } else if params.oracle_price + band > u64::MAX {
        Err(NexusError::MathOverflow)
    } else if params.execution_price < params.oracle_price - band
        || params.execution_price > params.oracle_price + band {
        Err(NexusError::PriceOutOfBounds)
    } else {
        Ok(())
    }
}

/// The position as resolving sees it: a position account that was never
/// written is opened for the intent's owner and pair with empty balances.
pub open spec fn opened_position(ctx: Resolve) -> Position {
    if ctx.position.owner == Pubkey::zero() {
        Position {
            owner: ctx.intent.owner,
            pair: ctx.intent.pair,
            base_position: 0,
            quote_position: 0,
            margin: 0,
            bump: ctx.position_bump,
            ..ctx.position
        }
    } else {
        ctx.position
    }
}

/// The accounts after a fill that passed every check but the arithmetic:
/// a long fill adds the filled size to the owner's base position, takes
/// `filled_size * execution_price` from the quote position and moves the
/// vault's hedge the other way; a short fill does the opposite. Every amount
/// is the 64-bit signed reading of its unsigned value, and every new balance
/// must fit in an `i64`.
pub open spec fn settle(ctx: Resolve, params: ResolveParams) -> Result<Resolve, NexusError> {
    let position = opened_position(ctx);
    let long = ctx.intent.side == SIDE_LONG;
    let base_delta = wrap_i64(params.filled_size);
    if params.filled_size * params.execution_price > u64::MAX {
        Err(NexusError::MathOverflow)
    } else {
        let quote_delta = wrap_i64((params.filled_size * params.execution_price) as u64);
        let base = if long { position.base_position + base_delta } else { position.base_position - base_delta };
        let quote = if long { position.quote_position - quote_delta } else { position.quote_position + quote_delta };
        let hedge = if long {
            ctx.vault.hedge_base_position - base_delta
        } else {
            ctx.vault.hedge_base_position + base_delta
        };
        if !fits_i64(base) || !fits_i64(quote) || !fits_i64(hedge) {
            Err(NexusError::MathOverflow)
        } else {
            Ok(Resolve {
                position: Position {
                    base_position: base as i64,
                    quote_position: quote as i64,
                    last_price: params.execution_price,
                    ..position
                },
                vault: Vault { hedge_base_position: hedge as i64, ..ctx.vault },
                intent: IntentState {
                    status: INTENT_RESOLVED,
                    solver: ctx.solver,
                    execution_price: params.execution_price,
                    filled_size: params.filled_size,
                    ..ctx.intent
                },
                ..ctx
            })
        }
    }
}

/// The outcome of resolving an intent at `slot`: only the configured solver
/// may resolve, only an open intent, only up to its expiry slot, only with a
/// fill of `1..=size`, and only at a price that passes `price_check`.
pub open spec fn resolve_outcome(ctx: Resolve, params: ResolveParams, slot: u64) -> Result<Resolve, NexusError> {
    if ctx.solver != ctx.protocol.solver {
        Err(NexusError::InvalidSolver)
    } else if ctx.intent.status != INTENT_OPEN {
        Err(NexusError::IntentAlreadyResolved)
    } else if slot > ctx.intent.expires_slot {
        Err(NexusError::IntentExpired)
    } else if params.filled_size == 0 || params.filled_size > ctx.intent.size {
        Err(NexusError::InvalidFill)
    } else {
        match price_check(ctx.intent, params) {
            Err(e) => Err(e),
            Ok(_) => settle(ctx, params),
        }
    }
}

/// Reads the 64 bits of `x` as a signed integer.
fn wrapping_as_i64(x: u64) -> (r: i64)
    ensures
        r == wrap_i64(x),
{
    let r = x as i64;
    assert(r == (if x <= 0x7fff_ffff_ffff_ffffu64 { x as int } else { x - 0x1_0000_0000_0000_0000 }))
        by (bit_vector)
        requires
            r == x as i64,
    ;
    r
}

/// Checks a solver's prices against the intent: see `price_check`.
pub fn require_price(intent: &IntentState, params: &ResolveParams) -> (r: Result<(), NexusError>)
    ensures
        r == price_check(*intent, *params),
{
    if intent.side == SIDE_LONG {
        if params.execution_price > intent.limit_price {
            return Err(NexusError::PriceOutOfBounds);
        }
    } else if intent.side == SIDE_SHORT {
        if params.execution_price < intent.limit_price {
            return Err(NexusError::PriceOutOfBounds);
        }
    } else {
        return Err(NexusError::InvalidSide);
    }
    let scaled = match params.oracle_price.checked_mul(intent.max_slippage_bps as u64) {
        Some(v) => v,
        None => return Err(NexusError::MathOverflow),
    };
    let band = scaled / BPS_DENOMINATOR;
    let lower = params.oracle_price.saturating_sub(band);
    let upper = match params.oracle_price.checked_add(band) {
        Some(v) => v,
        None => return Err(NexusError::MathOverflow),
    };
    if params.execution_price >= lower && params.execution_price <= upper {
        Ok(())
    } else {
        Err(NexusError::PriceOutOfBounds)
    }
}

/// Resolves an intent at `slot` with a solver's fill.
///
/// On success the intent is marked resolved with the solver, price and size
/// of the fill, the owner's position (opened if it was never written) and the
/// vault's hedge are moved as `settle` says. On failure no account changes.
pub fn resolve(ctx: &mut Resolve, params: ResolveParams, slot: u64) -> (r: Result<(), NexusError>)
    ensures
        match resolve_outcome(*old(ctx), params, slot) {
            Ok(next) => r is Ok && *final(ctx) == next,
            Err(e) => r == Err::<(), NexusError>(e) && *final(ctx) == *old(ctx),
        },
{
    if ctx.solver != ctx.protocol.solver {
        return Err(NexusError::InvalidSolver);
    }
    if ctx.intent.status != INTENT_OPEN {
        return Err(NexusError::IntentAlreadyResolved);
    }
    if slot > ctx.intent.expires_slot {
        return Err(NexusError::IntentExpired);
    }
    if params.filled_size == 0 {
        return Err(NexusError::InvalidFill);
    }
    if params.filled_size > ctx.intent.size {
        return Err(NexusError::InvalidFill);
    }
    match require_price(&ctx.intent, &params) {
        Ok(()) => {},
        Err(e) => return Err(e),
    }

    let mut position = ctx.position;
    if position.owner == Pubkey::default() {
        position.owner = ctx.intent.owner;
        position.pair = ctx.intent.pair;
        position.base_position = 0;
        position.quote_position = 0;
        position.margin = 0;
        position.bump = ctx.position_bump;
    }

    let base_delta = wrapping_as_i64(params.filled_size);
    let notional = match params.filled_size.checked_mul(params.execution_price) {
        Some(v) => v,
        None => return Err(NexusError::MathOverflow),
    };
    let quote_delta = wrapping_as_i64(notional);

    let mut hedge = ctx.vault.hedge_base_position;
    if ctx.intent.side == SIDE_LONG {
        position.base_position = match position.base_position.checked_add(base_delta) {
            Some(v) => v,
            None => return Err(NexusError::MathOverflow),
        };
        position.quote_position = match position.quote_position.checked_sub(quote_delta) {
            Some(v) => v,
            None => return Err(NexusError::MathOverflow),
        };
        hedge = match hedge.checked_sub(base_delta) {
            Some(v) => v,
            None => return Err(NexusError::MathOverflow),
        };
    } else {
        position.base_position = match position.base_position.checked_sub(base_delta) {
            Some(v) => v,
            None => return Err(NexusError::MathOverflow),
        };
        position.quote_position = match position.quote_position.checked_add(quote_delta) {
            Some(v) => v,
            None => return Err(NexusError::MathOverflow),
        };
        hedge = match hedge.checked_add(base_delta) {
            Some(v) => v,
            None => return Err(NexusError::MathOverflow),
        };
    }

    position.last_price = params.execution_price;
    ctx.position = position;
    ctx.vault.hedge_base_position = hedge;
    ctx.intent.status = INTENT_RESOLVED;
    ctx.intent.solver = ctx.solver;
    ctx.intent.execution_price = params.execution_price;
    ctx.intent.filled_size = params.filled_size;
    Ok(())
}

} // verus!
