use vstd::prelude::*;

use crate::error::NexusError;
use crate::keys::Pubkey;
use crate::state::{IntentParams, IntentState, TradingSession, INTENT_OPEN, SIDE_LONG, SIDE_SHORT};

verus! {

/// The accounts that submitting an intent reads and writes: the session it
/// is charged to and that account's address, the intent account being
/// created, the signer of the request, and the new account's address bump.
#[derive(Clone, Copy, Debug, PartialEq, Eq, Structural)]
pub struct SubmitIntent {
    pub trading_session: TradingSession,
    pub trading_session_key: Pubkey,
    pub intent: IntentState,
    pub signer: Pubkey,
    pub intent_bump: u8,
}

/// The outcome of submitting an intent at `slot`. The session must be active
/// and unexpired, the intent unexpired and expiring no later than the
/// session, for the session's pair, on a trade side, and signed by the
/// session's authority or its delegated key. Its notional `size *
/// limit_price` is charged to the session, which may not go over its cap;
/// the notional and the new total must fit in a `u64`. The new intent is
/// open and unfilled.
pub open spec fn submit_intent_outcome(ctx: SubmitIntent, params: IntentParams, slot: u64) -> Result<SubmitIntent, NexusError> {
    let session = ctx.trading_session;
    let notional = params.size * params.limit_price;
    if !session.active {
        Err(NexusError::SessionInactive)
    } else if slot > session.expires_slot {
        Err(NexusError::SessionExpired)
    } else if slot > params.expires_slot {
        Err(NexusError::IntentExpired)
    } else if params.expires_slot > session.expires_slot {
        Err(NexusError::SessionExpired)
    } else if params.pair != session.allowed_pair {
        Err(NexusError::PairNotAllowed)
    } else if params.side != SIDE_LONG && params.side != SIDE_SHORT {
        Err(NexusError::InvalidSide)
    } else if ctx.signer != session.authority && ctx.signer != session.session_signer {
        Err(NexusError::InvalidSessionSigner)
    } else if notional > u64::MAX || session.spent_notional + notional > u64::MAX {
        Err(NexusError::MathOverflow)
    } else if session.spent_notional + notional > session.max_position_notional {
        Err(NexusError::PositionCapExceeded)
    } else {
        Ok(SubmitIntent {
            trading_session: TradingSession {
                spent_notional: (session.spent_notional + notional) as u64,
                ..session
            },
            intent: IntentState {
                owner: session.authority,
                session: ctx.trading_session_key,
                nonce: params.nonce,
                pair: params.pair,
                side: params.side,
                size: params.size,
                limit_price: params.limit_price,
                max_slippage_bps: params.max_slippage_bps,
                expires_slot: params.expires_slot,
                status: INTENT_OPEN,
                solver: Pubkey::zero(),
                execution_price: 0,
                filled_size: 0,
                bump: ctx.intent_bump,
            },
            ..ctx
        })
    }
}

/// Submits an intent at `slot` under a trading session. On failure no
/// account changes.
pub fn submit_intent(ctx: &mut SubmitIntent, params: IntentParams, slot: u64) -> (r: Result<(), NexusError>)
    ensures
        match submit_intent_outcome(*old(ctx), params, slot) {
            Ok(next) => r is Ok && *final(ctx) == next,
            Err(e) => r == Err::<(), NexusError>(e) && *final(ctx) == *old(ctx),
        },
{
    if !ctx.trading_session.active {
        return Err(NexusError::SessionInactive);
    }
    if slot > ctx.trading_session.expires_slot {
        return Err(NexusError::SessionExpired);
    }
    if slot > params.expires_slot {
        return Err(NexusError::IntentExpired);
    }
    if params.expires_slot > ctx.trading_session.expires_slot {
        return Err(NexusError::SessionExpired);
    }
    if params.pair != ctx.trading_session.allowed_pair {
        return Err(NexusError::PairNotAllowed);
    }
    if !(params.side == SIDE_LONG || params.side == SIDE_SHORT) {
        return Err(NexusError::InvalidSide);
    }
    let signed_by_owner = ctx.signer == ctx.trading_session.authority;
    let signed_by_session = ctx.signer == ctx.trading_session.session_signer;
    if !(signed_by_owner || signed_by_session) {
        return Err(NexusError::InvalidSessionSigner);
    }
    let notional = match params.size.checked_mul(params.limit_price) {
        Some(v) => v,
        None => return Err(NexusError::MathOverflow),
    };
    let next_spent = match ctx.trading_session.spent_notional.checked_add(notional) {
        Some(v) => v,
        None => return Err(NexusError::MathOverflow),
    };
    if next_spent > ctx.trading_session.max_position_notional {
        return Err(NexusError::PositionCapExceeded);
    }
    ctx.trading_session.spent_notional = next_spent;
    ctx.intent = IntentState {
        owner: ctx.trading_session.authority,
        session: ctx.trading_session_key,
        nonce: params.nonce,
        pair: params.pair,
        side: params.side,
        size: params.size,
        limit_price: params.limit_price,
        max_slippage_bps: params.max_slippage_bps,
        expires_slot: params.expires_slot,
        status: INTENT_OPEN,
        solver: Pubkey::default(),
        execution_price: 0,
        filled_size: 0,
        bump: ctx.intent_bump,
    };
    Ok(())
}

} // verus!
