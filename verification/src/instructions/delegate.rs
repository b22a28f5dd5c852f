use vstd::prelude::*;

use crate::error::NexusError;
use crate::keys::Pubkey;
use crate::state::{ProtocolState, TradingSession};

verus! {

/// What an authority grants when it delegates a trading session to a key.
#[derive(Clone, Copy, Debug, PartialEq, Eq, Structural)]
pub struct DelegateParams {
    pub session_signer: Pubkey,
    pub ttl_slots: u64,
    pub max_position_notional: u64,
    pub allowed_pair: u128,
}

/// The accounts that delegating a session reads and writes: the protocol's
/// configuration, the session account being created, the granting authority
/// and the new account's address bump.
#[derive(Clone, Copy, Debug, PartialEq, Eq, Structural)]
pub struct Delegate {
    pub protocol: ProtocolState,
    pub trading_session: TradingSession,
    pub authority: Pubkey,
    pub trading_session_bump: u8,
}

/// The outcome of delegating at `slot`: the pair must be the protocol's
/// pair, the cap must not exceed the protocol's cap, and `slot + ttl_slots`
/// must fit in a `u64`. The new session is active, has spent nothing, and
/// expires at `slot + ttl_slots`.
pub open spec fn delegate_outcome(ctx: Delegate, params: DelegateParams, slot: u64) -> Result<Delegate, NexusError> {
    if params.allowed_pair != ctx.protocol.allowed_pair {
        Err(NexusError::PairNotAllowed)
    } else if params.max_position_notional > ctx.protocol.max_position_notional {
        Err(NexusError::PositionCapExceeded)
    } else if slot + params.ttl_slots > u64::MAX {
        Err(NexusError::MathOverflow)
    } else {
        Ok(Delegate {
            trading_session: TradingSession {
                authority: ctx.authority,
                session_signer: params.session_signer,
                expires_slot: (slot + params.ttl_slots) as u64,
                max_position_notional: params.max_position_notional,
                spent_notional: 0,
                allowed_pair: params.allowed_pair,
                active: true,
                bump: ctx.trading_session_bump,
            },
            ..ctx
        })
    }
}

/// Delegates a scoped trading session at `slot`. On failure no account
/// changes.
pub fn delegate(ctx: &mut Delegate, params: DelegateParams, slot: u64) -> (r: Result<(), NexusError>)
    ensures
        match delegate_outcome(*old(ctx), params, slot) {
            Ok(next) => r is Ok && *final(ctx) == next,
            Err(e) => r == Err::<(), NexusError>(e) && *final(ctx) == *old(ctx),
        },
{
    if params.allowed_pair != ctx.protocol.allowed_pair {
        return Err(NexusError::PairNotAllowed);
    }
    if params.max_position_notional > ctx.protocol.max_position_notional {
        return Err(NexusError::PositionCapExceeded);
    }
    let expires_slot = match slot.checked_add(params.ttl_slots) {
        Some(v) => v,
        None => return Err(NexusError::MathOverflow),
    };
    ctx.trading_session = TradingSession {
        authority: ctx.authority,
        session_signer: params.session_signer,
        expires_slot,
        max_position_notional: params.max_position_notional,
        spent_notional: 0,
        allowed_pair: params.allowed_pair,
        active: true,
        bump: ctx.trading_session_bump,
    };
    Ok(())
}

} // verus!
