//! Properties that hold across the library's operations.

use vstd::prelude::*;

use crate::auction::{is_short_side, price_improvement, round_price, saturating_mul, slot_hint_for};
use crate::keys::Pubkey;
use crate::error::NexusError;
use crate::instructions::delegate::{delegate_outcome, Delegate, DelegateParams};
use crate::instructions::initialize::{initialize_outcome, Initialize, InitializeParams};
use crate::instructions::resolve::{
    opened_position, oracle_band, resolve_outcome, within_limit, Resolve,
};
use crate::instructions::submit_intent::{submit_intent_outcome, SubmitIntent};
use crate::state::{
    is_valid_side, IntentParams, IntentState, Position, ProtocolState, ResolveParams,
    TradingSession, Vault, INTENT_OPEN, INTENT_RESOLVED, SIDE_LONG, SIDE_SHORT,
};

verus! {

/// Whether a session has charged no more notional than its cap allows.
pub open spec fn within_budget(session: TradingSession) -> bool {
    session.spent_notional <= session.max_position_notional
}

/// The session-charging state after a sequence of submission requests, each
/// a pair of intent parameters and the slot it arrives at; a refused request
/// leaves the accounts as they were.
pub open spec fn after_submissions(ctx: SubmitIntent, requests: Seq<(IntentParams, u64)>) -> SubmitIntent
    decreases requests.len(),
{
    if requests.len() == 0 {
        ctx
    } else {
        let prev = after_submissions(ctx, requests.drop_last());
        let last = requests.last();
        match submit_intent_outcome(prev, last.0, last.1) {
            Ok(next) => next,
            Err(_) => prev,
        }
    }
}

/// A delegated session starts active and within budget, with a cap no larger
/// than the protocol's cap and an expiry `ttl_slots` after the slot it was
/// delegated at.
pub proof fn lemma_delegated_session_starts_within_budget(ctx: Delegate, params: DelegateParams, slot: u64)
    requires
        delegate_outcome(ctx, params, slot) is Ok,
    ensures
        ({
            let s = delegate_outcome(ctx, params, slot)->Ok_0.trading_session;
            &&& within_budget(s)
            &&& s.spent_notional == 0
            &&& s.active
            &&& s.max_position_notional <= ctx.protocol.max_position_notional
            &&& s.allowed_pair == ctx.protocol.allowed_pair
            &&& s.expires_slot == slot + params.ttl_slots
            &&& s.authority == ctx.authority
        }),
{
}

/// Submitting an intent keeps a session within its budget: an accepted
/// intent charges exactly its notional `size * limit_price`, never past the
/// cap, and leaves the rest of the session unchanged.
pub proof fn lemma_submit_keeps_budget(ctx: SubmitIntent, params: IntentParams, slot: u64)
    ensures
        submit_intent_outcome(ctx, params, slot) matches Ok(next) ==> {
            &&& within_budget(next.trading_session)
            &&& next.trading_session.spent_notional
                == ctx.trading_session.spent_notional + params.size * params.limit_price
            &&& next.trading_session == TradingSession {
                spent_notional: next.trading_session.spent_notional,
                ..ctx.trading_session
            }
        },
{
}

/// Whatever sequence of intents is submitted under a session that is within
/// its budget, it stays within its budget, its cap never changes, and the
/// notional it has charged never decreases.
pub proof fn lemma_submissions_keep_budget(ctx: SubmitIntent, requests: Seq<(IntentParams, u64)>)
    requires
        within_budget(ctx.trading_session),
    ensures
        within_budget(after_submissions(ctx, requests).trading_session),
        after_submissions(ctx, requests).trading_session.max_position_notional
            == ctx.trading_session.max_position_notional,
        after_submissions(ctx, requests).trading_session.spent_notional
            >= ctx.trading_session.spent_notional,
    decreases requests.len(),
{
    if requests.len() > 0 {
        lemma_submissions_keep_budget(ctx, requests.drop_last());
    }
}

/// A session delegated by the protocol never charges more notional than the
/// protocol's cap, whatever intents are later submitted under it.
pub proof fn lemma_delegated_session_bounded_by_protocol(
    ctx: Delegate,
    params: DelegateParams,
    slot: u64,
    submit: SubmitIntent,
    requests: Seq<(IntentParams, u64)>,
)
    requires
        delegate_outcome(ctx, params, slot) is Ok,
        submit.trading_session == delegate_outcome(ctx, params, slot)->Ok_0.trading_session,
    ensures
        after_submissions(submit, requests).trading_session.spent_notional
            <= ctx.protocol.max_position_notional,
{
    lemma_submissions_keep_budget(submit, requests);
}

/// An accepted intent is open and unfilled, belongs to the session's
/// authority, is for the session's pair on a trade side, and expires no
/// later than the session.
pub proof fn lemma_submitted_intent_is_open(ctx: SubmitIntent, params: IntentParams, slot: u64)
    ensures
        submit_intent_outcome(ctx, params, slot) matches Ok(next) ==> {
            &&& next.intent.status == INTENT_OPEN
            &&& next.intent.filled_size == 0
            &&& next.intent.owner == ctx.trading_session.authority
            &&& next.intent.pair == ctx.trading_session.allowed_pair
            &&& is_valid_side(next.intent.side)
            &&& slot <= next.intent.expires_slot <= ctx.trading_session.expires_slot
            &&& ctx.trading_session.active
        },
{
}

/// A fill that resolving accepts is by the configured solver, before the
/// intent expired, of `1..=size`, at a price that respects the intent's
/// limit and lies in the oracle band; afterwards the intent is resolved and
/// records that fill.
pub proof fn lemma_resolved_fill_is_bounded(ctx: Resolve, params: ResolveParams, slot: u64)
    ensures
        resolve_outcome(ctx, params, slot) matches Ok(next) ==> {
            let band = oracle_band(params.oracle_price, ctx.intent.max_slippage_bps);
            &&& ctx.solver == ctx.protocol.solver
            &&& slot <= ctx.intent.expires_slot
            &&& 0 < params.filled_size <= ctx.intent.size
            &&& within_limit(ctx.intent.side, params.execution_price, ctx.intent.limit_price)
            &&& params.oracle_price - band <= params.execution_price <= params.oracle_price + band
            &&& next.intent.status == INTENT_RESOLVED
            &&& next.intent.solver == ctx.solver
            &&& next.intent.execution_price == params.execution_price
            &&& next.intent.filled_size == params.filled_size
        },
{
}

/// The vault takes the other side of every fill: the owner's base position
/// plus the vault's hedge is the same before and after resolving.
pub proof fn lemma_resolve_conserves_base_exposure(ctx: Resolve, params: ResolveParams, slot: u64)
    ensures
        resolve_outcome(ctx, params, slot) matches Ok(next) ==>
            next.position.base_position + next.vault.hedge_base_position
                == opened_position(ctx).base_position + ctx.vault.hedge_base_position,
{
}

/// A long fill buys base for quote and a short fill sells it: where the size
/// and the notional `filled_size * execution_price` fit in an `i64`, the base
/// position moves by the filled size and the quote position the other way by
/// the notional.
pub proof fn lemma_fill_moves_position(ctx: Resolve, params: ResolveParams, slot: u64)
    requires
        params.filled_size <= i64::MAX,
        params.filled_size * params.execution_price <= i64::MAX,
    ensures
        resolve_outcome(ctx, params, slot) matches Ok(next) ==> {
            let before = opened_position(ctx);
            let notional = params.filled_size * params.execution_price;
            &&& ctx.intent.side == SIDE_LONG ==> {
                &&& next.position.base_position == before.base_position + params.filled_size
                &&& next.position.quote_position == before.quote_position - notional
            }
            &&& ctx.intent.side == SIDE_SHORT ==> {
                &&& next.position.base_position == before.base_position - params.filled_size
                &&& next.position.quote_position == before.quote_position + notional
            }
            &&& next.position.last_price == params.execution_price
            &&& next.position.owner == before.owner
        },
{
}

/// An intent is resolved at most once: once resolving succeeds, every later
/// attempt on that intent is refused, and by the configured solver with
/// `IntentAlreadyResolved`.
pub proof fn lemma_resolve_at_most_once(
    ctx: Resolve,
    params: ResolveParams,
    slot: u64,
    later: Resolve,
    later_params: ResolveParams,
    later_slot: u64,
)
    requires
        resolve_outcome(ctx, params, slot) is Ok,
        later.intent == resolve_outcome(ctx, params, slot)->Ok_0.intent,
    ensures
        resolve_outcome(later, later_params, later_slot) is Err,
        later.solver == later.protocol.solver ==> resolve_outcome(later, later_params, later_slot)
            == Err::<Resolve, NexusError>(NexusError::IntentAlreadyResolved),
{
}

/// Setting up the protocol stores the given configuration as it was given:
/// the protocol account holds the caller as authority, the given solver, pair
/// and cap, and the vault's address; the vault belongs to the caller, holds the
/// given mint, and starts with no deposits, no hedge and no funding.
pub proof fn lemma_initialize_stores_parameters(ctx: Initialize, params: InitializeParams)
    ensures
        ({
            let next = initialize_outcome(ctx, params);
            &&& next.protocol.authority == ctx.authority
            &&& next.protocol.solver == params.solver
            &&& next.protocol.allowed_pair == params.allowed_pair
            &&& next.protocol.max_position_notional == params.max_position_notional
            &&& next.protocol.vault == ctx.vault_key
            &&& next.protocol.bump == ctx.protocol_bump
            &&& next.vault.authority == ctx.authority
            &&& next.vault.lst_mint == ctx.lst_mint
            &&& next.vault.total_lst_deposits == 0
            &&& next.vault.hedge_base_position == 0
            &&& next.vault.funding_collected == 0
            &&& next.vault.bump == ctx.vault_bump
            &&& next.vault_key == ctx.vault_key
            &&& next.lst_mint == ctx.lst_mint
            &&& next.authority == ctx.authority
        }),
{
}

/// Delegation grants exactly what was asked: the new session's signer, cap
/// and pair are the requested ones, it belongs to the caller, has spent
/// nothing, is active and expires `ttl_slots` after `slot`; the protocol is
/// untouched. Delegation succeeds whenever the pair is the protocol's, the
/// cap is within the protocol's cap, and the expiry fits in a `u64`.
pub proof fn lemma_delegate_grants_request(ctx: Delegate, params: DelegateParams, slot: u64)
    ensures
        delegate_outcome(ctx, params, slot) matches Ok(next) ==> {
            &&& next.trading_session.session_signer == params.session_signer
            &&& next.trading_session.max_position_notional == params.max_position_notional
            &&& next.trading_session.allowed_pair == params.allowed_pair
            &&& next.trading_session.authority == ctx.authority
            &&& next.trading_session.spent_notional == 0
            &&& next.trading_session.active
            &&& next.trading_session.expires_slot == slot + params.ttl_slots
            &&& next.trading_session.bump == ctx.trading_session_bump
            &&& next.protocol == ctx.protocol
            &&& next.authority == ctx.authority
        },
        (params.allowed_pair == ctx.protocol.allowed_pair
            && params.max_position_notional <= ctx.protocol.max_position_notional
            && slot + params.ttl_slots <= u64::MAX) ==> delegate_outcome(ctx, params, slot) is Ok,
{
}

/// An accepted intent records the request's terms as they were asked: nonce,
/// pair, side, size, limit price, slippage and expiry; it belongs to the
/// session's authority and points at the session account, has no solver and
/// no fill yet.
pub proof fn lemma_submitted_intent_records_request(ctx: SubmitIntent, params: IntentParams, slot: u64)
    ensures
        submit_intent_outcome(ctx, params, slot) matches Ok(next) ==> {
            &&& next.intent.nonce == params.nonce
            &&& next.intent.pair == params.pair
            &&& next.intent.side == params.side
            &&& next.intent.size == params.size
            &&& next.intent.limit_price == params.limit_price
            &&& next.intent.max_slippage_bps == params.max_slippage_bps
            &&& next.intent.expires_slot == params.expires_slot
            &&& next.intent.owner == ctx.trading_session.authority
            &&& next.intent.session == ctx.trading_session_key
            &&& next.intent.status == INTENT_OPEN
            &&& next.intent.solver == Pubkey::zero()
            &&& next.intent.execution_price == 0
            &&& next.intent.filled_size == 0
            &&& next.intent.bump == ctx.intent_bump
            &&& next.trading_session_key == ctx.trading_session_key
            &&& next.signer == ctx.signer
        },
{
}

/// A fill applies to the position account as it was when that account has
/// an owner: owner, pair, margin and bump are kept, and where the size and
/// notional fit in an `i64` a long fill adds the size to the base position
/// and takes the notional from the quote position (a short fill the other
/// way). Only a never-written account (zero owner) is opened for the
/// intent's owner and pair with empty balances and margin.
pub proof fn lemma_fill_applies_to_existing_position(ctx: Resolve, params: ResolveParams, slot: u64)
    ensures
        resolve_outcome(ctx, params, slot) matches Ok(next) ==> {
            &&& next.position.last_price == params.execution_price
            &&& ctx.position.owner != Pubkey::zero() ==> {
                &&& next.position.owner == ctx.position.owner
                &&& next.position.pair == ctx.position.pair
                &&& next.position.margin == ctx.position.margin
                &&& next.position.bump == ctx.position.bump
                &&& (params.filled_size <= i64::MAX && params.filled_size * params.execution_price <= i64::MAX) ==> {
                    &&& ctx.intent.side == SIDE_LONG ==> {
                        &&& next.position.base_position == ctx.position.base_position + params.filled_size
                        &&& next.position.quote_position
                            == ctx.position.quote_position - params.filled_size * params.execution_price
                    }
                    &&& ctx.intent.side == SIDE_SHORT ==> {
                        &&& next.position.base_position == ctx.position.base_position - params.filled_size
                        &&& next.position.quote_position
                            == ctx.position.quote_position + params.filled_size * params.execution_price
                    }
                }
            }
            &&& ctx.position.owner == Pubkey::zero() ==> {
                &&& next.position.owner == ctx.intent.owner
                &&& next.position.pair == ctx.intent.pair
                &&& next.position.margin == 0
                &&& next.position.bump == ctx.position_bump
                &&& (params.filled_size <= i64::MAX && params.filled_size * params.execution_price <= i64::MAX) ==> {
                    &&& ctx.intent.side == SIDE_LONG ==> {
                        &&& next.position.base_position == params.filled_size
                        &&& next.position.quote_position == -(params.filled_size * params.execution_price)
                    }
                    &&& ctx.intent.side == SIDE_SHORT ==> {
                        &&& next.position.base_position == -params.filled_size
                        &&& next.position.quote_position == params.filled_size * params.execution_price
                    }
                }
            }
        },
{
    if params.filled_size <= i64::MAX && params.filled_size * params.execution_price <= i64::MAX {
        assert(0 <= params.filled_size * params.execution_price) by (nonlinear_arith);
    }
}

/// Resolving moves only what a fill moves: the vault's hedge changes by the
/// opposite of the owner's base change and nothing else in the vault changes;
/// the protocol, the solver and every term of the intent other than its
/// status, solver, price and fill are kept.
pub proof fn lemma_resolve_touches_only_the_fill(ctx: Resolve, params: ResolveParams, slot: u64)
    ensures
        resolve_outcome(ctx, params, slot) matches Ok(next) ==> {
            let before_base = if ctx.position.owner == Pubkey::zero() { 0 } else { ctx.position.base_position as int };
            &&& next.position.base_position + next.vault.hedge_base_position
                == before_base + ctx.vault.hedge_base_position
            &&& next.vault == Vault { hedge_base_position: next.vault.hedge_base_position, ..ctx.vault }
            &&& next.protocol == ctx.protocol
            &&& next.solver == ctx.solver
            &&& next.position_bump == ctx.position_bump
            &&& next.intent == IntentState {
                status: INTENT_RESOLVED,
                solver: ctx.solver,
                execution_price: params.execution_price,
                filled_size: params.filled_size,
                ..ctx.intent
            }
        },
{
}

/// Which refusal each instruction gives, in terms of its inputs: the first
/// failed condition in the program's order decides the error.
pub proof fn lemma_delegate_refusals(ctx: Delegate, params: DelegateParams, slot: u64)
    ensures
        params.allowed_pair != ctx.protocol.allowed_pair ==> delegate_outcome(ctx, params, slot)
            == Err::<Delegate, NexusError>(NexusError::PairNotAllowed),
        (params.allowed_pair == ctx.protocol.allowed_pair
            && params.max_position_notional > ctx.protocol.max_position_notional)
            ==> delegate_outcome(ctx, params, slot) == Err::<Delegate, NexusError>(NexusError::PositionCapExceeded),
        (params.allowed_pair == ctx.protocol.allowed_pair
            && params.max_position_notional <= ctx.protocol.max_position_notional
            && slot + params.ttl_slots > u64::MAX)
            ==> delegate_outcome(ctx, params, slot) == Err::<Delegate, NexusError>(NexusError::MathOverflow),
{
}

/// Submitting is refused, first to last: on an inactive session, after the
/// session's expiry, after the intent's expiry, for an intent outliving the
/// session, for another pair, for a non-trade side, for a signer that is
/// neither the authority nor the delegated key, and for a notional that
/// would pass the session's cap; and it succeeds otherwise when the
/// arithmetic fits.
pub proof fn lemma_submit_refusals(ctx: SubmitIntent, params: IntentParams, slot: u64)
    ensures
        ({
            let s = ctx.trading_session;
            let r = submit_intent_outcome(ctx, params, slot);
            &&& !s.active ==> r == Err::<SubmitIntent, NexusError>(NexusError::SessionInactive)
            &&& (s.active && slot > s.expires_slot) ==> r == Err::<SubmitIntent, NexusError>(NexusError::SessionExpired)
            &&& (s.active && slot <= s.expires_slot && slot > params.expires_slot)
                ==> r == Err::<SubmitIntent, NexusError>(NexusError::IntentExpired)
            &&& (s.active && slot <= params.expires_slot && params.expires_slot > s.expires_slot)
                ==> r == Err::<SubmitIntent, NexusError>(NexusError::SessionExpired)
            &&& (s.active && slot <= params.expires_slot && params.expires_slot <= s.expires_slot
                && params.pair != s.allowed_pair) ==> r == Err::<SubmitIntent, NexusError>(NexusError::PairNotAllowed)
            &&& (s.active && slot <= params.expires_slot && params.expires_slot <= s.expires_slot
                && params.pair == s.allowed_pair && !is_valid_side(params.side))
                ==> r == Err::<SubmitIntent, NexusError>(NexusError::InvalidSide)
            &&& (s.active && slot <= params.expires_slot && params.expires_slot <= s.expires_slot
                && params.pair == s.allowed_pair && is_valid_side(params.side)
                && ctx.signer != s.authority && ctx.signer != s.session_signer)
                ==> r == Err::<SubmitIntent, NexusError>(NexusError::InvalidSessionSigner)
            &&& (s.active && slot <= params.expires_slot && params.expires_slot <= s.expires_slot
                && params.pair == s.allowed_pair && is_valid_side(params.side)
                && (ctx.signer == s.authority || ctx.signer == s.session_signer)
                && s.spent_notional + params.size * params.limit_price <= s.max_position_notional)
                ==> r is Ok
            &&& r is Ok ==> s.spent_notional + params.size * params.limit_price <= s.max_position_notional
        }),
{
    assert(0 <= params.size * params.limit_price) by (nonlinear_arith);
}

/// Resolving is refused, first to last: for anyone but the configured
/// solver, for an intent that is not open, after the intent's expiry, and
/// for an empty fill or one larger than the intent; a fill whose price
/// breaks the intent's limit is refused as out of bounds.
pub proof fn lemma_resolve_refusals(ctx: Resolve, params: ResolveParams, slot: u64)
    ensures
        ({
            let r = resolve_outcome(ctx, params, slot);
            &&& ctx.solver != ctx.protocol.solver ==> r == Err::<Resolve, NexusError>(NexusError::InvalidSolver)
            &&& (ctx.solver == ctx.protocol.solver && ctx.intent.status != INTENT_OPEN)
                ==> r == Err::<Resolve, NexusError>(NexusError::IntentAlreadyResolved)
            &&& (ctx.solver == ctx.protocol.solver && ctx.intent.status == INTENT_OPEN
                && slot > ctx.intent.expires_slot) ==> r == Err::<Resolve, NexusError>(NexusError::IntentExpired)
            &&& (ctx.solver == ctx.protocol.solver && ctx.intent.status == INTENT_OPEN
                && slot <= ctx.intent.expires_slot
                && (params.filled_size == 0 || params.filled_size > ctx.intent.size))
                ==> r == Err::<Resolve, NexusError>(NexusError::InvalidFill)
            &&& (ctx.solver == ctx.protocol.solver && ctx.intent.status == INTENT_OPEN
                && slot <= ctx.intent.expires_slot && 0 < params.filled_size <= ctx.intent.size)
                ==> {
                &&& !is_valid_side(ctx.intent.side) ==> r == Err::<Resolve, NexusError>(NexusError::InvalidSide)
                &&& (ctx.intent.side == SIDE_LONG && params.execution_price > ctx.intent.limit_price)
                    ==> r == Err::<Resolve, NexusError>(NexusError::PriceOutOfBounds)
                &&& (ctx.intent.side == SIDE_SHORT && params.execution_price < ctx.intent.limit_price)
                    ==> r == Err::<Resolve, NexusError>(NexusError::PriceOutOfBounds)
            }
        }),
{
}

/// The auction quotes land one slot before the intent expires (at slot zero
/// when it expires at zero).
pub proof fn lemma_slot_hint_precedes_expiry(expires_slot: u64)
    ensures
        expires_slot > 0 ==> slot_hint_for(expires_slot) + 1 == expires_slot,
        expires_slot == 0 ==> slot_hint_for(expires_slot) == 0,
{
}

/// The auction's first round quotes at the limit, and where `limit * step`
/// fits in a `u64` and `step` is at most 10000, round `step` moves the price
/// by `improvement` units with `improvement * 10000 <= limit * step <
/// (improvement + 1) * 10000`: down for a long intent, up for a short one (a
/// short price capped at `u64::MAX`).
pub proof fn lemma_round_price_is_basis_points_of_limit(limit: u64, step: u64)
    ensures
        round_price(limit, false, 0) == limit,
        round_price(limit, true, 0) == limit,
        (limit * step <= u64::MAX && step <= 10_000) ==> {
            let down = limit - round_price(limit, false, step);
            &&& 0 <= down <= limit
            &&& down * 10_000 <= limit * step < (down + 1) * 10_000
        },
        (limit * step <= u64::MAX && step <= 10_000 && round_price(limit, true, step) < u64::MAX) ==> {
            let up = round_price(limit, true, step) - limit;
            &&& 0 <= up
            &&& up * 10_000 <= limit * step < (up + 1) * 10_000
        },
{
    assert(limit * 0 == 0);
    if limit * step <= u64::MAX && step <= 10_000 {
        let p = limit * step;
        assert(0 <= p) by (nonlinear_arith) requires limit >= 0, step >= 0, p == limit * step;
        assert(p <= limit * 10_000) by (nonlinear_arith) requires step <= 10_000, limit >= 0, p == limit * step;
        assert(saturating_mul(limit, step) == p);
        let i = p / 10_000;
        assert(i * 10_000 <= p < (i + 1) * 10_000) by (nonlinear_arith) requires i == p / 10_000, p >= 0;
        assert(i <= limit) by (nonlinear_arith) requires i == p / 10_000, p <= limit * 10_000, p >= 0;
        assert(price_improvement(limit, step) == i);
    }
}

/// Every price the auction quotes respects the intent's limit on its side:
/// a short intent is never quoted below its limit, a long one never above.
pub proof fn lemma_round_price_respects_limit(limit: u64, side: Seq<char>, step: u64)
    ensures
        is_short_side(side) ==> within_limit(SIDE_SHORT, round_price(limit, true, step) as u64, limit),
        !is_short_side(side) ==> within_limit(SIDE_LONG, round_price(limit, false, step) as u64, limit),
        0 <= round_price(limit, is_short_side(side), step) <= u64::MAX,
{
}

/// Later rounds of the auction never quote a worse price: a short intent's
/// price never falls and a long intent's never rises from one round to a
/// later one.
pub proof fn lemma_round_price_improves(limit: u64, short: bool, earlier: u64, later: u64)
    requires
        earlier <= later,
    ensures
        short ==> round_price(limit, short, earlier) <= round_price(limit, short, later),
        !short ==> round_price(limit, short, earlier) >= round_price(limit, short, later),
{
    vstd::arithmetic::mul::lemma_mul_inequality(earlier as int, later as int, limit as int);
    assert(limit * earlier == earlier * limit) by (nonlinear_arith);
    assert(limit * later == later * limit) by (nonlinear_arith);
    assert(saturating_mul(limit, earlier) <= saturating_mul(limit, later));
    vstd::arithmetic::div_mod::lemma_div_is_ordered(
        saturating_mul(limit, earlier),
        saturating_mul(limit, later),
        10_000,
    );
    assert(price_improvement(limit, earlier) <= price_improvement(limit, later));
}

} // verus!
