use nexus_core::{
    delegate, initialize, require_price, resolve, submit_intent, Delegate, DelegateParams,
    Initialize, InitializeParams, IntentParams, IntentState, NexusError, Position, ProtocolState,
    Pubkey, Resolve, ResolveParams, SubmitIntent, TradingSession, Vault, INTENT_OPEN,
    INTENT_RESOLVED, SIDE_LONG, SIDE_SHORT,
};

const PAIR: u128 = 0x534f4c2d50455250_0000000000000000;

fn key(n: u128) -> Pubkey {
    Pubkey::new(0, n)
}

fn protocol() -> ProtocolState {
    ProtocolState {
        authority: key(1),
        solver: key(9),
        vault: key(2),
        allowed_pair: PAIR,
        max_position_notional: 1_000_000,
        bump: 254,
    }
}

fn session() -> TradingSession {
    TradingSession {
        authority: key(5),
        session_signer: key(6),
        expires_slot: 1_000,
        max_position_notional: 500_000,
        spent_notional: 0,
        allowed_pair: PAIR,
        active: true,
        bump: 253,
    }
}

fn intent_params(side: u8) -> IntentParams {
    IntentParams {
        nonce: 7,
        pair: PAIR,
        side,
        size: 10,
        limit_price: 100,
        max_slippage_bps: 100,
        expires_slot: 900,
    }
}

fn submit_ctx(signer: Pubkey) -> SubmitIntent {
    SubmitIntent {
        trading_session: session(),
        trading_session_key: key(77),
        intent: IntentState::default(),
        signer,
        intent_bump: 250,
    }
}

fn open_intent(side: u8) -> IntentState {
    IntentState {
        owner: key(5),
        session: key(77),
        nonce: 7,
        pair: PAIR,
        side,
        size: 10,
        limit_price: 100,
        max_slippage_bps: 100,
        expires_slot: 900,
        status: INTENT_OPEN,
        solver: Pubkey::default(),
        execution_price: 0,
        filled_size: 0,
        bump: 250,
    }
}

fn resolve_ctx(side: u8) -> Resolve {
    Resolve {
        protocol: protocol(),
        vault: Vault {
            authority: key(1),
            lst_mint: key(3),
            total_lst_deposits: 0,
            hedge_base_position: 0,
            funding_collected: 0,
            bump: 252,
        },
        intent: open_intent(side),
        position: Position::default(),
        solver: key(9),
        position_bump: 251,
    }
}

fn fill(price: u64, oracle: u64, size: u64) -> ResolveParams {
    ResolveParams { execution_price: price, oracle_price: oracle, filled_size: size }
}

#[test]
fn initialize_sets_up_protocol_and_empty_vault() {
    let mut ctx = Initialize {
        protocol: ProtocolState::default(),
        vault: Vault::default(),
        vault_key: key(2),
        lst_mint: key(3),
        authority: key(1),
        protocol_bump: 254,
        vault_bump: 252,
    };
    initialize(
        &mut ctx,
        InitializeParams { solver: key(9), allowed_pair: PAIR, max_position_notional: 1_000_000 },
    );
    assert_eq!(ctx.protocol, protocol());
    assert_eq!(ctx.vault.authority, key(1));
    assert_eq!(ctx.vault.lst_mint, key(3));
    assert_eq!(ctx.vault.total_lst_deposits, 0);
    assert_eq!(ctx.vault.hedge_base_position, 0);
    assert_eq!(ctx.vault.funding_collected, 0);
    assert_eq!(ctx.vault.bump, 252);
}

fn delegate_ctx() -> Delegate {
    Delegate {
        protocol: protocol(),
        trading_session: TradingSession::default(),
        authority: key(5),
        trading_session_bump: 253,
    }
}

fn delegate_params() -> DelegateParams {
    DelegateParams {
        session_signer: key(6),
        ttl_slots: 900,
        max_position_notional: 500_000,
        allowed_pair: PAIR,
    }
}

#[test]
fn delegate_creates_active_session() {
    let mut ctx = delegate_ctx();
    assert_eq!(delegate(&mut ctx, delegate_params(), 100), Ok(()));
    assert_eq!(ctx.trading_session, session());
}

#[test]
fn delegate_refuses_other_pair() {
    let mut ctx = delegate_ctx();
    let before = ctx;
    let params = DelegateParams { allowed_pair: PAIR + 1, ..delegate_params() };
    assert_eq!(delegate(&mut ctx, params, 100), Err(NexusError::PairNotAllowed));
    assert_eq!(ctx, before);
}

#[test]
fn delegate_refuses_cap_above_protocol() {
    let mut ctx = delegate_ctx();
    let params = DelegateParams { max_position_notional: 1_000_001, ..delegate_params() };
    assert_eq!(delegate(&mut ctx, params, 100), Err(NexusError::PositionCapExceeded));
    let params = DelegateParams { max_position_notional: 1_000_000, ..delegate_params() };
    assert_eq!(delegate(&mut ctx, params, 100), Ok(()));
}

#[test]
fn delegate_refuses_expiry_overflow() {
    let mut ctx = delegate_ctx();
    let before = ctx;
    let params = DelegateParams { ttl_slots: 2, ..delegate_params() };
    assert_eq!(delegate(&mut ctx, params, u64::MAX - 1), Err(NexusError::MathOverflow));
    assert_eq!(ctx, before);
    let params = DelegateParams { ttl_slots: 1, ..delegate_params() };
    assert_eq!(delegate(&mut ctx, params, u64::MAX - 1), Ok(()));
    assert_eq!(ctx.trading_session.expires_slot, u64::MAX);
}

#[test]
fn submit_intent_records_open_intent_and_charges_session() {
    let mut ctx = submit_ctx(key(6));
    assert_eq!(submit_intent(&mut ctx, intent_params(SIDE_LONG), 100), Ok(()));
    assert_eq!(ctx.trading_session.spent_notional, 1_000);
    assert_eq!(ctx.intent, open_intent(SIDE_LONG));
    // The authority itself may also sign.
    let mut ctx = submit_ctx(key(5));
    assert_eq!(submit_intent(&mut ctx, intent_params(SIDE_SHORT), 900), Ok(()));
    assert_eq!(ctx.intent.side, SIDE_SHORT);
}

fn submit_err(ctx: SubmitIntent, params: IntentParams, slot: u64) -> NexusError {
    let mut c = ctx;
    let r = submit_intent(&mut c, params, slot);
    assert_eq!(c, ctx);
    r.unwrap_err()
}

#[test]
fn submit_intent_refusals() {
    let ctx = submit_ctx(key(6));
    let p = intent_params(SIDE_LONG);

    let inactive = SubmitIntent {
        trading_session: TradingSession { active: false, ..session() },
        ..ctx
    };
    assert_eq!(submit_err(inactive, p, 100), NexusError::SessionInactive);
    assert_eq!(submit_err(ctx, p, 1_001), NexusError::SessionExpired);
    assert_eq!(submit_err(ctx, p, 901), NexusError::IntentExpired);
    let late = IntentParams { expires_slot: 1_001, ..p };
    assert_eq!(submit_err(ctx, late, 100), NexusError::SessionExpired);
    let other_pair = IntentParams { pair: PAIR + 1, ..p };
    assert_eq!(submit_err(ctx, other_pair, 100), NexusError::PairNotAllowed);
    assert_eq!(submit_err(ctx, intent_params(2), 100), NexusError::InvalidSide);
    assert_eq!(submit_err(submit_ctx(key(8)), p, 100), NexusError::InvalidSessionSigner);
    let huge = IntentParams { size: u64::MAX, limit_price: 2, ..p };
    assert_eq!(submit_err(ctx, huge, 100), NexusError::MathOverflow);
    let nearly_spent = SubmitIntent {
        trading_session: TradingSession {
            spent_notional: u64::MAX - 10,
            max_position_notional: u64::MAX,
            ..session()
        },
        ..ctx
    };
    assert_eq!(submit_err(nearly_spent, p, 100), NexusError::MathOverflow);
    let over_cap = IntentParams { size: 5_001, ..p };
    assert_eq!(submit_err(ctx, over_cap, 100), NexusError::PositionCapExceeded);
}

#[test]
fn submit_intent_exactly_at_cap() {
    let mut ctx = submit_ctx(key(6));
    let p = IntentParams { size: 5_000, ..intent_params(SIDE_LONG) };
    assert_eq!(submit_intent(&mut ctx, p, 100), Ok(()));
    assert_eq!(ctx.trading_session.spent_notional, 500_000);
    let p = IntentParams { size: 1, limit_price: 1, ..intent_params(SIDE_LONG) };
    assert_eq!(submit_intent(&mut ctx, p, 100), Err(NexusError::PositionCapExceeded));
}

#[test]
fn session_budget_holds_over_many_submissions() {
    let mut ctx = submit_ctx(key(6));
    let mut accepted = 0u64;
    for i in 0..100u64 {
        let p = IntentParams { size: 1 + i * 37 % 900, ..intent_params(SIDE_LONG) };
        if submit_intent(&mut ctx, p, 100).is_ok() {
            accepted += p.size * p.limit_price;
        }
        assert!(ctx.trading_session.spent_notional <= ctx.trading_session.max_position_notional);
    }
    assert_eq!(ctx.trading_session.spent_notional, accepted);
}

#[test]
fn resolve_long_fill_opens_position() {
    let mut ctx = resolve_ctx(SIDE_LONG);
    assert_eq!(resolve(&mut ctx, fill(99, 100, 4), 500), Ok(()));
    assert_eq!(ctx.position.owner, key(5));
    assert_eq!(ctx.position.pair, PAIR);
    assert_eq!(ctx.position.base_position, 4);
    assert_eq!(ctx.position.quote_position, -396);
    assert_eq!(ctx.position.margin, 0);
    assert_eq!(ctx.position.last_price, 99);
    assert_eq!(ctx.position.bump, 251);
    assert_eq!(ctx.vault.hedge_base_position, -4);
    assert_eq!(ctx.intent.status, INTENT_RESOLVED);
    assert_eq!(ctx.intent.solver, key(9));
    assert_eq!(ctx.intent.execution_price, 99);
    assert_eq!(ctx.intent.filled_size, 4);
}

#[test]
fn resolve_short_fill_on_existing_position() {
    let mut ctx = resolve_ctx(SIDE_SHORT);
    ctx.position = Position {
        owner: key(5),
        pair: PAIR,
        base_position: 3,
        quote_position: -250,
        margin: 12,
        last_price: 80,
        bump: 251,
    };
    ctx.vault.hedge_base_position = -3;
    assert_eq!(resolve(&mut ctx, fill(101, 100, 10), 900), Ok(()));
    assert_eq!(ctx.position.base_position, -7);
    assert_eq!(ctx.position.quote_position, 760);
    assert_eq!(ctx.position.margin, 12);
    assert_eq!(ctx.position.last_price, 101);
    assert_eq!(ctx.vault.hedge_base_position, 7);
    // The owner's base plus the vault's hedge is unchanged.
    assert_eq!(ctx.position.base_position + ctx.vault.hedge_base_position, 0);
}

fn resolve_err(ctx: Resolve, params: ResolveParams, slot: u64) -> NexusError {
    let mut c = ctx;
    let r = resolve(&mut c, params, slot);
    assert_eq!(c, ctx);
    r.unwrap_err()
}

#[test]
fn resolve_refusals() {
    let ctx = resolve_ctx(SIDE_LONG);
    let ok = fill(100, 100, 4);
    let stranger = Resolve { solver: key(10), ..ctx };
    assert_eq!(resolve_err(stranger, ok, 500), NexusError::InvalidSolver);
    let done = Resolve { intent: IntentState { status: INTENT_RESOLVED, ..ctx.intent }, ..ctx };
    assert_eq!(resolve_err(done, ok, 500), NexusError::IntentAlreadyResolved);
    assert_eq!(resolve_err(ctx, ok, 901), NexusError::IntentExpired);
    assert_eq!(resolve_err(ctx, fill(100, 100, 0), 500), NexusError::InvalidFill);
    assert_eq!(resolve_err(ctx, fill(100, 100, 11), 500), NexusError::InvalidFill);
    let sideless = Resolve { intent: IntentState { side: 7, ..ctx.intent }, ..ctx };
    assert_eq!(resolve_err(sideless, ok, 500), NexusError::InvalidSide);
    assert_eq!(resolve_err(ctx, fill(101, 101, 4), 500), NexusError::PriceOutOfBounds);
    assert_eq!(resolve_err(ctx, fill(98, 100, 4), 500), NexusError::PriceOutOfBounds);
    let short = resolve_ctx(SIDE_SHORT);
    assert_eq!(resolve_err(short, fill(99, 99, 4), 500), NexusError::PriceOutOfBounds);
    assert_eq!(resolve_err(short, fill(102, 100, 4), 500), NexusError::PriceOutOfBounds);
}

#[test]
fn resolve_twice_is_refused() {
    let mut ctx = resolve_ctx(SIDE_LONG);
    assert_eq!(resolve(&mut ctx, fill(100, 100, 4), 500), Ok(()));
    let after = ctx;
    assert_eq!(resolve(&mut ctx, fill(100, 100, 4), 500), Err(NexusError::IntentAlreadyResolved));
    assert_eq!(ctx, after);
}

#[test]
fn resolve_overflow_refusals() {
    // The notional of the fill does not fit in a u64.
    let mut big = resolve_ctx(SIDE_LONG);
    big.intent.size = u64::MAX;
    big.intent.limit_price = u64::MAX;
    big.intent.max_slippage_bps = 0;
    assert_eq!(resolve_err(big, fill(u64::MAX, u64::MAX, 2), 500), NexusError::MathOverflow);
    // The oracle band's product does not fit in a u64.
    let mut wide = resolve_ctx(SIDE_LONG);
    wide.intent.limit_price = u64::MAX;
    wide.intent.max_slippage_bps = 2;
    assert_eq!(resolve_err(wide, fill(u64::MAX, u64::MAX, 1), 500), NexusError::MathOverflow);
    // The upper end of the band does not fit in a u64.
    let mut top = resolve_ctx(SIDE_LONG);
    top.intent.limit_price = u64::MAX;
    top.intent.max_slippage_bps = 1;
    assert_eq!(resolve_err(top, fill(u64::MAX, u64::MAX, 1), 500), NexusError::MathOverflow);
    // The new base position does not fit in an i64.
    let mut full = resolve_ctx(SIDE_LONG);
    full.position = Position { owner: key(5), base_position: i64::MAX, ..Position::default() };
    assert_eq!(resolve_err(full, fill(100, 100, 1), 500), NexusError::MathOverflow);
}

#[test]
fn resolve_reads_huge_fill_as_signed() {
    // A fill above i64::MAX is read as a negative signed amount.
    let mut ctx = resolve_ctx(SIDE_LONG);
    ctx.intent.size = u64::MAX;
    ctx.intent.limit_price = 0;
    ctx.vault.hedge_base_position = -1;
    let size = 1u64 << 63;
    assert_eq!(resolve(&mut ctx, fill(0, 0, size), 500), Ok(()));
    assert_eq!(ctx.position.base_position, i64::MIN);
    assert_eq!(ctx.vault.hedge_base_position, i64::MAX);
    assert_eq!(ctx.position.quote_position, 0);
}

#[test]
fn require_price_band_edges() {
    let intent = open_intent(SIDE_LONG);
    // band = 100 * 100 / 10000 = 1
    assert_eq!(require_price(&intent, &fill(99, 100, 1)), Ok(()));
    assert_eq!(require_price(&intent, &fill(100, 100, 1)), Ok(()));
    assert_eq!(require_price(&intent, &fill(100, 99, 1)), Err(NexusError::PriceOutOfBounds));
    assert_eq!(require_price(&intent, &fill(98, 100, 1)), Err(NexusError::PriceOutOfBounds));
    // A band wider than the oracle price floors the lower end at zero.
    let wide = IntentState { max_slippage_bps: 30_000, limit_price: 0, side: SIDE_SHORT, ..intent };
    assert_eq!(require_price(&wide, &fill(0, 10, 1)), Ok(()));
    assert_eq!(require_price(&wide, &fill(40, 10, 1)), Ok(()));
    assert_eq!(require_price(&wide, &fill(41, 10, 1)), Err(NexusError::PriceOutOfBounds));
    let sideless = IntentState { side: 2, ..intent };
    assert_eq!(require_price(&sideless, &fill(99, 100, 1)), Err(NexusError::InvalidSide));
}

#[test]
fn full_lifecycle() {
    let mut d = delegate_ctx();
    assert_eq!(delegate(&mut d, delegate_params(), 100), Ok(()));
    let mut s = SubmitIntent {
        trading_session: d.trading_session,
        trading_session_key: key(77),
        intent: IntentState::default(),
        signer: key(6),
        intent_bump: 250,
    };
    assert_eq!(submit_intent(&mut s, intent_params(SIDE_LONG), 120), Ok(()));
    let mut r = resolve_ctx(SIDE_LONG);
    r.intent = s.intent;
    assert_eq!(resolve(&mut r, fill(100, 100, 10), 130), Ok(()));
    assert_eq!(r.position.base_position, 10);
    assert_eq!(r.position.quote_position, -1_000);
    assert_eq!(r.vault.hedge_base_position, -10);
}

#[test]
fn error_messages() {
    assert_eq!(NexusError::SessionExpired.message(), "Session expired");
    assert_eq!(NexusError::PriceOutOfBounds.message(), "Execution price is outside the intent or oracle bounds");
    assert_eq!(NexusError::InvalidSolver.message(), "Only the configured solver can resolve intents");
    assert_eq!(NexusError::MathOverflow.message(), "Math overflow");
}
