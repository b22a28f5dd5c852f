use nexus_core::{
    auction_step, initial_quote, price_for_step, quote_for_step, side_is_short, SignedIntent,
    AUCTION_ROUNDS,
};

fn intent(side: &str, limit: u64) -> SignedIntent {
    SignedIntent {
        id: 0x1234_5678_9abc_def0_1234_5678_9abc_def0,
        owner: "owner".to_string(),
        session: "session".to_string(),
        pair: "SOL-PERP".to_string(),
        side: side.to_string(),
        size: 25,
        limit_price: limit,
        max_slippage_bps: 50,
        expires_slot: 1_000,
        signature: "sig".to_string(),
    }
}

#[test]
fn initial_quote_is_at_limit_for_full_size() {
    let i = intent("long", 100_000);
    let q = initial_quote(&i);
    assert_eq!(q.intent_id, i.id);
    assert_eq!(q.solver, "solver-local");
    assert_eq!(q.execution_price, 100_000);
    assert_eq!(q.filled_size, 25);
    assert_eq!(q.slot_hint, 999);
}

#[test]
fn slot_hint_saturates_at_zero() {
    let mut i = intent("long", 100_000);
    i.expires_slot = 0;
    assert_eq!(initial_quote(&i).slot_hint, 0);
}

#[test]
fn quotes_improve_by_basis_points_per_round() {
    let long = intent("long", 100_000);
    let short = intent("short", 100_000);
    assert_eq!(quote_for_step(&long, 3).execution_price, 99_970);
    assert_eq!(quote_for_step(&short, 3).execution_price, 100_030);
    // Any side text other than "short" is quoted as long.
    assert_eq!(quote_for_step(&intent("SHORT", 100_000), 3).execution_price, 99_970);
    // A small limit gets no improvement.
    assert_eq!(quote_for_step(&intent("long", 1_000), 5).execution_price, 1_000);
}

#[test]
fn side_text() {
    assert!(side_is_short(&"short".to_string()));
    assert!(!side_is_short(&"long".to_string()));
    assert!(!side_is_short(&"shorts".to_string()));
}

#[test]
fn prices_saturate() {
    assert_eq!(price_for_step(u64::MAX, true, 2), u64::MAX);
    // limit * step saturates at u64::MAX before dividing.
    assert_eq!(price_for_step(u64::MAX, false, 2), u64::MAX - u64::MAX / 10_000);
    // The improvement can exceed the limit; a long price stops at zero.
    assert_eq!(price_for_step(20_000, false, 20_000), 0);
}

#[test]
fn auction_rounds_move_only_the_price() {
    let i = intent("short", 200_000);
    let mut best = initial_quote(&i);
    let mut last = best.execution_price;
    for step in 1..=AUCTION_ROUNDS {
        auction_step(&i, &mut best, step);
        assert!(best.execution_price >= last);
        assert!(best.execution_price >= i.limit_price);
        last = best.execution_price;
    }
    assert_eq!(best.execution_price, 200_100);
    assert_eq!(best.filled_size, 25);
    assert_eq!(best.slot_hint, 999);
    assert_eq!(best.solver, "solver-local");
}

#[test]
fn long_auction_never_quotes_above_limit() {
    let i = intent("long", 3_000_000);
    let mut best = initial_quote(&i);
    let mut last = best.execution_price;
    for step in 1..=AUCTION_ROUNDS {
        auction_step(&i, &mut best, step);
        assert!(best.execution_price <= last);
        assert!(best.execution_price <= i.limit_price);
        last = best.execution_price;
    }
    assert_eq!(best.execution_price, 2_998_500);
}
