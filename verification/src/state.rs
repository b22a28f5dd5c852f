use vstd::prelude::*;

use crate::keys::Pubkey;

verus! {

/// Side code of an intent that buys the base asset.
pub const SIDE_LONG: u8 = 0;

/// Side code of an intent that sells the base asset.
pub const SIDE_SHORT: u8 = 1;

/// Status of an intent that waits for a solver.
pub const INTENT_OPEN: u8 = 0;

/// Status of an intent that a solver has filled.
pub const INTENT_RESOLVED: u8 = 1;

/// Basis points in one whole.
pub const BPS_DENOMINATOR: u64 = 10_000;

/// Whether `side` is one of the two trade sides.
pub open spec fn is_valid_side(side: u8) -> bool {
    side == SIDE_LONG || side == SIDE_SHORT
}

/// What an agent asks for when it submits an intent. An asset pair is its
/// 16-byte identifier read as a big-endian integer.
#[derive(Clone, Copy, Debug, PartialEq, Eq, Structural)]
pub struct IntentParams {
    pub nonce: u64,
    pub pair: u128,
    pub side: u8,
    pub size: u64,
    pub limit_price: u64,
    pub max_slippage_bps: u16,
    pub expires_slot: u64,
}

/// What a solver reports when it resolves an intent.
#[derive(Clone, Copy, Debug, PartialEq, Eq, Structural)]
pub struct ResolveParams {
    pub execution_price: u64,
    pub oracle_price: u64,
    pub filled_size: u64,
}

/// The account that records one submitted intent.
#[derive(Clone, Copy, Debug, PartialEq, Eq, Structural)]
pub struct IntentState {
    pub owner: Pubkey,
    pub session: Pubkey,
    pub nonce: u64,
    pub pair: u128,
    pub side: u8,
    pub size: u64,
    pub limit_price: u64,
    pub max_slippage_bps: u16,
    pub expires_slot: u64,
    pub status: u8,
    pub solver: Pubkey,
    pub execution_price: u64,
    pub filled_size: u64,
    pub bump: u8,
}

/// The account that holds one owner's position in one pair.
#[derive(Clone, Copy, Debug, PartialEq, Eq, Structural)]
pub struct Position {
    pub owner: Pubkey,
    pub pair: u128,
    pub base_position: i64,
    pub quote_position: i64,
    pub margin: u64,
    pub last_price: u64,
    pub bump: u8,
}

/// The account of a trading session that an authority delegated to a key.
#[derive(Clone, Copy, Debug, PartialEq, Eq, Structural)]
pub struct TradingSession {
    pub authority: Pubkey,
    pub session_signer: Pubkey,
    pub expires_slot: u64,
    pub max_position_notional: u64,
    pub spent_notional: u64,
    pub allowed_pair: u128,
    pub active: bool,
    pub bump: u8,
}

/// The account of the protocol's configuration.
#[derive(Clone, Copy, Debug, PartialEq, Eq, Structural)]
pub struct ProtocolState {
    pub authority: Pubkey,
    pub solver: Pubkey,
    pub vault: Pubkey,
    pub allowed_pair: u128,
    pub max_position_notional: u64,
    pub bump: u8,
}

/// The account of the protocol's vault, which takes the opposite side of
/// every fill.
#[derive(Clone, Copy, Debug, PartialEq, Eq, Structural)]
pub struct Vault {
    pub authority: Pubkey,
    pub lst_mint: Pubkey,
    pub total_lst_deposits: u64,
    pub hedge_base_position: i64,
    pub funding_collected: i64,
    pub bump: u8,
}

impl Position {
    /// A position account as it is before anything was written to it.
    pub open spec fn zeroed() -> Position {
        Position {
            owner: Pubkey::zero(),
            pair: 0,
            base_position: 0,
            quote_position: 0,
            margin: 0,
            last_price: 0,
            bump: 0,
        }
    }
}

impl Default for Position {
    fn default() -> (p: Position)
        ensures
            p == Position::zeroed(),
    {
        Position {
            owner: Pubkey::default(),
            pair: 0,
            base_position: 0,
            quote_position: 0,
            margin: 0,
            last_price: 0,
            bump: 0,
        }
    }
}

impl IntentState {
    /// An intent account as it is before anything was written to it.
    pub open spec fn zeroed() -> IntentState {
        IntentState {
            owner: Pubkey::zero(),
            session: Pubkey::zero(),
            nonce: 0,
            pair: 0,
            side: 0,
            size: 0,
            limit_price: 0,
            max_slippage_bps: 0,
            expires_slot: 0,
            status: 0,
            solver: Pubkey::zero(),
            execution_price: 0,
            filled_size: 0,
            bump: 0,
        }
    }
}

impl Default for IntentState {
    fn default() -> (s: IntentState)
        ensures
            s == IntentState::zeroed(),
    {
        IntentState {
            owner: Pubkey::default(),
            session: Pubkey::default(),
            nonce: 0,
            pair: 0,
            side: 0,
            size: 0,
            limit_price: 0,
            max_slippage_bps: 0,
            expires_slot: 0,
            status: 0,
            solver: Pubkey::default(),
            execution_price: 0,
            filled_size: 0,
            bump: 0,
        }
    }
}

impl TradingSession {
    /// A session account as it is before anything was written to it.
    pub open spec fn zeroed() -> TradingSession {
        TradingSession {
            authority: Pubkey::zero(),
            session_signer: Pubkey::zero(),
            expires_slot: 0,
            max_position_notional: 0,
            spent_notional: 0,
            allowed_pair: 0,
            active: false,
            bump: 0,
        }
    }
}

impl Default for TradingSession {
    fn default() -> (s: TradingSession)
        ensures
            s == TradingSession::zeroed(),
    {
        TradingSession {
            authority: Pubkey::default(),
            session_signer: Pubkey::default(),
            expires_slot: 0,
            max_position_notional: 0,
            spent_notional: 0,
            allowed_pair: 0,
            active: false,
            bump: 0,
        }
    }
}

impl ProtocolState {
    /// A protocol account as it is before anything was written to it.
    pub open spec fn zeroed() -> ProtocolState {
        ProtocolState {
            authority: Pubkey::zero(),
            solver: Pubkey::zero(),
            vault: Pubkey::zero(),
            allowed_pair: 0,
            max_position_notional: 0,
            bump: 0,
        }
    }
}

impl Default for ProtocolState {
    fn default() -> (s: ProtocolState)
        ensures
            s == ProtocolState::zeroed(),
    {
        ProtocolState {
            authority: Pubkey::default(),
            solver: Pubkey::default(),
            vault: Pubkey::default(),
            allowed_pair: 0,
            max_position_notional: 0,
            bump: 0,
        }
    }
}

impl Vault {
    /// A vault account as it is before anything was written to it.
    pub open spec fn zeroed() -> Vault {
        Vault {
            authority: Pubkey::zero(),
            lst_mint: Pubkey::zero(),
            total_lst_deposits: 0,
            hedge_base_position: 0,
            funding_collected: 0,
            bump: 0,
        }
    }
}

impl Default for Vault {
    fn default() -> (v: Vault)
        ensures
            v == Vault::zeroed(),
    {
        Vault {
            authority: Pubkey::default(),
            lst_mint: Pubkey::default(),
            total_lst_deposits: 0,
            hedge_base_position: 0,
            funding_collected: 0,
            bump: 0,
        }
    }
}

} // verus!
