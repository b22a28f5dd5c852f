//! Settlement rules of an agent-native perpetual exchange: the on-chain
//! instruction logic (protocol setup, session delegation, intent submission,
//! intent resolution) and the orchestrator's solver auction, stated over plain
//! values and verified with Verus.

pub mod auction;
pub mod error;
pub mod instructions;
pub mod keys;
pub mod laws;
pub mod state;

pub use auction::{
    auction_step, initial_quote, price_for_step, quote_for_step, side_is_short, Quote,
    SignedIntent, AUCTION_ROUNDS,
};
pub use error::NexusError;
pub use instructions::delegate::{delegate, Delegate, DelegateParams};
pub use instructions::initialize::{initialize, Initialize, InitializeParams};
pub use instructions::resolve::{require_price, resolve, Resolve};
pub use instructions::submit_intent::{submit_intent, SubmitIntent};
pub use keys::Pubkey;
pub use state::{
    IntentParams, IntentState, Position, ProtocolState, ResolveParams, TradingSession, Vault,
    INTENT_OPEN, INTENT_RESOLVED, SIDE_LONG, SIDE_SHORT,
};
