use vstd::prelude::*;

use crate::keys::Pubkey;
use crate::state::{ProtocolState, Vault};

verus! {

/// The configuration that sets up the protocol. `allowed_pair` is the pair's
/// 16-byte identifier read as a big-endian integer.
#[derive(Clone, Copy, Debug, PartialEq, Eq, Structural)]
pub struct InitializeParams {
    pub solver: Pubkey,
    pub allowed_pair: u128,
    pub max_position_notional: u64,
}

/// The accounts that setting up the protocol reads and writes: the protocol
/// and vault accounts being created, the vault account's address, the mint of
/// the liquid-staking token the vault holds, the paying authority, and the
/// address bumps of the two new accounts.
#[derive(Clone, Copy, Debug, PartialEq, Eq, Structural)]
pub struct Initialize {
    pub protocol: ProtocolState,
    pub vault: Vault,
    pub vault_key: Pubkey,
    pub lst_mint: Pubkey,
    pub authority: Pubkey,
    pub protocol_bump: u8,
    pub vault_bump: u8,
}

/// The accounts after setting up the protocol: the protocol account holds
/// the authority, the solver, the vault's address and the limits; the vault
/// is empty and belongs to the authority.
pub open spec fn initialize_outcome(ctx: Initialize, params: InitializeParams) -> Initialize {
    Initialize {
        protocol: ProtocolState {
            authority: ctx.authority,
            solver: params.solver,
            vault: ctx.vault_key,
            allowed_pair: params.allowed_pair,
            max_position_notional: params.max_position_notional,
            bump: ctx.protocol_bump,
        },
        vault: Vault {
            authority: ctx.authority,
            lst_mint: ctx.lst_mint,
            total_lst_deposits: 0,
            hedge_base_position: 0,
            funding_collected: 0,
            bump: ctx.vault_bump,
        },
        ..ctx
    }
}

/// Sets up the protocol and its vault; it never fails.
pub fn initialize(ctx: &mut Initialize, params: InitializeParams)
    ensures
        *final(ctx) == initialize_outcome(*old(ctx), params),
{
    ctx.protocol = ProtocolState {
        authority: ctx.authority,
        solver: params.solver,
        vault: ctx.vault_key,
        allowed_pair: params.allowed_pair,
        max_position_notional: params.max_position_notional,
        bump: ctx.protocol_bump,
    };
    ctx.vault = Vault {
        authority: ctx.authority,
        lst_mint: ctx.lst_mint,
        total_lst_deposits: 0,
        hedge_base_position: 0,
        funding_collected: 0,
        bump: ctx.vault_bump,
    };
}

} // verus!
