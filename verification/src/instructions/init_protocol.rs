use crate::error::MiniPumpError;
use crate::state::global_state::GlobalState;
use anchor_lang::prelude::Pubkey;
use vstd::prelude::*;

verus! {

/// Addressing bumps of the accounts that protocol setup creates.
#[derive(Clone, Copy, Debug, PartialEq, Eq)]
pub struct InitProtocolBumps {
    pub global_state: u8,
}

/// The accounts of protocol setup: who pays for it, and the configuration
/// record that it fills in.
#[derive(Clone, Copy, Debug, PartialEq, Eq)]
pub struct InitProtocol {
    pub payer: Pubkey,
    pub global_state: GlobalState,
}

impl InitProtocol {
    /// Writes the protocol's configuration. The payer becomes the owner; the two
    /// virtual liquidity values are what every curve launched later starts with.
    pub fn init_protocol(
        &mut self,
        total_tokens_to_mint: u64,
        virtual_sol_liquidity: u64,
        virtual_token_liquidity: u64,
        tokens_to_sell: Pubkey,
        bumps: InitProtocolBumps,
    ) -> (r: Result<(), MiniPumpError>)
        ensures
            r is Ok,
            final(self).payer == old(self).payer,
            final(self).global_state == (GlobalState {
                owner: old(self).payer,
                tokens_to_sell,
                total_tokens_to_mint,
                virtual_sol_liquidity,
                virtual_token_liquidity,
                bump: bumps.global_state,
            }),
    {
        self.global_state = GlobalState {
            owner: self.payer,
            tokens_to_sell,
            total_tokens_to_mint,
            virtual_sol_liquidity,
            virtual_token_liquidity,
            bump: bumps.global_state,
        };
        Ok(())
    }
}

} // verus!
