use crate::custody::Issuance;
use crate::error::MiniPumpError;
use crate::state::bonding_curve::BondingCurve;
use crate::state::global_state::GlobalState;
use anchor_lang::prelude::Pubkey;
use vstd::prelude::*;

verus! {

/// Token units that every launch event reports as minted: one billion whole
/// tokens of six decimals.
pub const REPORTED_SUPPLY: u64 = 1_000_000_000_000_000;

/// Addressing bumps of the accounts that a launch creates.
#[derive(Clone, Copy, Debug, PartialEq, Eq)]
pub struct LaunchCoinBumps {
    pub bonding_curve: u8,
    pub bonding_curve_sol_escrow: u8,
}

/// The accounts of a launch.
#[derive(Clone, Copy, Debug, PartialEq, Eq)]
pub struct LaunchCoin {
    pub payer: Pubkey,
    pub global_state: GlobalState,
    /// The address of the curve that is being created.
    pub bonding_curve_key: Pubkey,
    pub bonding_curve: BondingCurve,
    pub bonding_curve_sol_escrow: Pubkey,
    pub token_mint: Pubkey,
    /// Where the curve keeps its tokens.
    pub bonding_curve_token_account: Pubkey,
}

/// What a token shows to wallets.
#[derive(Debug, PartialEq, Eq)]
pub struct TokenData {
    pub name: String,
    pub symbol: String,
    pub uri: String,
    pub seller_fee_basis_points: u16,
}

/// The registration of a token's metadata. It names no creators, no
/// collection and no uses.
#[derive(Debug, PartialEq, Eq)]
pub struct MetadataOrder {
    pub data: TokenData,
    pub mint: Pubkey,
    pub mint_authority: Pubkey,
    pub update_authority: Pubkey,
    pub payer: Pubkey,
    pub is_mutable: bool,
    pub update_authority_is_signer: bool,
}

/// The record that tells observers of a launch.
#[derive(Clone, Copy, Debug, PartialEq, Eq)]
pub struct LaunchTokens {
    pub token_mint: Pubkey,
    pub bonding_curve: Pubkey,
    pub virtual_sol_liquidity: u64,
    pub virtual_token_liquidity: u64,
    pub total_tokens_minted: u64,
    pub timestamp: i64,
}

/// Everything that the ledger has to do for a launch, in this order: register
/// the metadata, create the supply, publish the event.
#[derive(Debug, PartialEq, Eq)]
pub struct Launch {
    pub metadata: MetadataOrder,
    pub supply: Issuance,
    pub event: LaunchTokens,
}

impl LaunchCoin {
    /// The state in which every curve starts: the protocol's two virtual
    /// liquidity values, nothing sold, trading open.
    pub open spec fn fresh_curve(self, bumps: LaunchCoinBumps) -> BondingCurve {
        BondingCurve {
            virtual_sol_liquidity: self.global_state.virtual_sol_liquidity,
            virtual_token_liquidity: self.global_state.virtual_token_liquidity,
            tokens_sold: 0,
            token_mint: self.token_mint,
            is_active: true,
            bump: bumps.bonding_curve,
        }
    }

    /// The event of this launch at the given time.
    pub open spec fn launch_event(self, timestamp: i64) -> LaunchTokens {
        LaunchTokens {
            token_mint: self.token_mint,
            bonding_curve: self.bonding_curve_key,
            virtual_sol_liquidity: self.global_state.virtual_sol_liquidity,
            virtual_token_liquidity: self.global_state.virtual_token_liquidity,
            total_tokens_minted: REPORTED_SUPPLY,
            timestamp,
        }
    }

    /// Launches a token on a new curve.
    ///
    /// The curve is seeded from the protocol's configuration. The answer lists
    /// what the ledger has to do: register immutable metadata without royalty
    /// under the curve's authority, create the protocol's
    /// `total_tokens_to_mint` in the curve's token account, and publish the
    /// launch event stamped with `timestamp`.
    pub fn launch_coin(
        &mut self,
        name: String,
        symbol: String,
        uri: String,
        bumps: LaunchCoinBumps,
        timestamp: i64,
    ) -> (r: Result<Launch, MiniPumpError>)
        ensures
            *final(self) == (LaunchCoin {
                bonding_curve: old(self).fresh_curve(bumps),
                ..*old(self)
            }),
            r == Ok::<Launch, MiniPumpError>(
                Launch {
                    metadata: MetadataOrder {
                        data: TokenData { name, symbol, uri, seller_fee_basis_points: 0 },
                        mint: old(self).token_mint,
                        mint_authority: old(self).bonding_curve_key,
                        update_authority: old(self).bonding_curve_key,
                        payer: old(self).payer,
                        is_mutable: false,
                        update_authority_is_signer: true,
                    },
                    supply: Issuance {
                        mint: old(self).token_mint,
                        to: old(self).bonding_curve_token_account,
                        authority: old(self).bonding_curve_key,
                        amount: old(self).global_state.total_tokens_to_mint,
                    },
                    event: old(self).launch_event(timestamp),
                },
            ),
    {
        let metadata = MetadataOrder {
            data: TokenData { name, symbol, uri, seller_fee_basis_points: 0 },
            mint: self.token_mint,
            mint_authority: self.bonding_curve_key,
            update_authority: self.bonding_curve_key,
            payer: self.payer,
            is_mutable: false,
            update_authority_is_signer: true,
        };
        let supply = Issuance {
            mint: self.token_mint,
            to: self.bonding_curve_token_account,
            authority: self.bonding_curve_key,
            amount: self.global_state.total_tokens_to_mint,
        };
        self.bonding_curve = BondingCurve {
            virtual_sol_liquidity: self.global_state.virtual_sol_liquidity,
            virtual_token_liquidity: self.global_state.virtual_token_liquidity,
            tokens_sold: 0,
            token_mint: self.token_mint,
            is_active: true,
            bump: bumps.bonding_curve,
        };
        let event = self.emit_launch_event(timestamp);
        Ok(Launch { metadata, supply, event })
    }

    /// Builds the event of this launch: the mint, the curve, the virtual
    /// liquidity that the curve starts with, `REPORTED_SUPPLY`, and the time.
    pub fn emit_launch_event(&self, timestamp: i64) -> (r: LaunchTokens)
        ensures
            r == self.launch_event(timestamp),
    {
        LaunchTokens {
            token_mint: self.token_mint,
            bonding_curve: self.bonding_curve_key,
            virtual_sol_liquidity: self.global_state.virtual_sol_liquidity,
            virtual_token_liquidity: self.global_state.virtual_token_liquidity,
            total_tokens_minted: REPORTED_SUPPLY,
            timestamp,
        }
    }
}

} // verus!
