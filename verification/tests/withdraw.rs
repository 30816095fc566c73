use anchor_lang::prelude::Pubkey;
use mini_pump::custody::{CustodyMove, Withdrawal};
use mini_pump::instructions::withdraw_funds::{MiniPumpError, WithdrawFunds};
use mini_pump::state::{BondingCurve, GlobalState};

fn address(n: u8) -> Pubkey {
    Pubkey::new_from_array([n; 32])
}

fn request(payer: Pubkey, lamports: u64, token: u64, sold: u64, active: bool) -> WithdrawFunds {
    WithdrawFunds {
        payer,
        global_state: GlobalState {
            owner: address(1),
            tokens_to_sell: address(8),
            total_tokens_to_mint: 1_000_000_000_000_000,
            virtual_sol_liquidity: 30_000_000_000,
            virtual_token_liquidity: 1_000_000_000_000_000,
            bump: 255,
        },
        sol_escrow: address(3),
        sol_escrow_lamports: lamports,
        bonding_curve_key: address(4),
        bonding_curve: BondingCurve {
            virtual_sol_liquidity: 115_000_000_000,
            virtual_token_liquidity: token,
            tokens_sold: sold,
            token_mint: address(9),
            is_active: active,
            bump: 254,
        },
        bonding_curve_token_account: address(5),
        payer_token_account: address(6),
    }
}

#[test]
fn owner_withdraws_everything_from_a_closed_curve() {
    let ctx = request(address(1), 85_000_000_000, 999_200_000_000_000, 800_000_000_000, false);
    assert_eq!(
        ctx.withdraw_funds(),
        Ok(Withdrawal {
            sol: CustodyMove {
                from: address(3),
                to: address(1),
                authority: address(4),
                amount: 85_000_000_000,
            },
            tokens: CustodyMove {
                from: address(5),
                to: address(6),
                authority: address(4),
                amount: 998_400_000_000_000,
            },
        })
    );
}

#[test]
fn withdrawal_by_another_caller_is_refused() {
    let ctx = request(address(2), 85_000_000_000, 999_200_000_000_000, 800_000_000_000, false);
    assert_eq!(ctx.withdraw_funds(), Err(MiniPumpError::NotOwner));
}

#[test]
fn owner_is_recognised_by_every_byte() {
    let mut bytes = [1u8; 32];
    bytes[31] = 2;
    let ctx = request(
        Pubkey::new_from_array(bytes),
        85_000_000_000,
        999_200_000_000_000,
        800_000_000_000,
        false,
    );
    assert_eq!(ctx.withdraw_funds(), Err(MiniPumpError::NotOwner));
    let ctx = request(
        Pubkey::new_from_array([1u8; 32]),
        85_000_000_000,
        999_200_000_000_000,
        800_000_000_000,
        false,
    );
    assert!(ctx.withdraw_funds().is_ok());
}

#[test]
fn another_caller_is_refused_whatever_the_curve() {
    assert_eq!(request(address(2), 0, 10, 20, true).withdraw_funds(), Err(MiniPumpError::NotOwner));
    assert_eq!(request(address(2), 5, 10, 20, true).withdraw_funds(), Err(MiniPumpError::NotOwner));
    assert_eq!(request(address(2), 0, 20, 10, false).withdraw_funds(), Err(MiniPumpError::NotOwner));
}

#[test]
fn withdrawal_from_an_empty_escrow_is_refused() {
    let ctx = request(address(1), 0, 999_200_000_000_000, 800_000_000_000, false);
    assert_eq!(ctx.withdraw_funds(), Err(MiniPumpError::InsufficientSolBalance));
}

#[test]
fn trading_curve_is_named_before_an_empty_escrow() {
    let ctx = request(address(1), 0, 999_200_000_000_000, 800_000_000_000, true);
    assert_eq!(ctx.withdraw_funds(), Err(MiniPumpError::BondingCurveActive));
    let ctx = request(address(1), 0, 10, 11, true);
    assert_eq!(ctx.withdraw_funds(), Err(MiniPumpError::BondingCurveActive));
}

#[test]
fn empty_escrow_is_named_before_a_missing_remainder() {
    let ctx = request(address(1), 0, 10, 11, false);
    assert_eq!(ctx.withdraw_funds(), Err(MiniPumpError::InsufficientSolBalance));
}

#[test]
fn withdrawal_from_a_trading_curve_is_refused() {
    let ctx = request(address(1), 85_000_000_000, 999_966_667_777_740, 33_332_222_260, true);
    assert_eq!(ctx.withdraw_funds(), Err(MiniPumpError::BondingCurveActive));
}

#[test]
fn withdrawal_of_one_lamport_goes_through() {
    let ctx = request(address(1), 1, 10, 10, false);
    let done = ctx.withdraw_funds().unwrap();
    assert_eq!(done.sol.amount, 1);
    assert_eq!(done.tokens.amount, 0);
}

#[test]
fn withdrawal_with_more_sold_than_held_is_refused() {
    let ctx = request(address(1), 85_000_000_000, 10, 11, false);
    assert_eq!(ctx.withdraw_funds(), Err(MiniPumpError::InsufficientTokenBalance));
}

#[test]
fn withdrawal_leaves_the_accounts_as_they_were() {
    let ctx = request(address(1), 85_000_000_000, 999_200_000_000_000, 800_000_000_000, false);
    let before = ctx;
    let _ = ctx.withdraw_funds();
    assert_eq!(ctx, before);
}
