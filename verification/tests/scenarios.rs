//! End-to-end scenarios over one record's lifetime, and concrete instances
//! of the system's laws across a sequence of operations.

use blog::config::{initialize, pause, update_premium_fee, Initialize, OwnerMutation, TogglePause};
use blog::errors::BlogError;
use blog::issuance::{mint_premium, mint_standard, MintPremium, MintStandard};
use blog::state::{BlogState, Pubkey, TokenHolding};
use blog::treasury::{withdraw, Withdraw};

const OWNER: Pubkey = Pubkey { id: 11 };

fn created() -> BlogState {
    let ctx = Initialize {
        payer: Pubkey { id: 1 },
        authority: OWNER,
        bump: 255,
        standard_mint: Pubkey { id: 20 },
        standard_mint_bump: 254,
        premium_mint: Pubkey { id: 21 },
        premium_mint_bump: 253,
    };
    initialize(&ctx, 1_000_000, String::from("ipfs://meta")).unwrap()
}

#[test]
fn scenario_create() {
    let state = created();
    assert!(!state.paused);
    assert_eq!(state.total_standard, 0);
    assert_eq!(state.total_premium, 0);
}

#[test]
fn scenario_premium_below_fee() {
    let mut ctx = MintPremium {
        payer: Pubkey { id: 42 },
        payer_balance: 500_000,
        blog_state: created(),
        blog_balance: 0,
        user_premium_token: TokenHolding { amount: 0, frozen: false },
    };
    assert_eq!(
        mint_premium(&mut ctx, 500_000, String::from("ipfs://x")).unwrap_err(),
        BlogError::LessThanPremiumFee
    );
}

#[test]
fn scenario_premium_at_fee() {
    let mut ctx = MintPremium {
        payer: Pubkey { id: 42 },
        payer_balance: 1_000_000,
        blog_state: created(),
        blog_balance: 0,
        user_premium_token: TokenHolding { amount: 0, frozen: false },
    };
    assert!(mint_premium(&mut ctx, 1_000_000, String::from("ipfs://x")).is_ok());
    assert_eq!(ctx.blog_state.total_premium, 1);
    assert!(ctx.user_premium_token.frozen);
}

#[test]
fn scenario_fee_update_to_same_value() {
    let mut ctx = OwnerMutation { authority: OWNER, blog_state: created() };
    assert_eq!(
        update_premium_fee(&mut ctx, 1_000_000).unwrap_err(),
        BlogError::InvalidNewFee
    );
    assert_eq!(ctx.blog_state.premium_fee, 1_000_000);
}

#[test]
fn scenario_pause_then_standard_mint() {
    let mut toggle = TogglePause { authority: OWNER, blog_state: created() };
    assert!(pause(&mut toggle).is_ok());
    let mut ctx = MintStandard {
        payer: Pubkey { id: 42 },
        payer_balance: 0,
        blog_state: toggle.blog_state,
        blog_balance: 0,
        user_standard_token: TokenHolding { amount: 0, frozen: false },
    };
    assert_eq!(mint_standard(&mut ctx, 0).unwrap_err(), BlogError::Paused);
}

#[test]
fn scenario_withdraw_at_reserved_minimum() {
    let mut ctx = Withdraw {
        authority: OWNER,
        blog_state: created(),
        blog_balance: 1_000,
        recipient: Pubkey { id: 9 },
        recipient_balance: 0,
        rent_exempt: 1_000,
    };
    assert_eq!(withdraw(&mut ctx).unwrap_err(), BlogError::EmptyBalance);
    assert_eq!(ctx.blog_balance, 1_000);
    assert_eq!(ctx.recipient_balance, 0);
}

#[test]
fn laws_hold_across_a_sequence_of_operations() {
    // drive one record through every operation and watch the laws on
    // concrete values: counters never decrease, the owner never changes,
    // the fee stays positive
    let mut state = created();
    let mut last_standard = 0u64;
    let mut last_premium = 0u64;

    let check = |state: &BlogState, last_standard: &mut u64, last_premium: &mut u64| {
        assert!(state.total_standard >= *last_standard);
        assert!(state.total_premium >= *last_premium);
        assert_eq!(state.authority, OWNER);
        assert!(state.premium_fee > 0);
        *last_standard = state.total_standard;
        *last_premium = state.total_premium;
    };

    let mut mint = MintStandard {
        payer: Pubkey { id: 42 },
        payer_balance: 10,
        blog_state: state,
        blog_balance: 0,
        user_standard_token: TokenHolding { amount: 0, frozen: false },
    };
    assert!(mint_standard(&mut mint, 10).is_ok());
    check(&mint.blog_state, &mut last_standard, &mut last_premium);

    let mut fee = OwnerMutation { authority: OWNER, blog_state: mint.blog_state };
    assert!(update_premium_fee(&mut fee, 300).is_ok());
    check(&fee.blog_state, &mut last_standard, &mut last_premium);

    let mut prem = MintPremium {
        payer: Pubkey { id: 43 },
        payer_balance: 400,
        blog_state: fee.blog_state,
        blog_balance: 10,
        user_premium_token: TokenHolding { amount: 0, frozen: false },
    };
    assert!(mint_premium(&mut prem, 350, String::from("ipfs://a")).is_ok());
    check(&prem.blog_state, &mut last_standard, &mut last_premium);

    let mut toggle = TogglePause { authority: OWNER, blog_state: prem.blog_state };
    assert!(pause(&mut toggle).is_ok());
    check(&toggle.blog_state, &mut last_standard, &mut last_premium);

    // a rejected operation changes nothing either
    let mut blocked = MintStandard {
        payer: Pubkey { id: 44 },
        payer_balance: 0,
        blog_state: toggle.blog_state,
        blog_balance: 0,
        user_standard_token: TokenHolding { amount: 0, frozen: false },
    };
    assert!(mint_standard(&mut blocked, 0).is_err());
    check(&blocked.blog_state, &mut last_standard, &mut last_premium);
    state = blocked.blog_state;

    assert_eq!(state.total_standard, 1);
    assert_eq!(state.total_premium, 1);
}
