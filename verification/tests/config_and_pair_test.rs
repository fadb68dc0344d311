use pos_creator::auto_farm_config::AutoFarmConfigModule;
use pos_creator::auto_pos_creator::{AutoPosCreator, AutoPosCreatorContract};
use pos_creator::big_uint::BigUint;
use pos_creator::calls::ContractCall;
use pos_creator::errors::PosCreatorError;
use pos_creator::locked_token_pos_creator::{LockedTokenPosCreator, LockedTokenPosCreatorContract};
use pos_creator::moax_wrapper_actions::{MoaxWrapperActionsModule, MoaxWrapperProxy, WrapperContract};
use pos_creator::pair_actions::{min_amount_out, PairActionsModule, PairAddLiqResult, TokensSwapStep};
use pos_creator::proxy_dex_actions::ProxyDexActionsModule;
use pos_creator::types::DctTokenPayment;
use pos_creator::utils::{require_sc_address, require_valid_token_id, Address};

const A: Address = [1u8; 32];
const B: Address = [2u8; 32];
const C: Address = [3u8; 32];
const D: Address = [4u8; 32];
const E: Address = [5u8; 32];
const ZERO: Address = [0u8; 32];

fn auto_pos_creator() -> AutoPosCreatorContract {
    AutoPosCreatorContract {
        wmoax_token_id: b"WMOAX-123456".to_vec(),
        moax_wrapper_sc_address: B,
        auto_farm_sc_address: None,
    }
}

fn n(value: u128) -> BigUint {
    BigUint::from_u128(value)
}

fn p(token: &[u8], nonce: u64, amount: u128) -> DctTokenPayment {
    DctTokenPayment::new(token.to_vec(), nonce, n(amount))
}

#[test]
fn token_identifier_validity() {
    assert_eq!(require_valid_token_id(&b"WMOAX-123456".to_vec()), Ok(()));
    assert_eq!(require_valid_token_id(&b"ABC-a1b2c3".to_vec()), Ok(()));
    assert_eq!(require_valid_token_id(&b"ABCDEFGHIJ-a1b2c3".to_vec()), Ok(()));
    // ticker too short / too long
    assert_eq!(require_valid_token_id(&b"AB-a1b2c3".to_vec()), Err(PosCreatorError::InvalidTokenId));
    assert_eq!(require_valid_token_id(&b"ABCDEFGHIJK-a1b2c3".to_vec()), Err(PosCreatorError::InvalidTokenId));
    // lower-case ticker, upper-case random part, missing dash
    assert_eq!(require_valid_token_id(&b"wmoax-123456".to_vec()), Err(PosCreatorError::InvalidTokenId));
    assert_eq!(require_valid_token_id(&b"WMOAX-ABCDEF".to_vec()), Err(PosCreatorError::InvalidTokenId));
    assert_eq!(require_valid_token_id(&b"WMOAXX123456".to_vec()), Err(PosCreatorError::InvalidTokenId));
    assert_eq!(require_valid_token_id(&b"".to_vec()), Err(PosCreatorError::InvalidTokenId));
}

#[test]
fn sc_address_check() {
    assert_eq!(require_sc_address(&A, true), Ok(()));
    assert_eq!(require_sc_address(&A, false), Err(PosCreatorError::NotAScAddress));
    assert_eq!(require_sc_address(&ZERO, true), Err(PosCreatorError::NotAScAddress));
}

#[test]
fn locked_token_pos_creator_init() {
    let scs = vec![B, C, D, E];
    let c = LockedTokenPosCreator::init(A, B, b"WMOAX-123456".to_vec(), C, D, E, &scs).unwrap();
    assert_eq!(c.energy_factory_address, A);
    assert_eq!(c.moax_wrapper_sc_address, B);
    assert_eq!(c.wmoax_token_id, b"WMOAX-123456".to_vec());
    assert_eq!(c.mex_wmoax_pair_address, C);
    assert_eq!(c.farm_address, D);
    assert_eq!(c.proxy_dex_address, E);
    c.upgrade();

    // the proxy is not a smart contract
    let scs = vec![B, C, D];
    assert_eq!(
        LockedTokenPosCreator::init(A, B, b"WMOAX-123456".to_vec(), C, D, E, &scs),
        Err(PosCreatorError::NotAScAddress)
    );
    // bad token id, with valid addresses
    let scs = vec![B, C, D, E];
    assert_eq!(
        LockedTokenPosCreator::init(A, B, b"bad".to_vec(), C, D, E, &scs),
        Err(PosCreatorError::InvalidTokenId)
    );
    // the wrapper is checked before the token
    assert_eq!(
        LockedTokenPosCreator::init(A, ZERO, b"bad".to_vec(), C, D, E, &scs),
        Err(PosCreatorError::NotAScAddress)
    );
}

#[test]
fn auto_pos_creator_init() {
    let scs = vec![B];
    let c = AutoPosCreatorContract::init(B, b"WMOAX-123456".to_vec(), &scs).unwrap();
    assert_eq!(c.moax_wrapper_sc_address(), B);
    assert_eq!(c.wmoax_token_id(), &b"WMOAX-123456".to_vec());
    assert_eq!(c.auto_farm_sc_address(), None);
    c.upgrade();
    assert_eq!(
        AutoPosCreatorContract::init(A, b"WMOAX-123456".to_vec(), &scs),
        Err(PosCreatorError::NotAScAddress)
    );
    assert_eq!(AutoPosCreatorContract::init(B, b"WMOAX".to_vec(), &scs), Err(PosCreatorError::InvalidTokenId));
}

#[test]
fn wrap_moax_call() {
    let m = auto_pos_creator();
    assert_eq!(m.call_wrap_moax(n(42)), ContractCall::WrapMoax { to: B, moax_amount: n(42) });
    assert_eq!(m.moax_wrapper_proxy(C), WrapperContract { sc_address: C });
    assert_eq!(WrapperContract { sc_address: C }.wrap_moax(n(7)), ContractCall::WrapMoax { to: C, moax_amount: n(7) });
}

#[test]
fn tokens_swap() {
    let m = auto_pos_creator();
    // same token: nothing to swap, even without a pair
    assert_eq!(
        m.perform_tokens_swap(b"AAA-111111".to_vec(), n(10), b"AAA-111111".to_vec(), None),
        Ok(TokensSwapStep::Unchanged(p(b"AAA-111111", 0, 10)))
    );
    assert_eq!(
        m.perform_tokens_swap(b"AAA-111111".to_vec(), n(10), b"BBB-222222".to_vec(), None),
        Err(PosCreatorError::UnknownPair)
    );
    assert_eq!(
        m.perform_tokens_swap(b"AAA-111111".to_vec(), n(10), b"BBB-222222".to_vec(), Some(C)),
        Ok(TokensSwapStep::Swap(ContractCall::SwapTokensFixedInput {
            to: C,
            payment: p(b"AAA-111111", 0, 10),
            token_out: b"BBB-222222".to_vec(),
            amount_out_min: min_amount_out(),
        }))
    );
}

#[test]
fn pair_add_and_remove_liquidity() {
    let m = auto_pos_creator();
    assert_eq!(
        m.call_pair_add_liquidity(C, p(b"AAA-111111", 0, 100), p(b"BBB-222222", 0, 50)),
        ContractCall::AddLiquidity {
            to: C,
            first_payment: p(b"AAA-111111", 0, 100),
            second_payment: p(b"BBB-222222", 0, 50),
            first_token_amount_min: n(1),
            second_token_amount_min: n(1),
        }
    );
    assert_eq!(
        m.pair_add_liquidity_result(n(100), n(50), p(b"LP-333333", 0, 70), p(b"AAA-111111", 0, 98), p(b"BBB-222222", 0, 50)),
        Ok(PairAddLiqResult {
            lp_tokens: p(b"LP-333333", 0, 70),
            first_tokens_remaining: p(b"AAA-111111", 0, 2),
            second_tokens_remaining: p(b"BBB-222222", 0, 0),
        })
    );
    assert_eq!(
        m.pair_add_liquidity_result(n(100), n(50), p(b"LP-333333", 0, 70), p(b"AAA-111111", 0, 98), p(b"BBB-222222", 0, 51)),
        Err(PosCreatorError::UsedMoreThanSent)
    );
    assert_eq!(
        m.call_pair_remove_liquidity(C, p(b"LP-333333", 0, 70)),
        ContractCall::RemoveLiquidity {
            to: C,
            payment: p(b"LP-333333", 0, 70),
            first_token_amount_min: n(1),
            second_token_amount_min: n(1),
        }
    );
}

#[test]
fn proxy_calls() {
    let scs = vec![B, C, D, E];
    let m = LockedTokenPosCreator::init(A, B, b"WMOAX-123456".to_vec(), C, D, E, &scs).unwrap();
    assert_eq!(
        m.call_enter_farm_proxy(p(b"WPLP-111111", 3, 9), D),
        ContractCall::EnterFarmProxy { to: E, farm_address: D, payment: p(b"WPLP-111111", 3, 9) }
    );
    assert_eq!(
        m.add_liquidity_proxy_result(&vec![p(b"WPLP-111111", 3, 9)]),
        Err(PosCreatorError::MissingOutputPayment)
    );
    let r = m
        .add_liquidity_proxy_result(&vec![p(b"WPLP-111111", 3, 9), p(b"LOCKED-111111", 1, 0), p(b"WMOAX-111111", 0, 4)])
        .unwrap();
    assert_eq!(r.wrapped_lp_token, p(b"WPLP-111111", 3, 9));
    assert_eq!(r.locked_token_leftover, p(b"LOCKED-111111", 1, 0));
    assert_eq!(r.wmoax_leftover, p(b"WMOAX-111111", 0, 4));
}
