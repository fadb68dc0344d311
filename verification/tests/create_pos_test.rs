use pos_creator::big_uint::BigUint;
use pos_creator::calls::ContractCall;
use pos_creator::create_farm_pos::CreateFarmPosModule;
use pos_creator::create_pair_pos::CreatePairPosModule;
use pos_creator::errors::PosCreatorError;
use pos_creator::locked_token_pos_creator::{LockedTokenPosCreator, LockedTokenPosCreatorContract};
use pos_creator::pos_flow::{PosAction, PosEvent, PosFlow, PosResult, PosStage};
use pos_creator::types::{DctTokenPayment, MoaxOrDctTokenIdentifier, MoaxOrDctTokenPayment};
use pos_creator::utils::Address;

const WMOAX_TOKEN_ID: &[u8] = b"WMOAX-123456";
const MEX_TOKEN_ID: &[u8] = b"MEX-123456";
const LOCKED_TOKEN_ID: &[u8] = b"LOCKED-123456";
const WRAPPED_LP_TOKEN_ID: &[u8] = b"WPLP-123456";
const WRAPPED_FARM_TOKEN_ID: &[u8] = b"WPFARM-123456";
const LOCK_OPTIONS: [u64; 3] = [360, 720, 1440];

const ENERGY_FACTORY: Address = [1u8; 32];
const WRAPPER: Address = [2u8; 32];
const PAIR: Address = [3u8; 32];
const FARM: Address = [4u8; 32];
const PROXY: Address = [5u8; 32];
const USER: Address = [9u8; 32];

fn contract() -> LockedTokenPosCreator {
    let smart_contracts = vec![ENERGY_FACTORY, WRAPPER, PAIR, FARM, PROXY];
    LockedTokenPosCreator::init(
        ENERGY_FACTORY,
        WRAPPER,
        WMOAX_TOKEN_ID.to_vec(),
        PAIR,
        FARM,
        PROXY,
        &smart_contracts,
    )
    .unwrap()
}

fn n(value: u128) -> BigUint {
    BigUint::from_u128(value)
}

fn payment(token: &[u8], nonce: u64, amount: u128) -> DctTokenPayment {
    DctTokenPayment::new(token.to_vec(), nonce, n(amount))
}

fn wmoax_payment(amount: u128) -> MoaxOrDctTokenPayment {
    MoaxOrDctTokenPayment {
        token_identifier: MoaxOrDctTokenIdentifier::Dct(WMOAX_TOKEN_ID.to_vec()),
        token_nonce: 0,
        amount: n(amount),
    }
}

fn expect_call(action: PosAction) -> ContractCall {
    match action {
        PosAction::Call(call) => call,
        other => panic!("expected a call, got {:?}", other),
    }
}

/// Runs the creation through the calls that the pair, energy factory and
/// proxy of the original setup answer: 500 WMOAX swap for 996 MEX, locked
/// as 996 LOCKED (nonce 1), and adding liquidity yields 497 wrapped LP
/// tokens, leaving 0 locked tokens and 2 WMOAX.
fn run_to_liquidity(module: &LockedTokenPosCreator, flow: PosFlow, first: PosAction) -> (PosFlow, PosAction) {
    let swap = expect_call(first);
    assert_eq!(
        swap,
        ContractCall::SwapTokensFixedInput {
            to: PAIR,
            payment: payment(WMOAX_TOKEN_ID, 0, 500),
            token_out: MEX_TOKEN_ID.to_vec(),
            amount_out_min: n(1),
        }
    );
    let (flow, action) = module.resume(flow, PosEvent::Payment(payment(MEX_TOKEN_ID, 0, 996)));
    assert_eq!(
        expect_call(action),
        ContractCall::LockVirtual {
            to: ENERGY_FACTORY,
            payment: payment(MEX_TOKEN_ID, 0, 996),
            lock_epochs: LOCK_OPTIONS[0],
            dest_address: USER,
        }
    );
    let (flow, action) = module.resume(flow, PosEvent::Payment(payment(LOCKED_TOKEN_ID, 1, 996)));
    assert_eq!(
        expect_call(action),
        ContractCall::AddLiquidityProxy {
            to: PROXY,
            pair_address: PAIR,
            first_token_amount_min: n(1),
            second_token_amount_min: n(1),
            payments: vec![payment(WMOAX_TOKEN_ID, 0, 500), payment(LOCKED_TOKEN_ID, 1, 996)],
        }
    );
    module.resume(
        flow,
        PosEvent::Payments(vec![
            payment(WRAPPED_LP_TOKEN_ID, 2, 497),
            payment(LOCKED_TOKEN_ID, 1, 0),
            payment(WMOAX_TOKEN_ID, 0, 2),
        ]),
    )
}

#[test]
fn create_pair_and_farm_pos_test() {
    let c = contract();
    let farm_module = &c;
    let module = &c;

    // liquidity position from 1_000 WMOAX
    let (flow, action) = module.create_pair_pos_from_single_token_endpoint(
        wmoax_payment(1_000),
        USER,
        MEX_TOKEN_ID.to_vec(),
        n(1),
        LOCK_OPTIONS[0],
        n(1),
        n(1),
    );
    let (flow, action) = run_to_liquidity(module, flow, action);
    assert_eq!(flow.stage, PosStage::Finished);
    match action {
        PosAction::Finish { to, output_payments, result: PosResult::PairPos(add_liq_result) } => {
            assert_eq!(add_liq_result.locked_token_leftover.amount, n(0));
            assert_eq!(add_liq_result.wmoax_leftover.amount, n(2));
            assert_eq!(add_liq_result.wrapped_lp_token.amount, n(497));
            assert_eq!(to, USER);
            assert_eq!(
                output_payments,
                vec![payment(WRAPPED_LP_TOKEN_ID, 2, 497), payment(WMOAX_TOKEN_ID, 0, 2)]
            );
        },
        other => panic!("expected the end, got {:?}", other),
    }

    // farm position from 1_000 WMOAX
    let (flow, action) = farm_module.create_farm_pos_from_single_token(
        wmoax_payment(1_000),
        USER,
        MEX_TOKEN_ID.to_vec(),
        n(1),
        LOCK_OPTIONS[0],
        n(1),
        n(1),
    );
    let (flow, action) = run_to_liquidity(module, flow, action);
    assert_eq!(
        expect_call(action),
        ContractCall::EnterFarmProxy {
            to: PROXY,
            farm_address: FARM,
            payment: payment(WRAPPED_LP_TOKEN_ID, 2, 497),
        }
    );
    let (flow, action) =
        module.resume(flow, PosEvent::Payment(payment(WRAPPED_FARM_TOKEN_ID, 1, 497)));
    assert_eq!(flow.stage, PosStage::Finished);
    match action {
        PosAction::Finish { to, output_payments, result: PosResult::FarmPos(create_farm_pos_result) } => {
            assert_eq!(create_farm_pos_result.locked_token_leftover.amount, n(0));
            assert_eq!(create_farm_pos_result.wmoax_leftover.amount, n(2));
            assert_eq!(create_farm_pos_result.wrapped_farm_token.amount, n(497));
            assert_eq!(to, USER);
            assert_eq!(
                output_payments,
                vec![payment(WMOAX_TOKEN_ID, 0, 2), payment(WRAPPED_FARM_TOKEN_ID, 1, 497)]
            );
        },
        other => panic!("expected the end, got {:?}", other),
    }
}

#[test]
fn moax_payment_is_wrapped_first() {
    let c = contract();
    let module = &c;
    let moax = MoaxOrDctTokenPayment {
        token_identifier: MoaxOrDctTokenIdentifier::Moax,
        token_nonce: 0,
        amount: n(1_001),
    };
    let (flow, action) =
        module.create_pair_pos_from_single_token_endpoint(moax, USER, MEX_TOKEN_ID.to_vec(), n(7), 720, n(3), n(4));
    assert_eq!(flow.stage, PosStage::AwaitingWrappedMoax);
    assert_eq!(expect_call(action), ContractCall::WrapMoax { to: WRAPPER, moax_amount: n(1_001) });
    let (flow, action) = module.resume(flow, PosEvent::Payment(payment(WMOAX_TOKEN_ID, 0, 1_001)));
    // 1_001 splits into 500 swapped and 501 kept
    assert_eq!(flow.stage, PosStage::AwaitingSwap { remaining_wmoax: payment(WMOAX_TOKEN_ID, 0, 501) });
    assert_eq!(
        expect_call(action),
        ContractCall::SwapTokensFixedInput {
            to: PAIR,
            payment: payment(WMOAX_TOKEN_ID, 0, 500),
            token_out: MEX_TOKEN_ID.to_vec(),
            amount_out_min: n(7),
        }
    );
}

#[test]
fn other_token_is_refused() {
    let c = contract();
    let module = &c;
    let other = MoaxOrDctTokenPayment {
        token_identifier: MoaxOrDctTokenIdentifier::Dct(b"OTHER-123456".to_vec()),
        token_nonce: 0,
        amount: n(1_000),
    };
    let (flow, action) =
        module.create_pair_pos_from_single_token_endpoint(other, USER, MEX_TOKEN_ID.to_vec(), n(1), 360, n(1), n(1));
    assert_eq!(flow.stage, PosStage::Failed);
    assert_eq!(action, PosAction::Abort(PosCreatorError::InvalidPayment));
}

#[test]
fn fungible_halves_of_a_wmoax_payment_with_nonce() {
    let c = contract();
    let module = &c;
    let paid = MoaxOrDctTokenPayment {
        token_identifier: MoaxOrDctTokenIdentifier::Dct(WMOAX_TOKEN_ID.to_vec()),
        token_nonce: 5,
        amount: n(1),
    };
    let (flow, action) =
        module.create_pair_pos_from_single_token_endpoint(paid, USER, MEX_TOKEN_ID.to_vec(), n(1), 360, n(1), n(1));
    assert_eq!(flow.stage, PosStage::AwaitingSwap { remaining_wmoax: payment(WMOAX_TOKEN_ID, 0, 1) });
    match expect_call(action) {
        ContractCall::SwapTokensFixedInput { payment: swapped, .. } => {
            assert_eq!(swapped, payment(WMOAX_TOKEN_ID, 0, 0))
        },
        other => panic!("expected a swap, got {:?}", other),
    }
}

#[test]
fn too_few_proxy_outputs_abort() {
    let c = contract();
    let module = &c;
    let (flow, _) =
        module.create_pair_pos_from_single_token_endpoint(wmoax_payment(10), USER, MEX_TOKEN_ID.to_vec(), n(1), 360, n(1), n(1));
    let (flow, _) = module.resume(flow, PosEvent::Payment(payment(MEX_TOKEN_ID, 0, 9)));
    let (flow, _) = module.resume(flow, PosEvent::Payment(payment(LOCKED_TOKEN_ID, 1, 9)));
    let (flow, action) = module.resume(
        flow,
        PosEvent::Payments(vec![payment(WRAPPED_LP_TOKEN_ID, 1, 4), payment(LOCKED_TOKEN_ID, 1, 0)]),
    );
    assert_eq!(flow.stage, PosStage::Failed);
    assert_eq!(action, PosAction::Abort(PosCreatorError::MissingOutputPayment));
}

#[test]
fn unexpected_results_abort() {
    let c = contract();
    let module = &c;
    let (flow, _) =
        module.create_pair_pos_from_single_token_endpoint(wmoax_payment(10), USER, MEX_TOKEN_ID.to_vec(), n(1), 360, n(1), n(1));
    let (flow, action) = module.resume(flow, PosEvent::Payments(vec![]));
    assert_eq!(flow.stage, PosStage::Failed);
    assert_eq!(action, PosAction::Abort(PosCreatorError::UnexpectedResult));
    // after the end, anything aborts
    let (flow, action) = module.resume(flow, PosEvent::Payment(payment(MEX_TOKEN_ID, 0, 1)));
    assert_eq!(flow.stage, PosStage::Failed);
    assert_eq!(action, PosAction::Abort(PosCreatorError::UnexpectedResult));
}

#[test]
fn all_leftovers_go_back_with_the_lp_tokens_first() {
    let c = contract();
    let module = &c;
    let (flow, _) =
        module.create_pair_pos_from_single_token_endpoint(wmoax_payment(10), USER, MEX_TOKEN_ID.to_vec(), n(1), 360, n(1), n(1));
    let (flow, _) = module.resume(flow, PosEvent::Payment(payment(MEX_TOKEN_ID, 0, 9)));
    let (flow, _) = module.resume(flow, PosEvent::Payment(payment(LOCKED_TOKEN_ID, 1, 9)));
    let (_, action) = module.resume(
        flow,
        PosEvent::Payments(vec![
            payment(WRAPPED_LP_TOKEN_ID, 1, 4),
            payment(LOCKED_TOKEN_ID, 1, 3),
            payment(WMOAX_TOKEN_ID, 0, 1),
            payment(b"EXTRA-123456", 0, 8),
        ]),
    );
    match action {
        PosAction::Finish { output_payments, .. } => assert_eq!(
            output_payments,
            vec![
                payment(WRAPPED_LP_TOKEN_ID, 1, 4),
                payment(LOCKED_TOKEN_ID, 1, 3),
                payment(WMOAX_TOKEN_ID, 0, 1)
            ]
        ),
        other => panic!("expected the end, got {:?}", other),
    }
}

#[test]
fn amounts_beyond_128_bits_are_split() {
    let c = contract();
    let module = &c;
    // 2^128 + 1 wrapped MOAX
    let paid = MoaxOrDctTokenPayment {
        token_identifier: MoaxOrDctTokenIdentifier::Dct(WMOAX_TOKEN_ID.to_vec()),
        token_nonce: 0,
        amount: BigUint::from_u32_digits(vec![1, 0, 0, 0, 1]),
    };
    let (flow, action) =
        module.create_pair_pos_from_single_token_endpoint(paid, USER, MEX_TOKEN_ID.to_vec(), n(1), 360, n(1), n(1));
    assert_eq!(
        flow.stage,
        PosStage::AwaitingSwap {
            remaining_wmoax: DctTokenPayment::new(
                WMOAX_TOKEN_ID.to_vec(),
                0,
                BigUint::from_u32_digits(vec![1, 0, 0, 0x8000_0000]),
            ),
        }
    );
    match expect_call(action) {
        ContractCall::SwapTokensFixedInput { payment: swapped, .. } => assert_eq!(
            swapped,
            DctTokenPayment::new(WMOAX_TOKEN_ID.to_vec(), 0, BigUint::from_u32_digits(vec![0, 0, 0, 0x8000_0000]))
        ),
        other => panic!("expected a swap, got {:?}", other),
    }
}
