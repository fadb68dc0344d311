//! The calls that the contracts make into other contracts (the MOAX
//! wrapper, a liquidity pair, the energy factory, the DEX proxy), described
//! as plain values: the host performs them and hands back what they return.
use vstd::prelude::*;
use crate::types::{payments_view, Amount, DctTokenPayment, Epoch, PaymentView};
use crate::utils::Address;

verus! {

/// A call into another contract, with the tokens sent along with it.
#[derive(Debug, PartialEq, Eq)]
pub enum ContractCall {
    /// `wrapMoax` on the wrapper `to`, paid with `moax_amount` MOAX.
    WrapMoax { to: Address, moax_amount: Amount },
    /// `swapTokensFixedInput(token_out, amount_out_min)` on the pair `to`,
    /// paid with `payment`.
    SwapTokensFixedInput {
        to: Address,
        payment: DctTokenPayment,
        token_out: Vec<u8>,
        amount_out_min: Amount,
    },
    /// `addLiquidity(first_token_amount_min, second_token_amount_min)` on
    /// the pair `to`, paid with both payments.
    AddLiquidity {
        to: Address,
        first_payment: DctTokenPayment,
        second_payment: DctTokenPayment,
        first_token_amount_min: Amount,
        second_token_amount_min: Amount,
    },
    /// `removeLiquidity(first_token_amount_min, second_token_amount_min)` on
    /// the pair `to`, paid with the LP tokens.
    RemoveLiquidity {
        to: Address,
        payment: DctTokenPayment,
        first_token_amount_min: Amount,
        second_token_amount_min: Amount,
    },
    /// Locks `payment` on the energy factory `to` for `lock_epochs`, the
    /// locked tokens going to `dest_address`.
    LockVirtual { to: Address, payment: DctTokenPayment, lock_epochs: Epoch, dest_address: Address },
    /// `addLiquidityProxy(pair_address, ..)` on the DEX proxy `to`, paid
    /// with all of `payments`.
    AddLiquidityProxy {
        to: Address,
        pair_address: Address,
        first_token_amount_min: Amount,
        second_token_amount_min: Amount,
        payments: Vec<DctTokenPayment>,
    },
    /// `enterFarmProxy(farm_address)` on the DEX proxy `to`, paid with
    /// `payment`.
    EnterFarmProxy { to: Address, farm_address: Address, payment: DctTokenPayment },
}

/// The abstract value of a [`ContractCall`].
pub enum CallView {
    WrapMoax { to: Address, moax_amount: nat },
    SwapTokensFixedInput {
        to: Address,
        payment: PaymentView,
        token_out: Seq<u8>,
        amount_out_min: nat,
    },
    AddLiquidity {
        to: Address,
        first_payment: PaymentView,
        second_payment: PaymentView,
        first_token_amount_min: nat,
        second_token_amount_min: nat,
    },
    RemoveLiquidity {
        to: Address,
        payment: PaymentView,
        first_token_amount_min: nat,
        second_token_amount_min: nat,
    },
    LockVirtual { to: Address, payment: PaymentView, lock_epochs: Epoch, dest_address: Address },
    AddLiquidityProxy {
        to: Address,
        pair_address: Address,
        first_token_amount_min: nat,
        second_token_amount_min: nat,
        payments: Seq<PaymentView>,
    },
    EnterFarmProxy { to: Address, farm_address: Address, payment: PaymentView },
}

impl View for ContractCall {
    type V = CallView;

    open spec fn view(&self) -> CallView {
        match self {
            ContractCall::WrapMoax { to, moax_amount } => CallView::WrapMoax {
                to: *to,
                moax_amount: moax_amount@,
            },
            ContractCall::SwapTokensFixedInput { to, payment, token_out, amount_out_min } =>
                CallView::SwapTokensFixedInput {
                to: *to,
                payment: payment@,
                token_out: token_out@,
                amount_out_min: amount_out_min@,
            },
            ContractCall::AddLiquidity {
                to,
                first_payment,
                second_payment,
                first_token_amount_min,
                second_token_amount_min,
            } => CallView::AddLiquidity {
                to: *to,
                first_payment: first_payment@,
                second_payment: second_payment@,
                first_token_amount_min: first_token_amount_min@,
                second_token_amount_min: second_token_amount_min@,
            },
            ContractCall::RemoveLiquidity {
                to,
                payment,
                first_token_amount_min,
                second_token_amount_min,
            } => CallView::RemoveLiquidity {
                to: *to,
                payment: payment@,
                first_token_amount_min: first_token_amount_min@,
                second_token_amount_min: second_token_amount_min@,
            },
            ContractCall::LockVirtual { to, payment, lock_epochs, dest_address } =>
                CallView::LockVirtual {
                to: *to,
                payment: payment@,
                lock_epochs: *lock_epochs,
                dest_address: *dest_address,
            },
            ContractCall::AddLiquidityProxy {
                to,
                pair_address,
                first_token_amount_min,
                second_token_amount_min,
                payments,
            } => CallView::AddLiquidityProxy {
                to: *to,
                pair_address: *pair_address,
                first_token_amount_min: first_token_amount_min@,
                second_token_amount_min: second_token_amount_min@,
                payments: payments_view(payments@),
            },
            ContractCall::EnterFarmProxy { to, farm_address, payment } =>
                CallView::EnterFarmProxy {
                to: *to,
                farm_address: *farm_address,
                payment: payment@,
            },
        }
    }
}

} // verus!
