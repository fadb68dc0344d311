//! Adding liquidity and entering farms through the DEX proxy contract,
//! which works with locked tokens.
use vstd::prelude::*;
use crate::calls::{CallView, ContractCall};
use crate::errors::PosCreatorError;
use crate::types::{payments_view, Amount, DctTokenPayment, PaymentView};
use crate::utils::Address;

verus! {

/// What adding liquidity through the proxy yields: the wrapped LP tokens,
/// and what is left of the locked tokens and of the wrapped MOAX.
#[derive(Debug, PartialEq, Eq)]
pub struct AddLiquidityProxyResult {
    pub wrapped_lp_token: DctTokenPayment,
    pub locked_token_leftover: DctTokenPayment,
    pub wmoax_leftover: DctTokenPayment,
}

/// The abstract value of an [`AddLiquidityProxyResult`].
pub struct AddLiquidityProxyResultView {
    pub wrapped_lp_token: PaymentView,
    pub locked_token_leftover: PaymentView,
    pub wmoax_leftover: PaymentView,
}

impl View for AddLiquidityProxyResult {
    type V = AddLiquidityProxyResultView;

    open spec fn view(&self) -> AddLiquidityProxyResultView {
        AddLiquidityProxyResultView {
            wrapped_lp_token: self.wrapped_lp_token@,
            locked_token_leftover: self.locked_token_leftover@,
            wmoax_leftover: self.wmoax_leftover@,
        }
    }
}

impl AddLiquidityProxyResult {
    /// A copy of this result.
    pub fn duplicate(&self) -> (res: Self)
        ensures
            res@ == self@,
    {
        AddLiquidityProxyResult {
            wrapped_lp_token: self.wrapped_lp_token.duplicate(),
            locked_token_leftover: self.locked_token_leftover.duplicate(),
            wmoax_leftover: self.wmoax_leftover.duplicate(),
        }
    }
}

/// The result read from the first three payments that the proxy returns,
/// in the order wrapped LP tokens, locked token leftover, wrapped MOAX
/// leftover.
pub open spec fn proxy_result_of(output_payments: Seq<PaymentView>) -> AddLiquidityProxyResultView {
    AddLiquidityProxyResultView {
        wrapped_lp_token: output_payments[0],
        locked_token_leftover: output_payments[1],
        wmoax_leftover: output_payments[2],
    }
}

/// The DEX proxy module: it stores the address of the DEX proxy and calls
/// it.
pub trait ProxyDexActionsModule {
    /// The stored address of the DEX proxy.
    spec fn stored_proxy_dex_address(&self) -> Address;

    /// Reads the stored address of the DEX proxy.
    fn proxy_dex_address(&self) -> (res: Address)
        ensures
            res == self.stored_proxy_dex_address(),
    ;

    /// The call that adds `payments` as liquidity to the pair at
    /// `pair_address` through the proxy, with the two least amounts.
    fn call_add_liquidity_proxy(
        &self,
        payments: Vec<DctTokenPayment>,
        pair_address: Address,
        first_token_amount_min: Amount,
        second_token_amount_min: Amount,
    ) -> (call: ContractCall)
        ensures
            call@ == (CallView::AddLiquidityProxy {
                to: self.stored_proxy_dex_address(),
                pair_address,
                first_token_amount_min: first_token_amount_min@,
                second_token_amount_min: second_token_amount_min@,
                payments: payments_view(payments@),
            }),
    {
        ContractCall::AddLiquidityProxy {
            to: self.proxy_dex_address(),
            pair_address,
            first_token_amount_min,
            second_token_amount_min,
            payments,
        }
    }

    /// Reads the outcome of adding liquidity through the proxy from the
    /// payments it returned; fewer than three payments abort the call.
    fn add_liquidity_proxy_result(&self, output_payments: &Vec<DctTokenPayment>) -> (res: Result<
        AddLiquidityProxyResult,
        PosCreatorError,
    >)
        ensures
            res is Ok <==> output_payments.len() >= 3,
            res is Err ==> res == Err::<AddLiquidityProxyResult, PosCreatorError>(
                PosCreatorError::MissingOutputPayment,
            ),
            res matches Ok(r) ==> r@ == proxy_result_of(payments_view(output_payments@)),
    {
        if output_payments.len() < 3 {
            return Err(PosCreatorError::MissingOutputPayment);
        }
        Ok(AddLiquidityProxyResult {
            wrapped_lp_token: output_payments[0].duplicate(),
            locked_token_leftover: output_payments[1].duplicate(),
            wmoax_leftover: output_payments[2].duplicate(),
        })
    }

    /// The call that puts `payment` (wrapped LP tokens) into the farm at
    /// `farm_address` through the proxy; the proxy answers with the wrapped
    /// farm tokens.
    fn call_enter_farm_proxy(&self, payment: DctTokenPayment, farm_address: Address) -> (call:
        ContractCall)
        ensures
            call@ == (CallView::EnterFarmProxy {
                to: self.stored_proxy_dex_address(),
                farm_address,
                payment: payment@,
            }),
    {
        ContractCall::EnterFarmProxy { to: self.proxy_dex_address(), farm_address, payment }
    }
}

} // verus!
