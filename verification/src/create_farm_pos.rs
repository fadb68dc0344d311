//! The endpoint that creates a farm position from a single payment of MOAX
//! or wrapped MOAX: a liquidity position whose wrapped LP tokens then enter
//! the farm.
use vstd::prelude::*;
use crate::calls::CallView;
use crate::create_pair_pos::{leftover_output_payments, pos_config_of, CreatePairPosModule};
use crate::pos_flow::{
    at_stage, leftover_payments, start_flow, ActionView, PosAction, PosFlow, PosKind, PosParams,
    PosParamsView,
    PosResult, PosResultView, PosStage, StageView,
};
use crate::proxy_dex_actions::{AddLiquidityProxyResult, ProxyDexActionsModule};
use crate::types::{payments_view, Amount, DctTokenPayment, Epoch, MoaxOrDctTokenPayment, PaymentView};
use crate::utils::Address;

verus! {

/// What creating a farm position returns: the wrapped farm tokens, and the
/// leftovers of adding liquidity.
#[derive(Debug, PartialEq, Eq)]
pub struct CreateFarmPosResult {
    pub wrapped_farm_token: DctTokenPayment,
    pub locked_token_leftover: DctTokenPayment,
    pub wmoax_leftover: DctTokenPayment,
}

/// The abstract value of a [`CreateFarmPosResult`].
pub struct CreateFarmPosResultView {
    pub wrapped_farm_token: PaymentView,
    pub locked_token_leftover: PaymentView,
    pub wmoax_leftover: PaymentView,
}

impl View for CreateFarmPosResult {
    type V = CreateFarmPosResultView;

    open spec fn view(&self) -> CreateFarmPosResultView {
        CreateFarmPosResultView {
            wrapped_farm_token: self.wrapped_farm_token@,
            locked_token_leftover: self.locked_token_leftover@,
            wmoax_leftover: self.wmoax_leftover@,
        }
    }
}

/// The farm position module. Besides the liquidity position module it
/// uses the stored address of the farm.
pub trait CreateFarmPosModule: CreatePairPosModule {
    /// The stored address of the farm.
    spec fn stored_farm_address(&self) -> Address;

    /// Reads the stored address of the farm.
    fn farm_address(&self) -> (res: Address)
        ensures
            res == self.stored_farm_address(),
    ;

    /// The endpoint: creates a farm position for `caller` from `payment`
    /// (MOAX or wrapped MOAX), as the liquidity endpoint does, then puts
    /// the wrapped LP tokens into the stored farm. The returned action is
    /// the first call to make; `resume` gives the next ones.
    fn create_farm_pos_from_single_token(
        &self,
        payment: MoaxOrDctTokenPayment,
        caller: Address,
        base_token_id: Vec<u8>,
        swap_min_amount_out: Amount,
        lock_epochs: Epoch,
        add_liq_first_token_min_amount: Amount,
        add_liq_second_token_min_amount: Amount,
    ) -> (res: (PosFlow, PosAction))
        ensures
            (res.0@, res.1@) == start_flow(
                pos_config_of(self),
                PosKind::FarmPos { farm_address: self.stored_farm_address() },
                caller,
                base_token_id@,
                PosParamsView {
                    swap_min_amount_out: swap_min_amount_out@,
                    lock_epochs,
                    add_liq_first_token_min_amount: add_liq_first_token_min_amount@,
                    add_liq_second_token_min_amount: add_liq_second_token_min_amount@,
                },
                payment@,
            ),
    {
        let params = PosParams {
            swap_min_amount_out,
            lock_epochs,
            add_liq_first_token_min_amount,
            add_liq_second_token_min_amount,
        };
        let farm_address = self.farm_address();
        self.start_pos_creation(PosKind::FarmPos { farm_address }, caller, base_token_id, params, payment)
    }
}

/// After adding liquidity for a farm position: the non-empty leftovers are
/// put aside for the caller and the wrapped LP tokens go into the farm at
/// `farm_address` through the proxy.
pub fn enter_farm_step<M: ProxyDexActionsModule + ?Sized>(
    proxy_dex: &M,
    flow: PosFlow,
    farm_address: Address,
    add_liq_result: AddLiquidityProxyResult,
) -> (res: (PosFlow, PosAction))
    ensures
        res.0@ == at_stage(
            flow@,
            StageView::AwaitingFarm {
                add_liq_result: add_liq_result@,
                output_payments: leftover_payments(add_liq_result@),
            },
        ),
        res.1@ == ActionView::Call(
            CallView::EnterFarmProxy {
                to: proxy_dex.stored_proxy_dex_address(),
                farm_address,
                payment: add_liq_result.wrapped_lp_token@,
            },
        ),
{
    let output_payments = leftover_output_payments(&add_liq_result);
    let call = proxy_dex.call_enter_farm_proxy(add_liq_result.wrapped_lp_token.duplicate(), farm_address);
    let next = PosFlow {
        kind: flow.kind,
        caller: flow.caller,
        base_token_id: flow.base_token_id,
        params: flow.params,
        stage: PosStage::AwaitingFarm { add_liq_result, output_payments },
    };
    (next, PosAction::Call(call))
}

/// The end of a farm position: the leftovers put aside, then the wrapped
/// farm tokens, go to `caller`, and the result is returned.
pub fn finish_farm_pos(
    caller: Address,
    add_liq_result: AddLiquidityProxyResult,
    output_payments: Vec<DctTokenPayment>,
    wrapped_farm_token: DctTokenPayment,
) -> (action: PosAction)
    ensures
        action@ == (ActionView::Finish {
            to: caller,
            output_payments: payments_view(output_payments@).push(wrapped_farm_token@),
            result: PosResultView::FarmPos(
                CreateFarmPosResultView {
                    wrapped_farm_token: wrapped_farm_token@,
                    locked_token_leftover: add_liq_result.locked_token_leftover@,
                    wmoax_leftover: add_liq_result.wmoax_leftover@,
                },
            ),
        }),
{
    let mut output_payments = output_payments;
    let ghost before = output_payments@;
    output_payments.push(wrapped_farm_token.duplicate());
    assert(payments_view(output_payments@) =~= payments_view(before).push(wrapped_farm_token@));
    let result = CreateFarmPosResult {
        wmoax_leftover: add_liq_result.wmoax_leftover,
        locked_token_leftover: add_liq_result.locked_token_leftover,
        wrapped_farm_token,
    };
    PosAction::Finish { to: caller, output_payments, result: PosResult::FarmPos(result) }
}

} // verus!
