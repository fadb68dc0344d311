//! The endpoint that creates a liquidity position from a single payment of
//! MOAX or wrapped MOAX, and the steps that every position creation shares.
use vstd::prelude::*;
use crate::calls::{CallView, ContractCall};
use crate::create_farm_pos::{enter_farm_step, finish_farm_pos};
use crate::errors::PosCreatorError;
use crate::moax_wrapper_actions::MoaxWrapperActionsModule;
use crate::pos_flow::{
    after_dct_payment, leftover_payments, next_flow, pair_pos_output_payments, start_flow,
    ActionView, FlowView, PosAction, PosConfig, PosEvent, PosFlow, PosKind, PosParams, PosParamsView,
    PosResult,
    PosStage, StageView,
};
use crate::proxy_dex_actions::{AddLiquidityProxyResult, ProxyDexActionsModule};
use crate::types::{
    copy_bytes, payment_view, payments_view, Amount, DctTokenPayment, Epoch, MoaxOrDctTokenPayment,
    PaymentView, TokenView,
};
use crate::utils::Address;

verus! {

/// The wrapped MOAX payment and the caller's bounds for creating a
/// position from it.
#[derive(Debug, PartialEq, Eq)]
pub struct AddLiquidityArguments {
    pub payment: DctTokenPayment,
    pub swap_min_amount_out: Amount,
    pub lock_epochs: Epoch,
    pub add_liq_first_token_min_amount: Amount,
    pub add_liq_second_token_min_amount: Amount,
}

/// The bounds held in `args`.
pub open spec fn params_of(args: AddLiquidityArguments) -> PosParamsView {
    PosParamsView {
        swap_min_amount_out: args.swap_min_amount_out@,
        lock_epochs: args.lock_epochs,
        add_liq_first_token_min_amount: args.add_liq_first_token_min_amount@,
        add_liq_second_token_min_amount: args.add_liq_second_token_min_amount@,
    }
}

/// A creation for `caller` that has not made any call yet.
pub open spec fn initial_flow(
    kind: PosKind,
    caller: Address,
    base_token_id: Seq<u8>,
    params: PosParamsView,
) -> FlowView {
    FlowView { kind, caller, base_token_id, params, stage: StageView::AwaitingWrappedMoax }
}

/// How a received payment becomes wrapped MOAX.
#[derive(Debug, PartialEq, Eq)]
pub enum DctPaymentStep {
    /// MOAX: wrap it with this call first.
    WrapFirst(ContractCall),
    /// Already wrapped MOAX.
    Ready(DctTokenPayment),
}

/// The abstract value of a [`DctPaymentStep`].
pub enum DctPaymentStepView {
    WrapFirst(CallView),
    Ready(PaymentView),
}

impl View for DctPaymentStep {
    type V = DctPaymentStepView;

    open spec fn view(&self) -> DctPaymentStepView {
        match self {
            DctPaymentStep::WrapFirst(c) => DctPaymentStepView::WrapFirst(c@),
            DctPaymentStep::Ready(p) => DctPaymentStepView::Ready(p@),
        }
    }
}

/// The addresses that creating a position needs besides those of the
/// wrapper and proxy modules: the MEX/WMOAX pair and the energy factory.
pub trait PosCreationConfig: MoaxWrapperActionsModule + ProxyDexActionsModule {
    /// The stored address of the MEX/WMOAX pair.
    spec fn stored_mex_wmoax_pair_address(&self) -> Address;

    /// The stored address of the energy factory.
    spec fn stored_energy_factory_address(&self) -> Address;

    /// Reads the stored address of the MEX/WMOAX pair.
    fn mex_wmoax_pair_address(&self) -> (res: Address)
        ensures
            res == self.stored_mex_wmoax_pair_address(),
    ;

    /// Reads the stored address of the energy factory.
    fn energy_factory_address(&self) -> (res: Address)
        ensures
            res == self.stored_energy_factory_address(),
    ;
}

/// The configuration that a creation reads from the storage of `module`.
pub open spec fn pos_config_of<M: PosCreationConfig + ?Sized>(module: &M) -> PosConfig {
    PosConfig {
        wmoax_token_id: module.stored_wmoax_token_id(),
        moax_wrapper_sc_address: module.stored_moax_wrapper_sc_address(),
        mex_wmoax_pair_address: module.stored_mex_wmoax_pair_address(),
        energy_factory_address: module.stored_energy_factory_address(),
        proxy_dex_address: module.stored_proxy_dex_address(),
    }
}

/// The arguments of a creation paid with `payment`, with the bounds
/// `params`.
fn args_with_params(payment: DctTokenPayment, params: PosParams) -> (args: AddLiquidityArguments)
    ensures
        args.payment@ == payment@,
        params_of(args) == params@,
{
    AddLiquidityArguments {
        payment,
        swap_min_amount_out: params.swap_min_amount_out,
        lock_epochs: params.lock_epochs,
        add_liq_first_token_min_amount: params.add_liq_first_token_min_amount,
        add_liq_second_token_min_amount: params.add_liq_second_token_min_amount,
    }
}

/// The leftovers of adding liquidity that go back to the caller.
pub fn leftover_output_payments(r: &AddLiquidityProxyResult) -> (res: Vec<DctTokenPayment>)
    ensures
        payments_view(res@) == leftover_payments(r@),
{
    let mut res: Vec<DctTokenPayment> = Vec::new();
    if !r.locked_token_leftover.amount.is_zero() {
        res.push(r.locked_token_leftover.duplicate());
    }
    if !r.wmoax_leftover.amount.is_zero() {
        res.push(r.wmoax_leftover.duplicate());
    }
    assert(payments_view(res@) =~= leftover_payments(r@));
    res
}

/// The liquidity position module.
pub trait CreatePairPosModule: PosCreationConfig {
    /// Turns the received payment into wrapped MOAX: MOAX is wrapped first,
    /// wrapped MOAX is used as it is, any other token is refused.
    fn get_dct_payment(&self, payment: MoaxOrDctTokenPayment) -> (res: Result<
        DctPaymentStep,
        PosCreatorError,
    >)
        ensures
            payment@.token_identifier is Moax ==> (res matches Ok(step) && step@
                == DctPaymentStepView::WrapFirst(
                CallView::WrapMoax {
                    to: self.stored_moax_wrapper_sc_address(),
                    moax_amount: payment.amount@,
                },
            )),
            payment@.token_identifier == TokenView::Dct(self.stored_wmoax_token_id()) ==> (res matches Ok(
                step,
            ) && step@ == DctPaymentStepView::Ready(
                payment_view(self.stored_wmoax_token_id(), payment.token_nonce, payment.amount@),
            )),
            payment@.token_identifier !is Moax && payment@.token_identifier != TokenView::Dct(
                self.stored_wmoax_token_id(),
            ) ==> res == Err::<DctPaymentStep, PosCreatorError>(PosCreatorError::InvalidPayment),
    {
        if payment.token_identifier.is_moax() {
            Ok(DctPaymentStep::WrapFirst(self.call_wrap_moax(payment.amount)))
        } else if payment.token_identifier.is_dct_token(self.wmoax_token_id()) {
            Ok(DctPaymentStep::Ready(payment.unwrap_dct()))
        } else {
            Err(PosCreatorError::InvalidPayment)
        }
    }

    /// With the wrapped MOAX of `args` in hand: keeps half of it and swaps
    /// the other half for the base token on the MEX/WMOAX pair.
    fn create_pair_pos_from_single_token(
        &self,
        kind: PosKind,
        caller: Address,
        base_token_id: Vec<u8>,
        args: AddLiquidityArguments,
    ) -> (res: (PosFlow, PosAction))
        ensures
            (res.0@, res.1@) == after_dct_payment(
                pos_config_of(self),
                initial_flow(kind, caller, base_token_id@, params_of(args)),
                args.payment@,
            ),
    {
        let payment = args.payment;
        let half_amount = payment.amount.half();
        let remaining_amount = payment.amount.sub(&half_amount);
        let half_wmoax_payment = DctTokenPayment::new(copy_bytes(&payment.token_identifier), 0, half_amount);
        let remaining_wmoax = DctTokenPayment::new(payment.token_identifier, 0, remaining_amount);
        let swap = ContractCall::SwapTokensFixedInput {
            to: self.mex_wmoax_pair_address(),
            payment: half_wmoax_payment,
            token_out: copy_bytes(&base_token_id),
            amount_out_min: args.swap_min_amount_out.duplicate(),
        };
        let params = PosParams {
            swap_min_amount_out: args.swap_min_amount_out,
            lock_epochs: args.lock_epochs,
            add_liq_first_token_min_amount: args.add_liq_first_token_min_amount,
            add_liq_second_token_min_amount: args.add_liq_second_token_min_amount,
        };
        let next = PosFlow {
            kind,
            caller,
            base_token_id,
            params,
            stage: PosStage::AwaitingSwap { remaining_wmoax },
        };
        (next, PosAction::Call(swap))
    }

    /// Starts a creation of `kind` for `caller`, paid with `payment`.
    fn start_pos_creation(
        &self,
        kind: PosKind,
        caller: Address,
        base_token_id: Vec<u8>,
        params: PosParams,
        payment: MoaxOrDctTokenPayment,
    ) -> (res: (PosFlow, PosAction))
        ensures
            (res.0@, res.1@) == start_flow(
                pos_config_of(self),
                kind,
                caller,
                base_token_id@,
                params@,
                payment@,
            ),
    {
        let flow = PosFlow { kind, caller, base_token_id, params, stage: PosStage::AwaitingWrappedMoax };
        match self.get_dct_payment(payment) {
            Ok(DctPaymentStep::WrapFirst(call)) => (flow, PosAction::Call(call)),
            Ok(DctPaymentStep::Ready(payment_dct)) => {
                let args = args_with_params(payment_dct, flow.params);
                self.create_pair_pos_from_single_token(flow.kind, flow.caller, flow.base_token_id, args)
            },
            Err(err) => {
                let failed = PosFlow {
                    kind: flow.kind,
                    caller: flow.caller,
                    base_token_id: flow.base_token_id,
                    params: flow.params,
                    stage: PosStage::Failed,
                };
                (failed, PosAction::Abort(err))
            },
        }
    }

    /// The endpoint: creates a liquidity position for `caller` from
    /// `payment` (MOAX or wrapped MOAX), swapping half of it for
    /// `base_token_id`, which is locked for `lock_epochs`. The returned
    /// action is the first call to make; [`Self::resume`] gives the next
    /// ones.
    fn create_pair_pos_from_single_token_endpoint(
        &self,
        payment: MoaxOrDctTokenPayment,
        caller: Address,
        base_token_id: Vec<u8>,
        swap_min_amount_out: Amount,
        lock_epochs: Epoch,
        add_liq_first_token_min_amount: Amount,
        add_liq_second_token_min_amount: Amount,
    ) -> (res: (PosFlow, PosAction))
        ensures
            (res.0@, res.1@) == start_flow(
                pos_config_of(self),
                PosKind::PairPos,
                caller,
                base_token_id@,
                PosParamsView {
                    swap_min_amount_out: swap_min_amount_out@,
                    lock_epochs,
                    add_liq_first_token_min_amount: add_liq_first_token_min_amount@,
                    add_liq_second_token_min_amount: add_liq_second_token_min_amount@,
                },
                payment@,
            ),
    {
        let params = PosParams {
            swap_min_amount_out,
            lock_epochs,
            add_liq_first_token_min_amount,
            add_liq_second_token_min_amount,
        };
        self.start_pos_creation(PosKind::PairPos, caller, base_token_id, params, payment)
    }

    /// The next step of `flow`, given `event`, what its pending call
    /// returned.
    fn resume(&self, flow: PosFlow, event: PosEvent) -> (res: (PosFlow, PosAction))
        ensures
            (res.0@, res.1@) == next_flow(pos_config_of(self), flow@, event@),
    {
        let PosFlow { kind, caller, base_token_id, params, stage } = flow;
        match stage {
            PosStage::AwaitingWrappedMoax => match event {
                PosEvent::Payment(wrapped) => {
                    let args = args_with_params(wrapped, params);
                    self.create_pair_pos_from_single_token(kind, caller, base_token_id, args)
                },
                PosEvent::Payments(_) => unexpected(kind, caller, base_token_id, params),
            },
            PosStage::AwaitingSwap { remaining_wmoax } => match event {
                PosEvent::Payment(base_tokens) => {
                    let lock = ContractCall::LockVirtual {
                        to: self.energy_factory_address(),
                        payment: base_tokens,
                        lock_epochs: params.lock_epochs,
                        dest_address: caller,
                    };
                    let f = PosFlow {
                        kind,
                        caller,
                        base_token_id,
                        params,
                        stage: PosStage::AwaitingLock { remaining_wmoax },
                    };
                    (f, PosAction::Call(lock))
                },
                PosEvent::Payments(_) => unexpected(kind, caller, base_token_id, params),
            },
            PosStage::AwaitingLock { remaining_wmoax } => match event {
                PosEvent::Payment(locked_tokens) => {
                    let mut proxy_payments: Vec<DctTokenPayment> = Vec::new();
                    proxy_payments.push(remaining_wmoax);
                    proxy_payments.push(locked_tokens);
                    let ghost pv = payments_view(proxy_payments@);
                    assert(pv =~= seq![pv[0], pv[1]]);
                    let call = self.call_add_liquidity_proxy(
                        proxy_payments,
                        self.mex_wmoax_pair_address(),
                        params.add_liq_first_token_min_amount.duplicate(),
                        params.add_liq_second_token_min_amount.duplicate(),
                    );
                    let f = PosFlow { kind, caller, base_token_id, params, stage: PosStage::AwaitingLiquidity };
                    (f, PosAction::Call(call))
                },
                PosEvent::Payments(_) => unexpected(kind, caller, base_token_id, params),
            },
            PosStage::AwaitingLiquidity => match event {
                PosEvent::Payments(outputs) => match self.add_liquidity_proxy_result(&outputs) {
                    Err(err) => {
                        let f = PosFlow { kind, caller, base_token_id, params, stage: PosStage::Failed };
                        (f, PosAction::Abort(err))
                    },
                    Ok(add_liq_result) => match kind {
                        PosKind::PairPos => {
                            let f = PosFlow { kind, caller, base_token_id, params, stage: PosStage::Finished };
                            (f, finish_pair_pos(caller, add_liq_result))
                        },
                        PosKind::FarmPos { farm_address } => {
                            let f = PosFlow { kind, caller, base_token_id, params, stage: PosStage::AwaitingLiquidity };
                            enter_farm_step(self, f, farm_address, add_liq_result)
                        },
                    },
                },
                PosEvent::Payment(_) => unexpected(kind, caller, base_token_id, params),
            },
            PosStage::AwaitingFarm { add_liq_result, output_payments } => match event {
                PosEvent::Payment(wrapped_farm_token) => {
                    let f = PosFlow { kind, caller, base_token_id, params, stage: PosStage::Finished };
                    (f, finish_farm_pos(caller, add_liq_result, output_payments, wrapped_farm_token))
                },
                PosEvent::Payments(_) => unexpected(kind, caller, base_token_id, params),
            },
            PosStage::Finished => unexpected(kind, caller, base_token_id, params),
            PosStage::Failed => unexpected(kind, caller, base_token_id, params),
        }
    }

}

/// The abort of a creation that received a result it did not wait for.
fn unexpected(kind: PosKind, caller: Address, base_token_id: Vec<u8>, params: PosParams) -> (res: (
    PosFlow,
    PosAction,
))
    ensures
        res.0@ == (FlowView {
            kind,
            caller,
            base_token_id: base_token_id@,
            params: params@,
            stage: StageView::Failed,
        }),
        res.1@ == ActionView::Abort(PosCreatorError::UnexpectedResult),
{
    let f = PosFlow { kind, caller, base_token_id, params, stage: PosStage::Failed };
    (f, PosAction::Abort(PosCreatorError::UnexpectedResult))
}

/// The end of a liquidity position: the wrapped LP tokens and the
/// non-empty leftovers go to `caller`, and the result is returned.
pub fn finish_pair_pos(caller: Address, add_liq_result: AddLiquidityProxyResult) -> (action: PosAction)
    ensures
        action@ == (ActionView::Finish {
            to: caller,
            output_payments: pair_pos_output_payments(add_liq_result@),
            result: crate::pos_flow::PosResultView::PairPos(add_liq_result@),
        }),
{
    let mut output_payments: Vec<DctTokenPayment> = Vec::new();
    output_payments.push(add_liq_result.wrapped_lp_token.duplicate());
    if !add_liq_result.locked_token_leftover.amount.is_zero() {
        output_payments.push(add_liq_result.locked_token_leftover.duplicate());
    }
    if !add_liq_result.wmoax_leftover.amount.is_zero() {
        output_payments.push(add_liq_result.wmoax_leftover.duplicate());
    }
    assert(payments_view(output_payments@) =~= pair_pos_output_payments(add_liq_result@));
    PosAction::Finish { to: caller, output_payments, result: PosResult::PairPos(add_liq_result) }
}

} // verus!
