//! Creating a position from a single token is a sequence of calls into
//! other contracts: wrap MOAX (when paid in MOAX), swap half of the wrapped
//! MOAX for the base token, lock it, add both as liquidity through the DEX
//! proxy, and (for a farm position) enter the farm. The host makes each
//! call; this module decides, from the state of the creation and what the
//! last call returned, the next call or the end.
use vstd::prelude::*;
use crate::calls::{CallView, ContractCall};
use crate::create_farm_pos::{CreateFarmPosResult, CreateFarmPosResultView};
use crate::errors::PosCreatorError;
use crate::proxy_dex_actions::{proxy_result_of, AddLiquidityProxyResult, AddLiquidityProxyResultView};
use crate::types::{
    payment_view, payments_view, Amount, DctTokenPayment, Epoch, MoaxOrDctPaymentView, PaymentView,
    TokenView,
};
use crate::utils::Address;

verus! {

/// Which position is being created.
#[derive(Clone, Copy, Debug, PartialEq, Eq)]
pub enum PosKind {
    /// A liquidity position (wrapped LP tokens).
    PairPos,
    /// A farm position in the farm at `farm_address`.
    FarmPos { farm_address: Address },
}

/// The caller's bounds for the creation.
#[derive(Debug, PartialEq, Eq)]
pub struct PosParams {
    /// The least base token that the swap must yield.
    pub swap_min_amount_out: Amount,
    /// How long the base token is locked.
    pub lock_epochs: Epoch,
    /// The least wrapped MOAX that adding liquidity must use.
    pub add_liq_first_token_min_amount: Amount,
    /// The least locked token that adding liquidity must use.
    pub add_liq_second_token_min_amount: Amount,
}

/// The abstract value of [`PosParams`].
pub struct PosParamsView {
    pub swap_min_amount_out: nat,
    pub lock_epochs: Epoch,
    pub add_liq_first_token_min_amount: nat,
    pub add_liq_second_token_min_amount: nat,
}

impl View for PosParams {
    type V = PosParamsView;

    open spec fn view(&self) -> PosParamsView {
        PosParamsView {
            swap_min_amount_out: self.swap_min_amount_out@,
            lock_epochs: self.lock_epochs,
            add_liq_first_token_min_amount: self.add_liq_first_token_min_amount@,
            add_liq_second_token_min_amount: self.add_liq_second_token_min_amount@,
        }
    }
}

impl PosParams {
    /// A copy of these bounds.
    pub fn duplicate(&self) -> (res: Self)
        ensures
            res@ == self@,
    {
        PosParams {
            swap_min_amount_out: self.swap_min_amount_out.duplicate(),
            lock_epochs: self.lock_epochs,
            add_liq_first_token_min_amount: self.add_liq_first_token_min_amount.duplicate(),
            add_liq_second_token_min_amount: self.add_liq_second_token_min_amount.duplicate(),
        }
    }
}

/// How far a creation has come: which call's result it waits for.
#[derive(Debug, PartialEq, Eq)]
pub enum PosStage {
    /// Waits for the wrapped MOAX from the wrapper.
    AwaitingWrappedMoax,
    /// Waits for the base token from the swap; holds the unswapped half.
    AwaitingSwap { remaining_wmoax: DctTokenPayment },
    /// Waits for the locked tokens; holds the unswapped half.
    AwaitingLock { remaining_wmoax: DctTokenPayment },
    /// Waits for the payments of adding liquidity through the proxy.
    AwaitingLiquidity,
    /// Waits for the wrapped farm tokens; holds the liquidity result and
    /// the leftovers that go back to the caller.
    AwaitingFarm { add_liq_result: AddLiquidityProxyResult, output_payments: Vec<DctTokenPayment> },
    /// The position was created.
    Finished,
    /// The creation was aborted.
    Failed,
}

/// The abstract value of a [`PosStage`].
pub enum StageView {
    AwaitingWrappedMoax,
    AwaitingSwap { remaining_wmoax: PaymentView },
    AwaitingLock { remaining_wmoax: PaymentView },
    AwaitingLiquidity,
    AwaitingFarm { add_liq_result: AddLiquidityProxyResultView, output_payments: Seq<PaymentView> },
    Finished,
    Failed,
}

impl View for PosStage {
    type V = StageView;

    open spec fn view(&self) -> StageView {
        match self {
            PosStage::AwaitingWrappedMoax => StageView::AwaitingWrappedMoax,
            PosStage::AwaitingSwap { remaining_wmoax } => StageView::AwaitingSwap {
                remaining_wmoax: remaining_wmoax@,
            },
            PosStage::AwaitingLock { remaining_wmoax } => StageView::AwaitingLock {
                remaining_wmoax: remaining_wmoax@,
            },
            PosStage::AwaitingLiquidity => StageView::AwaitingLiquidity,
            PosStage::AwaitingFarm { add_liq_result, output_payments } => StageView::AwaitingFarm {
                add_liq_result: add_liq_result@,
                output_payments: payments_view(output_payments@),
            },
            PosStage::Finished => StageView::Finished,
            PosStage::Failed => StageView::Failed,
        }
    }
}

/// A position creation in progress, for `caller`; `base_token_id` is the
/// token that the wrapped MOAX is swapped for.
#[derive(Debug, PartialEq, Eq)]
pub struct PosFlow {
    pub kind: PosKind,
    pub caller: Address,
    pub base_token_id: Vec<u8>,
    pub params: PosParams,
    pub stage: PosStage,
}

/// The abstract value of a [`PosFlow`].
pub struct FlowView {
    pub kind: PosKind,
    pub caller: Address,
    pub base_token_id: Seq<u8>,
    pub params: PosParamsView,
    pub stage: StageView,
}

impl View for PosFlow {
    type V = FlowView;

    open spec fn view(&self) -> FlowView {
        FlowView {
            kind: self.kind,
            caller: self.caller,
            base_token_id: self.base_token_id@,
            params: self.params@,
            stage: self.stage@,
        }
    }
}

/// What the last call returned.
#[derive(Debug, PartialEq, Eq)]
pub enum PosEvent {
    /// A single payment (wrapping, swapping, locking, entering the farm).
    Payment(DctTokenPayment),
    /// Several payments (adding liquidity through the proxy).
    Payments(Vec<DctTokenPayment>),
}

/// The abstract value of a [`PosEvent`].
pub enum EventView {
    Payment(PaymentView),
    Payments(Seq<PaymentView>),
}

impl View for PosEvent {
    type V = EventView;

    open spec fn view(&self) -> EventView {
        match self {
            PosEvent::Payment(p) => EventView::Payment(p@),
            PosEvent::Payments(ps) => EventView::Payments(payments_view(ps@)),
        }
    }
}

/// What a finished creation returns to the caller of the endpoint.
#[derive(Debug, PartialEq, Eq)]
pub enum PosResult {
    PairPos(AddLiquidityProxyResult),
    FarmPos(CreateFarmPosResult),
}

/// The abstract value of a [`PosResult`].
pub enum PosResultView {
    PairPos(AddLiquidityProxyResultView),
    FarmPos(CreateFarmPosResultView),
}

impl View for PosResult {
    type V = PosResultView;

    open spec fn view(&self) -> PosResultView {
        match self {
            PosResult::PairPos(r) => PosResultView::PairPos(r@),
            PosResult::FarmPos(r) => PosResultView::FarmPos(r@),
        }
    }
}

/// What the host does next.
#[derive(Debug, PartialEq, Eq)]
pub enum PosAction {
    /// Make this call and hand its result back.
    Call(ContractCall),
    /// Send `output_payments` to `to` and end the endpoint with `result`.
    Finish { to: Address, output_payments: Vec<DctTokenPayment>, result: PosResult },
    /// Abort the transaction.
    Abort(PosCreatorError),
}

/// The abstract value of a [`PosAction`].
pub enum ActionView {
    Call(CallView),
    Finish { to: Address, output_payments: Seq<PaymentView>, result: PosResultView },
    Abort(PosCreatorError),
}

impl View for PosAction {
    type V = ActionView;

    open spec fn view(&self) -> ActionView {
        match self {
            PosAction::Call(c) => ActionView::Call(c@),
            PosAction::Finish { to, output_payments, result } => ActionView::Finish {
                to: *to,
                output_payments: payments_view(output_payments@),
                result: result@,
            },
            PosAction::Abort(e) => ActionView::Abort(*e),
        }
    }
}

/// The configuration that a creation uses: the wrapped MOAX token and the
/// addresses of the contracts it calls.
pub struct PosConfig {
    pub wmoax_token_id: Seq<u8>,
    pub moax_wrapper_sc_address: Address,
    pub mex_wmoax_pair_address: Address,
    pub energy_factory_address: Address,
    pub proxy_dex_address: Address,
}

/// The half of a payment that is swapped (rounded down).
pub open spec fn swapped_half(amount: nat) -> nat {
    amount / 2
}

/// What is left of a payment after its swapped half.
pub open spec fn unswapped_half(amount: nat) -> nat {
    (amount - amount / 2) as nat
}

/// The same creation at another stage.
pub open spec fn at_stage(flow: FlowView, stage: StageView) -> FlowView {
    FlowView { stage, ..flow }
}

/// The creation aborted with `err`.
pub open spec fn abort_with(flow: FlowView, err: PosCreatorError) -> (FlowView, ActionView) {
    (at_stage(flow, StageView::Failed), ActionView::Abort(err))
}

/// With the wrapped MOAX payment `payment` in hand: swap half of it (as a
/// fungible payment) for the base token on the MEX/WMOAX pair, keeping the
/// other half.
pub open spec fn after_dct_payment(cfg: PosConfig, flow: FlowView, payment: PaymentView) -> (FlowView, ActionView) {
    (
        at_stage(
            flow,
            StageView::AwaitingSwap {
                remaining_wmoax: payment_view(payment.token_identifier, 0, unswapped_half(payment.amount)),
            },
        ),
        ActionView::Call(
            CallView::SwapTokensFixedInput {
                to: cfg.mex_wmoax_pair_address,
                payment: payment_view(payment.token_identifier, 0, swapped_half(payment.amount)),
                token_out: flow.base_token_id,
                amount_out_min: flow.params.swap_min_amount_out,
            },
        ),
    )
}

/// The start of a creation paid with `payment`: MOAX is wrapped first,
/// wrapped MOAX goes straight to the swap, any other token aborts.
pub open spec fn start_flow(
    cfg: PosConfig,
    kind: PosKind,
    caller: Address,
    base_token_id: Seq<u8>,
    params: PosParamsView,
    payment: MoaxOrDctPaymentView,
) -> (FlowView, ActionView) {
    let flow = FlowView { kind, caller, base_token_id, params, stage: StageView::AwaitingWrappedMoax };
    match payment.token_identifier {
        TokenView::Moax => (
            flow,
            ActionView::Call(
                CallView::WrapMoax { to: cfg.moax_wrapper_sc_address, moax_amount: payment.amount },
            ),
        ),
        TokenView::Dct(id) => if id == cfg.wmoax_token_id {
            after_dct_payment(cfg, flow, payment_view(id, payment.token_nonce, payment.amount))
        } else {
            abort_with(flow, PosCreatorError::InvalidPayment)
        },
    }
}

/// The leftovers of adding liquidity that go back to the caller: the
/// locked tokens, then the wrapped MOAX, each only when not empty.
pub open spec fn leftover_payments(r: AddLiquidityProxyResultView) -> Seq<PaymentView> {
    (if r.locked_token_leftover.amount > 0 {
        seq![r.locked_token_leftover]
    } else {
        Seq::empty()
    }) + (if r.wmoax_leftover.amount > 0 {
        seq![r.wmoax_leftover]
    } else {
        Seq::empty()
    })
}

/// What a liquidity position sends to the caller: the wrapped LP tokens,
/// then the leftovers.
pub open spec fn pair_pos_output_payments(r: AddLiquidityProxyResultView) -> Seq<PaymentView> {
    seq![r.wrapped_lp_token] + leftover_payments(r)
}

/// The next step of a creation, given what the pending call returned. A
/// result that does not answer the pending call, or any result after the
/// end, aborts.
pub open spec fn next_flow(cfg: PosConfig, flow: FlowView, event: EventView) -> (FlowView, ActionView) {
    match flow.stage {
        StageView::AwaitingWrappedMoax => match event {
            EventView::Payment(wrapped) => after_dct_payment(cfg, flow, wrapped),
            _ => abort_with(flow, PosCreatorError::UnexpectedResult),
        },
        StageView::AwaitingSwap { remaining_wmoax } => match event {
            EventView::Payment(base_tokens) => (
                at_stage(flow, StageView::AwaitingLock { remaining_wmoax }),
                ActionView::Call(
                    CallView::LockVirtual {
                        to: cfg.energy_factory_address,
                        payment: base_tokens,
                        lock_epochs: flow.params.lock_epochs,
                        dest_address: flow.caller,
                    },
                ),
            ),
            _ => abort_with(flow, PosCreatorError::UnexpectedResult),
        },
        StageView::AwaitingLock { remaining_wmoax } => match event {
            EventView::Payment(locked_tokens) => (
                at_stage(flow, StageView::AwaitingLiquidity),
                ActionView::Call(
                    CallView::AddLiquidityProxy {
                        to: cfg.proxy_dex_address,
                        pair_address: cfg.mex_wmoax_pair_address,
                        first_token_amount_min: flow.params.add_liq_first_token_min_amount,
                        second_token_amount_min: flow.params.add_liq_second_token_min_amount,
                        payments: seq![remaining_wmoax, locked_tokens],
                    },
                ),
            ),
            _ => abort_with(flow, PosCreatorError::UnexpectedResult),
        },
        StageView::AwaitingLiquidity => match event {
            EventView::Payments(outputs) => if outputs.len() < 3 {
                abort_with(flow, PosCreatorError::MissingOutputPayment)
            } else {
                let r = proxy_result_of(outputs);
                match flow.kind {
                    PosKind::PairPos => (
                        at_stage(flow, StageView::Finished),
                        ActionView::Finish {
                            to: flow.caller,
                            output_payments: pair_pos_output_payments(r),
                            result: PosResultView::PairPos(r),
                        },
                    ),
                    PosKind::FarmPos { farm_address } => (
                        at_stage(
                            flow,
                            StageView::AwaitingFarm {
                                add_liq_result: r,
                                output_payments: leftover_payments(r),
                            },
                        ),
                        ActionView::Call(
                            CallView::EnterFarmProxy {
                                to: cfg.proxy_dex_address,
                                farm_address,
                                payment: r.wrapped_lp_token,
                            },
                        ),
                    ),
                }
            },
            _ => abort_with(flow, PosCreatorError::UnexpectedResult),
        },
        StageView::AwaitingFarm { add_liq_result, output_payments } => match event {
            EventView::Payment(wrapped_farm_token) => (
                at_stage(flow, StageView::Finished),
                ActionView::Finish {
                    to: flow.caller,
                    output_payments: output_payments.push(wrapped_farm_token),
                    result: PosResultView::FarmPos(
                        CreateFarmPosResultView {
                            wrapped_farm_token,
                            locked_token_leftover: add_liq_result.locked_token_leftover,
                            wmoax_leftover: add_liq_result.wmoax_leftover,
                        },
                    ),
                },
            ),
            _ => abort_with(flow, PosCreatorError::UnexpectedResult),
        },
        _ => abort_with(flow, PosCreatorError::UnexpectedResult),
    }
}

} // verus!
