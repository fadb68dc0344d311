//! Properties of position creation that hold across its steps.
use vstd::prelude::*;
use crate::calls::CallView;
use crate::errors::PosCreatorError;
use crate::pair_actions::{pair_swap_call, remaining_payment};
use crate::pos_flow::{
    after_dct_payment, leftover_payments, next_flow, pair_pos_output_payments, start_flow,
    ActionView, EventView, FlowView, PosConfig, PosKind, PosParamsView, PosResultView, StageView,
};
use crate::proxy_dex_actions::{proxy_result_of, AddLiquidityProxyResultView};
use crate::types::{payment_view, MoaxOrDctPaymentView, PaymentView, TokenView};
use crate::utils::Address;

verus! {

/// How far a stage is along the creation; every step moves further.
pub open spec fn stage_rank(stage: StageView) -> nat {
    match stage {
        StageView::AwaitingWrappedMoax => 0,
        StageView::AwaitingSwap { .. } => 1,
        StageView::AwaitingLock { .. } => 2,
        StageView::AwaitingLiquidity => 3,
        StageView::AwaitingFarm { .. } => 4,
        StageView::Finished => 5,
        StageView::Failed => 5,
    }
}

/// Whether a creation has ended.
pub open spec fn is_over(stage: StageView) -> bool {
    stage is Finished || stage is Failed
}

/// What holds of every creation that the endpoints start and the steps
/// continue: the kept half of the wrapped MOAX is fungible, only a farm
/// creation waits for farm tokens, and the payments it puts aside for the
/// caller are the non-empty leftovers.
pub open spec fn flow_invariant(flow: FlowView) -> bool {
    &&& flow.stage matches StageView::AwaitingSwap { remaining_wmoax } ==> remaining_wmoax.token_nonce == 0
    &&& flow.stage matches StageView::AwaitingLock { remaining_wmoax } ==> remaining_wmoax.token_nonce == 0
    &&& flow.stage is AwaitingFarm ==> flow.kind is FarmPos
    &&& flow.stage matches StageView::AwaitingFarm { add_liq_result, output_payments }
        ==> output_payments == leftover_payments(add_liq_result)
}

/// Every creation that an endpoint starts satisfies [`flow_invariant`], and
/// every step keeps it.
pub proof fn law_flow_invariant_holds(
    cfg: PosConfig,
    kind: PosKind,
    caller: Address,
    base_token_id: Seq<u8>,
    params: PosParamsView,
    payment: MoaxOrDctPaymentView,
    flow: FlowView,
    event: EventView,
)
    ensures
        flow_invariant(start_flow(cfg, kind, caller, base_token_id, params, payment).0),
        flow_invariant(flow) ==> flow_invariant(next_flow(cfg, flow, event).0),
{
}

/// Splitting a wrapped MOAX payment loses nothing: the swapped half and
/// the kept half, both fungible in the payment's token, add up to the
/// payment, and the kept half is the larger by at most one unit.
pub proof fn law_split_conserves_payment(cfg: PosConfig, flow: FlowView, payment: PaymentView)
    ensures
        ({
            let (next, action) = after_dct_payment(cfg, flow, payment);
            &&& action matches ActionView::Call(CallView::SwapTokensFixedInput { payment: swapped, .. })
            &&& next.stage matches StageView::AwaitingSwap { remaining_wmoax: kept }
            &&& swapped.amount + kept.amount == payment.amount
            &&& swapped.amount <= kept.amount <= swapped.amount + 1
            &&& swapped.token_identifier == payment.token_identifier
            &&& kept.token_identifier == payment.token_identifier
            &&& swapped.token_nonce == 0 && kept.token_nonce == 0
        }),
{
}

/// Paying in MOAX is the same as paying in wrapped MOAX: once the wrapper
/// returns wrapped MOAX, the creation goes on exactly as one started with
/// that wrapped MOAX.
pub proof fn law_moax_payment_is_wrapped_first(
    cfg: PosConfig,
    kind: PosKind,
    caller: Address,
    base_token_id: Seq<u8>,
    params: PosParamsView,
    moax_amount: nat,
    wrapped: PaymentView,
)
    requires
        wrapped.token_identifier == cfg.wmoax_token_id,
    ensures
        ({
            let moax = MoaxOrDctPaymentView { token_identifier: TokenView::Moax, token_nonce: 0, amount: moax_amount };
            let wmoax = MoaxOrDctPaymentView {
                token_identifier: TokenView::Dct(wrapped.token_identifier),
                token_nonce: wrapped.token_nonce,
                amount: wrapped.amount,
            };
            let (waiting, wrap) = start_flow(cfg, kind, caller, base_token_id, params, moax);
            &&& wrap == ActionView::Call(CallView::WrapMoax { to: cfg.moax_wrapper_sc_address, moax_amount })
            &&& next_flow(cfg, waiting, EventView::Payment(wrapped)) == start_flow(
                cfg,
                kind,
                caller,
                base_token_id,
                params,
                wmoax,
            )
        }),
{
    let wmoax = MoaxOrDctPaymentView {
        token_identifier: TokenView::Dct(wrapped.token_identifier),
        token_nonce: wrapped.token_nonce,
        amount: wrapped.amount,
    };
    assert(payment_view(wrapped.token_identifier, wmoax.token_nonce, wmoax.amount) == wrapped);
}

/// Only MOAX and wrapped MOAX are accepted: any other token aborts the
/// endpoint before any call is made.
pub proof fn law_other_tokens_are_refused(
    cfg: PosConfig,
    kind: PosKind,
    caller: Address,
    base_token_id: Seq<u8>,
    params: PosParamsView,
    payment: MoaxOrDctPaymentView,
)
    requires
        (payment.token_identifier is Dct),
        payment.token_identifier != TokenView::Dct(cfg.wmoax_token_id),
    ensures
        ({
            let (flow, action) = start_flow(cfg, kind, caller, base_token_id, params, payment);
            action == ActionView::Abort(PosCreatorError::InvalidPayment) && flow.stage is Failed
        }),
{
}

/// The base tokens from the swap are locked for the caller, and the kept
/// half of the wrapped MOAX goes to the proxy together with the locked
/// tokens, in that order.
pub proof fn law_kept_half_reaches_the_proxy(
    cfg: PosConfig,
    flow: FlowView,
    base_tokens: PaymentView,
    locked_tokens: PaymentView,
)
    requires
        (flow.stage is AwaitingSwap),
    ensures
        ({
            let kept = flow.stage->AwaitingSwap_remaining_wmoax;
            let (locking, lock) = next_flow(cfg, flow, EventView::Payment(base_tokens));
            let (_, add_liquidity) = next_flow(cfg, locking, EventView::Payment(locked_tokens));
            &&& lock == ActionView::Call(
                CallView::LockVirtual {
                    to: cfg.energy_factory_address,
                    payment: base_tokens,
                    lock_epochs: flow.params.lock_epochs,
                    dest_address: flow.caller,
                },
            )
            &&& add_liquidity == ActionView::Call(
                CallView::AddLiquidityProxy {
                    to: cfg.proxy_dex_address,
                    pair_address: cfg.mex_wmoax_pair_address,
                    first_token_amount_min: flow.params.add_liq_first_token_min_amount,
                    second_token_amount_min: flow.params.add_liq_second_token_min_amount,
                    payments: seq![kept, locked_tokens],
                },
            )
        }),
{
}

/// The payments that a liquidity position sends to the caller: first the
/// wrapped LP tokens, then each leftover exactly when it is not empty
/// (locked tokens before wrapped MOAX).
pub proof fn law_pair_pos_outputs(r: AddLiquidityProxyResultView)
    ensures
        pair_pos_output_payments(r)[0] == r.wrapped_lp_token,
        forall|i: int|
            1 <= i < pair_pos_output_payments(r).len() ==> (#[trigger] pair_pos_output_payments(r)[i]).amount > 0,
        forall|i: int|
            1 <= i < pair_pos_output_payments(r).len() ==> (#[trigger] pair_pos_output_payments(r)[i]
                == r.locked_token_leftover || pair_pos_output_payments(r)[i] == r.wmoax_leftover),
        r.locked_token_leftover.amount > 0 <==> pair_pos_output_payments(r)[1]
            == r.locked_token_leftover && pair_pos_output_payments(r).len() >= 2,
        r.wmoax_leftover.amount > 0 <==> pair_pos_output_payments(r).last() == r.wmoax_leftover
            && pair_pos_output_payments(r).len() >= 2,
        pair_pos_output_payments(r).len() == 1 + (if r.locked_token_leftover.amount > 0 {
            1int
        } else {
            0
        }) + (if r.wmoax_leftover.amount > 0 {
            1int
        } else {
            0
        }),
{
    let outs = pair_pos_output_payments(r);
    assert(leftover_payments(r).len() == (if r.locked_token_leftover.amount > 0 { 1int } else { 0 }) + (
    if r.wmoax_leftover.amount > 0 {
        1int
    } else {
        0
    }));
    assert(outs.len() == 1 + leftover_payments(r).len());
    assert(forall|i: int| 1 <= i < outs.len() ==> outs[i] == leftover_payments(r)[i - 1]);
}

/// A liquidity position ends with the proxy's first three payments as its
/// result, and sends the caller exactly the non-empty ones of them with the
/// wrapped LP tokens first.
pub proof fn law_pair_pos_finish(cfg: PosConfig, flow: FlowView, outputs: Seq<PaymentView>)
    requires
        (flow.stage is AwaitingLiquidity),
        (flow.kind is PairPos),
        outputs.len() >= 3,
    ensures
        next_flow(cfg, flow, EventView::Payments(outputs)).1 == (ActionView::Finish {
            to: flow.caller,
            output_payments: pair_pos_output_payments(proxy_result_of(outputs)),
            result: PosResultView::PairPos(proxy_result_of(outputs)),
        }),
{
}

/// A farm position puts the wrapped LP tokens into its farm, then sends
/// the caller the non-empty leftovers followed by the wrapped farm tokens,
/// and returns the farm tokens with both leftovers.
pub proof fn law_farm_pos_finish(
    cfg: PosConfig,
    flow: FlowView,
    outputs: Seq<PaymentView>,
    wrapped_farm_token: PaymentView,
)
    requires
        (flow.stage is AwaitingLiquidity),
        (flow.kind is FarmPos),
        outputs.len() >= 3,
    ensures
        ({
            let r = proxy_result_of(outputs);
            let (entering, enter) = next_flow(cfg, flow, EventView::Payments(outputs));
            let (_, finish) = next_flow(cfg, entering, EventView::Payment(wrapped_farm_token));
            &&& enter == ActionView::Call(
                CallView::EnterFarmProxy {
                    to: cfg.proxy_dex_address,
                    farm_address: flow.kind->farm_address,
                    payment: r.wrapped_lp_token,
                },
            )
            &&& finish matches ActionView::Finish { to, output_payments, result }
            &&& to == flow.caller
            &&& output_payments.last() == wrapped_farm_token
            &&& output_payments.drop_last() == leftover_payments(r)
            &&& result matches PosResultView::FarmPos(fr)
            &&& fr.wrapped_farm_token == wrapped_farm_token
            &&& fr.locked_token_leftover == r.locked_token_leftover
            &&& fr.wmoax_leftover == r.wmoax_leftover
        }),
{
    let r = proxy_result_of(outputs);
    assert(leftover_payments(r).push(wrapped_farm_token).drop_last() =~= leftover_payments(r));
}

/// Every step of an unfinished creation moves it to a later stage, and a
/// step after the end aborts; so a creation makes at most five calls and
/// ends. A call keeps it open, an end leaves it finished, an abort failed.
/// The creation's kind, caller, base token and bounds never change.
pub proof fn law_each_step_advances(cfg: PosConfig, flow: FlowView, event: EventView)
    ensures
        ({
            let (next, action) = next_flow(cfg, flow, event);
            &&& !is_over(flow.stage) ==> stage_rank(next.stage) > stage_rank(flow.stage)
            &&& is_over(flow.stage) ==> action == ActionView::Abort(PosCreatorError::UnexpectedResult)
            &&& action is Call ==> !is_over(next.stage)
            &&& action is Finish ==> next.stage is Finished
            &&& action is Abort ==> next.stage is Failed
            &&& next.kind == flow.kind && next.caller == flow.caller
            &&& next.base_token_id == flow.base_token_id && next.params == flow.params
        }),
{
}

/// Whatever the pair uses of what it was sent comes back as the remainder:
/// used plus remaining is what was sent.
pub proof fn law_remaining_plus_used_is_sent(full_amount: nat, used: PaymentView)
    requires
        used.amount <= full_amount,
    ensures
        remaining_payment(full_amount, used).amount + used.amount == full_amount,
        remaining_payment(full_amount, used).token_identifier == used.token_identifier,
{
}

/// An amount of a token (MOAX or a DCT token with its nonce) that moves
/// into or out of the contract.
pub struct TokenMove {
    pub token: TokenView,
    pub nonce: u64,
    pub amount: nat,
}

/// The move of a DCT payment.
pub open spec fn dct_move(p: PaymentView) -> TokenMove {
    TokenMove { token: TokenView::Dct(p.token_identifier), nonce: p.token_nonce, amount: p.amount }
}

/// The moves of a list of DCT payments.
pub open spec fn dct_moves(ps: Seq<PaymentView>) -> Seq<TokenMove> {
    ps.map_values(|p: PaymentView| dct_move(p))
}

/// The move of the payment that an endpoint receives.
pub open spec fn received_move(payment: MoaxOrDctPaymentView) -> TokenMove {
    TokenMove { token: payment.token_identifier, nonce: payment.token_nonce, amount: payment.amount }
}

/// How much of `token` with `nonce` the moves carry in all.
pub open spec fn total_of(moves: Seq<TokenMove>, token: TokenView, nonce: u64) -> nat
    decreases moves.len(),
{
    if moves.len() == 0 {
        0
    } else {
        total_of(moves.drop_last(), token, nonce) + (if moves.last().token == token && moves.last().nonce
            == nonce {
            moves.last().amount
        } else {
            0
        })
    }
}

/// What the contract sends out with an action: the tokens paid with a
/// call, or the payments sent to the caller at the end.
pub open spec fn sent_with(action: ActionView) -> Seq<TokenMove> {
    match action {
        ActionView::Call(call) => match call {
            CallView::WrapMoax { moax_amount, .. } => seq![
                TokenMove { token: TokenView::Moax, nonce: 0, amount: moax_amount },
            ],
            CallView::SwapTokensFixedInput { payment, .. } => seq![dct_move(payment)],
            CallView::AddLiquidity { first_payment, second_payment, .. } => seq![
                dct_move(first_payment),
                dct_move(second_payment),
            ],
            CallView::RemoveLiquidity { payment, .. } => seq![dct_move(payment)],
            CallView::LockVirtual { payment, .. } => seq![dct_move(payment)],
            CallView::AddLiquidityProxy { payments, .. } => dct_moves(payments),
            CallView::EnterFarmProxy { payment, .. } => seq![dct_move(payment)],
        },
        ActionView::Finish { output_payments, .. } => dct_moves(output_payments),
        ActionView::Abort(_) => Seq::empty(),
    }
}

/// What the contract receives with a call's result.
pub open spec fn received_with(event: EventView) -> Seq<TokenMove> {
    match event {
        EventView::Payment(p) => seq![dct_move(p)],
        EventView::Payments(ps) => dct_moves(ps),
    }
}

/// The creation after the results `events`, from `start`.
pub open spec fn run_flow(cfg: PosConfig, start: (FlowView, ActionView), events: Seq<EventView>) -> (
    FlowView,
    ActionView,
)
    decreases events.len(),
{
    if events.len() == 0 {
        start
    } else {
        next_flow(cfg, run_flow(cfg, start, events.drop_last()).0, events.last())
    }
}

/// Everything the contract sends out along the run.
pub open spec fn sent_in_run(cfg: PosConfig, start: (FlowView, ActionView), events: Seq<EventView>) -> Seq<
    TokenMove,
>
    decreases events.len(),
{
    if events.len() == 0 {
        sent_with(start.1)
    } else {
        sent_in_run(cfg, start, events.drop_last()) + sent_with(run_flow(cfg, start, events).1)
    }
}

/// Everything the contract receives from the called contracts along the run.
pub open spec fn received_in_run(events: Seq<EventView>) -> Seq<TokenMove>
    decreases events.len(),
{
    if events.len() == 0 {
        Seq::empty()
    } else {
        received_in_run(events.drop_last()) + received_with(events.last())
    }
}

/// A result fits the creation when the wrapper returns fungible tokens and
/// the proxy returns no more than the three payments it promises.
pub open spec fn event_fits(flow: FlowView, event: EventView) -> bool {
    &&& flow.stage is AwaitingWrappedMoax ==> (event matches EventView::Payment(p) ==> p.token_nonce == 0)
    &&& flow.stage is AwaitingLiquidity ==> (event matches EventView::Payments(ps) ==> ps.len() <= 3)
}

/// Every result of the run fits the creation at that point.
pub open spec fn events_fit(cfg: PosConfig, start: (FlowView, ActionView), events: Seq<EventView>) -> bool
    decreases events.len(),
{
    events.len() == 0 || (events_fit(cfg, start, events.drop_last()) && event_fits(
        run_flow(cfg, start, events.drop_last()).0,
        events.last(),
    ))
}

/// What the contract holds at a stage, still to be sent on.
pub open spec fn held_at(stage: StageView) -> Seq<TokenMove> {
    match stage {
        StageView::AwaitingSwap { remaining_wmoax } => seq![dct_move(remaining_wmoax)],
        StageView::AwaitingLock { remaining_wmoax } => seq![dct_move(remaining_wmoax)],
        StageView::AwaitingFarm { output_payments, .. } => dct_moves(output_payments),
        _ => Seq::empty(),
    }
}

/// Every token that came in went out or is held.
pub open spec fn balanced(received: Seq<TokenMove>, sent: Seq<TokenMove>, held: Seq<TokenMove>) -> bool {
    forall|token: TokenView, nonce: u64|
        #[trigger] total_of(received, token, nonce) == total_of(sent, token, nonce) + total_of(
            held,
            token,
            nonce,
        )
}

proof fn lemma_total_of_concat(a: Seq<TokenMove>, b: Seq<TokenMove>, token: TokenView, nonce: u64)
    ensures
        total_of(a + b, token, nonce) == total_of(a, token, nonce) + total_of(b, token, nonce),
    decreases b.len(),
{
    if b.len() == 0 {
        assert(a + b =~= a);
    } else {
        lemma_total_of_concat(a, b.drop_last(), token, nonce);
        assert((a + b).drop_last() =~= a + b.drop_last());
    }
}

proof fn lemma_total_of_empty(token: TokenView, nonce: u64)
    ensures
        total_of(Seq::<TokenMove>::empty(), token, nonce) == 0,
{
}

proof fn lemma_total_of_one(m: TokenMove, token: TokenView, nonce: u64)
    ensures
        total_of(seq![m], token, nonce) == (if m.token == token && m.nonce == nonce {
            m.amount
        } else {
            0
        }),
{
    let one = seq![m];
    assert(one.len() == 1);
    assert(one.last() == m);
    assert(one.drop_last() =~= Seq::<TokenMove>::empty());
    assert(total_of(one.drop_last(), token, nonce) == 0);
}

proof fn lemma_total_of_two(m1: TokenMove, m2: TokenMove, token: TokenView, nonce: u64)
    ensures
        total_of(seq![m1, m2], token, nonce) == total_of(seq![m1], token, nonce) + total_of(
            seq![m2],
            token,
            nonce,
        ),
{
    assert(seq![m1, m2] =~= seq![m1] + seq![m2]);
    lemma_total_of_concat(seq![m1], seq![m2], token, nonce);
}

proof fn lemma_dct_moves_concat(a: Seq<PaymentView>, b: Seq<PaymentView>)
    ensures
        dct_moves(a + b) == dct_moves(a) + dct_moves(b),
{
    assert(dct_moves(a + b) =~= dct_moves(a) + dct_moves(b));
}

/// The leftovers sent carry as much of each token as both leftovers: only
/// empty ones are left out.
proof fn lemma_leftovers_total(r: AddLiquidityProxyResultView, token: TokenView, nonce: u64)
    ensures
        total_of(dct_moves(leftover_payments(r)), token, nonce) == total_of(
            dct_moves(seq![r.locked_token_leftover, r.wmoax_leftover]),
            token,
            nonce,
        ),
{
    let lo = r.locked_token_leftover;
    let wo = r.wmoax_leftover;
    assert(dct_moves(seq![lo, wo]) =~= seq![dct_move(lo), dct_move(wo)]);
    lemma_total_of_two(dct_move(lo), dct_move(wo), token, nonce);
    lemma_total_of_one(dct_move(lo), token, nonce);
    lemma_total_of_one(dct_move(wo), token, nonce);
    let first: Seq<PaymentView> = if lo.amount > 0 { seq![lo] } else { Seq::empty() };
    let second: Seq<PaymentView> = if wo.amount > 0 { seq![wo] } else { Seq::empty() };
    lemma_dct_moves_concat(first, second);
    lemma_total_of_concat(dct_moves(first), dct_moves(second), token, nonce);
    if lo.amount > 0 {
        assert(dct_moves(first) =~= seq![dct_move(lo)]);
    } else {
        assert(dct_moves(first) =~= Seq::<TokenMove>::empty());
    }
    if wo.amount > 0 {
        assert(dct_moves(second) =~= seq![dct_move(wo)]);
    } else {
        assert(dct_moves(second) =~= Seq::<TokenMove>::empty());
    }
}

/// The three payments of the proxy, as moves, against the result read from
/// them.
proof fn lemma_three_outputs_total(outputs: Seq<PaymentView>, token: TokenView, nonce: u64)
    requires
        outputs.len() == 3,
    ensures
        total_of(dct_moves(outputs), token, nonce) == total_of(
            seq![dct_move(outputs[0])],
            token,
            nonce,
        ) + total_of(dct_moves(seq![outputs[1], outputs[2]]), token, nonce),
{
    assert(outputs =~= seq![outputs[0]] + seq![outputs[1], outputs[2]]);
    lemma_dct_moves_concat(seq![outputs[0]], seq![outputs[1], outputs[2]]);
    assert(dct_moves(seq![outputs[0]]) =~= seq![dct_move(outputs[0])]);
    lemma_total_of_concat(
        dct_moves(seq![outputs[0]]),
        dct_moves(seq![outputs[1], outputs[2]]),
        token,
        nonce,
    );
}

/// One step keeps the balance of a creation that has not failed.
proof fn lemma_step_keeps_balance(
    cfg: PosConfig,
    flow: FlowView,
    event: EventView,
    received: Seq<TokenMove>,
    sent: Seq<TokenMove>,
)
    requires
        flow_invariant(flow),
        event_fits(flow, event),
        !(flow.stage is Failed),
        balanced(received, sent, held_at(flow.stage)),
    ensures
        ({
            let (next, action) = next_flow(cfg, flow, event);
            next.stage is Failed || balanced(
                received + received_with(event),
                sent + sent_with(action),
                held_at(next.stage),
            )
        }),
{
    let (next, action) = next_flow(cfg, flow, event);
    if !(next.stage is Failed) {
        assert forall|token: TokenView, nonce: u64|
            #[trigger] total_of(received + received_with(event), token, nonce) == total_of(
                sent + sent_with(action),
                token,
                nonce,
            ) + total_of(held_at(next.stage), token, nonce) by {
            lemma_total_of_concat(received, received_with(event), token, nonce);
            lemma_total_of_concat(sent, sent_with(action), token, nonce);
            assert(total_of(received, token, nonce) == total_of(sent, token, nonce) + total_of(
                held_at(flow.stage),
                token,
                nonce,
            ));
            lemma_total_of_empty(token, nonce);
            match flow.stage {
                StageView::AwaitingWrappedMoax => {
                    let w = event->Payment_0;
                    let half = payment_view(w.token_identifier, 0, w.amount / 2);
                    let kept = payment_view(w.token_identifier, 0, (w.amount - w.amount / 2) as nat);
                    lemma_total_of_one(dct_move(w), token, nonce);
                    lemma_total_of_one(dct_move(half), token, nonce);
                    lemma_total_of_one(dct_move(kept), token, nonce);
                },
                StageView::AwaitingSwap { remaining_wmoax } => {
                    lemma_total_of_one(dct_move(event->Payment_0), token, nonce);
                    lemma_total_of_one(dct_move(remaining_wmoax), token, nonce);
                },
                StageView::AwaitingLock { remaining_wmoax } => {
                    let locked = event->Payment_0;
                    lemma_total_of_one(dct_move(locked), token, nonce);
                    lemma_total_of_one(dct_move(remaining_wmoax), token, nonce);
                    assert(dct_moves(seq![remaining_wmoax, locked]) =~= seq![
                        dct_move(remaining_wmoax),
                        dct_move(locked),
                    ]);
                    lemma_total_of_two(dct_move(remaining_wmoax), dct_move(locked), token, nonce);
                },
                StageView::AwaitingLiquidity => {
                    let outputs = event->Payments_0;
                    let r = proxy_result_of(outputs);
                    lemma_three_outputs_total(outputs, token, nonce);
                    lemma_leftovers_total(r, token, nonce);
                    assert(seq![outputs[1], outputs[2]] =~= seq![
                        r.locked_token_leftover,
                        r.wmoax_leftover,
                    ]);
                    if flow.kind is PairPos {
                        lemma_dct_moves_concat(seq![r.wrapped_lp_token], leftover_payments(r));
                        assert(dct_moves(seq![r.wrapped_lp_token]) =~= seq![dct_move(r.wrapped_lp_token)]);
                        lemma_total_of_concat(
                            seq![dct_move(r.wrapped_lp_token)],
                            dct_moves(leftover_payments(r)),
                            token,
                            nonce,
                        );
                    }
                },
                StageView::AwaitingFarm { add_liq_result, output_payments } => {
                    let farm_token = event->Payment_0;
                    lemma_total_of_one(dct_move(farm_token), token, nonce);
                    assert(output_payments.push(farm_token) =~= output_payments + seq![farm_token]);
                    lemma_dct_moves_concat(output_payments, seq![farm_token]);
                    assert(dct_moves(seq![farm_token]) =~= seq![dct_move(farm_token)]);
                    lemma_total_of_concat(
                        dct_moves(output_payments),
                        seq![dct_move(farm_token)],
                        token,
                        nonce,
                    );
                },
                _ => {},
            }
        }
    }
}

/// Along any run whose results fit, a creation that has not failed
/// satisfies [`flow_invariant`] and holds exactly what it received and did
/// not send on.
proof fn lemma_run_balanced(
    cfg: PosConfig,
    kind: PosKind,
    caller: Address,
    base_token_id: Seq<u8>,
    params: PosParamsView,
    payment: MoaxOrDctPaymentView,
    events: Seq<EventView>,
)
    requires
        payment.token_nonce == 0,
        events_fit(cfg, start_flow(cfg, kind, caller, base_token_id, params, payment), events),
    ensures
        ({
            let start = start_flow(cfg, kind, caller, base_token_id, params, payment);
            let (flow, _) = run_flow(cfg, start, events);
            &&& flow_invariant(flow)
            &&& flow.stage is Failed || balanced(
                seq![received_move(payment)] + received_in_run(events),
                sent_in_run(cfg, start, events),
                held_at(flow.stage),
            )
        }),
    decreases events.len(),
{
    let start = start_flow(cfg, kind, caller, base_token_id, params, payment);
    law_flow_invariant_holds(cfg, kind, caller, base_token_id, params, payment, start.0, EventView::Payments(Seq::empty()));
    if events.len() == 0 {
        assert(seq![received_move(payment)] + received_in_run(events) =~= seq![received_move(payment)]);
        if !(start.0.stage is Failed) {
            assert forall|token: TokenView, nonce: u64|
                #[trigger] total_of(seq![received_move(payment)], token, nonce) == total_of(
                    sent_with(start.1),
                    token,
                    nonce,
                ) + total_of(held_at(start.0.stage), token, nonce) by {
                lemma_total_of_one(received_move(payment), token, nonce);
                lemma_total_of_empty(token, nonce);
                match payment.token_identifier {
                    TokenView::Moax => {
                        lemma_total_of_one(
                            TokenMove { token: TokenView::Moax, nonce: 0, amount: payment.amount },
                            token,
                            nonce,
                        );
                    },
                    TokenView::Dct(id) => {
                        let p = payment.amount;
                        lemma_total_of_one(dct_move(payment_view(id, 0, p / 2)), token, nonce);
                        lemma_total_of_one(
                            dct_move(payment_view(id, 0, (p - p / 2) as nat)),
                            token,
                            nonce,
                        );
                    },
                }
            }
        }
    } else {
        let earlier = events.drop_last();
        let event = events.last();
        lemma_run_balanced(cfg, kind, caller, base_token_id, params, payment, earlier);
        let (flow, _) = run_flow(cfg, start, earlier);
        law_flow_invariant_holds(cfg, kind, caller, base_token_id, params, payment, flow, event);
        if !(flow.stage is Failed) {
            lemma_step_keeps_balance(
                cfg,
                flow,
                event,
                seq![received_move(payment)] + received_in_run(earlier),
                sent_in_run(cfg, start, earlier),
            );
            assert(seq![received_move(payment)] + received_in_run(events) =~= seq![
                received_move(payment),
            ] + received_in_run(earlier) + received_with(event));
        }
    }
}

/// The contract keeps none of the tokens: when a creation paid in MOAX or
/// wrapped MOAX (fungible, as the native token always is) ends, every
/// amount of every token it received, from the caller or from a called
/// contract, it sent on to a called contract or to the caller. This holds
/// when the wrapper returns fungible tokens and the proxy returns at most
/// the three payments it promises (a fourth one would stay with the
/// contract).
pub proof fn law_no_tokens_kept(
    cfg: PosConfig,
    kind: PosKind,
    caller: Address,
    base_token_id: Seq<u8>,
    params: PosParamsView,
    payment: MoaxOrDctPaymentView,
    events: Seq<EventView>,
)
    requires
        payment.token_nonce == 0,
        events_fit(cfg, start_flow(cfg, kind, caller, base_token_id, params, payment), events),
    ensures
        ({
            let start = start_flow(cfg, kind, caller, base_token_id, params, payment);
            run_flow(cfg, start, events).1 is Finish ==> forall|token: TokenView, nonce: u64|
                #[trigger] total_of(seq![received_move(payment)] + received_in_run(events), token, nonce)
                    == total_of(sent_in_run(cfg, start, events), token, nonce)
        }),
{
    let start = start_flow(cfg, kind, caller, base_token_id, params, payment);
    lemma_run_balanced(cfg, kind, caller, base_token_id, params, payment, events);
    if run_flow(cfg, start, events).1 is Finish {
        if events.len() > 0 {
            law_each_step_advances(cfg, run_flow(cfg, start, events.drop_last()).0, events.last());
        }
        let (flow, _) = run_flow(cfg, start, events);
        assert(flow.stage is Finished);
        assert forall|token: TokenView, nonce: u64|
            #[trigger] total_of(seq![received_move(payment)] + received_in_run(events), token, nonce)
                == total_of(sent_in_run(cfg, start, events), token, nonce) by {
            lemma_total_of_empty(token, nonce);
        }
    }
}

/// A creation keeps the request it was started with: the position kind,
/// the caller, the base token and the caller's bounds, in their places.
pub proof fn law_start_keeps_request(
    cfg: PosConfig,
    kind: PosKind,
    caller: Address,
    base_token_id: Seq<u8>,
    params: PosParamsView,
    payment: MoaxOrDctPaymentView,
)
    ensures
        ({
            let flow = start_flow(cfg, kind, caller, base_token_id, params, payment).0;
            &&& flow.kind == kind
            &&& flow.caller == caller
            &&& flow.base_token_id == base_token_id
            &&& flow.params.swap_min_amount_out == params.swap_min_amount_out
            &&& flow.params.lock_epochs == params.lock_epochs
            &&& flow.params.add_liq_first_token_min_amount == params.add_liq_first_token_min_amount
            &&& flow.params.add_liq_second_token_min_amount == params.add_liq_second_token_min_amount
        }),
{
}

/// The swap that a creation makes, whatever the position kind and however
/// much was paid, goes to the MEX/WMOAX pair, asks for the base token, and
/// asks for at least the caller's `swap_min_amount_out`, unchanged. It is
/// the first call when paid in wrapped MOAX, and the one after wrapping
/// when paid in MOAX.
pub proof fn law_swap_asks_callers_minimum(
    cfg: PosConfig,
    kind: PosKind,
    caller: Address,
    base_token_id: Seq<u8>,
    params: PosParamsView,
    payment: MoaxOrDctPaymentView,
    wrapped: PaymentView,
)
    ensures
        ({
            let (flow, first) = start_flow(cfg, kind, caller, base_token_id, params, payment);
            let swap = if payment.token_identifier is Moax {
                next_flow(cfg, flow, EventView::Payment(wrapped)).1
            } else {
                first
            };
            (payment.token_identifier is Moax || payment.token_identifier == TokenView::Dct(
                cfg.wmoax_token_id,
            )) ==> {
                &&& swap matches ActionView::Call(
                    CallView::SwapTokensFixedInput { to, token_out, amount_out_min, .. },
                )
                &&& to == cfg.mex_wmoax_pair_address
                &&& token_out == base_token_id
                &&& amount_out_min == params.swap_min_amount_out
            }
        }),
{
}

/// The caller's bounds reach the calls that use them: the base tokens from
/// the swap are locked for `lock_epochs` for the caller, and adding
/// liquidity demands the caller's first minimum of the wrapped MOAX and
/// the caller's second minimum of the locked tokens, in that order; the
/// proxy is paid the unswapped half of the wrapped MOAX, then the locked
/// tokens.
pub proof fn law_endpoint_bounds_reach_calls(
    cfg: PosConfig,
    kind: PosKind,
    caller: Address,
    base_token_id: Seq<u8>,
    params: PosParamsView,
    payment: MoaxOrDctPaymentView,
    base_tokens: PaymentView,
    locked_tokens: PaymentView,
)
    requires
        payment.token_identifier == TokenView::Dct(cfg.wmoax_token_id),
    ensures
        ({
            let (swapping, _) = start_flow(cfg, kind, caller, base_token_id, params, payment);
            let (locking, lock) = next_flow(cfg, swapping, EventView::Payment(base_tokens));
            let (_, add_liquidity) = next_flow(cfg, locking, EventView::Payment(locked_tokens));
            &&& lock matches ActionView::Call(
                CallView::LockVirtual { to: factory, payment: locked, lock_epochs, dest_address },
            )
            &&& factory == cfg.energy_factory_address
            &&& locked == base_tokens
            &&& lock_epochs == params.lock_epochs
            &&& dest_address == caller
            &&& add_liquidity matches ActionView::Call(
                CallView::AddLiquidityProxy {
                    to: proxy,
                    pair_address,
                    first_token_amount_min,
                    second_token_amount_min,
                    payments,
                },
            )
            &&& proxy == cfg.proxy_dex_address
            &&& pair_address == cfg.mex_wmoax_pair_address
            &&& payments.len() == 2
            &&& payments[0].token_identifier == cfg.wmoax_token_id
            &&& payments[0].token_nonce == 0
            &&& payments[0].amount + payment.amount / 2 == payment.amount
            &&& payments[1] == locked_tokens
            &&& first_token_amount_min == params.add_liq_first_token_min_amount
            &&& second_token_amount_min == params.add_liq_second_token_min_amount
        }),
{
}

/// A swap through a pair pays exactly the given payment (token, nonce and
/// the whole amount, however large), asks for the requested token, and
/// accepts any output of at least 1, whatever the amount swapped.
pub proof fn law_pair_swap_pays_given_payment(pair_address: Address, payment: PaymentView, token_out: Seq<u8>)
    ensures
        ({
            let call = pair_swap_call(pair_address, payment, token_out);
            &&& call matches CallView::SwapTokensFixedInput {
                to,
                payment: paid,
                token_out: requested,
                amount_out_min,
            }
            &&& to == pair_address
            &&& paid.token_identifier == payment.token_identifier
            &&& paid.token_nonce == payment.token_nonce
            &&& paid.amount == payment.amount
            &&& requested == token_out
            &&& amount_out_min == 1
        }),
{
}

} // verus!
