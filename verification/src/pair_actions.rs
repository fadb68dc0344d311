//! Swaps and liquidity operations on the DEX pair contracts.
use vstd::prelude::*;
use crate::calls::{CallView, ContractCall};
use crate::big_uint::BigUint;
use crate::errors::PosCreatorError;
use crate::types::{bytes_eq, payment_view, Amount, DctTokenPayment, PaymentView};
use crate::utils::Address;

verus! {

/// The least output that the pair calls accept.
pub open spec fn spec_min_amount_out() -> nat {
    1
}

/// The least output that the pair calls accept.
pub fn min_amount_out() -> (res: Amount)
    ensures
        res@ == spec_min_amount_out(),
{
    BigUint::from_u128(1)
}

/// What adding liquidity to a pair yields: the LP tokens, and what is left
/// of each token that was sent.
#[derive(Debug, PartialEq, Eq)]
pub struct PairAddLiqResult {
    pub lp_tokens: DctTokenPayment,
    pub first_tokens_remaining: DctTokenPayment,
    pub second_tokens_remaining: DctTokenPayment,
}

/// The abstract value of a [`PairAddLiqResult`].
pub struct PairAddLiqResultView {
    pub lp_tokens: PaymentView,
    pub first_tokens_remaining: PaymentView,
    pub second_tokens_remaining: PaymentView,
}

impl View for PairAddLiqResult {
    type V = PairAddLiqResultView;

    open spec fn view(&self) -> PairAddLiqResultView {
        PairAddLiqResultView {
            lp_tokens: self.lp_tokens@,
            first_tokens_remaining: self.first_tokens_remaining@,
            second_tokens_remaining: self.second_tokens_remaining@,
        }
    }
}

/// What removing liquidity from a pair yields: the two tokens of the pair.
#[derive(Debug, PartialEq, Eq)]
pub struct PairRemoveLiqResult {
    pub first_tokens: DctTokenPayment,
    pub second_tokens: DctTokenPayment,
}

/// The two tokens of a pair, as payments.
pub type PairTokenPayments = PairRemoveLiqResult;

/// The next thing to do for a swap between two tokens.
#[derive(Debug, PartialEq, Eq)]
pub enum TokensSwapStep {
    /// The tokens already are the requested ones: nothing to swap.
    Unchanged(DctTokenPayment),
    /// Swap through this call to the pair of the two tokens.
    Swap(ContractCall),
}

/// The abstract value of a [`TokensSwapStep`].
pub enum TokensSwapStepView {
    Unchanged(PaymentView),
    Swap(CallView),
}

impl View for TokensSwapStep {
    type V = TokensSwapStepView;

    open spec fn view(&self) -> TokensSwapStepView {
        match self {
            TokensSwapStep::Unchanged(p) => TokensSwapStepView::Unchanged(p@),
            TokensSwapStep::Swap(c) => TokensSwapStepView::Swap(c@),
        }
    }
}

/// The swap call on `pair_address` that sells `payment` for `token_out`,
/// asking for at least [`min_amount_out`].
pub open spec fn pair_swap_call(pair_address: Address, payment: PaymentView, token_out: Seq<u8>) -> CallView {
    CallView::SwapTokensFixedInput {
        to: pair_address,
        payment,
        token_out,
        amount_out_min: spec_min_amount_out(),
    }
}

/// The payment of what is left of `full_amount` after the pair used
/// `used`: in the used token, fungible.
pub open spec fn remaining_payment(full_amount: nat, used: PaymentView) -> PaymentView {
    payment_view(used.token_identifier, 0, (full_amount - used.amount) as nat)
}

/// The calls of the pair module; the pair addresses come from the pairs
/// configuration, which the host reads.
pub trait PairActionsModule {
    /// Turns `from_amount` of `from_tokens` into `to_tokens`. When the two
    /// tokens are the same there is nothing to do; otherwise the swap goes
    /// through `pair_address`, the pair that the configuration holds for
    /// the two tokens (`None` when it holds none, which aborts).
    fn perform_tokens_swap(
        &self,
        from_tokens: Vec<u8>,
        from_amount: Amount,
        to_tokens: Vec<u8>,
        pair_address: Option<Address>,
    ) -> (res: Result<TokensSwapStep, PosCreatorError>)
        ensures
            from_tokens@ == to_tokens@ ==> (res matches Ok(step) && step@
                == TokensSwapStepView::Unchanged(payment_view(from_tokens@, 0, from_amount@))),
            from_tokens@ != to_tokens@ && pair_address is None ==> res == Err::<
                TokensSwapStep,
                PosCreatorError,
            >(PosCreatorError::UnknownPair),
            from_tokens@ != to_tokens@ && pair_address is Some ==> (res matches Ok(step) && step@
                == TokensSwapStepView::Swap(
                pair_swap_call(pair_address->0, payment_view(from_tokens@, 0, from_amount@), to_tokens@),
            )),
    {
        if bytes_eq(&from_tokens, &to_tokens) {
            return Ok(TokensSwapStep::Unchanged(DctTokenPayment::new(from_tokens, 0, from_amount)));
        }
        match pair_address {
            None => Err(PosCreatorError::UnknownPair),
            Some(address) => {
                let payment = DctTokenPayment::new(from_tokens, 0, from_amount);
                Ok(TokensSwapStep::Swap(self.call_pair_swap(address, payment, to_tokens)))
            },
        }
    }

    /// The call that swaps `input_tokens` for `requested_token_id` on the
    /// pair at `pair_address`.
    fn call_pair_swap(
        &self,
        pair_address: Address,
        input_tokens: DctTokenPayment,
        requested_token_id: Vec<u8>,
    ) -> (call: ContractCall)
        ensures
            call@ == pair_swap_call(pair_address, input_tokens@, requested_token_id@),
    {
        ContractCall::SwapTokensFixedInput {
            to: pair_address,
            payment: input_tokens,
            token_out: requested_token_id,
            amount_out_min: min_amount_out(),
        }
    }

    /// The call that adds both payments as liquidity to the pair at
    /// `pair_address`, accepting any amounts ([`min_amount_out`]).
    fn call_pair_add_liquidity(
        &self,
        pair_address: Address,
        first_tokens: DctTokenPayment,
        second_tokens: DctTokenPayment,
    ) -> (call: ContractCall)
        ensures
            call@ == (CallView::AddLiquidity {
                to: pair_address,
                first_payment: first_tokens@,
                second_payment: second_tokens@,
                first_token_amount_min: spec_min_amount_out(),
                second_token_amount_min: spec_min_amount_out(),
            }),
    {
        ContractCall::AddLiquidity {
            to: pair_address,
            first_payment: first_tokens,
            second_payment: second_tokens,
            first_token_amount_min: min_amount_out(),
            second_token_amount_min: min_amount_out(),
        }
    }

    /// The outcome of adding liquidity, from the amounts that were sent and
    /// what the pair answered: the LP tokens and the tokens it used. What
    /// is left of each token is what was sent minus what was used; a pair
    /// that used more than it was sent aborts the call.
    fn pair_add_liquidity_result(
        &self,
        first_token_full_amount: Amount,
        second_token_full_amount: Amount,
        lp_tokens: DctTokenPayment,
        first_tokens_used: DctTokenPayment,
        second_tokens_used: DctTokenPayment,
    ) -> (res: Result<PairAddLiqResult, PosCreatorError>)
        ensures
            res is Ok <==> first_tokens_used.amount@ <= first_token_full_amount@
                && second_tokens_used.amount@ <= second_token_full_amount@,
            res is Err ==> res == Err::<PairAddLiqResult, PosCreatorError>(
                PosCreatorError::UsedMoreThanSent,
            ),
            res matches Ok(r) ==> r@ == (PairAddLiqResultView {
                lp_tokens: lp_tokens@,
                first_tokens_remaining: remaining_payment(first_token_full_amount@, first_tokens_used@),
                second_tokens_remaining: remaining_payment(
                    second_token_full_amount@,
                    second_tokens_used@,
                ),
            }),
    {
        if !first_tokens_used.amount.le(&first_token_full_amount)
            || !second_tokens_used.amount.le(&second_token_full_amount) {
            return Err(PosCreatorError::UsedMoreThanSent);
        }
        let first_tokens_remaining_amount = first_token_full_amount.sub(&first_tokens_used.amount);
        let second_tokens_remaining_amount = second_token_full_amount.sub(&second_tokens_used.amount);
        let first_tokens_remaining = DctTokenPayment::new(
            first_tokens_used.token_identifier,
            0,
            first_tokens_remaining_amount,
        );
        let second_tokens_remaining = DctTokenPayment::new(
            second_tokens_used.token_identifier,
            0,
            second_tokens_remaining_amount,
        );
        Ok(PairAddLiqResult { lp_tokens, first_tokens_remaining, second_tokens_remaining })
    }

    /// The call that removes liquidity from the pair at `pair_address`,
    /// paid with `lp_tokens` and accepting any amounts back
    /// ([`min_amount_out`]); the pair answers with a [`PairRemoveLiqResult`].
    fn call_pair_remove_liquidity(&self, pair_address: Address, lp_tokens: DctTokenPayment) -> (call:
        ContractCall)
        ensures
            call@ == (CallView::RemoveLiquidity {
                to: pair_address,
                payment: lp_tokens@,
                first_token_amount_min: spec_min_amount_out(),
                second_token_amount_min: spec_min_amount_out(),
            }),
    {
        ContractCall::RemoveLiquidity {
            to: pair_address,
            payment: lp_tokens,
            first_token_amount_min: min_amount_out(),
            second_token_amount_min: min_amount_out(),
        }
    }
}

} // verus!
