//! Plain-value models of the token and address values that the contracts
//! move around: DCT payments, the MOAX-or-DCT payment that an endpoint
//! receives, and the helpers that compare and copy them.
use vstd::prelude::*;
use crate::big_uint::BigUint;

verus! {

/// A token amount: an unbounded unsigned integer.
pub type Amount = BigUint;

/// A lock period counted in epochs.
pub type Epoch = u64;

/// The abstract value of a DCT payment.
pub struct PaymentView {
    pub token_identifier: Seq<u8>,
    pub token_nonce: u64,
    pub amount: nat,
}

/// A transfer of `amount` units of the DCT token `token_identifier`
/// (fungible when `token_nonce` is 0).
#[derive(Debug, PartialEq, Eq)]
pub struct DctTokenPayment {
    pub token_identifier: Vec<u8>,
    pub token_nonce: u64,
    pub amount: Amount,
}

impl View for DctTokenPayment {
    type V = PaymentView;

    open spec fn view(&self) -> PaymentView {
        PaymentView {
            token_identifier: self.token_identifier@,
            token_nonce: self.token_nonce,
            amount: self.amount@,
        }
    }
}

impl DeepView for DctTokenPayment {
    type V = PaymentView;

    open spec fn deep_view(&self) -> PaymentView {
        self@
    }
}

/// The abstract payment built from its three parts.
pub open spec fn payment_view(token_identifier: Seq<u8>, token_nonce: u64, amount: nat) -> PaymentView {
    PaymentView { token_identifier, token_nonce, amount }
}

impl DctTokenPayment {
    /// Builds a payment from its parts.
    pub fn new(token_identifier: Vec<u8>, token_nonce: u64, amount: Amount) -> (res: Self)
        ensures
            res@ == payment_view(token_identifier@, token_nonce, amount@),
    {
        DctTokenPayment { token_identifier, token_nonce, amount }
    }

    /// A copy of this payment.
    pub fn duplicate(&self) -> (res: Self)
        ensures
            res@ == self@,
    {
        DctTokenPayment {
            token_identifier: copy_bytes(&self.token_identifier),
            token_nonce: self.token_nonce,
            amount: self.amount.duplicate(),
        }
    }
}

/// The abstract value of a token that is either MOAX or a DCT token.
pub enum TokenView {
    Moax,
    Dct(Seq<u8>),
}

/// The token of a payment that an endpoint receives: the native MOAX, or a
/// DCT token named by its identifier.
#[derive(Debug, PartialEq, Eq)]
pub enum MoaxOrDctTokenIdentifier {
    Moax,
    Dct(Vec<u8>),
}

impl View for MoaxOrDctTokenIdentifier {
    type V = TokenView;

    open spec fn view(&self) -> TokenView {
        match self {
            MoaxOrDctTokenIdentifier::Moax => TokenView::Moax,
            MoaxOrDctTokenIdentifier::Dct(id) => TokenView::Dct(id@),
        }
    }
}

impl MoaxOrDctTokenIdentifier {
    /// Whether this is the native MOAX token.
    pub fn is_moax(&self) -> (res: bool)
        ensures
            res <==> self@ is Moax,
    {
        match self {
            MoaxOrDctTokenIdentifier::Moax => true,
            MoaxOrDctTokenIdentifier::Dct(_) => false,
        }
    }

    /// Whether this names the DCT token `token_identifier`.
    pub fn is_dct_token(&self, token_identifier: &Vec<u8>) -> (res: bool)
        ensures
            res <==> self@ == TokenView::Dct(token_identifier@),
    {
        match self {
            MoaxOrDctTokenIdentifier::Moax => false,
            MoaxOrDctTokenIdentifier::Dct(id) => bytes_eq(id, token_identifier),
        }
    }
}

/// The abstract value of a payment in MOAX or in a DCT token.
pub struct MoaxOrDctPaymentView {
    pub token_identifier: TokenView,
    pub token_nonce: u64,
    pub amount: nat,
}

/// A payment in MOAX or in a DCT token, as an endpoint receives it.
#[derive(Debug, PartialEq, Eq)]
pub struct MoaxOrDctTokenPayment {
    pub token_identifier: MoaxOrDctTokenIdentifier,
    pub token_nonce: u64,
    pub amount: Amount,
}

impl View for MoaxOrDctTokenPayment {
    type V = MoaxOrDctPaymentView;

    open spec fn view(&self) -> MoaxOrDctPaymentView {
        MoaxOrDctPaymentView {
            token_identifier: self.token_identifier@,
            token_nonce: self.token_nonce,
            amount: self.amount@,
        }
    }
}

impl MoaxOrDctTokenPayment {
    /// The DCT payment that this payment is; it must not be a MOAX payment.
    pub fn unwrap_dct(self) -> (res: DctTokenPayment)
        requires
            self@.token_identifier is Dct,
        ensures
            res@ == payment_view(
                self@.token_identifier->Dct_0,
                self.token_nonce,
                self.amount@,
            ),
    {
        match self.token_identifier {
            MoaxOrDctTokenIdentifier::Dct(id) => DctTokenPayment::new(id, self.token_nonce, self.amount),
            MoaxOrDctTokenIdentifier::Moax => vstd::pervasive::unreached(),
        }
    }
}

/// Whether two byte strings are equal.
pub fn bytes_eq(a: &Vec<u8>, b: &Vec<u8>) -> (res: bool)
    ensures
        res <==> a@ == b@,
{
    if a.len() != b.len() {
        return false;
    }
    let mut i: usize = 0;
    while i < a.len()
        invariant
            a.len() == b.len(),
            i <= a.len(),
            forall|j: int| 0 <= j < i ==> a@[j] == b@[j],
        decreases a.len() - i,
    {
        if a[i] != b[i] {
            return false;
        }
        i = i + 1;
    }
    assert(a@ =~= b@);
    true
}

/// A copy of a byte string.
pub fn copy_bytes(a: &Vec<u8>) -> (res: Vec<u8>)
    ensures
        res@ == a@,
{
    let mut res: Vec<u8> = Vec::new();
    let mut i: usize = 0;
    while i < a.len()
        invariant
            i <= a.len(),
            res@ == a@.subrange(0, i as int),
        decreases a.len() - i,
    {
        res.push(a[i]);
        i = i + 1;
    }
    assert(res@ =~= a@);
    res
}

/// The abstract values of a list of payments.
pub open spec fn payments_view(payments: Seq<DctTokenPayment>) -> Seq<PaymentView> {
    payments.map_values(|p: DctTokenPayment| p@)
}

} // verus!
