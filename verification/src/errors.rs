//! The reasons for which a contract call is rejected.
use vstd::prelude::*;

verus! {

/// Why an endpoint, or one of its steps, aborts the transaction.
#[derive(PartialEq, Eq, Structural, Clone, Copy, Debug)]
pub enum PosCreatorError {
    /// The payment is neither MOAX nor the wrapped MOAX token.
    InvalidPayment,
    /// A token identifier is not a valid DCT identifier.
    InvalidTokenId,
    /// An address is zero or not a smart contract.
    NotAScAddress,
    /// A called contract returned fewer payments than expected.
    MissingOutputPayment,
    /// A called contract reports that it used more tokens than it was sent.
    UsedMoreThanSent,
    /// No liquidity pair is registered for the two tokens of a swap.
    UnknownPair,
    /// A step received a result that does not answer its pending call.
    UnexpectedResult,
}

} // verus!
