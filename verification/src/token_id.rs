//! Validity of DCT token identifiers, as the chain checks it.
use vstd::prelude::*;

verus! {

/// An upper-case ASCII letter or a digit.
pub open spec fn is_upper_alphanumeric(c: u8) -> bool {
    (65 <= c <= 90) || (48 <= c <= 57)
}

/// A lower-case ASCII letter or a digit.
pub open spec fn is_lower_alphanumeric(c: u8) -> bool {
    (97 <= c <= 122) || (48 <= c <= 57)
}

/// A valid DCT token identifier is a ticker of 3 to 10 upper-case letters or
/// digits, a dash, and 6 lower-case letters or digits (e.g. `WMOAX-abc123`).
pub open spec fn spec_valid_token_identifier(id: Seq<u8>) -> bool {
    let ticker_len = id.len() - 7;
    &&& 10 <= id.len() <= 17
    &&& forall|i: int| 0 <= i < ticker_len ==> is_upper_alphanumeric(#[trigger] id[i])
    &&& id[ticker_len] == 45
    &&& forall|i: int| ticker_len < i < id.len() ==> is_lower_alphanumeric(#[trigger] id[i])
}

/// Calls `dharitri_sc::chain_core::token_identifier_util::validate_token_identifier`,
/// the framework's own copy of the chain's token identifier check. Its
/// source accepts exactly the identifiers of length 10 to 17 whose ticker
/// (all but the last 7 bytes) is upper-case alphanumeric, followed by a dash
/// and 6 lower-case alphanumeric bytes; the contract claims that.
#[verifier::external_body]
pub(crate) fn validate_token_identifier(token_id: &Vec<u8>) -> (res: bool)
    ensures
        res == spec_valid_token_identifier(token_id@),
{
    dharitri_sc::chain_core::token_identifier_util::validate_token_identifier(token_id.as_slice())
}

} // verus!
