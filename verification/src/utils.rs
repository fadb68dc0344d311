//! The address and token checks that the contracts make on their
//! configuration.
use vstd::prelude::*;
use crate::errors::PosCreatorError;
use crate::token_id::{spec_valid_token_identifier, validate_token_identifier};

verus! {

/// A 32-byte account or contract address.
pub type Address = [u8; 32];

/// Whether an address is all zero bytes.
pub open spec fn spec_is_zero_address(address: Address) -> bool {
    forall|i: int| 0 <= i < 32 ==> #[trigger] address@[i] == 0
}

/// Whether an address is all zero bytes.
pub fn is_zero_address(address: &Address) -> (res: bool)
    ensures
        res == spec_is_zero_address(*address),
{
    let mut i: usize = 0;
    while i < 32
        invariant
            i <= 32,
            forall|j: int| 0 <= j < i ==> #[trigger] address@[j] == 0,
        decreases 32 - i,
    {
        if address[i] != 0 {
            return false;
        }
        i = i + 1;
    }
    true
}

/// Accepts `address` when it is not the zero address and the chain reports
/// it as a smart contract (`is_smart_contract`, read by the caller).
pub fn require_sc_address(address: &Address, is_smart_contract: bool) -> (res: Result<(), PosCreatorError>)
    ensures
        res is Ok <==> (!spec_is_zero_address(*address) && is_smart_contract),
        res is Err ==> res == Err::<(), PosCreatorError>(PosCreatorError::NotAScAddress),
{
    if !is_zero_address(address) && is_smart_contract {
        Ok(())
    } else {
        Err(PosCreatorError::NotAScAddress)
    }
}

/// Accepts `token_id` when it is a valid DCT token identifier.
pub fn require_valid_token_id(token_id: &Vec<u8>) -> (res: Result<(), PosCreatorError>)
    ensures
        res is Ok <==> spec_valid_token_identifier(token_id@),
        res is Err ==> res == Err::<(), PosCreatorError>(PosCreatorError::InvalidTokenId),
{
    if validate_token_identifier(token_id) {
        Ok(())
    } else {
        Err(PosCreatorError::InvalidTokenId)
    }
}

/// Whether the chain reports `address` as a smart contract, per the list of
/// smart-contract addresses that the host read.
pub open spec fn spec_is_known_sc(smart_contracts: Seq<Address>, address: Address) -> bool {
    smart_contracts.contains(address)
}

/// Whether `address` is a non-zero address of a smart contract.
pub open spec fn spec_valid_sc_address(smart_contracts: Seq<Address>, address: Address) -> bool {
    !spec_is_zero_address(address) && spec_is_known_sc(smart_contracts, address)
}

/// Whether two addresses are equal.
pub fn address_eq(a: &Address, b: &Address) -> (res: bool)
    ensures
        res <==> *a == *b,
{
    let mut i: usize = 0;
    while i < 32
        invariant
            i <= 32,
            forall|j: int| 0 <= j < i ==> a[j] == b[j],
        decreases 32 - i,
    {
        if a[i] != b[i] {
            return false;
        }
        i = i + 1;
    }
    proof {
        broadcast use vstd::array::group_array_axioms;
        assert(*a =~= *b);
    }
    true
}

/// Whether `address` is in `smart_contracts`.
pub fn is_known_sc(smart_contracts: &Vec<Address>, address: &Address) -> (res: bool)
    ensures
        res == spec_is_known_sc(smart_contracts@, *address),
{
    let mut i: usize = 0;
    while i < smart_contracts.len()
        invariant
            i <= smart_contracts.len(),
            forall|j: int| 0 <= j < i ==> smart_contracts@[j] != *address,
        decreases smart_contracts.len() - i,
    {
        if address_eq(&smart_contracts[i], address) {
            assert(smart_contracts@[i as int] == *address);
            return true;
        }
        i = i + 1;
    }
    false
}

} // verus!
