//! The automatic position creator.
use vstd::prelude::*;
use crate::auto_farm_config::AutoFarmConfigModule;
use crate::errors::PosCreatorError;
use crate::moax_wrapper_actions::MoaxWrapperActionsModule;
use crate::pair_actions::PairActionsModule;
use crate::token_id::spec_valid_token_identifier;
use crate::utils::{
    is_known_sc, require_sc_address, require_valid_token_id, spec_valid_sc_address, Address,
};

verus! {

/// The automatic position creator contract.
pub trait AutoPosCreator: MoaxWrapperActionsModule + PairActionsModule + Sized {
    /// Deploys the contract with the wrapper at `moax_wrapper_address` and
    /// the wrapped MOAX token `wmoax_token_id`. The wrapper must be a
    /// non-zero smart-contract address (per `smart_contracts`, the
    /// addresses that the chain reports as smart contracts), and the token
    /// a valid DCT identifier; the address is checked first.
    fn init(moax_wrapper_address: Address, wmoax_token_id: Vec<u8>, smart_contracts: &Vec<Address>) -> (res:
        Result<Self, PosCreatorError>)
        ensures
            !spec_valid_sc_address(smart_contracts@, moax_wrapper_address) ==> (res matches Err(e) && e == PosCreatorError::NotAScAddress),
            spec_valid_sc_address(smart_contracts@, moax_wrapper_address) && !spec_valid_token_identifier(
                wmoax_token_id@,
            ) ==> (res matches Err(e) && e == PosCreatorError::InvalidTokenId),
            res is Ok <==> spec_valid_sc_address(smart_contracts@, moax_wrapper_address)
                && spec_valid_token_identifier(wmoax_token_id@),
            res matches Ok(c) ==> c.stored_moax_wrapper_sc_address() == moax_wrapper_address
                && c.stored_wmoax_token_id() == wmoax_token_id@,
    ;

    /// Upgrading changes nothing.
    fn upgrade(&self) {
    }
}

/// The storage of the automatic position creator.
#[derive(Debug, PartialEq, Eq)]
pub struct AutoPosCreatorContract {
    pub wmoax_token_id: Vec<u8>,
    pub moax_wrapper_sc_address: Address,
    pub auto_farm_sc_address: Option<Address>,
}

impl MoaxWrapperActionsModule for AutoPosCreatorContract {
    open spec fn stored_wmoax_token_id(&self) -> Seq<u8> {
        self.wmoax_token_id@
    }

    open spec fn stored_moax_wrapper_sc_address(&self) -> Address {
        self.moax_wrapper_sc_address
    }

    fn wmoax_token_id(&self) -> (res: &Vec<u8>) {
        &self.wmoax_token_id
    }

    fn moax_wrapper_sc_address(&self) -> (res: Address) {
        self.moax_wrapper_sc_address
    }
}

impl PairActionsModule for AutoPosCreatorContract {

}

impl AutoFarmConfigModule for AutoPosCreatorContract {
    open spec fn stored_auto_farm_sc_address(&self) -> Option<Address> {
        self.auto_farm_sc_address
    }

    fn auto_farm_sc_address(&self) -> (res: Option<Address>) {
        self.auto_farm_sc_address
    }
}

impl AutoPosCreator for AutoPosCreatorContract {
    /// Deployment writes only the wrapper address and the token: the
    /// auto-farm address stays unset.
    fn init(moax_wrapper_address: Address, wmoax_token_id: Vec<u8>, smart_contracts: &Vec<Address>) -> (res:
        Result<Self, PosCreatorError>)
        ensures
            res matches Ok(c) ==> c.auto_farm_sc_address is None,
    {
        require_sc_address(&moax_wrapper_address, is_known_sc(smart_contracts, &moax_wrapper_address))?;
        require_valid_token_id(&wmoax_token_id)?;
        Ok(AutoPosCreatorContract {
            wmoax_token_id,
            moax_wrapper_sc_address: moax_wrapper_address,
            auto_farm_sc_address: None,
        })
    }
}

} // verus!
