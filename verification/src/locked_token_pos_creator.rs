//! The locked-token position creator: it holds every module that creating
//! liquidity and farm positions uses.
use vstd::prelude::*;
use crate::create_farm_pos::CreateFarmPosModule;
use crate::create_pair_pos::{CreatePairPosModule, PosCreationConfig};
use crate::errors::PosCreatorError;
use crate::moax_wrapper_actions::MoaxWrapperActionsModule;
use crate::proxy_dex_actions::ProxyDexActionsModule;
use crate::token_id::spec_valid_token_identifier;
use crate::utils::{
    is_known_sc, require_sc_address, require_valid_token_id, spec_valid_sc_address, Address,
};

verus! {

/// Whether every address of the deployment that must be a smart contract
/// is one: the wrapper, the MEX/WMOAX pair, its farm and the DEX proxy.
pub open spec fn deployment_addresses_valid(
    smart_contracts: Seq<Address>,
    moax_wrapper_address: Address,
    mex_wmoax_pair_address: Address,
    mex_wmoax_lp_farm_address: Address,
    proxy_dex_address: Address,
) -> bool {
    &&& spec_valid_sc_address(smart_contracts, moax_wrapper_address)
    &&& spec_valid_sc_address(smart_contracts, mex_wmoax_pair_address)
    &&& spec_valid_sc_address(smart_contracts, mex_wmoax_lp_farm_address)
    &&& spec_valid_sc_address(smart_contracts, proxy_dex_address)
}

/// The locked-token position creator contract.
pub trait LockedTokenPosCreatorContract: CreateFarmPosModule + Sized {
    /// Deploys the contract. The wrapper, pair, farm and proxy addresses
    /// must be non-zero smart-contract addresses (per `smart_contracts`,
    /// the addresses that the chain reports as smart contracts) and
    /// `wmoax_token_id` a valid DCT identifier; they are checked in the
    /// order wrapper, token, pair, farm, proxy, and the first that fails
    /// aborts. The contract needs the burn role for the MEX token.
    fn init(
        energy_factory_adddress: Address,
        moax_wrapper_address: Address,
        wmoax_token_id: Vec<u8>,
        mex_wmoax_pair_address: Address,
        mex_wmoax_lp_farm_address: Address,
        proxy_dex_address: Address,
        smart_contracts: &Vec<Address>,
    ) -> (res: Result<Self, PosCreatorError>)
        ensures
            res is Ok <==> deployment_addresses_valid(
                smart_contracts@,
                moax_wrapper_address,
                mex_wmoax_pair_address,
                mex_wmoax_lp_farm_address,
                proxy_dex_address,
            ) && spec_valid_token_identifier(wmoax_token_id@),
            spec_valid_sc_address(smart_contracts@, moax_wrapper_address) && !spec_valid_token_identifier(
                wmoax_token_id@,
            ) ==> (res matches Err(e) && e == PosCreatorError::InvalidTokenId),
            res is Err && !(spec_valid_sc_address(smart_contracts@, moax_wrapper_address)
                && !spec_valid_token_identifier(wmoax_token_id@)) ==> (res matches Err(e) && e == PosCreatorError::NotAScAddress),
            res matches Ok(c) ==> {
                &&& c.stored_moax_wrapper_sc_address() == moax_wrapper_address
                &&& c.stored_wmoax_token_id() == wmoax_token_id@
                &&& c.stored_mex_wmoax_pair_address() == mex_wmoax_pair_address
                &&& c.stored_farm_address() == mex_wmoax_lp_farm_address
                &&& c.stored_proxy_dex_address() == proxy_dex_address
                &&& c.stored_energy_factory_address() == energy_factory_adddress
            },
    ;

    /// Upgrading changes nothing.
    fn upgrade(&self) {
    }
}

/// The storage of the locked-token position creator.
#[derive(Debug, PartialEq, Eq)]
pub struct LockedTokenPosCreator {
    pub wmoax_token_id: Vec<u8>,
    pub moax_wrapper_sc_address: Address,
    pub mex_wmoax_pair_address: Address,
    pub farm_address: Address,
    pub proxy_dex_address: Address,
    pub energy_factory_address: Address,
}

impl MoaxWrapperActionsModule for LockedTokenPosCreator {
    open spec fn stored_wmoax_token_id(&self) -> Seq<u8> {
        self.wmoax_token_id@
    }

    open spec fn stored_moax_wrapper_sc_address(&self) -> Address {
        self.moax_wrapper_sc_address
    }

    fn wmoax_token_id(&self) -> (res: &Vec<u8>) {
        &self.wmoax_token_id
    }

    fn moax_wrapper_sc_address(&self) -> (res: Address) {
        self.moax_wrapper_sc_address
    }
}

impl ProxyDexActionsModule for LockedTokenPosCreator {
    open spec fn stored_proxy_dex_address(&self) -> Address {
        self.proxy_dex_address
    }

    fn proxy_dex_address(&self) -> (res: Address) {
        self.proxy_dex_address
    }
}

impl PosCreationConfig for LockedTokenPosCreator {
    open spec fn stored_mex_wmoax_pair_address(&self) -> Address {
        self.mex_wmoax_pair_address
    }

    open spec fn stored_energy_factory_address(&self) -> Address {
        self.energy_factory_address
    }

    fn mex_wmoax_pair_address(&self) -> (res: Address) {
        self.mex_wmoax_pair_address
    }

    fn energy_factory_address(&self) -> (res: Address) {
        self.energy_factory_address
    }
}

impl CreatePairPosModule for LockedTokenPosCreator {

}

impl CreateFarmPosModule for LockedTokenPosCreator {
    open spec fn stored_farm_address(&self) -> Address {
        self.farm_address
    }

    fn farm_address(&self) -> (res: Address) {
        self.farm_address
    }
}

impl LockedTokenPosCreatorContract for LockedTokenPosCreator {
    fn init(
        energy_factory_adddress: Address,
        moax_wrapper_address: Address,
        wmoax_token_id: Vec<u8>,
        mex_wmoax_pair_address: Address,
        mex_wmoax_lp_farm_address: Address,
        proxy_dex_address: Address,
        smart_contracts: &Vec<Address>,
    ) -> (res: Result<Self, PosCreatorError>) {
        require_sc_address(&moax_wrapper_address, is_known_sc(smart_contracts, &moax_wrapper_address))?;
        require_valid_token_id(&wmoax_token_id)?;
        require_sc_address(&mex_wmoax_pair_address, is_known_sc(smart_contracts, &mex_wmoax_pair_address))?;
        require_sc_address(
            &mex_wmoax_lp_farm_address,
            is_known_sc(smart_contracts, &mex_wmoax_lp_farm_address),
        )?;
        require_sc_address(&proxy_dex_address, is_known_sc(smart_contracts, &proxy_dex_address))?;
        Ok(LockedTokenPosCreator {
            wmoax_token_id,
            moax_wrapper_sc_address: moax_wrapper_address,
            mex_wmoax_pair_address,
            farm_address: mex_wmoax_lp_farm_address,
            proxy_dex_address,
            energy_factory_address: energy_factory_adddress,
        })
    }
}

} // verus!
