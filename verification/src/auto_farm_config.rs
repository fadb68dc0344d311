//! The address of the auto-farm contract, as the position creator stores it.
use vstd::prelude::*;
use crate::utils::Address;

verus! {

/// The auto-farm configuration module: the stored address of the auto-farm
/// contract, `None` while unset.
pub trait AutoFarmConfigModule {
    /// The stored address.
    spec fn stored_auto_farm_sc_address(&self) -> Option<Address>;

    /// Reads the stored address.
    fn auto_farm_sc_address(&self) -> (res: Option<Address>)
        ensures
            res == self.stored_auto_farm_sc_address(),
    ;
}

} // verus!
