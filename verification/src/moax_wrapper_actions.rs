//! Wrapping native MOAX into its DCT form through the wrapper contract.
use vstd::prelude::*;
use crate::calls::{CallView, ContractCall};
use crate::types::Amount;
use crate::utils::Address;

verus! {

/// The interface of the MOAX wrapper contract.
pub trait MoaxWrapperProxy {
    /// The address of the wrapper contract that the calls go to.
    spec fn wrapper_address(&self) -> Address;

    /// The `wrapMoax` call, paid with `moax_amount` MOAX; the wrapper
    /// answers with the wrapped tokens.
    fn wrap_moax(&self, moax_amount: Amount) -> (call: ContractCall)
        ensures
            call@ == (CallView::WrapMoax { to: self.wrapper_address(), moax_amount: moax_amount@ }),
    ;
}

/// The MOAX wrapper contract at `sc_address`.
#[derive(Clone, Copy, Debug, PartialEq, Eq)]
pub struct WrapperContract {
    pub sc_address: Address,
}

impl MoaxWrapperProxy for WrapperContract {
    open spec fn wrapper_address(&self) -> Address {
        self.sc_address
    }

    fn wrap_moax(&self, moax_amount: Amount) -> (call: ContractCall) {
        let call = ContractCall::WrapMoax { to: self.sc_address, moax_amount };
        assert(self.wrapper_address() == self.sc_address);
        call
    }
}

/// The wrapper module: it stores the wrapped MOAX token and the address of
/// the wrapper contract, and wraps MOAX there.
pub trait MoaxWrapperActionsModule {
    /// The stored wrapped MOAX token.
    spec fn stored_wmoax_token_id(&self) -> Seq<u8>;

    /// The stored address of the wrapper contract.
    spec fn stored_moax_wrapper_sc_address(&self) -> Address;

    /// Reads the stored wrapped MOAX token.
    fn wmoax_token_id(&self) -> (res: &Vec<u8>)
        ensures
            res@ == self.stored_wmoax_token_id(),
    ;

    /// Reads the stored address of the wrapper contract.
    fn moax_wrapper_sc_address(&self) -> (res: Address)
        ensures
            res == self.stored_moax_wrapper_sc_address(),
    ;

    /// The wrapper contract at `sc_address`.
    fn moax_wrapper_proxy(&self, sc_address: Address) -> (proxy: WrapperContract)
        ensures
            proxy.sc_address == sc_address,
    {
        WrapperContract { sc_address }
    }

    /// The call that wraps `moax_amount` MOAX at the stored wrapper address.
    fn call_wrap_moax(&self, moax_amount: Amount) -> (call: ContractCall)
        ensures
            call@ == (CallView::WrapMoax {
                to: self.stored_moax_wrapper_sc_address(),
                moax_amount: moax_amount@,
            }),
    {
        let wrapper_sc_address = self.moax_wrapper_sc_address();
        self.moax_wrapper_proxy(wrapper_sc_address).wrap_moax(moax_amount)
    }
}

} // verus!
