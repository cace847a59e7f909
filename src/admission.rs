//! The admission check consulted before any call reaches its handler.
use vstd::prelude::*;
use vstd::string::StringSliceAdditionalSpecFns;

use crate::names::{encode_name, validate_name, Rejection, NAME_LENGTH};
use crate::pallet::{execute_role, holds, Config, Pallet, RbacState};
use crate::store::AccountId;

verus! {

/// The fixed-width buffer holding the encoded form of the name `b`.
pub open spec fn encoded(b: Seq<u8>) -> [u8; 36] {
    choose|a: [u8; 36]| a@ == encode_name(b)
}

/// An array is the buffer `encoded` picks for any name whose encoding it
/// holds.
pub proof fn lemma_encoded_unique(b: Seq<u8>, a: [u8; 36])
    requires
        a@ == encode_name(b),
    ensures
        encoded(b) == a,
{
    let e = encoded(b);
    assert(e@ == encode_name(b));
    assert(e =~= a);
}

/// Whether a call from `who` to the call named `call` of the module named
/// `module` (both as raw bytes) is admitted in state `s`.
pub open spec fn admission(s: RbacState, who: AccountId, module: Seq<u8>, call: Seq<u8>) -> Result<
    (),
    Rejection,
> {
    if s.admins.contains(who) {
        Ok(())
    } else if call.len() > NAME_LENGTH || module.len() > NAME_LENGTH {
        Err(Rejection::NameTooLong)
    } else if holds(s, who, execute_role(encoded(module), encoded(call))) {
        Ok(())
    } else {
        Err(Rejection::Unauthorized)
    }
}

/// The admission check. It holds no state of its own and reads the store
/// only.
pub struct Authorization<T: Config> {
    config: core::marker::PhantomData<T>,
}

impl<T: Config> Authorization<T> {
    pub fn new() -> (r: Authorization<T>) {
        Authorization { config: core::marker::PhantomData }
    }

    /// Admits global administrators outright; anyone else must hold the
    /// declared role to execute exactly this call of this module. Names
    /// longer than the fixed width are refused.
    pub fn validate(
        &self,
        pallet: &Pallet<T>,
        who: AccountId,
        pallet_name: &str,
        call_name: &str,
    ) -> (r: Result<(), Rejection>)
        ensures
            r == admission(pallet@, who, pallet_name.spec_bytes(), call_name.spec_bytes()),
    {
        if pallet.is_global_admin(who) {
            return Ok(());
        }
        let call = validate_name(call_name)?;
        let module = validate_name(pallet_name)?;
        proof {
            lemma_encoded_unique(call_name.spec_bytes(), call);
            lemma_encoded_unique(pallet_name.spec_bytes(), module);
        }
        if pallet.verify_execute_access(who, module, call) {
            Ok(())
        } else {
            Err(Rejection::Unauthorized)
        }
    }
}

} // verus!
