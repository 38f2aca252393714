//! The activator helper program: a small on-chain program deployed at
//! genesis whose sole externally invokable capability is flipping a
//! staged feature account into the active format. The harness triggers
//! a migration through it instead of the production governance path.

use vstd::prelude::*;
use crate::probe::ProbeInstruction;
use crate::probe::AccountRole;

verus! {

/// The address the activator helper program is deployed at.
pub open spec fn spec_activator_program_id() -> Seq<char> {
    "CBMActivator1111111111111111111111111111111"@
}

/// The address the activator helper program is deployed at.
pub fn activator_program_id() -> (r: String)
    ensures
        r@ == spec_activator_program_id(),
{
    String::from_str("CBMActivator1111111111111111111111111111111")
}

/// The instruction that asks the activator program to flip the staged
/// feature account at `feature_id` into the active format. The staged
/// account is the only account written; the payer signs.
pub fn activate_feature(feature_id: &str, payer: &str) -> (r: ProbeInstruction)
    ensures
        r.program_id@ == spec_activator_program_id(),
        r.accounts@.len() == 2,
        r.accounts@[0].address@ == feature_id@,
        r.accounts@[0].writable,
        !r.accounts@[0].signer,
        r.accounts@[1].address@ == payer@,
        !r.accounts@[1].writable,
        r.accounts@[1].signer,
        r.data@ == Seq::<u8>::empty(),
{
    let mut accounts: Vec<AccountRole> = Vec::new();
    accounts.push(AccountRole { address: feature_id.to_owned(), writable: true, signer: false });
    accounts.push(AccountRole { address: payer.to_owned(), writable: false, signer: true });
    ProbeInstruction {
        program_id: activator_program_id(),
        accounts,
        data: Vec::new(),
    }
}

} // verus!
