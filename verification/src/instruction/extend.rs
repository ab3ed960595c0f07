//! The Extend operation: accepted and ignored.

use vstd::prelude::*;

use crate::error::VaultError;
use crate::ledger::OperationPlan;
use crate::ledger::TransferStep;

verus! {

/// Does nothing: Extend validates nothing, transfers nothing and writes
/// nothing, and always succeeds.
pub fn extend() -> (r: Result<OperationPlan, VaultError>)
    ensures
        r matches Ok(p) ==> {
            &&& p.steps@ == Seq::<TransferStep>::empty()
            &&& p.new_vault is None
        },
        r is Ok,
{
    let steps: Vec<TransferStep> = Vec::new();
    proof {
        assert(steps@ =~= Seq::<TransferStep>::empty());
    }
    Ok(OperationPlan { steps, new_vault: None })
}

} // verus!
