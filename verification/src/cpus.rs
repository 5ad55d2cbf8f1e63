//! The number of processors of the machine.
use vstd::prelude::*;

verus! {

/// `num_cpus::get`: the number of logical processors, which is never zero. The
/// number depends on the machine and on the limits set for the process, so no
/// more is claimed of it.
#[verifier::external_body]
pub(crate) fn num_cpus() -> (count: usize)
    ensures
        count > 0,
{
    num_cpus::get()
}

} // verus!
