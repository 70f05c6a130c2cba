use vstd::prelude::*;

use crate::status::{status_outcome, ErrorLike, NtStatus};

verus! {

/// A memory descriptor list whose pages are probed and locked; the pages are
/// unlocked when it is released.
pub struct LockedMdl {
    mdl: usize,
}

impl LockedMdl {
    /// The address of the locked descriptor list.
    pub closed spec fn spec_mdl(&self) -> usize {
        self.mdl
    }

    /// Takes the status with which probing and locking the pages of `mdl`
    /// ended: success gives the locked list, any other status is the error.
    pub fn new(mdl: usize, lock_status: NtStatus) -> (r: Result<LockedMdl, NtStatus>)
        ensures
            r is Ok <==> status_outcome(lock_status) is Ok,
            r matches Ok(locked) ==> locked.spec_mdl() == mdl,
            r matches Err(e) ==> e == lock_status,
    {
        match lock_status.as_either() {
            Ok(()) => Ok(LockedMdl { mdl }),
            Err(e) => Err(e),
        }
    }

    /// The address of the locked descriptor list, to unlock it with.
    pub fn mdl(&self) -> (mdl: usize)
        ensures
            mdl == self.spec_mdl(),
    {
        self.mdl
    }
}

} // verus!
