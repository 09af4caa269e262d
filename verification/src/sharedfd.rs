//! The shared-reference policy: all copies share one OS descriptor.
use vstd::prelude::*;

use std::sync::Arc;

use crate::AutoClosingFD;
use crate::ManagedFD;
use crate::OsError;
use crate::RawFd;

verus! {

/// A managed descriptor whose duplication shares the one underlying
/// auto-closing handle behind an atomically counted ownership cell: every
/// copy observes the same descriptor number and the same read/write cursor,
/// and the descriptor is closed exactly once, when the last copy is
/// destroyed.
pub struct SharedFD(Arc<AutoClosingFD>);

impl ManagedFD for SharedFD {
    closed spec fn raw(&self) -> int {
        (*self.0).raw()
    }

    fn wrap(fd: RawFd) -> (r: Self) {
        SharedFD(Arc::new(AutoClosingFD::wrap(fd)))
    }

    fn dup_wrap(fd: RawFd) -> (r: Result<Self, OsError>) {
        match AutoClosingFD::dup_wrap(fd) {
            Ok(h) => Ok(SharedFD(Arc::new(h))),
            Err(e) => Err(e),
        }
    }

    /// Sharing a reference cannot fail: the new handle is another owner of
    /// the very same descriptor.
    fn dup(&self) -> (r: Result<Self, OsError>)
        ensures
            r is Ok,
            r matches Ok(h) ==> h == self && h.raw() == self.raw(),
    {
        Ok(SharedFD(self.0.clone()))
    }

    fn as_raw_fd(&self) -> (r: RawFd) {
        self.0.as_raw_fd()
    }
}

impl Clone for SharedFD {
    /// Copy-construction is `dup()`, which for this policy provably cannot
    /// fail, so unwrapping it is safe.
    fn clone(&self) -> (r: Self)
        ensures
            r == self && r.raw() == self.raw(),
    {
        self.dup().unwrap()
    }
}

} // verus!
