//! The independent-copy policy: every copy owns its own OS descriptor.
use vstd::prelude::*;

use crate::AutoClosingFD;
use crate::INVALID_FD;
use crate::ManagedFD;
use crate::OsError;
use crate::RawFd;

verus! {

/// A managed descriptor whose duplication asks the OS for a fresh
/// descriptor each time: copies are fully independent resources, each with
/// its own descriptor number, read/write cursor and lifetime, all referring
/// to the same underlying open resource.
///
/// There is no host-language `Clone` here: a copy would have to hide a
/// fallible OS duplication behind an interface with no error channel. Spell
/// the copy out instead, as `h.dup()`, and decide what its failure means —
/// an unverified caller that wants the classic behaviour writes
/// `h.dup().unwrap()`.
pub struct DuplicatingFD(AutoClosingFD);

impl ManagedFD for DuplicatingFD {
    closed spec fn raw(&self) -> int {
        self.0.raw()
    }

    fn wrap(fd: RawFd) -> (r: Self) {
        DuplicatingFD(AutoClosingFD::wrap(fd))
    }

    fn dup_wrap(fd: RawFd) -> (r: Result<Self, OsError>) {
        match AutoClosingFD::dup_wrap(fd) {
            Ok(h) => Ok(DuplicatingFD(h)),
            Err(e) => Err(e),
        }
    }

    /// Duplication asks the OS for a new descriptor onto the same resource,
    /// so a successful sibling never shares this handle's descriptor number.
    fn dup(&self) -> (r: Result<Self, OsError>)
        ensures
            r matches Ok(h) ==> h.raw() >= 0 && h.raw() != self.raw(),
    {
        match AutoClosingFD::dup_wrap(self.0.as_raw_fd()) {
            Ok(h) => Ok(DuplicatingFD(h)),
            Err(e) => Err(e),
        }
    }

    fn as_raw_fd(&self) -> (r: RawFd) {
        self.0.as_raw_fd()
    }
}

impl DuplicatingFD {
    /// Overwrite-in-place: keep this handle's descriptor number but repoint
    /// it at `source`'s resource, closing whatever it referenced before; a
    /// no-op when the two already denote the same descriptor. Both
    /// descriptors must currently be valid — that is the caller's burden,
    /// not a recoverable condition. If the OS repointing itself fails, the
    /// error is returned and this handle is left holding the invalid
    /// sentinel: its old descriptor is already gone, and handing back a
    /// number that no longer belongs to it would invite a double close.
    pub fn dup_from(&mut self, source: &Self) -> (r: Result<(), OsError>)
        requires
            old(self).raw() >= 0,
            source.raw() >= 0,
        ensures
            r is Ok ==> final(self).raw() == old(self).raw(),
            r matches Err(e) ==> e.code != 0 && final(self).raw() == INVALID_FD as int,
            old(self).raw() == source.raw() ==> r is Ok && *final(self) == *old(self),
    {
        self.0.redirect_from(&source.0)
    }
}

} // verus!
