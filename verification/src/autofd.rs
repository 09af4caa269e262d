//! The auto-closing leaf handle: sole owner of one raw descriptor.
use vstd::prelude::*;

use crate::INVALID_FD;
use crate::OsError;
use crate::RawFd;
use crate::sys::sys_close;
use crate::sys::sys_dup2;
use crate::sys::sys_dup;

verus! {

/// Owns exactly one raw descriptor value and closes it exactly once, when
/// the handle is released. Once a close has been issued the stored value is
/// the invalid sentinel, so a second teardown attempt is a no-op.
///
/// No duplication is offered at this level, by design: a caller must pick
/// one of the two ownership policies, [`crate::DuplicatingFD`] or
/// [`crate::SharedFD`], rather than fall back on an ambiguous default.
pub struct AutoClosingFD {
    fd: RawFd,
    /// How many closes have been issued for the descriptor this handle
    /// currently holds (or, once the sentinel is stored, last held).
    closes: Ghost<nat>,
}

impl AutoClosingFD {
    /// Holds of every handle Verus lets this crate construct: once a close
    /// has been issued, the stored value is the sentinel, so no further
    /// close can ever go out through this handle.
    #[verifier::type_invariant]
    pub closed spec fn well_formed(self) -> bool {
        self.closes@ <= 1 && (self.closes@ == 1 ==> self.fd == INVALID_FD)
    }

    /// The raw descriptor value this handle currently holds.
    pub closed spec fn raw(self) -> int {
        self.fd as int
    }

    /// How many closes this handle has issued for its descriptor.
    pub closed spec fn close_count(self) -> nat {
        self.closes@
    }

    /// Take ownership of `fd` unconditionally; no validation, no failure.
    /// The caller must not use, and above all not close, `fd` afterwards.
    pub fn wrap(fd: RawFd) -> (r: Self)
        ensures
            r.raw() == fd as int,
            r.close_count() == 0,
    {
        AutoClosingFD { fd, closes: Ghost(0nat) }
    }

    /// Wrap a fresh OS duplicate of `fd`; `fd` itself stays with the caller,
    /// untouched, whether the duplication succeeds or fails.
    pub fn dup_wrap(fd: RawFd) -> (r: Result<Self, OsError>)
        ensures
            r matches Ok(h) ==> h.raw() >= 0 && h.raw() != fd as int && h.close_count() == 0,
            r matches Err(e) ==> e.code != 0,
    {
        match sys_dup(fd) {
            Ok(n) => Ok(Self::wrap(n)),
            Err(c) => Err(OsError { code: c }),
        }
    }

    /// The raw descriptor value; the sentinel once the handle is released.
    pub fn as_raw_fd(&self) -> (r: RawFd)
        ensures
            r as int == self.raw(),
    {
        self.fd
    }

    /// Teardown: close the held descriptor if there is one, exactly once,
    /// and store the sentinel; on an already-released handle, a no-op.
    /// Close errors are deliberately not surfaced.
    pub fn release(&mut self)
        ensures
            old(self).raw() >= 0 ==> final(self).raw() == INVALID_FD as int
                && final(self).close_count() == old(self).close_count() + 1,
            old(self).raw() < 0 ==> *final(self) == *old(self),
            final(self).close_count() <= 1,
        opens_invariants none
        no_unwind
    {
        proof {
            use_type_invariant(&*self);
        }
        if self.fd >= 0 {
            sys_close(self.fd);
            self.fd = INVALID_FD;
            self.closes = Ghost(self.closes@ + 1);
        }
    }

    /// Overwrite-in-place: close the held descriptor, then repoint the same
    /// descriptor number at `source`'s resource through the OS
    /// duplicate-onto-existing primitive. A no-op when both already denote
    /// the same descriptor. Both descriptors must currently be valid. If the
    /// repointing fails, the old descriptor is gone and this handle is left
    /// holding the sentinel, so no stale number can be closed twice.
    pub(crate) fn redirect_from(&mut self, source: &Self) -> (r: Result<(), OsError>)
        requires
            old(self).raw() >= 0,
            source.raw() >= 0,
        ensures
            r is Ok ==> final(self).raw() == old(self).raw()
                && final(self).close_count() == 0,
            r matches Err(e) ==> e.code != 0 && final(self).raw() == INVALID_FD as int,
            old(self).raw() == source.raw() ==> r is Ok && *final(self) == *old(self),
    {
        proof {
            use_type_invariant(&*self);
        }
        if source.fd != self.fd {
            let target: i32 = self.fd;
            self.fd = INVALID_FD;
            sys_close(target);
            self.closes = Ghost(self.closes@ + 1);
            match sys_dup2(source.fd, target) {
                Ok(n) => {
                    self.closes = Ghost(0nat);
                    self.fd = n;
                    Ok(())
                },
                Err(c) => Err(OsError { code: c }),
            }
        } else {
            Ok(())
        }
    }
}


impl Drop for AutoClosingFD {
    /// End-of-life teardown defers to [`AutoClosingFD::release`].
    fn drop(&mut self)
        opens_invariants none
        no_unwind
    {
        self.release();
    }
}

/// Law: however many duplications and teardowns the surrounding machinery
/// performs, a well-formed handle — and every handle this crate can
/// construct is one, by its type invariant — has issued the close primitive
/// at most once for the descriptor it owns.
pub proof fn lemma_close_at_most_once(h: AutoClosingFD)
    requires
        h.well_formed(),
    ensures
        h.close_count() <= 1,
{
}

} // verus!
