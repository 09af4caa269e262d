//! Managed POSIX file descriptors.
//!
//! A raw descriptor wrapped by this crate is closed exactly once, when its
//! last owner is released.  Two duplication policies are offered:
//!
//! - [`DuplicatingFD`] gives every copy its own OS descriptor, obtained from
//!   the OS duplicate primitive, with an independent lifetime.
//! - [`SharedFD`] lets all copies share one descriptor behind a reference
//!   count; the descriptor is closed when the last copy goes away.
//!
//! Both implement the [`ManagedFD`] contract: an ownership-taking `wrap`, a
//! non-owning `dup_wrap` built on the duplicate primitive, a policy-specific
//! `dup`, and an observational `as_raw_fd`.
use vstd::prelude::*;

mod autofd;
mod dupfd;
mod sharedfd;
mod sys;

pub use autofd::AutoClosingFD;
pub use autofd::lemma_close_at_most_once;
pub use dupfd::DuplicatingFD;
pub use sharedfd::SharedFD;

verus! {

/// A raw OS descriptor value. Negative values never denote an open descriptor.
pub type RawFd = i32;

/// The sentinel stored once a handle no longer holds an open descriptor.
pub const INVALID_FD: RawFd = -1;

/// Error carrying the OS-reported code of the most recent failing
/// descriptor operation.
#[derive(Clone, Copy, Debug, PartialEq, Eq, Structural)]
pub struct OsError {
    pub code: i32,
}

impl OsError {
    /// The OS error code.
    pub fn code(&self) -> (r: i32)
        ensures
            r == self.code,
    {
        self.code
    }
}

/// The capability contract shared by both duplication policies.
///
/// `Clone` is deliberately not demanded here: a host-language copy has no
/// error channel, so only a policy whose duplication provably cannot fail
/// ([`SharedFD`]) implements it; for [`DuplicatingFD`] a caller spells the
/// fallibility out as `dup()` and decides what a failure means.
pub trait ManagedFD: Sized {
    /// The raw descriptor value the handle currently holds.
    spec fn raw(&self) -> int;

    /// Take ownership of `fd` unconditionally; no validation, no failure.
    /// The caller must not use, and above all not close, `fd` afterwards.
    fn wrap(fd: RawFd) -> (r: Self)
        ensures
            r.raw() == fd as int,
    ;

    /// Wrap a fresh OS duplicate of `fd`, leaving `fd` owned by the caller
    /// either way. Fails exactly when the OS duplicate primitive fails, with
    /// the OS-reported nonzero code.
    fn dup_wrap(fd: RawFd) -> (r: Result<Self, OsError>)
        ensures
            r matches Ok(h) ==> h.raw() >= 0 && h.raw() != fd as int,
            r matches Err(e) ==> e.code != 0,
    ;

    /// Produce a new logical handle per this policy's sharing rule. Fails
    /// only if the policy needs a new OS duplication and that fails.
    fn dup(&self) -> (r: Result<Self, OsError>)
        ensures
            r matches Err(e) ==> e.code != 0,
    ;

    /// The raw descriptor value; observational only, never transfers
    /// ownership. May be the invalid sentinel after teardown.
    fn as_raw_fd(&self) -> (r: RawFd)
        ensures
            r as int == self.raw(),
    ;
}

} // verus!
