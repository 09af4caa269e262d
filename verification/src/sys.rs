//! Trusted boundary to the OS descriptor primitives.
use vstd::prelude::*;

verus! {

/// Relies on `nix::unistd::dup` (dup(2)): on success the OS returns a fresh
/// descriptor — the lowest-numbered unused one, hence nonnegative and, the
/// argument being open and in use, distinct from it; on failure it reports
/// the nonzero code that dup(2) left in `errno`. The argument descriptor is
/// only read, never closed or otherwise changed.
#[verifier::external_body]
pub(crate) fn sys_dup(fd: i32) -> (r: Result<i32, i32>)
    ensures
        r matches Ok(n) ==> n >= 0 && n != fd,
        r matches Err(c) ==> c != 0,
{
    match nix::unistd::dup(fd) {
        Ok(n) => Ok(n),
        Err(e) => Err(e as i32),
    }
}

/// Relies on `nix::unistd::dup2` (dup2(2)): on success it returns `newfd`,
/// which now refers to the same resource as `oldfd`, silently closing
/// whatever `newfd` referred to before; on failure it reports the nonzero
/// code that dup2(2) left in `errno`, and no descriptor is created at
/// `newfd`.
#[verifier::external_body]
pub(crate) fn sys_dup2(oldfd: i32, newfd: i32) -> (r: Result<i32, i32>)
    ensures
        r matches Ok(n) ==> n == newfd,
        r matches Err(c) ==> c != 0,
{
    match nix::unistd::dup2(oldfd, newfd) {
        Ok(n) => Ok(n),
        Err(e) => Err(e as i32),
    }
}

/// Relies on `nix::unistd::close` (close(2)): issues exactly one close of
/// `fd` and nothing else. The outcome is deliberately dropped: close is
/// best-effort at teardown time, and a failed close still invalidates the
/// descriptor.
#[verifier::external_body]
pub(crate) fn sys_close(fd: i32)
    opens_invariants none
    no_unwind
{
    let _ = nix::unistd::close(fd);
}

} // verus!
