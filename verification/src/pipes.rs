//! Pipe links and the descriptor operations on them.
//!
//! The operating-system calls — creating a pipe, closing a
//! descriptor, duplicating one onto a standard slot — go through
//! trusted wrappers around the `nix` crate.  Whether such a call
//! succeeds depends on the state of the process, so the wrappers
//! promise nothing of it; the verified functions around them say
//! exactly which descriptors they operate on and which error value
//! every failure is mapped to.

use crate::errors::PipelineError;
use crate::wiring::{child_fd_steps, spec_child_steps, Desc, FdStep, PipeEnd};
use vstd::prelude::*;

verus! {

/// The standard input descriptor slot.
pub const STDIN_FD: i32 = 0;

/// The standard output descriptor slot.
pub const STDOUT_FD: i32 = 1;

/// One inter-stage pipe: the pair of descriptors returned when it was
/// created.  Link `i` of a pipeline carries stage `i`'s output into
/// stage `i + 1`.
#[derive(Debug, Clone, Copy, PartialEq, Eq, Structural)]
pub struct PipeLink {
    pub read_fd: i32,
    pub write_fd: i32,
}

/// Relies on nix::unistd::pipe: creates an interprocess channel and
/// returns its read and write descriptors, or the OS errno on
/// failure.  Which descriptor numbers the kernel hands out depends on
/// the process state, but pipe(2) fixes that a success returns two
/// new descriptors: both non-negative, and distinct from one another.
#[verifier::external_body]
fn sys_pipe() -> (r: Result<(i32, i32), i32>)
    ensures
        r matches Ok(fds) ==> fds.0 >= 0 && fds.1 >= 0 && fds.0 != fds.1,
{
    match nix::unistd::pipe() {
        Ok(p) => Ok(p),
        Err(e) => Err(e as i32),
    }
}

/// Relies on nix::unistd::close: closes the descriptor, or returns
/// the OS errno.  Success depends on the descriptor being open, so
/// nothing is promised of the outcome.
#[verifier::external_body]
fn sys_close(fd: i32) -> Result<(), i32> {
    match nix::unistd::close(fd) {
        Ok(()) => Ok(()),
        Err(e) => Err(e as i32),
    }
}

/// Relies on nix::unistd::dup2: duplicates `oldfd` onto `newfd`, or
/// returns the OS errno.  Success depends on the descriptors being
/// open, so nothing is promised of the outcome.
#[verifier::external_body]
fn sys_dup2(oldfd: i32, newfd: i32) -> Result<i32, i32> {
    match nix::unistd::dup2(oldfd, newfd) {
        Ok(fd) => Ok(fd),
        Err(e) => Err(e as i32),
    }
}

/// Creates the pipe link with the given index, before the stage that
/// writes it is spawned.  A created link holds two non-negative,
/// distinct descriptors; a failure is reported as a
/// `PipeCreationError` carrying that index and the OS errno.
pub fn create_pipe_link(link_index: usize) -> (r: Result<PipeLink, PipelineError>)
    ensures
        r matches Ok(link) ==> link.read_fd >= 0 && link.write_fd >= 0 && link.read_fd
            != link.write_fd,
        r matches Err(e) ==> e matches PipelineError::PipeCreationError { link, errno: _ }
            && link == link_index,
{
    match sys_pipe() {
        Ok((read_fd, write_fd)) => Ok(PipeLink { read_fd, write_fd }),
        Err(errno) => Err(PipelineError::PipeCreationError { link: link_index, errno }),
    }
}

/// Closes both descriptors of a link in the controller, which never
/// carries pipeline payload.  Both ends are closed even if the first
/// close fails; the first OS errno, if any, is returned.
pub fn close_parent_link(link: &PipeLink) -> (r: Result<(), i32>)
{
    let first = sys_close(link.read_fd);
    let second = sys_close(link.write_fd);
    match first {
        Ok(()) => second,
        Err(e) => Err(e),
    }
}

/// The descriptor a step operates on.
pub open spec fn spec_step_desc(s: FdStep) -> Desc {
    match s {
        FdStep::DupToStdin { src } => src,
        FdStep::DupToStdout { src } => src,
        FdStep::CloseDesc { target } => target,
    }
}

/// The descriptor of `d` among the created links.
fn link_fd(links: &Vec<PipeLink>, d: Desc) -> (fd: i32)
    requires
        d.link < links@.len(),
    ensures
        fd == match d.end {
            PipeEnd::ReadEnd => links@[d.link as int].read_fd,
            PipeEnd::WriteEnd => links@[d.link as int].write_fd,
        },
{
    match d.end {
        PipeEnd::ReadEnd => links[d.link].read_fd,
        PipeEnd::WriteEnd => links[d.link].write_fd,
    }
}

/// Performs, in the child of stage `i` of `n`, the descriptor steps
/// of `spec_child_steps`: duplications onto the standard slots, then
/// the closes of the inherited originals, in that order.  The first
/// failing duplication or close stops the sequence and is reported as
/// a `DescriptorWireError` carrying the OS errno; such a failure is
/// fatal to this child only.  The child of a single-stage pipeline
/// has no step to perform, so nothing can fail there.
pub fn apply_child_wiring(i: usize, n: usize, links: &Vec<PipeLink>) -> (r: Result<
    (),
    PipelineError,
>)
    requires
        i < n,
        i > 0 ==> i - 1 < links@.len(),
        i < n - 1 ==> i < links@.len(),
    ensures
        n == 1 ==> r is Ok,
        r matches Err(e) ==> e is DescriptorWireError,
{
    let steps = child_fd_steps(i, n);
    proof {
        assert forall|k: int| 0 <= k < steps@.len() implies spec_step_desc(steps@[k]).link
            < links@.len() by {
            assert(steps@[k] == spec_child_steps(i as int, n as int)[k]);
        }
    }
    let mut k: usize = 0;
    while k < steps.len()
        invariant
            k <= steps@.len(),
            n == 1 ==> steps@.len() == 0,
            forall|kk: int|
                0 <= kk < steps@.len() ==> (#[trigger] spec_step_desc(steps@[kk])).link
                    < links@.len(),
        decreases steps@.len() - k,
    {
        let step = steps[k];
        assert(spec_step_desc(steps@[k as int]).link < links@.len());
        let outcome: Result<(), i32> = match step {
            FdStep::DupToStdin { src } => {
                match sys_dup2(link_fd(links, src), STDIN_FD) {
                    Ok(_) => Ok(()),
                    Err(e) => Err(e),
                }
            },
            FdStep::DupToStdout { src } => {
                match sys_dup2(link_fd(links, src), STDOUT_FD) {
                    Ok(_) => Ok(()),
                    Err(e) => Err(e),
                }
            },
            FdStep::CloseDesc { target } => sys_close(link_fd(links, target)),
        };
        if let Err(errno) = outcome {
            return Err(PipelineError::DescriptorWireError { errno });
        }
        k = k + 1;
    }
    Ok(())
}

} // verus!
