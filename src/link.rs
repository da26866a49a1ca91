use vstd::prelude::*;

use crate::error::{ProgramError, Syscall};
use crate::extension::{
    step, Extension, LoadAction, LoadEvent, LoadPhase, ProgramData, BPF_PROG_TYPE_EXT,
};

verus! {

/// The attach type that the kernel asks of an extension's link. The field is
/// otherwise ignored for this program type, but it must hold this value
/// (`BPF_CGROUP_INET_INGRESS`).
pub const BPF_CGROUP_INET_INGRESS: u32 = 0;

/// The arguments of the kernel's link-create call that attaches an extension.
#[derive(Debug, Clone, Copy, PartialEq, Eq, Structural)]
pub struct LinkRequest {
    /// The extension's own descriptor.
    pub prog_fd: i32,
    /// The descriptor of the program whose function is replaced.
    pub target_fd: i32,
    /// The attach type; always [`BPF_CGROUP_INET_INGRESS`].
    pub attach_type: u32,
    /// The BTF type id of the replaced function.
    pub btf_id: Option<u32>,
    /// The link flags; always zero.
    pub flags: u32,
}

/// The link request for a program with `data`, or `NotLoaded` where its own
/// descriptor, its target or the target function's type id is missing.
pub open spec fn link_request(data: ProgramData) -> Result<LinkRequest, ProgramError> {
    match (data.fd, data.attach_prog_fd, data.attach_btf_id) {
        (Some(prog_fd), Some(target_fd), Some(btf_id)) => Ok(
            LinkRequest {
                prog_fd,
                target_fd,
                attach_type: BPF_CGROUP_INET_INGRESS,
                btf_id: Some(btf_id),
                flags: 0,
            },
        ),
        _ => Err(ProgramError::NotLoaded),
    }
}

/// A link held by its descriptor. Detaching it (closing the descriptor) is
/// what undoes the attachment.
#[derive(Debug)]
pub struct FdLink {
    fd: Option<i32>,
}

impl View for FdLink {
    type V = Option<i32>;

    /// The link descriptor that is still to be closed, if any.
    closed spec fn view(&self) -> Option<i32> {
        self.fd
    }
}

/// A link after a detach, and the descriptor that the detach hands out to close.
pub open spec fn detached(link: Option<i32>) -> (Option<i32>, Option<i32>) {
    (None, link)
}

impl FdLink {
    /// Takes the link descriptor out, for the caller to close: the first call
    /// hands it out, every later one hands out nothing.
    pub fn detach(&mut self) -> (r: Option<i32>)
        ensures
            (final(self)@, r) == detached(old(self)@),
    {
        let fd = self.fd;
        self.fd = None;
        fd
    }

    /// The link descriptor, while the link is attached.
    pub fn fd(&self) -> (r: Option<i32>)
        ensures
            r == self@,
    {
        self.fd
    }
}

/// The link from the result of the link-create call: its descriptor, or the OS
/// error number of the call's failure.
pub fn link_created(created: Result<i32, i32>) -> (r: Result<FdLink, ProgramError>)
    ensures
        created is Ok ==> r is Ok && r->Ok_0@ == Some(created->Ok_0),
        created is Err ==> r == Err::<FdLink, ProgramError>(
            ProgramError::SyscallError { call: Syscall::LinkCreate, io_error: created->Err_0 },
        ),
{
    match created {
        Ok(fd) => Ok(FdLink { fd: Some(fd) }),
        Err(io_error) => Err(ProgramError::SyscallError { call: Syscall::LinkCreate, io_error }),
    }
}

/// Attaching needs all three of the program's own descriptor, its target and
/// the target function's type id: without any one of them it fails with `NotLoaded`.
pub proof fn lemma_attach_needs_load(data: ProgramData)
    requires
        data.fd is None || data.attach_prog_fd is None || data.attach_btf_id is None,
    ensures
        link_request(data) == Err::<LinkRequest, ProgramError>(ProgramError::NotLoaded),
{
}

/// After the function's type id is found and the program loads, the link is
/// requested with the fixed attach type, that very type id, the target and
/// the program's new descriptor.
pub proof fn lemma_attach_uses_resolved_id(
    e: Extension,
    prog_fd: i32,
    btf_obj_id: u32,
    btf_fd: i32,
    btf_id: u32,
    fd: i32,
)
    requires
        e.phase == (LoadPhase::FindFunc { prog_fd, btf_obj_id, btf_fd }),
    ensures
        step(e, LoadEvent::FuncFound(Ok(btf_id))).1 == (LoadAction::LoadProgram {
            release_btf_fd: btf_fd,
            prog_type: BPF_PROG_TYPE_EXT,
        }),
        step(step(e, LoadEvent::FuncFound(Ok(btf_id))).0, LoadEvent::Loaded(Ok(fd))).1 == (
        LoadAction::Done { release_btf_fd: None, result: Ok(()) }),
        link_request(
            step(step(e, LoadEvent::FuncFound(Ok(btf_id))).0, LoadEvent::Loaded(Ok(fd))).0.data,
        ) == Ok::<LinkRequest, ProgramError>(
            LinkRequest {
                prog_fd: fd,
                target_fd: prog_fd,
                attach_type: BPF_CGROUP_INET_INGRESS,
                btf_id: Some(btf_id),
                flags: 0,
            },
        ),
{
}

/// A link's descriptor is handed out for closing exactly once: by the first
/// detach, and by no later one.
pub proof fn lemma_detach_once(link: Option<i32>)
    ensures
        detached(link).1 == link,
        detached(detached(link).0).1 is None,
{
}


impl Extension {
    /// Attaches the extension, replacing the target function: returns the
    /// arguments of the link-create call to make, whose result goes to
    /// [`link_created`]. Detaching the link restores the original function.
    pub fn attach(&mut self) -> (r: Result<LinkRequest, ProgramError>)
        ensures
            *final(self) == *old(self),
            r == link_request(old(self).data),
    {
        let prog_fd = match self.data.fd {
            Some(fd) => fd,
            None => return Err(ProgramError::NotLoaded),
        };
        let target_fd = match self.data.attach_prog_fd {
            Some(fd) => fd,
            None => return Err(ProgramError::NotLoaded),
        };
        let btf_id = match self.data.attach_btf_id {
            Some(id) => id,
            None => return Err(ProgramError::NotLoaded),
        };
        Ok(
            LinkRequest {
                prog_fd,
                target_fd,
                attach_type: BPF_CGROUP_INET_INGRESS,
                btf_id: Some(btf_id),
                flags: 0,
            },
        )
    }
}

} // verus!
