use vstd::prelude::*;

verus! {

/// The type returned when loading or attaching an extension fails.
#[derive(Debug, Clone, Copy, PartialEq, Eq, Structural)]
pub enum ExtensionError {
    /// The target BPF program does not have BTF loaded to the kernel.
    NoBTF,
}

/// A kernel operation whose failure is reported.
#[derive(Debug, Clone, Copy, PartialEq, Eq, Structural)]
pub enum Syscall {
    /// Query the info record of a BPF object by descriptor.
    ObjGetInfoByFd,
    /// Open a descriptor for a BTF object by its id.
    BtfGetFdById,
    /// Create a link between two programs.
    LinkCreate,
}

impl Syscall {
    /// The name of the kernel operation.
    pub fn name(&self) -> (r: &'static str)
        ensures
            r@ == self.name_spec(),
    {
        match self {
            Syscall::ObjGetInfoByFd => "bpf_obj_get_info_by_fd",
            Syscall::BtfGetFdById => "bpf_btf_get_fd_by_id",
            Syscall::LinkCreate => "bpf_link_create",
        }
    }

    pub open spec fn name_spec(&self) -> Seq<char> {
        match self {
            Syscall::ObjGetInfoByFd => "bpf_obj_get_info_by_fd"@,
            Syscall::BtfGetFdById => "bpf_btf_get_fd_by_id"@,
            Syscall::LinkCreate => "bpf_link_create"@,
        }
    }
}

/// A failure of the BTF parser, passed on as the parser reported it.
#[derive(Debug, Clone)]
pub enum BtfError {
    /// No type of the requested name and kind is in the blob.
    UnknownBtfTypeName { name: String },
    /// The blob could not be parsed.
    Invalid { message: String },
}

/// The errors of loading or attaching a program.
#[derive(Debug, Clone)]
pub enum ProgramError {
    /// The program is not loaded.
    NotLoaded,
    /// A kernel call failed; `io_error` is the OS error number.
    SyscallError { call: Syscall, io_error: i32 },
    /// The kernel refused to load the program.
    LoadError { io_error: i32, verifier_log: String },
    /// An extension-specific error.
    ExtensionError(ExtensionError),
    /// The target's BTF could not be parsed or searched.
    Btf(BtfError),
}

} // verus!
