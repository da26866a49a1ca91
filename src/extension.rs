use vstd::prelude::*;

use crate::error::{BtfError, ExtensionError, ProgramError, Syscall};

verus! {

/// The kernel's program type of an extension (`BPF_PROG_TYPE_EXT`).
pub const BPF_PROG_TYPE_EXT: u32 = 28;

/// The size of the buffer that the target's BTF blob is first read into.
pub const INITIAL_BTF_BUF_LEN: usize = 4096;

/// `ENOSPC`: reported when the BTF blob grew past the buffer between the two reads.
pub const ENOSPC: i32 = 28;

/// What a program keeps of its load: its own descriptor, and the target that
/// an extension replaces a function of.
#[derive(Debug, Clone, Copy, PartialEq, Eq, Structural)]
pub struct ProgramData {
    /// The program's own descriptor, once the kernel has loaded it.
    pub fd: Option<i32>,
    /// The id of the target's BTF object.
    pub attach_btf_obj_id: Option<u32>,
    /// The descriptor of the target program.
    pub attach_prog_fd: Option<i32>,
    /// The BTF type id of the function that is replaced.
    pub attach_btf_id: Option<u32>,
}

impl ProgramData {
    /// Data of a program that nothing has been done with.
    pub fn new() -> (r: ProgramData)
        ensures
            r == ProgramData::empty(),
    {
        ProgramData { fd: None, attach_btf_obj_id: None, attach_prog_fd: None, attach_btf_id: None }
    }

    pub open spec fn empty() -> ProgramData {
        ProgramData { fd: None, attach_btf_obj_id: None, attach_prog_fd: None, attach_btf_id: None }
    }
}

/// How far a load has got: which kernel call's result is awaited, and what
/// has been learnt so far.
#[derive(Debug, Clone)]
pub enum LoadPhase {
    /// No load is under way.
    Idle,
    /// The target program's info record is awaited.
    ProgInfo { prog_fd: i32, func_name: String },
    /// A descriptor for the target's BTF object is awaited.
    OpenBtf { prog_fd: i32, func_name: String, btf_obj_id: u32 },
    /// The size of the BTF blob, read into a buffer of `buf_len` bytes, is awaited;
    /// `regrown` tells whether the buffer was already grown once.
    BtfInfo {
        prog_fd: i32,
        func_name: String,
        btf_obj_id: u32,
        btf_fd: i32,
        buf_len: usize,
        regrown: bool,
    },
    /// The type id of the function, looked up in the parsed blob, is awaited.
    FindFunc { prog_fd: i32, btf_obj_id: u32, btf_fd: i32 },
    /// The result of the program load is awaited.
    Loading,
}

/// The result of the kernel call or lookup that a [`LoadAction`] asked for.
#[derive(Debug)]
pub enum LoadEvent {
    /// The target's info record: the id of its BTF object, or an OS error number.
    ProgInfo(Result<u32, i32>),
    /// A descriptor for the BTF object, or an OS error number.
    BtfOpened(Result<i32, i32>),
    /// The size of the BTF blob that the kernel reported, or an OS error number.
    BtfInfo(Result<u32, i32>),
    /// The BTF type id of the function, or the parser's error.
    FuncFound(Result<u32, BtfError>),
    /// The loaded program's descriptor, or the loader's error.
    Loaded(Result<i32, ProgramError>),
}

/// What the caller is to do next in a load.
#[derive(Debug)]
pub enum LoadAction {
    /// Query the info record of the program `prog_fd`.
    GetProgInfo { prog_fd: i32 },
    /// Open a descriptor for the BTF object `btf_obj_id`.
    OpenBtf { btf_obj_id: u32 },
    /// Read the BTF object `btf_fd` into a zeroed buffer of `buf_len` bytes,
    /// keeping the buffer, and report the blob's size.
    GetBtfInfo { btf_fd: i32, buf_len: usize },
    /// Parse the first `len` bytes of the buffer as BTF and look up the
    /// function `func_name` in it.
    FindFunc { btf_fd: i32, len: usize, func_name: String },
    /// Close `release_btf_fd`, then load the program with type `prog_type`
    /// and the target in [`Extension::data`].
    LoadProgram { release_btf_fd: i32, prog_type: u32 },
    /// The load is over: close `release_btf_fd` if there is one and report `result`.
    Done { release_btf_fd: Option<i32>, result: Result<(), ProgramError> },
}

/// A program used to extend existing BPF programs: once loaded it can
/// replace a global function of a program that is already loaded.
#[derive(Debug)]
pub struct Extension {
    pub data: ProgramData,
    pub phase: LoadPhase,
}

pub open spec fn syscall_error(call: Syscall, io_error: i32) -> ProgramError {
    ProgramError::SyscallError { call, io_error }
}

pub open spec fn finish(
    e: Extension,
    release_btf_fd: Option<i32>,
    result: Result<(), ProgramError>,
) -> (Extension, LoadAction) {
    (
        Extension { data: e.data, phase: LoadPhase::Idle },
        LoadAction::Done { release_btf_fd, result },
    )
}

pub open spec fn enter(e: Extension, phase: LoadPhase, action: LoadAction) -> (Extension, LoadAction) {
    (Extension { data: e.data, phase }, action)
}

/// Whether `ev` is the result that `phase` awaits.
pub open spec fn awaits(phase: LoadPhase, ev: LoadEvent) -> bool {
    match phase {
        LoadPhase::Idle => false,
        LoadPhase::ProgInfo { .. } => ev is ProgInfo,
        LoadPhase::OpenBtf { .. } => ev is BtfOpened,
        LoadPhase::BtfInfo { .. } => ev is BtfInfo,
        LoadPhase::FindFunc { .. } => ev is FuncFound,
        LoadPhase::Loading => ev is Loaded,
    }
}

/// The state the load reaches once the BTF blob of `size` bytes has been
/// read whole, and the lookup it then asks for.
pub open spec fn blob_read(
    e: Extension,
    prog_fd: i32,
    func_name: String,
    btf_obj_id: u32,
    btf_fd: i32,
    size: u32,
) -> (Extension, LoadAction) {
    enter(
        e,
        LoadPhase::FindFunc { prog_fd, btf_obj_id, btf_fd },
        LoadAction::FindFunc { btf_fd, len: size as usize, func_name },
    )
}

/// One step of a load: the state after `ev`, and what to do next. Only an
/// event that the phase awaits is handed in (see [`awaits`]); any other leaves
/// the extension as it was.
pub open spec fn step(e: Extension, ev: LoadEvent) -> (Extension, LoadAction) {
    match e.phase {
        LoadPhase::ProgInfo { prog_fd, func_name } => match ev {
            LoadEvent::ProgInfo(Err(errno)) => finish(
                e,
                None,
                Err(syscall_error(Syscall::ObjGetInfoByFd, errno)),
            ),
            LoadEvent::ProgInfo(Ok(btf_obj_id)) => if btf_obj_id == 0 {
                finish(e, None, Err(ProgramError::ExtensionError(ExtensionError::NoBTF)))
            } else {
                enter(
                    e,
                    LoadPhase::OpenBtf { prog_fd, func_name, btf_obj_id },
                    LoadAction::OpenBtf { btf_obj_id },
                )
            },
            _ => (e, LoadAction::Done { release_btf_fd: None, result: Ok(()) }),
        },
        LoadPhase::OpenBtf { prog_fd, func_name, btf_obj_id } => match ev {
            LoadEvent::BtfOpened(Err(errno)) => finish(
                e,
                None,
                Err(syscall_error(Syscall::BtfGetFdById, errno)),
            ),
            LoadEvent::BtfOpened(Ok(btf_fd)) => enter(
                e,
                LoadPhase::BtfInfo {
                    prog_fd,
                    func_name,
                    btf_obj_id,
                    btf_fd,
                    buf_len: INITIAL_BTF_BUF_LEN,
                    regrown: false,
                },
                LoadAction::GetBtfInfo { btf_fd, buf_len: INITIAL_BTF_BUF_LEN },
            ),
            _ => (e, LoadAction::Done { release_btf_fd: None, result: Ok(()) }),
        },
        LoadPhase::BtfInfo { prog_fd, func_name, btf_obj_id, btf_fd, buf_len, regrown } => match ev {
            LoadEvent::BtfInfo(Err(errno)) => finish(
                e,
                Some(btf_fd),
                Err(syscall_error(Syscall::ObjGetInfoByFd, errno)),
            ),
            LoadEvent::BtfInfo(Ok(size)) => if size as int <= buf_len as int {
                blob_read(e, prog_fd, func_name, btf_obj_id, btf_fd, size)
            } else if !regrown {
                enter(
                    e,
                    LoadPhase::BtfInfo {
                        prog_fd,
                        func_name,
                        btf_obj_id,
                        btf_fd,
                        buf_len: size as usize,
                        regrown: true,
                    },
                    LoadAction::GetBtfInfo { btf_fd, buf_len: size as usize },
                )
            } else {
                finish(e, Some(btf_fd), Err(syscall_error(Syscall::ObjGetInfoByFd, ENOSPC)))
            },
            _ => (e, LoadAction::Done { release_btf_fd: None, result: Ok(()) }),
        },
        LoadPhase::FindFunc { prog_fd, btf_obj_id, btf_fd } => match ev {
            LoadEvent::FuncFound(Err(btf_error)) => finish(
                e,
                Some(btf_fd),
                Err(ProgramError::Btf(btf_error)),
            ),
            LoadEvent::FuncFound(Ok(btf_id)) => (
                Extension {
                    data: ProgramData {
                        attach_btf_obj_id: Some(btf_obj_id),
                        attach_prog_fd: Some(prog_fd),
                        attach_btf_id: Some(btf_id),
                        ..e.data
                    },
                    phase: LoadPhase::Loading,
                },
                LoadAction::LoadProgram { release_btf_fd: btf_fd, prog_type: BPF_PROG_TYPE_EXT },
            ),
            _ => (e, LoadAction::Done { release_btf_fd: None, result: Ok(()) }),
        },
        LoadPhase::Loading => match ev {
            LoadEvent::Loaded(Err(err)) => finish(e, None, Err(err)),
            LoadEvent::Loaded(Ok(fd)) => (
                Extension { data: ProgramData { fd: Some(fd), ..e.data }, phase: LoadPhase::Idle },
                LoadAction::Done { release_btf_fd: None, result: Ok(()) },
            ),
            _ => (e, LoadAction::Done { release_btf_fd: None, result: Ok(()) }),
        },
        LoadPhase::Idle => (e, LoadAction::Done { release_btf_fd: None, result: Ok(()) }),
    }
}

/// A target without BTF ends the load at its first answer: the error is
/// `NoBTF`, no BTF descriptor was opened, and no further kernel call is asked for.
pub proof fn lemma_no_btf_ends_load(e: Extension, prog_fd: i32, func_name: String)
    requires
        e.phase == (LoadPhase::ProgInfo { prog_fd, func_name }),
    ensures
        step(e, LoadEvent::ProgInfo(Ok(0))) == (
            Extension { data: e.data, phase: LoadPhase::Idle },
            LoadAction::Done {
                release_btf_fd: None,
                result: Err(ProgramError::ExtensionError(ExtensionError::NoBTF)),
            },
        ),
{
}

/// A BTF blob larger than the first buffer makes the buffer grow once, to the
/// reported size; once the blob is read again the load stands where it would
/// have stood had the blob fitted at once, and no second growth is ever asked for.
pub proof fn lemma_regrow_once(
    e: Extension,
    prog_fd: i32,
    func_name: String,
    btf_obj_id: u32,
    btf_fd: i32,
    size: u32,
    later: u32,
)
    requires
        e.phase == (LoadPhase::BtfInfo {
            prog_fd,
            func_name,
            btf_obj_id,
            btf_fd,
            buf_len: INITIAL_BTF_BUF_LEN,
            regrown: false,
        }),
        size > INITIAL_BTF_BUF_LEN,
    ensures
        step(e, LoadEvent::BtfInfo(Ok(size))).1 == (LoadAction::GetBtfInfo {
            btf_fd,
            buf_len: size as usize,
        }),
        step(step(e, LoadEvent::BtfInfo(Ok(size))).0, LoadEvent::BtfInfo(Ok(size))) == blob_read(
            e,
            prog_fd,
            func_name,
            btf_obj_id,
            btf_fd,
            size,
        ),
        !(step(step(e, LoadEvent::BtfInfo(Ok(size))).0, LoadEvent::BtfInfo(Ok(later))).1 is GetBtfInfo),
{
}

/// A BTF blob that fits the first buffer is read once.
pub proof fn lemma_blob_fits(
    e: Extension,
    prog_fd: i32,
    func_name: String,
    btf_obj_id: u32,
    btf_fd: i32,
    size: u32,
)
    requires
        e.phase == (LoadPhase::BtfInfo {
            prog_fd,
            func_name,
            btf_obj_id,
            btf_fd,
            buf_len: INITIAL_BTF_BUF_LEN,
            regrown: false,
        }),
        size <= INITIAL_BTF_BUF_LEN,
    ensures
        step(e, LoadEvent::BtfInfo(Ok(size))) == blob_read(e, prog_fd, func_name, btf_obj_id, btf_fd, size),
{
}

/// A step gives the program a descriptor of its own only by ending the load
/// with success; a load that fails leaves a program that had none without one.
pub proof fn lemma_failed_load_stays_unloaded(e: Extension, ev: LoadEvent)
    requires
        awaits(e.phase, ev),
        e.data.fd is None,
        !(step(e, ev).1 == (LoadAction::Done { release_btf_fd: None, result: Ok(()) })),
    ensures
        step(e, ev).0.data.fd is None,
{
}

impl Extension {
    /// An extension that is neither loaded nor loading.
    pub fn new() -> (r: Extension)
        ensures
            r.data == ProgramData::empty(),
            r.phase is Idle,
    {
        Extension { data: ProgramData::new(), phase: LoadPhase::Idle }
    }

    /// What the program keeps of its load.
    pub fn data(&self) -> (r: &ProgramData)
        ensures
            *r == self.data,
    {
        &self.data
    }

    /// Whether a load was begun and has not yet ended.
    pub fn is_loading(&self) -> (r: bool)
        ensures
            r == !(self.phase is Idle),
    {
        !matches!(self.phase, LoadPhase::Idle)
    }

    /// Whether `ev` is the result that the load under way awaits.
    pub fn awaits(&self, ev: &LoadEvent) -> (r: bool)
        ensures
            r == awaits(self.phase, *ev),
    {
        match self.phase {
            LoadPhase::Idle => false,
            LoadPhase::ProgInfo { .. } => matches!(ev, LoadEvent::ProgInfo(_)),
            LoadPhase::OpenBtf { .. } => matches!(ev, LoadEvent::BtfOpened(_)),
            LoadPhase::BtfInfo { .. } => matches!(ev, LoadEvent::BtfInfo(_)),
            LoadPhase::FindFunc { .. } => matches!(ev, LoadEvent::FuncFound(_)),
            LoadPhase::Loading => matches!(ev, LoadEvent::Loaded(_)),
        }
    }

    /// Begins loading the extension so that it replaces the function
    /// `func_name` of the program whose descriptor is `program`. Both must
    /// have their BTF loaded into the kernel. The first thing to do is to
    /// query the target's info record; each result is then handed to
    /// [`Extension::resume_load`].
    pub fn load(&mut self, program: i32, func_name: &str) -> (r: LoadAction)
        requires
            old(self).phase is Idle,
        ensures
            final(self).data == old(self).data,
            final(self).phase is ProgInfo,
            final(self).phase->ProgInfo_prog_fd == program,
            final(self).phase->ProgInfo_func_name@ == func_name@,
            r == (LoadAction::GetProgInfo { prog_fd: program }),
    {
        self.phase = LoadPhase::ProgInfo { prog_fd: program, func_name: func_name.to_owned() };
        LoadAction::GetProgInfo { prog_fd: program }
    }
    /// Hands the load the result of the call that the last action asked for,
    /// and returns what to do next. A [`LoadAction::Done`] ends the load.
    pub fn resume_load(&mut self, ev: LoadEvent) -> (r: LoadAction)
        requires
            awaits(old(self).phase, ev),
        ensures
            (*final(self), r) == step(*old(self), ev),
    {
        let mut phase = LoadPhase::Idle;
        std::mem::swap(&mut phase, &mut self.phase);
        match phase {
            LoadPhase::ProgInfo { prog_fd, func_name } => match ev {
                LoadEvent::ProgInfo(Err(errno)) => LoadAction::Done {
                    release_btf_fd: None,
                    result: Err(ProgramError::SyscallError { call: Syscall::ObjGetInfoByFd, io_error: errno }),
                },
                LoadEvent::ProgInfo(Ok(btf_obj_id)) => {
                    if btf_obj_id == 0 {
                        LoadAction::Done {
                            release_btf_fd: None,
                            result: Err(ProgramError::ExtensionError(ExtensionError::NoBTF)),
                        }
                    } else {
                        self.phase = LoadPhase::OpenBtf { prog_fd, func_name, btf_obj_id };
                        LoadAction::OpenBtf { btf_obj_id }
                    }
                },
                _ => LoadAction::Done { release_btf_fd: None, result: Ok(()) },
            },
            LoadPhase::OpenBtf { prog_fd, func_name, btf_obj_id } => match ev {
                LoadEvent::BtfOpened(Err(errno)) => LoadAction::Done {
                    release_btf_fd: None,
                    result: Err(ProgramError::SyscallError { call: Syscall::BtfGetFdById, io_error: errno }),
                },
                LoadEvent::BtfOpened(Ok(btf_fd)) => {
                    self.phase = LoadPhase::BtfInfo {
                        prog_fd,
                        func_name,
                        btf_obj_id,
                        btf_fd,
                        buf_len: INITIAL_BTF_BUF_LEN,
                        regrown: false,
                    };
                    LoadAction::GetBtfInfo { btf_fd, buf_len: INITIAL_BTF_BUF_LEN }
                },
                _ => LoadAction::Done { release_btf_fd: None, result: Ok(()) },
            },
            LoadPhase::BtfInfo { prog_fd, func_name, btf_obj_id, btf_fd, buf_len, regrown } => match ev {
                LoadEvent::BtfInfo(Err(errno)) => LoadAction::Done {
                    release_btf_fd: Some(btf_fd),
                    result: Err(ProgramError::SyscallError { call: Syscall::ObjGetInfoByFd, io_error: errno }),
                },
                LoadEvent::BtfInfo(Ok(size)) => {
                    if size as usize <= buf_len {
                        self.phase = LoadPhase::FindFunc { prog_fd, btf_obj_id, btf_fd };
                        LoadAction::FindFunc { btf_fd, len: size as usize, func_name }
                    } else if !regrown {
                        self.phase = LoadPhase::BtfInfo {
                            prog_fd,
                            func_name,
                            btf_obj_id,
                            btf_fd,
                            buf_len: size as usize,
                            regrown: true,
                        };
                        LoadAction::GetBtfInfo { btf_fd, buf_len: size as usize }
                    } else {
                        LoadAction::Done {
                            release_btf_fd: Some(btf_fd),
                            result: Err(ProgramError::SyscallError { call: Syscall::ObjGetInfoByFd, io_error: ENOSPC }),
                        }
                    }
                },
                _ => LoadAction::Done { release_btf_fd: None, result: Ok(()) },
            },
            LoadPhase::FindFunc { prog_fd, btf_obj_id, btf_fd } => match ev {
                LoadEvent::FuncFound(Err(btf_error)) => LoadAction::Done {
                    release_btf_fd: Some(btf_fd),
                    result: Err(ProgramError::Btf(btf_error)),
                },
                LoadEvent::FuncFound(Ok(btf_id)) => {
                    self.data.attach_btf_obj_id = Some(btf_obj_id);
                    self.data.attach_prog_fd = Some(prog_fd);
                    self.data.attach_btf_id = Some(btf_id);
                    self.phase = LoadPhase::Loading;
                    LoadAction::LoadProgram { release_btf_fd: btf_fd, prog_type: BPF_PROG_TYPE_EXT }
                },
                _ => LoadAction::Done { release_btf_fd: None, result: Ok(()) },
            },
            LoadPhase::Loading => match ev {
                LoadEvent::Loaded(Err(err)) => LoadAction::Done { release_btf_fd: None, result: Err(err) },
                LoadEvent::Loaded(Ok(fd)) => {
                    self.data.fd = Some(fd);
                    LoadAction::Done { release_btf_fd: None, result: Ok(()) }
                },
                _ => LoadAction::Done { release_btf_fd: None, result: Ok(()) },
            },
            LoadPhase::Idle => LoadAction::Done { release_btf_fd: None, result: Ok(()) },
        }
    }
}

} // verus!
