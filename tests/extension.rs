use aya_extension::error::{BtfError, ExtensionError, ProgramError, Syscall};
use aya_extension::extension::{
    Extension, LoadAction, LoadEvent, LoadPhase, BPF_PROG_TYPE_EXT, ENOSPC, INITIAL_BTF_BUF_LEN,
};
use aya_extension::link::{link_created, LinkRequest, BPF_CGROUP_INET_INGRESS};

const TARGET_FD: i32 = 5;
const BTF_FD: i32 = 9;

fn started() -> Extension {
    let mut ext = Extension::new();
    let action = ext.load(TARGET_FD, "handle_packet");
    assert!(matches!(action, LoadAction::GetProgInfo { prog_fd: TARGET_FD }));
    ext
}

fn resolved_through_btf_info() -> Extension {
    let mut ext = started();
    let a = ext.resume_load(LoadEvent::ProgInfo(Ok(7)));
    assert!(matches!(a, LoadAction::OpenBtf { btf_obj_id: 7 }));
    let a = ext.resume_load(LoadEvent::BtfOpened(Ok(BTF_FD)));
    assert!(matches!(a, LoadAction::GetBtfInfo { btf_fd: BTF_FD, buf_len: 4096 }));
    ext
}

#[test]
fn load_and_attach_replace_handle_packet() {
    let mut ext = resolved_through_btf_info();
    match ext.resume_load(LoadEvent::BtfInfo(Ok(1200))) {
        LoadAction::FindFunc { btf_fd, len, func_name } => {
            assert_eq!(btf_fd, BTF_FD);
            assert_eq!(len, 1200);
            assert_eq!(func_name, "handle_packet");
        }
        other => panic!("unexpected action {:?}", other),
    }
    let a = ext.resume_load(LoadEvent::FuncFound(Ok(42)));
    assert!(matches!(
        a,
        LoadAction::LoadProgram { release_btf_fd: BTF_FD, prog_type: BPF_PROG_TYPE_EXT }
    ));
    assert_eq!(ext.data().attach_btf_id, Some(42));
    assert_eq!(ext.data().attach_prog_fd, Some(TARGET_FD));
    assert_eq!(ext.data().attach_btf_obj_id, Some(7));
    let a = ext.resume_load(LoadEvent::Loaded(Ok(11)));
    assert!(matches!(a, LoadAction::Done { release_btf_fd: None, result: Ok(()) }));
    assert!(!ext.is_loading());
    assert_eq!(ext.data().fd, Some(11));

    let request = ext.attach().unwrap();
    assert_eq!(
        request,
        LinkRequest {
            prog_fd: 11,
            target_fd: TARGET_FD,
            attach_type: 0,
            btf_id: Some(42),
            flags: 0,
        }
    );
    let mut link = link_created(Ok(13)).unwrap();
    assert_eq!(link.fd(), Some(13));
    assert_eq!(link.detach(), Some(13));
    assert_eq!(link.detach(), None);
}

#[test]
fn target_without_btf_stops_at_once() {
    let mut ext = started();
    let a = ext.resume_load(LoadEvent::ProgInfo(Ok(0)));
    assert!(matches!(
        a,
        LoadAction::Done {
            release_btf_fd: None,
            result: Err(ProgramError::ExtensionError(ExtensionError::NoBTF)),
        }
    ));
    assert!(!ext.is_loading());
    assert!(!ext.awaits(&LoadEvent::BtfOpened(Ok(BTF_FD))));
    assert!(matches!(ext.attach(), Err(ProgramError::NotLoaded)));
}

#[test]
fn large_blob_grows_buffer_once() {
    let mut ext = resolved_through_btf_info();
    let a = ext.resume_load(LoadEvent::BtfInfo(Ok(10000)));
    assert!(matches!(a, LoadAction::GetBtfInfo { btf_fd: BTF_FD, buf_len: 10000 }));
    match ext.resume_load(LoadEvent::BtfInfo(Ok(10000))) {
        LoadAction::FindFunc { btf_fd, len, func_name } => {
            assert_eq!(btf_fd, BTF_FD);
            assert_eq!(len, 10000);
            assert_eq!(func_name, "handle_packet");
        }
        other => panic!("unexpected action {:?}", other),
    }
    assert!(matches!(ext.phase, LoadPhase::FindFunc { prog_fd: TARGET_FD, btf_obj_id: 7, btf_fd: BTF_FD }));
}

#[test]
fn blob_of_exactly_initial_size_is_read_once() {
    let mut ext = resolved_through_btf_info();
    let a = ext.resume_load(LoadEvent::BtfInfo(Ok(INITIAL_BTF_BUF_LEN as u32)));
    assert!(matches!(a, LoadAction::FindFunc { len: 4096, .. }));
}

#[test]
fn blob_growing_again_is_not_chased() {
    let mut ext = resolved_through_btf_info();
    let a = ext.resume_load(LoadEvent::BtfInfo(Ok(5000)));
    assert!(matches!(a, LoadAction::GetBtfInfo { buf_len: 5000, .. }));
    let a = ext.resume_load(LoadEvent::BtfInfo(Ok(6000)));
    match a {
        LoadAction::Done { release_btf_fd, result: Err(ProgramError::SyscallError { call, io_error }) } => {
            assert_eq!(release_btf_fd, Some(BTF_FD));
            assert_eq!(call, Syscall::ObjGetInfoByFd);
            assert_eq!(io_error, ENOSPC);
        }
        other => panic!("unexpected action {:?}", other),
    }
}

#[test]
fn prog_info_failure_is_reported() {
    let mut ext = started();
    let a = ext.resume_load(LoadEvent::ProgInfo(Err(1)));
    assert!(matches!(
        a,
        LoadAction::Done {
            release_btf_fd: None,
            result: Err(ProgramError::SyscallError { call: Syscall::ObjGetInfoByFd, io_error: 1 }),
        }
    ));
}

#[test]
fn btf_open_failure_is_reported() {
    let mut ext = started();
    ext.resume_load(LoadEvent::ProgInfo(Ok(7)));
    let a = ext.resume_load(LoadEvent::BtfOpened(Err(2)));
    assert!(matches!(
        a,
        LoadAction::Done {
            release_btf_fd: None,
            result: Err(ProgramError::SyscallError { call: Syscall::BtfGetFdById, io_error: 2 }),
        }
    ));
}

#[test]
fn btf_info_failure_releases_descriptor() {
    let mut ext = resolved_through_btf_info();
    let a = ext.resume_load(LoadEvent::BtfInfo(Err(22)));
    assert!(matches!(
        a,
        LoadAction::Done {
            release_btf_fd: Some(BTF_FD),
            result: Err(ProgramError::SyscallError { call: Syscall::ObjGetInfoByFd, io_error: 22 }),
        }
    ));
}

#[test]
fn unknown_function_is_reported_unchanged() {
    let mut ext = resolved_through_btf_info();
    ext.resume_load(LoadEvent::BtfInfo(Ok(100)));
    let a = ext.resume_load(LoadEvent::FuncFound(Err(BtfError::UnknownBtfTypeName {
        name: "handle_packet".to_string(),
    })));
    match a {
        LoadAction::Done { release_btf_fd, result: Err(ProgramError::Btf(BtfError::UnknownBtfTypeName { name })) } => {
            assert_eq!(release_btf_fd, Some(BTF_FD));
            assert_eq!(name, "handle_packet");
        }
        other => panic!("unexpected action {:?}", other),
    }
    assert_eq!(ext.data().attach_btf_id, None);
}

#[test]
fn loader_rejection_is_reported_unchanged() {
    let mut ext = resolved_through_btf_info();
    ext.resume_load(LoadEvent::BtfInfo(Ok(100)));
    ext.resume_load(LoadEvent::FuncFound(Ok(42)));
    let a = ext.resume_load(LoadEvent::Loaded(Err(ProgramError::LoadError {
        io_error: 13,
        verifier_log: "type mismatch".to_string(),
    })));
    match a {
        LoadAction::Done { release_btf_fd: None, result: Err(ProgramError::LoadError { io_error, verifier_log }) } => {
            assert_eq!(io_error, 13);
            assert_eq!(verifier_log, "type mismatch");
        }
        other => panic!("unexpected action {:?}", other),
    }
    assert_eq!(ext.data().fd, None);
    assert!(matches!(ext.attach(), Err(ProgramError::NotLoaded)));
}

#[test]
fn attach_before_load_is_not_loaded() {
    let mut ext = Extension::new();
    assert!(matches!(ext.attach(), Err(ProgramError::NotLoaded)));
}

#[test]
fn attach_needs_each_field() {
    for missing in 0..3 {
        let mut ext = Extension::new();
        ext.data.fd = Some(11);
        ext.data.attach_prog_fd = Some(TARGET_FD);
        ext.data.attach_btf_id = Some(42);
        match missing {
            0 => ext.data.fd = None,
            1 => ext.data.attach_prog_fd = None,
            _ => ext.data.attach_btf_id = None,
        }
        assert!(matches!(ext.attach(), Err(ProgramError::NotLoaded)));
    }
}

#[test]
fn link_create_failure_is_reported() {
    match link_created(Err(95)) {
        Err(ProgramError::SyscallError { call, io_error }) => {
            assert_eq!(call, Syscall::LinkCreate);
            assert_eq!(io_error, 95);
        }
        other => panic!("unexpected result {:?}", other),
    }
}

#[test]
fn syscall_names() {
    assert_eq!(Syscall::ObjGetInfoByFd.name(), "bpf_obj_get_info_by_fd");
    assert_eq!(Syscall::BtfGetFdById.name(), "bpf_btf_get_fd_by_id");
    assert_eq!(Syscall::LinkCreate.name(), "bpf_link_create");
    assert_eq!(BPF_CGROUP_INET_INGRESS, 0);
}

#[test]
fn link_detaches_once() {
    let mut link = link_created(Ok(21)).unwrap();
    assert_eq!(link.detach(), Some(21));
    assert_eq!(link.fd(), None);
    assert_eq!(link.detach(), None);
}
