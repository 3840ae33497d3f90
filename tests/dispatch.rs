use syscall_dispatch::{encode_result, syscall, thread_id_reply, Call, Dispatch, SysError};

const ARGS: [usize; 6] = [11, 22, 33, 44, 55, 66];

fn run(d: Dispatch, handler: impl Fn(Call) -> Result<isize, SysError>) -> isize {
    match d {
        Dispatch::Invoke(c) => encode_result(handler(c)),
        Dispatch::Reply(r) => encode_result(r),
        Dispatch::ThreadId => encode_result(thread_id_reply(3)),
        Dispatch::Fault { .. } => panic!("fault path reached"),
    }
}

#[test]
fn getpid_returns_process_id() {
    let d = syscall(39, [0, 0, 0, 0, 0, 0]);
    assert_eq!(d, Dispatch::Invoke(Call::Getpid));
    let ret = run(d, |c| match c {
        Call::Getpid => Ok(7),
        _ => Err(SysError::Unimp),
    });
    assert_eq!(ret, 7);
}

#[test]
fn open_of_missing_path_returns_negated_noent() {
    let d = syscall(2, [0xdead_0000, 0, 0, 0, 0, 0]);
    assert_eq!(d, Dispatch::Invoke(Call::Open { path: 0xdead_0000, flags: 0, mode: 0 }));
    let ret = run(d, |_| Err(SysError::Noent));
    assert_eq!(ret, -16);
}

#[test]
fn unmapped_id_goes_to_fault_path_with_its_arguments() {
    assert_eq!(syscall(9999, ARGS), Dispatch::Fault { id: 9999, args: ARGS });
}

#[test]
fn reserved_ids_fault_like_unknown_ones() {
    for id in [6usize, 7, 10, 21, 34, 40, 42, 56, 72, 79, 97, 133, 162, 169, 230, 232, 293] {
        assert_eq!(syscall(id, ARGS), Dispatch::Fault { id, args: ARGS });
    }
}

#[test]
fn zero_stubs_answer_zero_whatever_the_arguments() {
    for id in [12usize, 13, 14, 16, 102, 107, 108, 131] {
        for args in [ARGS, [0; 6], [usize::MAX; 6]] {
            let d = syscall(id, args);
            assert_eq!(d, Dispatch::Reply(Ok(0)));
            assert_eq!(run(d, |_| Err(SysError::Unspcified)), 0);
        }
    }
}

#[test]
fn thread_id_probe_answers_thread_id() {
    assert_eq!(syscall(218, ARGS), Dispatch::ThreadId);
    assert_eq!(thread_id_reply(42), Ok(42));
    assert_eq!(encode_result(thread_id_reply(42)), 42);
    assert_eq!(thread_id_reply(42), thread_id_reply(42));
}

#[test]
fn exit_group_runs_exit() {
    let args = [5usize, 9, 9, 9, 9, 9];
    assert_eq!(syscall(231, args), syscall(60, args));
    assert_eq!(syscall(60, args), Dispatch::Invoke(Call::Exit { code: 5 }));
    assert_eq!(syscall(231, [usize::MAX, 0, 0, 0, 0, 0]), Dispatch::Invoke(Call::Exit { code: -1 }));
}

#[test]
fn handler_ids_decode_their_arguments() {
    let a = ARGS;
    let expected = [
        (0usize, Call::Read { fd: 11, buf: 22, len: 33 }),
        (1, Call::Write { fd: 11, buf: 22, len: 33 }),
        (2, Call::Open { path: 11, flags: 22, mode: 33 }),
        (3, Call::Close { fd: 11 }),
        (4, Call::Stat { path: 11, stat: 22 }),
        (5, Call::Fstat { fd: 11, stat: 22 }),
        (8, Call::Lseek { fd: 11, offset: 22, whence: 33 }),
        (9, Call::Mmap { addr: 11, len: 22, prot: 33, flags: 44, fd: 55, offset: 66 }),
        (11, Call::Munmap { addr: 11, len: 22 }),
        (19, Call::Readv { fd: 11, iov: 22, count: 33 }),
        (20, Call::Writev { fd: 11, iov: 22, count: 33 }),
        (24, Call::Yield),
        (33, Call::Dup2 { fd1: 11, fd2: 22 }),
        (35, Call::Sleep { time: 11 }),
        (39, Call::Getpid),
        (41, Call::Socket { domain: 11, socket_type: 22, protocol: 33 }),
        (57, Call::Fork),
        (59, Call::Exec { name: 11, argc: 22, argv: 33 }),
        (60, Call::Exit { code: 11 }),
        (61, Call::Wait { pid: 11, code: 22 }),
        (62, Call::Kill { pid: 11 }),
        (78, Call::GetDirEntry { fd: 11, dentry: 22 }),
        (96, Call::GetTime),
        (141, Call::SetPriority { priority: 11 }),
        (158, Call::ArchPrctl { code: 11, addr: 22 }),
    ];
    for (id, call) in expected {
        assert_eq!(syscall(id, a), Dispatch::Invoke(call), "id {}", id);
    }
}

#[test]
fn narrow_arguments_are_truncated() {
    assert_eq!(
        syscall(8, [3, usize::MAX, 0x1ff, 0, 0, 0]),
        Dispatch::Invoke(Call::Lseek { fd: 3, offset: -1, whence: 0xff })
    );
    assert_eq!(
        syscall(9, [0, 4096, 3, 0x22, usize::MAX, 0]),
        Dispatch::Invoke(Call::Mmap { addr: 0, len: 4096, prot: 3, flags: 0x22, fd: -1, offset: 0 })
    );
    assert_eq!(
        syscall(158, [0x1_0000_1002, 0x7000, 0, 0, 0, 0]),
        Dispatch::Invoke(Call::ArchPrctl { code: 0x1002, addr: 0x7000 })
    );
}

#[test]
fn handler_success_value_is_returned() {
    assert_eq!(encode_result(Ok(0)), 0);
    assert_eq!(encode_result(Ok(4096)), 4096);
    assert_eq!(encode_result(Ok(isize::MAX)), isize::MAX);
}

#[test]
fn every_error_kind_encodes_as_its_negated_identity() {
    let table = [
        (SysError::Unspcified, 1isize),
        (SysError::Inval, 3),
        (SysError::Nomem, 4),
        (SysError::Io, 5),
        (SysError::Noent, 16),
        (SysError::Isdir, 17),
        (SysError::Notdir, 18),
        (SysError::Xdev, 19),
        (SysError::Unimp, 20),
        (SysError::Exists, 23),
        (SysError::Notempty, 24),
    ];
    for (e, code) in table {
        assert_eq!(e.code(), code);
        assert_eq!(encode_result(Err(e)), -code);
        assert!(encode_result(Err(e)) < 0);
    }
}

#[test]
fn handler_failure_passes_through_unchanged() {
    let d = syscall(3, [99, 0, 0, 0, 0, 0]);
    assert_eq!(run(d, |_| Err(SysError::Inval)), -3);
    let d = syscall(0, [1, 0x1000, 16, 0, 0, 0]);
    assert_eq!(run(d, |_| Err(SysError::Isdir)), -17);
}
