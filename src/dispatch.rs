use vstd::prelude::*;

use crate::error::{spec_encode, SysResult};

verus! {

/// A request to one of the kernel's subsystem handlers, with its argument
/// words reinterpreted as that handler expects them. Fields named for a
/// buffer, path or record hold the user-space address as a plain word: the
/// handler alone decides whether the memory behind it may be used.
#[derive(Debug, Clone, Copy, PartialEq, Eq, Structural)]
pub enum Call {
    Read { fd: usize, buf: usize, len: usize },
    Write { fd: usize, buf: usize, len: usize },
    Open { path: usize, flags: usize, mode: usize },
    Close { fd: usize },
    Stat { path: usize, stat: usize },
    Fstat { fd: usize, stat: usize },
    Lseek { fd: usize, offset: i64, whence: u8 },
    Mmap { addr: usize, len: usize, prot: usize, flags: usize, fd: i32, offset: usize },
    Munmap { addr: usize, len: usize },
    Readv { fd: usize, iov: usize, count: usize },
    Writev { fd: usize, iov: usize, count: usize },
    Yield,
    Dup2 { fd1: usize, fd2: usize },
    Sleep { time: usize },
    Getpid,
    Socket { domain: usize, socket_type: usize, protocol: usize },
    /// Creates a child process; rewrites the caller's register state.
    Fork,
    /// Replaces the process image; rewrites the caller's register state.
    Exec { name: usize, argc: usize, argv: usize },
    /// Ends the calling thread with the given status; does not come back.
    Exit { code: isize },
    Wait { pid: usize, code: usize },
    Kill { pid: usize },
    GetDirEntry { fd: usize, dentry: usize },
    GetTime,
    SetPriority { priority: usize },
    /// Sets architecture-specific thread state; rewrites the caller's
    /// register state.
    ArchPrctl { code: i32, addr: usize },
}

/// What the dispatcher decided for one trap.
#[derive(Debug, Clone, Copy, PartialEq, Eq)]
pub enum Dispatch {
    /// Run the handler for this request, then encode what it returns.
    Invoke(Call),
    /// A stub answered at once; encode this result.
    Reply(SysResult),
    /// The thread-identity stub: answer with the calling thread's id.
    ThreadId,
    /// No such operation: hand the trap context to the fault path, which
    /// does not come back.
    Fault { id: usize, args: [usize; 6] },
}

/// Ids that select a real handler.
pub open spec fn is_handler_id(id: usize) -> bool {
    ||| 0 <= id <= 5
    ||| id == 8 || id == 9 || id == 11 || id == 19 || id == 20 || id == 24
    ||| id == 33 || id == 35 || id == 39 || id == 41
    ||| id == 57 || id == 59 || id == 60 || id == 61 || id == 62
    ||| id == 78 || id == 96 || id == 141 || id == 158
}

/// Ids of operations probed by the user-mode runtime but not implemented:
/// they succeed with 0 whatever the arguments.
pub open spec fn is_zero_stub_id(id: usize) -> bool {
    ||| id == 12 || id == 13 || id == 14 || id == 16
    ||| id == 102 || id == 107 || id == 108 || id == 131
}

/// The id of the thread-identity stub (set_tid_address).
pub open spec fn thread_id_probe() -> usize {
    218
}

/// The id of exit_group, which behaves exactly as exit.
pub open spec fn exit_group_id() -> usize {
    231
}

/// Ids with any entry in the table.
pub open spec fn is_mapped(id: usize) -> bool {
    is_handler_id(id) || is_zero_stub_id(id) || id == thread_id_probe() || id == exit_group_id()
}

/// The handler request that an id and its argument words stand for, if the
/// id selects a handler; exit_group selects the exit handler.
pub open spec fn call_of(id: usize, a: Seq<usize>) -> Option<Call> {
    if id == 0 {
        Some(Call::Read { fd: a[0], buf: a[1], len: a[2] })
    } else if id == 1 {
        Some(Call::Write { fd: a[0], buf: a[1], len: a[2] })
    } else if id == 2 {
        Some(Call::Open { path: a[0], flags: a[1], mode: a[2] })
    } else if id == 3 {
        Some(Call::Close { fd: a[0] })
    } else if id == 4 {
        Some(Call::Stat { path: a[0], stat: a[1] })
    } else if id == 5 {
        Some(Call::Fstat { fd: a[0], stat: a[1] })
    } else if id == 8 {
        Some(Call::Lseek { fd: a[0], offset: a[1] as i64, whence: a[2] as u8 })
    } else if id == 9 {
        Some(
            Call::Mmap {
                addr: a[0],
                len: a[1],
                prot: a[2],
                flags: a[3],
                fd: a[4] as i32,
                offset: a[5],
            },
        )
    } else if id == 11 {
        Some(Call::Munmap { addr: a[0], len: a[1] })
    } else if id == 19 {
        Some(Call::Readv { fd: a[0], iov: a[1], count: a[2] })
    } else if id == 20 {
        Some(Call::Writev { fd: a[0], iov: a[1], count: a[2] })
    } else if id == 24 {
        Some(Call::Yield)
    } else if id == 33 {
        Some(Call::Dup2 { fd1: a[0], fd2: a[1] })
    } else if id == 35 {
        Some(Call::Sleep { time: a[0] })
    } else if id == 39 {
        Some(Call::Getpid)
    } else if id == 41 {
        Some(Call::Socket { domain: a[0], socket_type: a[1], protocol: a[2] })
    } else if id == 57 {
        Some(Call::Fork)
    } else if id == 59 {
        Some(Call::Exec { name: a[0], argc: a[1], argv: a[2] })
    } else if id == 60 || id == exit_group_id() {
        Some(Call::Exit { code: a[0] as isize })
    } else if id == 61 {
        Some(Call::Wait { pid: a[0], code: a[1] })
    } else if id == 62 {
        Some(Call::Kill { pid: a[0] })
    } else if id == 78 {
        Some(Call::GetDirEntry { fd: a[0], dentry: a[1] })
    } else if id == 96 {
        Some(Call::GetTime)
    } else if id == 141 {
        Some(Call::SetPriority { priority: a[0] })
    } else if id == 158 {
        Some(Call::ArchPrctl { code: a[0] as i32, addr: a[1] })
    } else {
        None
    }
}

/// The decision for a trap with operation `id` and argument words `args`.
pub open spec fn dispatch_of(id: usize, args: [usize; 6]) -> Dispatch {
    if let Some(c) = call_of(id, args@) {
        Dispatch::Invoke(c)
    } else if is_zero_stub_id(id) {
        Dispatch::Reply(Ok(0))
    } else if id == thread_id_probe() {
        Dispatch::ThreadId
    } else {
        Dispatch::Fault { id, args }
    }
}

/// Selects what to do for a trap: which handler to run and with which
/// reinterpreted arguments, a stub's answer, or the fault path.
pub fn syscall(id: usize, args: [usize; 6]) -> (d: Dispatch)
    ensures
        d == dispatch_of(id, args),
{
    match id {
        // file
        0 => Dispatch::Invoke(Call::Read { fd: args[0], buf: args[1], len: args[2] }),
        1 => Dispatch::Invoke(Call::Write { fd: args[0], buf: args[1], len: args[2] }),
        2 => Dispatch::Invoke(Call::Open { path: args[0], flags: args[1], mode: args[2] }),
        3 => Dispatch::Invoke(Call::Close { fd: args[0] }),
        4 => Dispatch::Invoke(Call::Stat { path: args[0], stat: args[1] }),
        5 => Dispatch::Invoke(Call::Fstat { fd: args[0], stat: args[1] }),
        8 => Dispatch::Invoke(
            Call::Lseek { fd: args[0], offset: args[1] as i64, whence: args[2] as u8 },
        ),
        9 => Dispatch::Invoke(
            Call::Mmap {
                addr: args[0],
                len: args[1],
                prot: args[2],
                flags: args[3],
                fd: args[4] as i32,
                offset: args[5],
            },
        ),
        11 => Dispatch::Invoke(Call::Munmap { addr: args[0], len: args[1] }),
        19 => Dispatch::Invoke(Call::Readv { fd: args[0], iov: args[1], count: args[2] }),
        20 => Dispatch::Invoke(Call::Writev { fd: args[0], iov: args[1], count: args[2] }),
        24 => Dispatch::Invoke(Call::Yield),
        33 => Dispatch::Invoke(Call::Dup2 { fd1: args[0], fd2: args[1] }),
        35 => Dispatch::Invoke(Call::Sleep { time: args[0] }),
        39 => Dispatch::Invoke(Call::Getpid),
        41 => Dispatch::Invoke(
            Call::Socket { domain: args[0], socket_type: args[1], protocol: args[2] },
        ),
        // process
        57 => Dispatch::Invoke(Call::Fork),
        59 => Dispatch::Invoke(Call::Exec { name: args[0], argc: args[1], argv: args[2] }),
        60 => Dispatch::Invoke(Call::Exit { code: args[0] as isize }),
        61 => Dispatch::Invoke(Call::Wait { pid: args[0], code: args[1] }),
        62 => Dispatch::Invoke(Call::Kill { pid: args[0] }),
        78 => Dispatch::Invoke(Call::GetDirEntry { fd: args[0], dentry: args[1] }),
        96 => Dispatch::Invoke(Call::GetTime),
        141 => Dispatch::Invoke(Call::SetPriority { priority: args[0] }),
        158 => Dispatch::Invoke(Call::ArchPrctl { code: args[0] as i32, addr: args[1] }),
        // probed by the C runtime at startup: answer success
        12 | 13 | 14 | 16 | 102 | 107 | 108 | 131 => Dispatch::Reply(Ok(0)),
        218 => Dispatch::ThreadId,
        // exit_group ends the caller just as exit does
        231 => Dispatch::Invoke(Call::Exit { code: args[0] as isize }),
        _ => Dispatch::Fault { id, args },
    }
}

/// The result the thread-identity stub gives for the calling thread's id.
pub open spec fn thread_id_result(tid: usize) -> SysResult {
    Ok(tid as isize)
}

/// The answer of the thread-identity stub for the calling thread's id.
pub fn thread_id_reply(tid: usize) -> (r: SysResult)
    ensures
        r == thread_id_result(tid),
        tid <= isize::MAX ==> r->Ok_0 == tid,
{
    Ok(tid as isize)
}

/// Every id with a real handler routes to that handler, and a non-negative
/// success value of the handler reaches the caller unchanged.
pub proof fn lemma_handler_success(id: usize, args: [usize; 6], v: isize)
    requires
        is_handler_id(id),
        v >= 0,
    ensures
        call_of(id, args@) is Some,
        dispatch_of(id, args) == Dispatch::Invoke(call_of(id, args@)->Some_0),
        spec_encode(Ok(v)) == v,
{
}

/// Every stub other than the thread-identity probe and exit_group answers
/// 0, whatever the arguments.
pub proof fn lemma_zero_stub(id: usize, args: [usize; 6])
    requires
        is_zero_stub_id(id),
    ensures
        dispatch_of(id, args) == Dispatch::Reply(Ok(0)),
        spec_encode(Ok(0)) == 0,
{
}

/// The thread-identity probe answers with the calling thread's id, and
/// with the same value each time the same thread asks.
pub proof fn lemma_thread_id_probe(args: [usize; 6], tid: usize)
    requires
        0 < tid <= isize::MAX,
    ensures
        dispatch_of(thread_id_probe(), args) == Dispatch::ThreadId,
        spec_encode(thread_id_result(tid)) == tid,
        spec_encode(thread_id_result(tid)) > 0,
{
}

/// An id without an entry in the table, reserved ones included, goes to the
/// fault path with the id and argument words as they came; an id with an
/// entry never does.
pub proof fn lemma_unmapped_fault(id: usize, args: [usize; 6])
    ensures
        !is_mapped(id) ==> dispatch_of(id, args) == (Dispatch::Fault { id, args }),
        is_mapped(id) ==> dispatch_of(id, args) !is Fault,
{
}

/// exit_group is exit: for the same argument words both run the same
/// request.
pub proof fn lemma_exit_group_is_exit(args: [usize; 6])
    ensures
        dispatch_of(exit_group_id(), args) == dispatch_of(60, args),
        dispatch_of(60, args) == Dispatch::Invoke(Call::Exit { code: args@[0] as isize }),
{
}

} // verus!
