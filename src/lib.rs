//! Kernel system call dispatch: the routing table from operation ids to
//! typed requests, and the conversion of results into the signed return code
//! that user mode receives.

mod dispatch;
mod error;

pub use error::{encode_result, SysError, SysResult};
pub use dispatch::{syscall, thread_id_reply, Call, Dispatch};
