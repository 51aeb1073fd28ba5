//! Safety layer for linking Rust code into an RT-Thread kernel: argument
//! marshalling for C-ABI entry points, the registration plan of the entry-point
//! generator, and the decision logic of the kernel object wrappers, the
//! allocator adapter and the dynamic module loader.
use vstd::prelude::*;

pub mod bytes;
pub mod entry;
pub mod libdl;
pub mod logging;
pub mod malloc;
pub mod mutex;
pub mod param;
pub mod queue;
pub mod sem;
pub mod thread;
pub mod time;

verus! {

/// Error kinds surfaced by the kernel object wrappers.
#[derive(Debug, Clone, Copy, PartialEq, Eq, Structural)]
pub enum RTTError {
    ThreadStartupErr,
    MutexTakeTimeout,
    SemaphoreTakeTimeout,
    QueueSendTimeout,
    QueueReceiveTimeout,
    OutOfMemory,
    DeviceNotFound,
    DeviceOpenFailed,
    DeviceCloseFailed,
    DeviceReadFailed,
    DeviceWriteFailed,
    DeviceTransFailed,
    DeviceConfigFailed,
    DeviceSetRxCallBackFailed,
    DeviceSetTxCallBackFailed,
    FuncUnDefine,
}

/// Result of a wrapper operation.
pub type RTResult<T> = Result<T, RTTError>;

} // verus!
