//! Thread builder: name, stack size, priority and time slice are gathered
//! before the thread is started; a start that the kernel cannot serve fails
//! with the thread startup error.
use vstd::prelude::*;
use crate::{RTResult, RTTError};

verus! {

/// Stack size of a thread that sets none, in bytes.
pub const DEFAULT_STACK_SIZE: u32 = 4096;

/// Priority of a thread that sets none.
pub const DEFAULT_PRIORITY: u8 = 10;

/// Time slice of a thread that sets none, in ticks.
pub const DEFAULT_TICK: u32 = 10;

/// The settings of a thread still to be started.
pub struct Thread {
    name: String,
    stack_size: u32,
    priority: u8,
    tick: u32,
}

/// A started thread, by its kernel handle.
pub struct ThreadHandle {
    raw: usize,
}

impl Thread {
    /// The name the thread will carry.
    pub closed spec fn name_view(&self) -> Seq<char> {
        self.name@
    }

    /// The stack size in bytes.
    pub closed spec fn stack_size_view(&self) -> u32 {
        self.stack_size
    }

    /// The scheduling priority.
    pub closed spec fn priority_view(&self) -> u8 {
        self.priority
    }

    /// The time slice in ticks.
    pub closed spec fn tick_view(&self) -> u32 {
        self.tick
    }

    /// A builder with the default name, stack size, priority and time slice.
    pub fn new() -> (r: Thread)
        ensures
            r.name_view() == "uname"@,
            r.stack_size_view() == DEFAULT_STACK_SIZE,
            r.priority_view() == DEFAULT_PRIORITY,
            r.tick_view() == DEFAULT_TICK,
    {
        Thread {
            name: "uname".to_owned(),
            stack_size: DEFAULT_STACK_SIZE,
            priority: DEFAULT_PRIORITY,
            tick: DEFAULT_TICK,
        }
    }

    /// Sets the thread's name.
    pub fn name(self, name: &str) -> (r: Thread)
        ensures
            r.name_view() == name@,
            r.stack_size_view() == self.stack_size_view(),
            r.priority_view() == self.priority_view(),
            r.tick_view() == self.tick_view(),
    {
        Thread { name: name.to_owned(), ..self }
    }

    /// Sets the stack size in bytes.
    pub fn stack_size(self, stack_size: u32) -> (r: Thread)
        ensures
            r.name_view() == self.name_view(),
            r.stack_size_view() == stack_size,
            r.priority_view() == self.priority_view(),
            r.tick_view() == self.tick_view(),
    {
        Thread { stack_size, ..self }
    }

    /// Sets the priority.
    pub fn priority(self, priority: u8) -> (r: Thread)
        ensures
            r.name_view() == self.name_view(),
            r.stack_size_view() == self.stack_size_view(),
            r.priority_view() == priority,
            r.tick_view() == self.tick_view(),
    {
        Thread { priority, ..self }
    }

    /// Sets the time slice in ticks.
    pub fn tick(self, tick: u32) -> (r: Thread)
        ensures
            r.name_view() == self.name_view(),
            r.stack_size_view() == self.stack_size_view(),
            r.priority_view() == self.priority_view(),
            r.tick_view() == tick,
    {
        Thread { tick, ..self }
    }

    /// The thread's name.
    pub fn get_name(&self) -> (r: &str)
        ensures
            r@ == self.name_view(),
    {
        self.name.as_str()
    }

    /// The stack size in bytes.
    pub fn get_stack_size(&self) -> (r: u32)
        ensures
            r == self.stack_size_view(),
    {
        self.stack_size
    }

    /// The priority.
    pub fn get_priority(&self) -> (r: u8)
        ensures
            r == self.priority_view(),
    {
        self.priority
    }

    /// The time slice in ticks.
    pub fn get_tick(&self) -> (r: u32)
        ensures
            r == self.tick_view(),
    {
        self.tick
    }
}

impl ThreadHandle {
    /// The kernel handle of the thread.
    pub closed spec fn raw_view(&self) -> usize {
        self.raw
    }

    /// The kernel handle.
    pub fn raw(&self) -> (r: usize)
        ensures
            r == self.raw_view(),
    {
        self.raw
    }
}

/// Outcome of a start, from the handle that thread creation returned and the
/// status of the startup call (not consulted when creation failed).
pub fn startup_result(raw: usize, status: i32) -> (r: RTResult<ThreadHandle>)
    ensures
        raw == 0 || status != 0 ==> r == Err::<ThreadHandle, RTTError>(RTTError::ThreadStartupErr),
        raw != 0 && status == 0 ==> (r matches Ok(h) && h.raw_view() == raw),
{
    if raw == 0 || status != 0 {
        Err(RTTError::ThreadStartupErr)
    } else {
        Ok(ThreadHandle { raw })
    }
}

} // verus!
