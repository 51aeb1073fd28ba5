//! The dynamic module loader's checks around the native open, lookup, close
//! and error calls. Handles and symbol addresses are plain integers here, zero
//! standing for the null pointer; the native calls are made by the caller.
use vstd::prelude::*;

verus! {

/// Flag: resolve symbols when first used.
pub const RTLD_LAZY: i32 = 0x0001;

/// Flag: resolve all symbols at open.
pub const RTLD_NOW: i32 = 0x0002;

/// Flag: make the module's symbols available to later modules.
pub const RTLD_GLOBAL: i32 = 0x0100;

/// Flag: keep the module's symbols to itself.
pub const RTLD_LOCAL: i32 = 0;

/// Message of a failed open.
pub open spec fn open_failed() -> Seq<char> {
    "Failed to open dynamic library"@
}

/// Message of a lookup through a null handle.
pub open spec fn invalid_handle() -> Seq<char> {
    "Invalid handle"@
}

/// Message of a symbol that the module does not export.
pub open spec fn symbol_missing() -> Seq<char> {
    "Failed to find symbol in dynamic library"@
}

/// Message reported when the native loader has an error pending.
pub open spec fn loader_error() -> Seq<char> {
    "Dynamic library error occurred"@
}

/// An open native module. Closing it is the owner's duty, exactly once.
pub struct DlHandle {
    handle: usize,
}

impl DlHandle {
    /// The module's native handle.
    pub closed spec fn raw(&self) -> usize {
        self.handle
    }

    /// Takes the handle that the native open returned: null means the open
    /// failed.
    pub fn open(raw: usize) -> (r: Result<DlHandle, &'static str>)
        ensures
            raw == 0 ==> (r matches Err(m) && m@ == open_failed()),
            raw != 0 ==> (r matches Ok(h) && h.raw() == raw),
    {
        safe_dlopen(raw)
    }

    /// Checks the address that the native lookup returned for a symbol of
    /// this module.
    pub fn get_symbol(&self, sym: usize) -> (r: Result<usize, &'static str>)
        ensures
            self.raw() == 0 ==> (r matches Err(m) && m@ == invalid_handle()),
            self.raw() != 0 && sym == 0 ==> (r matches Err(m) && m@ == symbol_missing()),
            self.raw() != 0 && sym != 0 ==> r == Ok::<usize, &'static str>(sym),
    {
        safe_dlsym(self.handle, sym)
    }

    /// The native handle.
    pub fn raw_handle(&self) -> (r: usize)
        ensures
            r == self.raw(),
    {
        self.handle
    }

    /// Whether dropping the handle must close the module: only a non-null
    /// handle is closed.
    pub fn close_on_drop(&self) -> (r: bool)
        ensures
            r == (self.raw() != 0),
    {
        self.handle != 0
    }
}

/// Outcome of an open, from the handle that the native open returned.
pub fn safe_dlopen(raw: usize) -> (r: Result<DlHandle, &'static str>)
    ensures
        raw == 0 ==> (r matches Err(m) && m@ == open_failed()),
        raw != 0 ==> (r matches Ok(h) && h.raw() == raw),
{
    if raw == 0 {
        Err("Failed to open dynamic library")
    } else {
        Ok(DlHandle { handle: raw })
    }
}

/// Whether a symbol lookup may call the native loader: not through a null
/// handle.
pub fn dlsym_allowed(handle: usize) -> (r: bool)
    ensures
        r == (handle != 0),
{
    handle != 0
}

/// Outcome of a symbol lookup through `handle`, from the address that the
/// native lookup returned (not consulted when the handle is null).
pub fn safe_dlsym(handle: usize, sym: usize) -> (r: Result<usize, &'static str>)
    ensures
        handle == 0 ==> (r matches Err(m) && m@ == invalid_handle()),
        handle != 0 && sym == 0 ==> (r matches Err(m) && m@ == symbol_missing()),
        handle != 0 && sym != 0 ==> r == Ok::<usize, &'static str>(sym),
{
    if handle == 0 {
        return Err("Invalid handle");
    }
    if sym == 0 {
        Err("Failed to find symbol in dynamic library")
    } else {
        Ok(sym)
    }
}

/// Outcome of a close of `handle`, from the status that the native close
/// returned (not consulted when the handle is null: that is error `-1`).
pub fn safe_dlclose(handle: usize, status: i32) -> (r: Result<(), i32>)
    ensures
        handle == 0 ==> r == Err::<(), i32>(-1i32),
        handle != 0 ==> r == (if status == 0 {
            Ok::<(), i32>(())
        } else {
            Err(status)
        }),
{
    if handle == 0 {
        return Err(-1);
    }
    if status == 0 {
        Ok(())
    } else {
        Err(status)
    }
}

/// The pending loader error, from the message address that the native error
/// call returned: none when it is null.
pub fn safe_dlerror(err: usize) -> (r: Option<&'static str>)
    ensures
        err == 0 ==> r is None,
        err != 0 ==> (r matches Some(m) && m@ == loader_error()),
{
    if err == 0 {
        None
    } else {
        Some("Dynamic library error occurred")
    }
}

} // verus!
