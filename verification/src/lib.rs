//! A native GUI bridge for a single-threaded scripting host: a symbol binder
//! for dynamically loaded libraries, a marshalling layer between host-runtime
//! script values and native scalar/array types, and the decision logic of the
//! cross-loop wakeup bridge that keeps the host runtime's I/O loop alive while
//! the GUI event loop blocks.
//!
//! The operating-system and host-runtime calls themselves (dynamic loading,
//! the OS-level poll, the GUI toolkit) live outside this crate; this crate
//! holds every decision made around them, with contracts.

use vstd::prelude::*;

pub mod nodejs;
pub mod platform;
pub mod watcher;

verus! {

/// Opaque handle type for a native window: never inspected, only passed
/// through to the GUI toolkit by the unverified shell.
pub enum GlfwWindow {
    Opaque,
}

/// Opaque handle type for a monitor: never inspected.
pub enum GlfwMonitor {
    Opaque,
}

/// The GUI toolkit reports success from its global initialization with this value.
pub const GLFW_TRUE: i32 = 1;

/// The GUI toolkit reports failure from its global initialization with this value.
pub const GLFW_FALSE: i32 = 0;

/// The GUI toolkit's global initialization is a fatal startup precondition:
/// only `GLFW_TRUE` means the process may continue.
pub fn glfw_init_ok(status: i32) -> (r: bool)
    ensures
        r <==> status == GLFW_TRUE,
{
    status == GLFW_TRUE
}

} // verus!
