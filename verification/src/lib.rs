//! Preemptible multi-threading core of a bare-metal kernel: the scheduler,
//! the thread control-block lifecycle, the per-thread stack allocation, and
//! the decisions behind the interrupt-driven context switch.
//!
//! The physical frame allocator and the page mapper are consumed as explicit
//! capabilities and modelled over plain values, so that every decision this
//! core makes — which thread runs next, which pages back a stack, what is
//! reclaimed on exit — is stated in contracts and proved. The platform layer
//! owns the hardware side: loading the interrupt descriptor table, writing
//! page-table entries, and the register save/restore of the actual switch.

use vstd::prelude::*;

pub mod acpi_support;
pub mod interrupts;
pub mod memory;
pub mod scheduler;
pub mod stack;
pub mod thread;

verus! {

/// Exit status reported to the emulator through its debug-exit device,
/// used by the kernel's self-test harness.
#[derive(Debug, Clone, Copy, PartialEq, Eq, Structural)]
pub enum QemuExitCode {
    /// All tests passed.
    Success,
    /// A test failed or the kernel panicked under test.
    Failed,
}

impl QemuExitCode {
    /// The value written to the exit device; the device doubles it and
    /// sets the low bit, so the two codes reach distinct process statuses.
    pub fn code(self) -> (r: u32)
        ensures
            self == QemuExitCode::Success ==> r == 0x10,
            self == QemuExitCode::Failed ==> r == 0x11,
    {
        match self {
            QemuExitCode::Success => 0x10,
            QemuExitCode::Failed => 0x11,
        }
    }
}

} // verus!
