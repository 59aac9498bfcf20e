use vstd::prelude::*;

verus! {

/// How a test run ends, as reported to QEMU through its exit device.
#[derive(Clone, Copy, Debug, PartialEq, Eq, Structural)]
pub enum QemuExitCode {
    Success,
    Failed,
}

impl QemuExitCode {
    /// The value written to the exit device port.
    pub fn code(self) -> (c: u32)
        ensures
            c == (match self {
                QemuExitCode::Success => 0x10u32,
                QemuExitCode::Failed => 0x11u32,
            }),
    {
        match self {
            QemuExitCode::Success => 0x10,
            QemuExitCode::Failed => 0x11,
        }
    }
}

/// The port of QEMU's `isa-debug-exit` device.
pub const EXIT_PORT: u16 = 0xf4;

} // verus!
