//! The logic of a small x86_64 hobby kernel, with machine-checked contracts: late
//! initialisation cells, text cursors for the serial/framebuffer consoles,
//! pixel encoding into a linear framebuffer, graphics mode selection, line
//! editing on keyboard input and the address arithmetic of the interrupt
//! stack.

pub mod display;
pub mod fb;
pub mod framebuffer;
pub mod graphical;
pub mod interrupts;
pub mod keyboard;
pub mod late_init;
pub mod log;
pub mod logger;
pub mod qemu;
pub mod qemu_exit;
pub mod runtime;
