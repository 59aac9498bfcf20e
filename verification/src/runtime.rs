use vstd::prelude::*;

verus! {

/// The exception-handling personality the compiler asks for; the kernel does
/// not unwind, so it does nothing.
pub fn eh_personality() {
}

} // verus!
