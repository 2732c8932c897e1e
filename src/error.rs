use vstd::prelude::*;

verus! {

/// A native call failed; the status code reported by the system is kept.
#[derive(Debug, Clone, Copy, PartialEq, Eq, Structural)]
pub enum TrayError {
    Native(i32),
}

impl TrayError {
    /// The status code that the failing native call reported.
    pub fn code(&self) -> (r: i32)
        ensures
            *self == TrayError::Native(r),
    {
        match self {
            TrayError::Native(c) => *c,
        }
    }
}

} // verus!
