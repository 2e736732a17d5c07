//! The Linux collaborator: neither the foreground window nor the idle time
//! can be read there yet, so every query reports so.

use vstd::prelude::*;

verus! {

/// Why a platform query gave no value.
#[derive(Clone, Copy, Debug, PartialEq, Eq, Structural)]
pub enum PlatformError {
    /// The query is not available on this platform.
    Unsupported,
}

/// The raw identifier of the foreground window: not available on Linux.
pub fn get_active_window_title() -> (r: Result<String, PlatformError>)
    ensures
        r matches Err(PlatformError::Unsupported),
{
    Err(PlatformError::Unsupported)
}

/// Milliseconds since the last user input: not available on Linux.
pub fn get_idle_time() -> (r: Result<u64, PlatformError>)
    ensures
        r matches Err(PlatformError::Unsupported),
{
    Err(PlatformError::Unsupported)
}

} // verus!
