//! The clipboard.

use vstd::prelude::*;

verus! {

/// Why nothing was copied.
#[derive(Debug, Clone, Copy, PartialEq, Eq, Structural)]
pub enum ClipboardError {
    /// There is no clipboard support on this platform.
    Unsupported,
}

/// Copies the text to the clipboard. No text can be copied so far: each is refused.
pub fn copy_to_clipboard(_data: &str) -> (r: Result<(), ClipboardError>)
    ensures
        r == Err::<(), ClipboardError>(ClipboardError::Unsupported),
{
    Err(ClipboardError::Unsupported)
}

} // verus!
