//! Operating-system permissions: microphone access and the accessibility
//! permission needed to simulate the paste shortcut.
use vstd::prelude::*;

verus! {

/// What to do about the microphone, by the system's authorization status
/// (0 not determined, 1 restricted, 2 denied, 3 authorized).
#[derive(Debug, Clone, Copy, PartialEq, Eq, Structural)]
pub enum MicrophoneAccess {
    /// Not determined yet: ask the user.
    Request,
    /// Denied: tell the user where to grant it.
    Denied,
    /// Already granted.
    Granted,
    /// Any other status, reported as is.
    Other(isize),
}

/// Decide what to do about the microphone for an authorization status.
pub fn microphone_access(status: isize) -> (r: MicrophoneAccess)
    ensures
        r == (if status == 0 { MicrophoneAccess::Request } else if status == 2 { MicrophoneAccess::Denied }
            else if status == 3 { MicrophoneAccess::Granted } else { MicrophoneAccess::Other(status) }),
{
    if status == 0 {
        MicrophoneAccess::Request
    } else if status == 2 {
        MicrophoneAccess::Denied
    } else if status == 3 {
        MicrophoneAccess::Granted
    } else {
        MicrophoneAccess::Other(status)
    }
}

/// Request microphone access where the platform asks for it at startup;
/// elsewhere there is nothing to request.
pub fn request_microphone_permission() {
}

/// Whether the accessibility permission is granted; platforms without such a
/// permission always allow simulated key presses.
pub fn is_accessibility_granted() -> (r: bool)
    ensures
        r,
{
    true
}

/// Prompt for the accessibility permission where the platform has one;
/// elsewhere there is nothing to prompt for.
pub fn prompt_accessibility_permission() {
}

} // verus!
