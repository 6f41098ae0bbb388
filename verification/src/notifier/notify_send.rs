//! The notify-send alert backend.
//!
//! Delivery itself runs the `notify-send` command-line utility and so
//! lives with the embedding program; this module holds the backend's
//! handle type and the exact mapping from the command's outcome to a
//! delivery result.

use vstd::prelude::*;
use vstd::string::*;

verus! {

/// Notifier that delivers alerts through the `notify-send` command
/// line utility.  This requires `libnotify-bin` (or equivalent) to be
/// installed on the system.
pub struct NotifySendNotifier;

impl NotifySendNotifier {
    /// Creates a new NotifySendNotifier.
    pub fn new() -> NotifySendNotifier {
        NotifySendNotifier
    }
}

/// Maps the outcome of a notify-send invocation to a delivery result:
/// a successful exit is `Ok`, anything else is an error carrying the
/// captured diagnostic output.
pub fn notify_outcome(success: bool, stderr: &str) -> (r: Result<(), String>)
    ensures
        success ==> r is Ok,
        !success ==> (r matches Err(m) && m@ == "notify-send failed: "@ + stderr@),
{
    if success {
        Ok(())
    } else {
        let mut m = String::from_str("notify-send failed: ");
        m.append(stderr);
        Err(m)
    }
}

} // verus!
