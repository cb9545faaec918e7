//! Detection of a bucket's versioning state, and whether to suspend it.

use vstd::prelude::*;

verus! {

/// The versioning state that a bucket reports.
#[derive(Clone, Copy, Debug, PartialEq, Eq, Structural)]
pub enum VersioningState {
    /// The bucket keeps versions.
    Enabled,
    /// The bucket kept versions once and has stopped.
    Suspended,
    /// The bucket never kept versions.
    Unset,
}

/// Decides from the detected versioning state whether versioning is to be
/// suspended and the bucket emptied version by version. `detected` is `None`
/// where the state could not be read.
///
/// The answer is `true` for a bucket whose versioning is enabled and for no
/// other: the driver then asks the service to suspend versioning, goes on
/// whether or not that request succeeds, and deletes every version and
/// delete marker. On `false` no suspension is asked for, and the bucket is
/// emptied through the plain listing.
pub fn disable_versioning(detected: Option<VersioningState>) -> (suspend: bool)
    ensures
        suspend <==> detected == Some(VersioningState::Enabled),
{
    match detected {
        Some(VersioningState::Enabled) => true,
        _ => false,
    }
}

} // verus!
