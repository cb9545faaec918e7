//! The check that a bucket is empty after its objects were deleted.

use vstd::prelude::*;

verus! {

/// Objects were left in a bucket after the deletion calls had completed.
#[derive(Clone, Copy, Debug, PartialEq, Eq, Structural)]
pub struct ResidualObjects {
    /// The object count that the listing reported.
    pub count: i32,
}

/// Judges the object count that one listing call reported after the
/// deletion calls of the plain path had completed. A multi-object deletion
/// call may leave out keys without saying so, which makes this count the
/// one signal of completeness: any count but zero fails.
pub fn verify_empty(reported_count: i32) -> (r: Result<(), ResidualObjects>)
    ensures
        r is Ok <==> reported_count == 0,
        r matches Err(residual) ==> residual.count == reported_count,
{
    if reported_count == 0 {
        Ok(())
    } else {
        Err(ResidualObjects { count: reported_count })
    }
}

} // verus!
