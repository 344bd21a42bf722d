use vstd::prelude::*;

verus! {

/// Why an operation failed. The variants never say more than the caller may
/// learn: a missing vault and a vault without a grant are both `NotFound`.
#[derive(Clone, Copy, Debug, PartialEq, Eq, Structural)]
pub enum AccessError {
    /// No credential was presented, or an ownership check refused the write.
    PermissionDenied,
    /// The vault or service account does not exist or is not visible.
    NotFound,
    /// A malformed upstream assertion, a database failure or an inconsistent state.
    Internal,
}

} // verus!
