use vstd::prelude::*;

verus! {

/// Why an operation on the queue could not be done.
#[derive(Debug, Clone, Copy, PartialEq, Eq, Structural)]
pub enum Error {
    /// The requested space, or any readable data, is not there right now.
    InsufficientSize,
    /// A grant of the same kind is still outstanding.
    GrantInProgress,
    /// The queue was already split into a producer and a consumer.
    AlreadySplit,
}

} // verus!
