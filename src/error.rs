use vstd::prelude::*;

verus! {

/// Why an operation on a campaign was refused. A refused operation leaves
/// the campaign exactly as it was.
#[derive(Clone, Copy, Debug, PartialEq, Eq, Structural)]
pub enum AirdropError {
    /// The campaign is not in a status that allows the operation.
    InvalidStatus,
    /// The escrow does not hold enough for the whole batch.
    InsufficientFunds,
    /// The batch names more recipients than accounts were supplied.
    BatchTooLarge,
    /// The caller is not the campaign's crank authority.
    UnauthorizedCrank,
    /// The campaign has already paid out every recipient.
    AlreadyCompleted,
    /// A checked arithmetic step would wrap.
    Overflow,
    /// A recipient account does not hold the campaign's token.
    InvalidRecipientMint,
    /// The caller is not the campaign's creator.
    Unauthorized,
}

} // verus!
