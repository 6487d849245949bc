use vstd::prelude::*;

verus! {

/// Every way an operation on the ledger can fail.
#[derive(Clone, Copy, Debug, PartialEq, Eq, Structural)]
pub enum ContractError {
    /// The caller is not the ledger's admin.
    Unauthorized,
    /// The proof attached to a transfer does not verify.
    InvalidProof,
    /// A transfer with the same file hash and recipient is already recorded.
    DuplicateTransfer,
    /// A withdrawal asks for more than the contract holds.
    InsufficientFunds,
    /// A fee rate above 10000 basis points.
    InvalidRate,
    /// The ledger was read before it was created.
    NotInitialized,
    /// An identity or a proof that cannot be decoded.
    MalformedInput,
}

} // verus!
