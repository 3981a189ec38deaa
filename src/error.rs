use vstd::prelude::*;

verus! {

/// Why an operation of the marketplace was refused. Every refusal leaves
/// all the records that the operation touches exactly as they were.
#[derive(Clone, Copy, Debug, PartialEq, Eq, Structural)]
pub enum ErrorCode {
    /// The marketplace record already exists.
    AlreadyInitialized,
    /// A fee rate above 10000 basis points.
    InvalidFee,
    /// A listing price of zero.
    InvalidPrice,
    /// An active listing already exists for the asset.
    ListingAlreadyActive,
    /// The listing was settled already.
    ListingNotActive,
    /// The buyer cannot pay the price.
    InsufficientFunds,
    /// The seller does not hold the asset in the given token account.
    AssetOwnershipMismatch,
    /// An account handed to settlement is not the one the records name.
    AccountMismatch,
    /// A computation would leave the range of its integer type.
    ArithmeticOverflow,
    /// The cumulative statistics of the marketplace would overflow.
    VolumeOverflow,
    /// A record or an address could not be found or derived.
    NotFound,
}

} // verus!
