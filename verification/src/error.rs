//! Reasons for which an instruction is refused.
use vstd::prelude::*;

verus! {

/// The protocol's own refusals.
#[derive(Clone, Copy, Debug, PartialEq, Eq, Structural)]
pub enum NaimError {
    /// Name is already registered.
    NameAlreadyRegistered,
    /// Caller is not the name authority.
    Unauthorized,
    /// Name has expired.
    NameExpired,
    /// Name is permanent and cannot be renewed or released this way.
    NamePermanent,
    /// Name is invalid.
    InvalidName,
    /// Metadata URI is too long.
    MetadataUriTooLong,
    /// Too many linked wallets.
    TooManyLinkedWallets,
    /// Wallet is already linked.
    WalletAlreadyLinked,
    /// Invalid configuration parameters.
    InvalidConfig,
    /// No rewards to claim.
    NothingToClaim,
    /// Stake is still locked.
    StakeLocked,
    /// Insufficient staked balance.
    InsufficientStake,
    /// Category is invalid (must be like label.agent).
    InvalidCategory,
    /// Name is not directly under this category.
    NotUnderCategory,
    /// Listing price must be greater than zero.
    InvalidPrice,
    /// A wallet cannot buy its own listing.
    SelfPurchase,
    /// The listing's seller no longer owns the name.
    SellerNotOwner,
    /// Unknown listing currency.
    InvalidCurrency,
    /// Wrong buy instruction for this listing's currency.
    CurrencyMismatch,
    /// Payment mint does not match the listing's currency.
    WrongPayMint,
}

/// Why an instruction was refused.
#[derive(Clone, Copy, Debug, PartialEq, Eq, Structural)]
pub enum Error {
    /// A rule of the protocol.
    Naim(NaimError),
    /// A record names another authority than the one that signed.
    ConstraintHasOne,
    /// A record is not at the address that the request prescribes.
    ConstraintSeeds,
    /// An account is not the one whose address the records prescribe.
    ConstraintAddress,
    /// A record that the instruction creates exists already.
    AccountInUse,
    /// A record that the instruction works on does not exist.
    AccountNotInitialized,
}

} // verus!
