use vstd::prelude::*;

verus! {

/// Every way a marketplace operation can fail. An error aborts the whole
/// operation: the ledger environment commits nothing, so a failed operation
/// has no observable effect.
#[derive(Clone, Copy, PartialEq, Eq, Debug)]
pub enum VerityError {
    /// The listing is not in the Active state.
    ListingNotActive,
    /// The current time is before the listing's validity window opens.
    ListingNotYetValid,
    /// The caller is not the owner of the vault.
    UnauthorizedVaultOwner,
    /// The caller is not the seller of the listing.
    UnauthorizedSeller,
    /// The price configuration is invalid (zero floor, start below floor,
    /// or a marketplace fee rate above the cap).
    InvalidPrice,
    /// A decaying price type was given a non-positive duration.
    InvalidDuration,
    /// The token account does not hold exactly one unit of the asset.
    InvalidTokenAmount,
    /// An arithmetic operation overflowed or underflowed.
    ArithmeticOverflow,
    /// The asset is not a unique one-of-one token (decimals must be 0 and
    /// supply must be 1), or the token account is for the wrong asset.
    UnsupportedMint,
    /// The current time is past the listing's validity window.
    ListingExpired,
    /// A vault for this owner and asset already exists.
    VaultAlreadyExists,
    /// A vault reference does not match the record it is checked against.
    VaultMismatch,
    /// A floor-price condition was not met.
    FloorTooLow,
    /// Both window bounds were given but the window is empty.
    InvalidTimeWindow,
    /// The vault is locked by an active listing.
    VaultLocked,
    /// The vault's token account does not hold the listed asset.
    NftNotInVault,
    /// The caller or the attestation's issuer is not the trusted attestor.
    UnauthorizedAttestor,
    /// The attestation was issued for a different asset collection.
    InvalidMetadata,
    /// The attestation was already consumed by an earlier force-cancel.
    AttestationUsed,
    /// The attestation is older than the time-to-live allows.
    AttestationExpired,
    /// The attested floor does not undercut the listing's own floor, so a
    /// force-cancel is not justified.
    FloorTooHigh,
    /// The attestor state record was already initialized.
    AlreadyInitialized,
}

} // verus!
