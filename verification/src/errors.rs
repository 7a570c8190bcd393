use vstd::prelude::*;

verus! {

/// Failure codes surfaced verbatim to the caller. Every failure is terminal
/// for the submitted operation: the operation aborts and no state is mutated.
#[derive(Clone, Copy, Debug, PartialEq, Eq, Structural)]
pub enum ErrorCode {
    /// The caller is not the recorded owner of the item.
    InvalidOwner,
    /// The caller is not the principal recorded for the role being checked.
    Unauthorized,
    /// A metadata field is out of its allowed range (royalty basis points
    /// above the maximum).
    InvalidMetadata,
    /// The caller is not the collection's recorded authority.
    InvalidAuthority,
    /// A presale mint was requested by an account outside the whitelist of a
    /// non-public collection.
    NotWhitelisted,
    /// A presale mint was requested before the presale window opened, or the
    /// collection has no presale window.
    PresaleNotStarted,
    /// A presale mint was requested at or after the end of the presale
    /// window.
    PresaleEnded,
    /// A public-phase mint was requested before the public window opened, or
    /// the collection has no public window.
    PublicMintNotStarted,
    /// No phase was supplied for a collection that is not public.
    InvalidPhase,
    /// A single-item mint would exceed the collection's maximum supply.
    CollectionSoldOut,
    /// A batch mint would exceed the collection's maximum supply.
    ExceedsMaxSupply,
    /// The payer's balance is below the required payment.
    InsufficientPayment,
    /// Declared for a malformed price configuration. Prices are stored as
    /// integers in minor currency units, so every stored price is well
    /// formed and no operation returns this code.
    InvalidMintPrice,
    /// The collection was configured with a maximum supply of zero, or an
    /// update would set the maximum supply below what is already minted.
    InvalidSupply,
    /// Reserved for a per-wallet mint cap; no operation enforces one.
    ExceedsWalletMintLimit,
    /// A string field is over its declared maximum length, or the whitelist
    /// would grow past its fixed capacity. Records are preallocated, so
    /// every growable field has a hard capacity declared at creation.
    CapacityExceeded,
    /// The addressed record does not exist (for instance, the item was
    /// already burned).
    RecordNotFound,
}

} // verus!
