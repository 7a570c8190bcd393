use vstd::prelude::*;

use crate::collection::AccountId;
use crate::collection::MAX_BASIS_POINTS;
use crate::collection::MAX_NAME_LEN;
use crate::collection::MAX_SYMBOL_LEN;
use crate::collection::MAX_URI_LEN;
use crate::errors::ErrorCode;

verus! {

/// One minted item. Created exactly once by a successful mint; its address
/// in the record store is derived from the collection and the sequence
/// number, so addresses never collide while sequence numbers are unique.
pub struct Nft {
    /// Back-reference to the collection; immutable.
    pub collection: AccountId,
    /// Opaque handle to the representation created by the issuance service.
    pub asset_reference: u64,
    /// Current owner; the only principal allowed to update or burn the item.
    pub owner: AccountId,
    /// Position of the item within its collection: the value of the
    /// collection's supply counter at issuance, unique and never reused.
    pub sequence_number: u64,
    pub name: String,
    pub symbol: String,
    /// Pointer to the item's display metadata.
    pub uri: String,
    /// Royalty share in basis points, at most `MAX_BASIS_POINTS`.
    pub seller_fee_basis_points: u16,
}

impl Nft {
    /// Record invariant: every field fits the capacity declared for the
    /// preallocated item record.
    pub open spec fn wf(self) -> bool {
        &&& self.name@.len() <= MAX_NAME_LEN
        &&& self.symbol@.len() <= MAX_SYMBOL_LEN
        &&& self.uri@.len() <= MAX_URI_LEN
        &&& self.seller_fee_basis_points <= MAX_BASIS_POINTS
    }
}

/// A partial metadata update: a provided field overwrites the stored value,
/// an absent field leaves it untouched.
pub struct UpdateNftMetadataArgs {
    pub name: Option<String>,
    pub symbol: Option<String>,
    pub uri: Option<String>,
    pub seller_fee_basis_points: Option<u16>,
}

/// Why `update_nft_metadata` rejects a request, or `None` if it is accepted.
/// The owner check comes first, capacity checks before the remaining
/// validation.
pub open spec fn nft_update_error(
    n: Nft,
    caller: AccountId,
    args: UpdateNftMetadataArgs,
) -> Option<ErrorCode> {
    if caller != n.owner {
        Some(ErrorCode::Unauthorized)
    } else if !crate::collection::opt_within(args.name, MAX_NAME_LEN) || !crate::collection::opt_within(
        args.symbol,
        MAX_SYMBOL_LEN,
    ) || !crate::collection::opt_within(args.uri, MAX_URI_LEN) {
        Some(ErrorCode::CapacityExceeded)
    } else if match args.seller_fee_basis_points {
        Some(bps) => bps > MAX_BASIS_POINTS,
        None => false,
    } {
        Some(ErrorCode::InvalidMetadata)
    } else {
        None
    }
}

/// The item after an accepted partial metadata update: provided fields
/// overwritten, everything else — ownership, back-reference and sequence
/// number included — exactly as it was.
pub open spec fn apply_nft_update(n: Nft, args: UpdateNftMetadataArgs) -> Nft {
    Nft {
        name: match args.name {
            Some(v) => v,
            None => n.name,
        },
        symbol: match args.symbol {
            Some(v) => v,
            None => n.symbol,
        },
        uri: match args.uri {
            Some(v) => v,
            None => n.uri,
        },
        seller_fee_basis_points: match args.seller_fee_basis_points {
            Some(v) => v,
            None => n.seller_fee_basis_points,
        },
        ..n
    }
}

/// Updates an item's metadata. Owner-only; each provided field overwrites
/// the stored value and absent fields are left untouched. Validation runs
/// before any write, so a rejected request changes nothing.
pub fn update_nft_metadata(nft: &mut Nft, caller: AccountId, args: UpdateNftMetadataArgs) -> (r:
    Result<(), ErrorCode>)
    requires
        old(nft).wf(),
    ensures
        match r {
            Ok(()) => {
                &&& nft_update_error(*old(nft), caller, args) is None
                &&& *final(nft) == apply_nft_update(*old(nft), args)
                &&& final(nft).wf()
            },
            Err(e) => {
                &&& nft_update_error(*old(nft), caller, args) == Some(e)
                &&& *final(nft) == *old(nft)
            },
        },
{
    if caller != nft.owner {
        return Err(ErrorCode::Unauthorized);
    }
    let name_ok = match &args.name {
        Some(s) => crate::collection::within_len(s, MAX_NAME_LEN),
        None => true,
    };
    let symbol_ok = match &args.symbol {
        Some(s) => crate::collection::within_len(s, MAX_SYMBOL_LEN),
        None => true,
    };
    let uri_ok = match &args.uri {
        Some(s) => crate::collection::within_len(s, MAX_URI_LEN),
        None => true,
    };
    if !name_ok || !symbol_ok || !uri_ok {
        return Err(ErrorCode::CapacityExceeded);
    }
    match args.seller_fee_basis_points {
        Some(bps) => {
            if bps > MAX_BASIS_POINTS {
                return Err(ErrorCode::InvalidMetadata);
            }
        },
        None => {},
    }
    match args.name {
        Some(v) => {
            nft.name = v;
        },
        None => {},
    }
    match args.symbol {
        Some(v) => {
            nft.symbol = v;
        },
        None => {},
    }
    match args.uri {
        Some(v) => {
            nft.uri = v;
        },
        None => {},
    }
    match args.seller_fee_basis_points {
        Some(v) => {
            nft.seller_fee_basis_points = v;
        },
        None => {},
    }
    Ok(())
}

/// What the caller must do after a successful burn, within the same atomic
/// operation: destroy the issued representation and refund the record's
/// storage deposit.
#[derive(Clone, Copy, Debug, PartialEq, Eq, Structural)]
pub struct BurnReceipt {
    /// Handle to pass to the issuance service for destruction.
    pub asset_reference: u64,
    /// The principal owed the storage deposit of the closed record.
    pub refund_to: AccountId,
}

/// Burns the item held in `slot`. Owner-only and terminal: the record is
/// removed and its address never reused, while the collection's supply
/// counter stays where it is, so the sequence number is retired for good.
/// Burning an already-empty slot fails with `RecordNotFound` rather than
/// destroying or refunding twice.
pub fn burn(slot: &mut Option<Nft>, caller: AccountId) -> (r: Result<BurnReceipt, ErrorCode>)
    ensures
        match r {
            Ok(receipt) => {
                &&& match *old(slot) {
                    Some(n) => caller == n.owner && receipt.asset_reference == n.asset_reference,
                    None => false,
                }
                &&& receipt.refund_to == caller
                &&& *final(slot) is None
            },
            Err(e) => {
                &&& *final(slot) == *old(slot)
                &&& match *old(slot) {
                    Some(n) => caller != n.owner && e == ErrorCode::InvalidOwner,
                    None => e == ErrorCode::RecordNotFound,
                }
            },
        },
{
    let mut present: bool = false;
    let mut owner: AccountId = 0;
    let mut asset: u64 = 0;
    match &*slot {
        Some(n) => {
            present = true;
            owner = n.owner;
            asset = n.asset_reference;
        },
        None => {},
    }
    if !present {
        return Err(ErrorCode::RecordNotFound);
    }
    if caller != owner {
        return Err(ErrorCode::InvalidOwner);
    }
    *slot = None;
    Ok(BurnReceipt { asset_reference: asset, refund_to: caller })
}

} // verus!
