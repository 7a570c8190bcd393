use vstd::prelude::*;

use crate::access::Phase;
use crate::access::access_error;
use crate::collection::AccountId;
use crate::collection::Collection;
use crate::collection::MAX_BASIS_POINTS;
use crate::collection::MAX_NAME_LEN;
use crate::collection::MAX_SYMBOL_LEN;
use crate::collection::MAX_URI_LEN;
use crate::collection::within_len;
use crate::errors::ErrorCode;
use crate::item::Nft;

verus! {

/// The caller-chosen metadata of the items of one mint request.
pub struct MintNftArgs {
    pub name: String,
    pub symbol: String,
    pub uri: String,
    pub seller_fee_basis_points: u16,
}

/// One payment the value-transfer service must execute atomically with the
/// mint: exactly `amount` minor units from `from` to `to`.
#[derive(Clone, Copy, Debug, PartialEq, Eq, Structural)]
pub struct TransferRequest {
    pub from: AccountId,
    pub to: AccountId,
    pub amount: u64,
}

/// A granted mint request: the reserved range of sequence numbers
/// `[first_sequence, first_sequence + quantity)` and the payment owed, if
/// any. Produced by `authorize_mint` and consumed by `commit_mint` within
/// the same atomic operation.
#[derive(Clone, Copy, Debug, PartialEq, Eq)]
pub struct MintAuthorization {
    pub first_sequence: u64,
    pub quantity: usize,
    pub payment: Option<TransferRequest>,
}

/// Why the requested item metadata is rejected, or `None` if it is
/// accepted. Capacity checks run before any other validation.
pub open spec fn args_error(args: MintNftArgs) -> Option<ErrorCode> {
    if args.name@.len() > MAX_NAME_LEN || args.symbol@.len() > MAX_SYMBOL_LEN
        || args.uri@.len() > MAX_URI_LEN {
        Some(ErrorCode::CapacityExceeded)
    } else if args.seller_fee_basis_points > MAX_BASIS_POINTS {
        Some(ErrorCode::InvalidMetadata)
    } else {
        None
    }
}

/// The payment a mint of `quantity` items owes, in minor currency units.
/// All monetary arithmetic is integral: prices are never floating values.
pub open spec fn payment_due(c: Collection, quantity: usize) -> int {
    c.mint_price * quantity
}

/// Why the payment check rejects the mint, or `None`: the payer's balance
/// must cover the full amount owed.
pub open spec fn payment_error(
    c: Collection,
    quantity: usize,
    payer_balance: u64,
) -> Option<ErrorCode> {
    if (payer_balance as int) < payment_due(c, quantity) {
        Some(ErrorCode::InsufficientPayment)
    } else {
        None
    }
}

/// Why the supply ledger rejects the reservation, or `None`: minting may
/// never push `total_minted` past `max_supply`. A single-item mint fails as
/// sold out, a batch as exceeding the maximum supply.
pub open spec fn supply_error(c: Collection, quantity: usize) -> Option<ErrorCode> {
    if quantity as int > c.max_supply - c.total_minted {
        if quantity == 1 {
            Some(ErrorCode::CollectionSoldOut)
        } else {
            Some(ErrorCode::ExceedsMaxSupply)
        }
    } else {
        None
    }
}

/// The transfer a granted mint carries: none when nothing is owed — a free
/// mint never involves the value-transfer service — and otherwise the full
/// amount from the requester to the collection's fee recipient.
pub open spec fn spec_payment(
    c: Collection,
    requester: AccountId,
    quantity: usize,
) -> Option<TransferRequest> {
    if payment_due(c, quantity) == 0 {
        None
    } else {
        Some(
            TransferRequest {
                from: requester,
                to: c.fee_recipient,
                amount: payment_due(c, quantity) as u64,
            },
        )
    }
}

/// Why a mint request fails, or `None` when it is granted: metadata
/// capacity first, then the access policy, then payment, then supply — so
/// no payment is owed unless access is granted, and no supply is consumed
/// unless both succeed.
pub open spec fn mint_error(
    c: Collection,
    requester: AccountId,
    phase: Option<Phase>,
    quantity: usize,
    now: u64,
    payer_balance: u64,
    args: MintNftArgs,
) -> Option<ErrorCode> {
    if args_error(args) is Some {
        args_error(args)
    } else if access_error(c, requester, phase, now) is Some {
        access_error(c, requester, phase, now)
    } else if payment_error(c, quantity, payer_balance) is Some {
        payment_error(c, quantity, payer_balance)
    } else {
        supply_error(c, quantity)
    }
}

impl Collection {
    /// The supply ledger's one operation: atomically reserves `n` sequence
    /// numbers. On success the counter advances by `n` — never past
    /// `max_supply` — and the contiguous range `[first, first + n)` of
    /// sequence numbers belongs to this reservation alone; on failure the
    /// counter is untouched.
    pub fn reserve(&mut self, n: usize) -> (r: Result<u64, ErrorCode>)
        requires
            old(self).wf(),
        ensures
            match r {
                Ok(first) => {
                    &&& supply_error(*old(self), n) is None
                    &&& first == old(self).total_minted
                    &&& first + n <= old(self).max_supply
                    &&& final(self).total_minted == old(self).total_minted + n
                    &&& *final(self) == (Collection {
                        total_minted: final(self).total_minted,
                        ..*old(self)
                    })
                    &&& final(self).wf()
                },
                Err(e) => {
                    &&& supply_error(*old(self), n) == Some(e)
                    &&& *final(self) == *old(self)
                },
            },
    {
        if n as u64 > self.max_supply - self.total_minted {
            if n == 1 {
                return Err(ErrorCode::CollectionSoldOut);
            } else {
                return Err(ErrorCode::ExceedsMaxSupply);
            }
        }
        let first = self.total_minted;
        self.total_minted = self.total_minted + (n as u64);
        Ok(first)
    }

    /// Decides one mint request: metadata capacity, access policy, payment
    /// and supply, in that order. Read-only — nothing is reserved yet. On
    /// success the authorization carries the sequence range that
    /// `commit_mint` will issue and the exact payment owed.
    pub fn authorize_mint(
        &self,
        requester: AccountId,
        phase: Option<Phase>,
        quantity: usize,
        now: u64,
        payer_balance: u64,
        args: &MintNftArgs,
    ) -> (r: Result<MintAuthorization, ErrorCode>)
        requires
            self.wf(),
        ensures
            match r {
                Ok(auth) => {
                    &&& mint_error(*self, requester, phase, quantity, now, payer_balance, *args)
                        is None
                    &&& auth.first_sequence == self.total_minted
                    &&& auth.quantity == quantity
                    &&& auth.payment == spec_payment(*self, requester, quantity)
                    &&& auth.first_sequence + auth.quantity <= self.max_supply
                },
                Err(e) => mint_error(
                    *self,
                    requester,
                    phase,
                    quantity,
                    now,
                    payer_balance,
                    *args,
                ) == Some(e),
            },
    {
        if !within_len(&args.name, MAX_NAME_LEN) || !within_len(&args.symbol, MAX_SYMBOL_LEN)
            || !within_len(&args.uri, MAX_URI_LEN) {
            return Err(ErrorCode::CapacityExceeded);
        }
        if args.seller_fee_basis_points > MAX_BASIS_POINTS {
            return Err(ErrorCode::InvalidMetadata);
        }
        match self.check_access(requester, phase, now) {
            Some(e) => {
                return Err(e);
            },
            None => {},
        }
        proof {
            assert((self.mint_price as int) * (quantity as int) <= (u64::MAX as int) * (
            usize::MAX as int)) by (nonlinear_arith)
                requires
                    0 <= self.mint_price <= u64::MAX,
                    0 <= quantity <= usize::MAX,
            ;
        }
        let due: u128 = (self.mint_price as u128) * (quantity as u128);
        if (payer_balance as u128) < due {
            return Err(ErrorCode::InsufficientPayment);
        }
        if quantity as u64 > self.max_supply - self.total_minted {
            if quantity == 1 {
                return Err(ErrorCode::CollectionSoldOut);
            } else {
                return Err(ErrorCode::ExceedsMaxSupply);
            }
        }
        let payment: Option<TransferRequest> = if due == 0 {
            None
        } else {
            Some(TransferRequest { from: requester, to: self.fee_recipient, amount: due as u64 })
        };
        Ok(MintAuthorization { first_sequence: self.total_minted, quantity, payment })
    }

    /// Issues the items of a granted mint request: advances the supply
    /// counter by the authorized quantity — it never passes `max_supply` —
    /// and creates one record per reserved sequence number, owned by the
    /// requester and pointing at the asset handles the issuance service
    /// returned. Nothing else about the collection changes.
    pub fn commit_mint(
        &mut self,
        auth: MintAuthorization,
        collection_address: AccountId,
        requester: AccountId,
        asset_refs: &Vec<u64>,
        args: &MintNftArgs,
    ) -> (items: Vec<Nft>)
        requires
            old(self).wf(),
            auth.first_sequence == old(self).total_minted,
            auth.quantity as int <= old(self).max_supply - old(self).total_minted,
            asset_refs@.len() == auth.quantity,
            args_error(*args) is None,
        ensures
            final(self).wf(),
            final(self).total_minted == old(self).total_minted + auth.quantity,
            *final(self) == (Collection { total_minted: final(self).total_minted, ..*old(self) }),
            items@.len() == auth.quantity,
            forall|i: int|
                0 <= i < auth.quantity ==> {
                    let it = #[trigger] items@[i];
                    &&& it.collection == collection_address
                    &&& it.owner == requester
                    &&& it.sequence_number == auth.first_sequence + i
                    &&& it.sequence_number < final(self).max_supply
                    &&& it.asset_reference == asset_refs@[i]
                    &&& it.name@ == args.name@
                    &&& it.symbol@ == args.symbol@
                    &&& it.uri@ == args.uri@
                    &&& it.seller_fee_basis_points == args.seller_fee_basis_points
                    &&& it.wf()
                },
    {
        let first = match self.reserve(auth.quantity) {
            Ok(first) => first,
            Err(_) => {
                // The contract grants the reservation, so this path cannot
                // be taken.
                return Vec::new();
            },
        };
        let mut items: Vec<Nft> = Vec::new();
        let mut i: usize = 0;
        while i < auth.quantity
            invariant
                *self == (Collection { total_minted: self.total_minted, ..*old(self) }),
                self.total_minted == old(self).total_minted + auth.quantity,
                self.wf(),
                old(self).wf(),
                first == old(self).total_minted,
                auth.first_sequence == first,
                auth.quantity as int <= old(self).max_supply - old(self).total_minted,
                asset_refs@.len() == auth.quantity,
                args_error(*args) is None,
                i <= auth.quantity,
                items@.len() == i,
                forall|k: int|
                    0 <= k < i ==> {
                        let it = #[trigger] items@[k];
                        &&& it.collection == collection_address
                        &&& it.owner == requester
                        &&& it.sequence_number == auth.first_sequence + k
                        &&& it.sequence_number < old(self).max_supply
                        &&& it.asset_reference == asset_refs@[k]
                        &&& it.name@ == args.name@
                        &&& it.symbol@ == args.symbol@
                        &&& it.uri@ == args.uri@
                        &&& it.seller_fee_basis_points == args.seller_fee_basis_points
                        &&& it.wf()
                    },
            decreases auth.quantity - i,
        {
            let nft = Nft {
                collection: collection_address,
                asset_reference: asset_refs[i],
                owner: requester,
                sequence_number: first + (i as u64),
                name: args.name.clone(),
                symbol: args.symbol.clone(),
                uri: args.uri.clone(),
                seller_fee_basis_points: args.seller_fee_basis_points,
            };
            items.push(nft);
            i += 1;
        }
        items
    }

    /// Mints one item in a single step: decides the request with
    /// `authorize_mint` and, when it is granted, issues the item with
    /// `commit_mint`. On success the caller owes exactly the returned
    /// payment, to be executed atomically with this operation; on failure
    /// the collection is unchanged and the exact failing check is returned.
    pub fn mint_nft(
        &mut self,
        collection_address: AccountId,
        requester: AccountId,
        phase: Option<Phase>,
        now: u64,
        payer_balance: u64,
        asset_reference: u64,
        args: &MintNftArgs,
    ) -> (r: Result<(Nft, Option<TransferRequest>), ErrorCode>)
        requires
            old(self).wf(),
        ensures
            final(self).wf(),
            match r {
                Ok(p) => {
                    &&& mint_error(*old(self), requester, phase, 1, now, payer_balance, *args)
                        is None
                    &&& final(self).total_minted == old(self).total_minted + 1
                    &&& *final(self) == (Collection {
                        total_minted: final(self).total_minted,
                        ..*old(self)
                    })
                    &&& p.0.collection == collection_address
                    &&& p.0.owner == requester
                    &&& p.0.sequence_number == old(self).total_minted
                    &&& p.0.asset_reference == asset_reference
                    &&& p.0.name@ == args.name@
                    &&& p.0.symbol@ == args.symbol@
                    &&& p.0.uri@ == args.uri@
                    &&& p.0.seller_fee_basis_points == args.seller_fee_basis_points
                    &&& p.0.wf()
                    &&& p.1 == spec_payment(*old(self), requester, 1)
                },
                Err(e) => {
                    &&& mint_error(*old(self), requester, phase, 1, now, payer_balance, *args)
                        == Some(e)
                    &&& *final(self) == *old(self)
                },
            },
    {
        let auth = match self.authorize_mint(requester, phase, 1, now, payer_balance, args) {
            Ok(auth) => auth,
            Err(e) => {
                return Err(e);
            },
        };
        let asset_refs: Vec<u64> = vec![asset_reference];
        let mut items = self.commit_mint(auth, collection_address, requester, &asset_refs, args);
        let nft = match items.pop() {
            Some(nft) => nft,
            None => {
                return Err(ErrorCode::RecordNotFound);
            },
        };
        Ok((nft, auth.payment))
    }
}

} // verus!
