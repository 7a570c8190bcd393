use vstd::prelude::*;

use crate::access::Phase;
use crate::access::access_error;
use crate::collection::AccountId;
use crate::collection::Collection;
use crate::collection::UpdateCollectionArgs;
use crate::collection::apply_update;
use crate::collection::remove_members;
use crate::collection::with_all;
use crate::errors::ErrorCode;
use crate::mint::MintNftArgs;
use crate::mint::args_error;
use crate::mint::mint_error;
use crate::mint::payment_due;
use crate::mint::spec_payment;
use crate::mint::supply_error;

verus! {

/// Law: no two successful mints receive the same sequence number. Each
/// committed mint takes the contiguous range starting at the supply counter
/// and advances the counter past it (`commit_mint`'s contract), so the range
/// of a later mint starts at or beyond the end of any earlier one — and two
/// such ranges share no sequence number. The other half of the supply law,
/// that `total_minted` never exceeds `max_supply`, is part of `wf`, which
/// every operation's contract preserves.
pub proof fn lemma_minted_ranges_disjoint(t1: int, q1: int, t2: int, q2: int, i: int, j: int)
    requires
        t1 + q1 <= t2,
        t1 <= i < t1 + q1,
        t2 <= j < t2 + q2,
    ensures
        i != j,
{
}

/// Law: a granted reservation never pushes the supply counter past the
/// maximum — over any sequence of mints, `total_minted` stays within
/// `max_supply`, since every operation preserves `wf` and a mint advances
/// the counter only when the supply ledger accepts the quantity.
pub proof fn lemma_supply_cap_preserved(c: Collection, quantity: usize)
    requires
        c.wf(),
        supply_error(c, quantity) is None,
    ensures
        c.total_minted + quantity <= c.max_supply,
{
}

/// Law: a presale mint outside the presale window always fails with the
/// matching error — `PresaleNotStarted` before the window (or when no start
/// is configured), `PresaleEnded` from its end on (or when no end is
/// configured) — whatever the whitelist, the payment or the supply say.
/// The collection and the payer's balance are untouched: `mint_nft` leaves
/// the record exactly as it was on every failure, and the core never moves
/// balances itself.
pub proof fn lemma_presale_outside_window_rejected(
    c: Collection,
    requester: AccountId,
    quantity: usize,
    now: u64,
    payer_balance: u64,
    args: MintNftArgs,
)
    requires
        args_error(args) is None,
    ensures
        (match c.presale_start {
            Some(s) => now < s,
            None => true,
        }) ==> mint_error(c, requester, Some(Phase::Presale), quantity, now, payer_balance, args)
            == Some(ErrorCode::PresaleNotStarted),
        (match (c.presale_start, c.presale_end) {
            (Some(s), Some(e)) => now >= s && now >= e,
            (Some(s), None) => now >= s,
            _ => false,
        }) ==> mint_error(c, requester, Some(Phase::Presale), quantity, now, payer_balance, args)
            == Some(ErrorCode::PresaleEnded),
{
}

/// Law: a free mint never owes a payment. With `mint_price` zero the amount
/// due is zero, no transfer request is ever produced, and the payment check
/// can never fail: the request is granted exactly when the metadata, the
/// access policy and the supply ledger accept it.
pub proof fn lemma_free_mint_owes_nothing(
    c: Collection,
    requester: AccountId,
    phase: Option<Phase>,
    quantity: usize,
    now: u64,
    payer_balance: u64,
    args: MintNftArgs,
)
    requires
        c.mint_price == 0,
    ensures
        payment_due(c, quantity) == 0,
        spec_payment(c, requester, quantity) is None,
        mint_error(c, requester, phase, quantity, now, payer_balance, args) == (if args_error(args)
            is Some {
            args_error(args)
        } else if access_error(c, requester, phase, now) is Some {
            access_error(c, requester, phase, now)
        } else {
            supply_error(c, quantity)
        }),
{
}

/// Law: an update that provides only `name` changes nothing else. Every
/// other configuration field, the authority, the whitelist and the supply
/// counter of the updated collection are exactly the stored values.
pub proof fn lemma_update_name_only(c: Collection, args: UpdateCollectionArgs)
    requires
        args.name is Some,
        args.symbol is None,
        args.description is None,
        args.image_uri is None,
        args.external_url is None,
        args.seller_fee_basis_points is None,
        args.max_supply is None,
        args.mint_price is None,
        args.fee_recipient is None,
        args.is_public is None,
        args.presale_start is None,
        args.presale_end is None,
        args.public_start is None,
    ensures
        match args.name {
            Some(v) => apply_update(c, args).name == v,
            None => false,
        },
        apply_update(c, args).authority == c.authority,
        apply_update(c, args).symbol == c.symbol,
        apply_update(c, args).description == c.description,
        apply_update(c, args).image_uri == c.image_uri,
        apply_update(c, args).external_url == c.external_url,
        apply_update(c, args).seller_fee_basis_points == c.seller_fee_basis_points,
        apply_update(c, args).max_supply == c.max_supply,
        apply_update(c, args).mint_price == c.mint_price,
        apply_update(c, args).fee_recipient == c.fee_recipient,
        apply_update(c, args).is_public == c.is_public,
        apply_update(c, args).presale_start == c.presale_start,
        apply_update(c, args).presale_end == c.presale_end,
        apply_update(c, args).public_start == c.public_start,
        apply_update(c, args).whitelist == c.whitelist,
        apply_update(c, args).total_minted == c.total_minted,
{
}

/// Law: admitting `[a, a, b]` to an empty whitelist and then removing `a`
/// leaves exactly one entry, `b` — duplicate input never produces duplicate
/// entries, and removal takes out every trace of the removed account.
pub proof fn lemma_whitelist_dedup_add_remove(a: AccountId, b: AccountId)
    requires
        a != b,
    ensures
        remove_members(with_all(Seq::<AccountId>::empty(), seq![a, a, b]), seq![a]) == seq![b],
{
    reveal_with_fuel(with_all, 4);
    reveal_with_fuel(remove_members, 4);
    let ws0 = Seq::<AccountId>::empty();
    let s3 = seq![a, a, b];
    assert(s3.drop_last() =~= seq![a, a]);
    assert(seq![a, a].drop_last() =~= seq![a]);
    assert(seq![a].drop_last() =~= ws0);
    assert(!ws0.contains(a));
    assert(with_all(ws0, seq![a]) == seq![a]) by {
        assert(ws0.push(a) =~= seq![a]);
    };
    assert(seq![a].contains(a)) by {
        assert(seq![a][0] == a);
    };
    assert(with_all(ws0, seq![a, a]) == seq![a]);
    assert(!seq![a].contains(b)) by {
        if seq![a].contains(b) {
            let i = choose|i: int| 0 <= i < seq![a].len() && seq![a][i] == b;
        }
    };
    assert(with_all(ws0, s3) == seq![a].push(b));
    assert(seq![a].push(b) =~= seq![a, b]);
    assert(seq![a, b].drop_last() =~= seq![a]);
    assert(remove_members(ws0, seq![a]) == ws0);
    assert(remove_members(seq![a], seq![a]) == ws0);
    assert(remove_members(seq![a, b], seq![a]) == ws0.push(b));
    assert(ws0.push(b) =~= seq![b]);
}

} // verus!
