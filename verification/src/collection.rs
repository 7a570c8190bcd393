use vstd::prelude::*;
use vstd::string::StrSliceExecFns;

use crate::errors::ErrorCode;

verus! {

/// A principal or record address. The execution platform identifies accounts
/// by opaque keys that the core only ever compares for equality, so the core
/// models them as plain integers.
pub type AccountId = u64;

/// Records are preallocated with a fixed maximum size, so every string and
/// array field carries a hard maximum length, enforced whenever a record is
/// created or mutated.
pub const MAX_NAME_LEN: usize = 32;

pub const MAX_SYMBOL_LEN: usize = 10;

pub const MAX_DESCRIPTION_LEN: usize = 500;

pub const MAX_URI_LEN: usize = 200;

pub const MAX_WHITELIST_LEN: usize = 100;

/// Royalties are expressed in basis points, at most 100%.
pub const MAX_BASIS_POINTS: u16 = 10000;

/// One launched series: its configuration, its whitelist, and its supply
/// counter. The record lives in the platform's keyed store; the core owns
/// every rule about how it may change.
pub struct Collection {
    /// The single principal allowed to mutate configuration and whitelist;
    /// immutable after creation.
    pub authority: AccountId,
    pub name: String,
    pub symbol: String,
    pub description: String,
    pub image_uri: String,
    pub external_url: String,
    /// Royalty share in basis points, at most `MAX_BASIS_POINTS`.
    pub seller_fee_basis_points: u16,
    /// Upper bound on items ever minted; at least one.
    pub max_supply: u64,
    /// Price of one item in minor currency units; zero means a free mint.
    pub mint_price: u64,
    /// Account receiving every mint payment.
    pub fee_recipient: AccountId,
    /// A public collection grants mint access without any phase tag.
    pub is_public: bool,
    /// Presale window bounds in unix time; an absent bound disables the
    /// presale phase.
    pub presale_start: Option<u64>,
    pub presale_end: Option<u64>,
    /// Opening of the public phase in unix time; absent disables it.
    pub public_start: Option<u64>,
    /// Accounts eligible to mint during the presale; no duplicates, at most
    /// `MAX_WHITELIST_LEN` entries.
    pub whitelist: Vec<AccountId>,
    /// Items issued so far; never decreases and never exceeds `max_supply`.
    pub total_minted: u64,
}

/// The caller-chosen configuration of a new collection.
pub struct CollectionConfig {
    pub name: String,
    pub symbol: String,
    pub description: String,
    pub image_uri: String,
    pub external_url: String,
    pub seller_fee_basis_points: u16,
    pub max_supply: u64,
    pub mint_price: u64,
    pub fee_recipient: AccountId,
    pub is_public: bool,
    pub presale_start: Option<u64>,
    pub presale_end: Option<u64>,
    pub public_start: Option<u64>,
}

impl Collection {
    /// Record invariant: every constructor establishes it and every
    /// operation preserves it.
    pub open spec fn wf(self) -> bool {
        &&& self.total_minted <= self.max_supply
        &&& self.max_supply >= 1
        &&& self.whitelist@.no_duplicates()
        &&& self.whitelist@.len() <= MAX_WHITELIST_LEN
        &&& self.name@.len() <= MAX_NAME_LEN
        &&& self.symbol@.len() <= MAX_SYMBOL_LEN
        &&& self.description@.len() <= MAX_DESCRIPTION_LEN
        &&& self.image_uri@.len() <= MAX_URI_LEN
        &&& self.external_url@.len() <= MAX_URI_LEN
        &&& self.seller_fee_basis_points <= MAX_BASIS_POINTS
    }
}

/// Why `create_collection` rejects a configuration, or `None` if it is
/// accepted. Capacity checks run before any other validation.
pub open spec fn create_error(config: CollectionConfig) -> Option<ErrorCode> {
    if config.name@.len() > MAX_NAME_LEN || config.symbol@.len() > MAX_SYMBOL_LEN
        || config.description@.len() > MAX_DESCRIPTION_LEN
        || config.image_uri@.len() > MAX_URI_LEN || config.external_url@.len() > MAX_URI_LEN {
        Some(ErrorCode::CapacityExceeded)
    } else if config.seller_fee_basis_points > MAX_BASIS_POINTS {
        Some(ErrorCode::InvalidMetadata)
    } else if config.max_supply == 0 {
        Some(ErrorCode::InvalidSupply)
    } else {
        None
    }
}

/// True when the string fits the given capacity.
pub(crate) fn within_len(s: &String, cap: usize) -> (r: bool)
    ensures
        r == (s@.len() <= cap),
{
    s.as_str().unicode_len() <= cap
}

/// True when the account appears in the list.
pub fn contains_account(v: &Vec<AccountId>, a: AccountId) -> (r: bool)
    ensures
        r == v@.contains(a),
{
    let mut i: usize = 0;
    while i < v.len()
        invariant
            i <= v@.len(),
            forall|k: int| 0 <= k < i ==> v@[k] != a,
        decreases v@.len() - i,
    {
        if v[i] == a {
            assert(v@[i as int] == a);
            return true;
        }
        i += 1;
    }
    assert(!v@.contains(a));
    false
}

/// Allocates the record of a new collection for `authority`: validates the
/// configuration, starts the supply counter at zero and the whitelist empty.
/// The collection's own display metadata is issued by the caller from the
/// returned record, within the same atomic operation.
pub fn create_collection(authority: AccountId, config: CollectionConfig) -> (r: Result<
    Collection,
    ErrorCode,
>)
    ensures
        match r {
            Ok(c) => {
                &&& create_error(config) is None
                &&& c.wf()
                &&& c.authority == authority
                &&& c.name == config.name
                &&& c.symbol == config.symbol
                &&& c.description == config.description
                &&& c.image_uri == config.image_uri
                &&& c.external_url == config.external_url
                &&& c.seller_fee_basis_points == config.seller_fee_basis_points
                &&& c.max_supply == config.max_supply
                &&& c.mint_price == config.mint_price
                &&& c.fee_recipient == config.fee_recipient
                &&& c.is_public == config.is_public
                &&& c.presale_start == config.presale_start
                &&& c.presale_end == config.presale_end
                &&& c.public_start == config.public_start
                &&& c.whitelist@.len() == 0
                &&& c.total_minted == 0
            },
            Err(e) => create_error(config) == Some(e),
        },
{
    if !within_len(&config.name, MAX_NAME_LEN) || !within_len(&config.symbol, MAX_SYMBOL_LEN)
        || !within_len(&config.description, MAX_DESCRIPTION_LEN)
        || !within_len(&config.image_uri, MAX_URI_LEN)
        || !within_len(&config.external_url, MAX_URI_LEN) {
        return Err(ErrorCode::CapacityExceeded);
    }
    if config.seller_fee_basis_points > MAX_BASIS_POINTS {
        return Err(ErrorCode::InvalidMetadata);
    }
    if config.max_supply == 0 {
        return Err(ErrorCode::InvalidSupply);
    }
    Ok(
        Collection {
            authority,
            name: config.name,
            symbol: config.symbol,
            description: config.description,
            image_uri: config.image_uri,
            external_url: config.external_url,
            seller_fee_basis_points: config.seller_fee_basis_points,
            max_supply: config.max_supply,
            mint_price: config.mint_price,
            fee_recipient: config.fee_recipient,
            is_public: config.is_public,
            presale_start: config.presale_start,
            presale_end: config.presale_end,
            public_start: config.public_start,
            whitelist: Vec::new(),
            total_minted: 0,
        },
    )
}

/// A partial reconfiguration: a provided field overwrites the stored value,
/// an absent field leaves it untouched. A window bound, once set, can be
/// moved but not cleared.
pub struct UpdateCollectionArgs {
    pub name: Option<String>,
    pub symbol: Option<String>,
    pub description: Option<String>,
    pub image_uri: Option<String>,
    pub external_url: Option<String>,
    pub seller_fee_basis_points: Option<u16>,
    pub max_supply: Option<u64>,
    pub mint_price: Option<u64>,
    pub fee_recipient: Option<AccountId>,
    pub is_public: Option<bool>,
    pub presale_start: Option<u64>,
    pub presale_end: Option<u64>,
    pub public_start: Option<u64>,
}

/// True when a provided string fits the given capacity; an absent field is
/// always acceptable.
pub open spec fn opt_within(f: Option<String>, cap: usize) -> bool {
    match f {
        Some(s) => s@.len() <= cap,
        None => true,
    }
}

/// Why `update_collection` rejects a request, or `None` if it is accepted.
/// The authority check comes first, capacity checks before the remaining
/// validation.
pub open spec fn update_error(
    c: Collection,
    caller: AccountId,
    args: UpdateCollectionArgs,
) -> Option<ErrorCode> {
    if caller != c.authority {
        Some(ErrorCode::InvalidAuthority)
    } else if !opt_within(args.name, MAX_NAME_LEN) || !opt_within(args.symbol, MAX_SYMBOL_LEN)
        || !opt_within(args.description, MAX_DESCRIPTION_LEN)
        || !opt_within(args.image_uri, MAX_URI_LEN) || !opt_within(
        args.external_url,
        MAX_URI_LEN,
    ) {
        Some(ErrorCode::CapacityExceeded)
    } else if match args.seller_fee_basis_points {
        Some(bps) => bps > MAX_BASIS_POINTS,
        None => false,
    } {
        Some(ErrorCode::InvalidMetadata)
    } else if match args.max_supply {
        Some(m) => m == 0 || m < c.total_minted,
        None => false,
    } {
        Some(ErrorCode::InvalidSupply)
    } else {
        None
    }
}

/// The collection after an accepted partial reconfiguration: provided fields
/// overwritten, everything else — the authority, the whitelist and the
/// supply counter included — exactly as it was.
pub open spec fn apply_update(c: Collection, args: UpdateCollectionArgs) -> Collection {
    Collection {
        name: match args.name {
            Some(v) => v,
            None => c.name,
        },
        symbol: match args.symbol {
            Some(v) => v,
            None => c.symbol,
        },
        description: match args.description {
            Some(v) => v,
            None => c.description,
        },
        image_uri: match args.image_uri {
            Some(v) => v,
            None => c.image_uri,
        },
        external_url: match args.external_url {
            Some(v) => v,
            None => c.external_url,
        },
        seller_fee_basis_points: match args.seller_fee_basis_points {
            Some(v) => v,
            None => c.seller_fee_basis_points,
        },
        max_supply: match args.max_supply {
            Some(v) => v,
            None => c.max_supply,
        },
        mint_price: match args.mint_price {
            Some(v) => v,
            None => c.mint_price,
        },
        fee_recipient: match args.fee_recipient {
            Some(v) => v,
            None => c.fee_recipient,
        },
        is_public: match args.is_public {
            Some(v) => v,
            None => c.is_public,
        },
        presale_start: match args.presale_start {
            Some(v) => Some(v),
            None => c.presale_start,
        },
        presale_end: match args.presale_end {
            Some(v) => Some(v),
            None => c.presale_end,
        },
        public_start: match args.public_start {
            Some(v) => Some(v),
            None => c.public_start,
        },
        ..c
    }
}

impl Collection {
    /// Reconfigures the collection. Authority-only; each provided field
    /// overwrites the stored value and absent fields are left untouched.
    /// Validation runs before any write, so a rejected request changes
    /// nothing.
    #[verifier::rlimit(100)]
    pub fn update_collection(&mut self, caller: AccountId, args: UpdateCollectionArgs) -> (r:
        Result<(), ErrorCode>)
        requires
            old(self).wf(),
        ensures
            match r {
                Ok(()) => {
                    &&& update_error(*old(self), caller, args) is None
                    &&& *final(self) == apply_update(*old(self), args)
                    &&& final(self).wf()
                },
                Err(e) => {
                    &&& update_error(*old(self), caller, args) == Some(e)
                    &&& *final(self) == *old(self)
                },
            },
    {
        if caller != self.authority {
            return Err(ErrorCode::InvalidAuthority);
        }
        let name_ok = match &args.name {
            Some(s) => within_len(s, MAX_NAME_LEN),
            None => true,
        };
        let symbol_ok = match &args.symbol {
            Some(s) => within_len(s, MAX_SYMBOL_LEN),
            None => true,
        };
        let description_ok = match &args.description {
            Some(s) => within_len(s, MAX_DESCRIPTION_LEN),
            None => true,
        };
        let image_uri_ok = match &args.image_uri {
            Some(s) => within_len(s, MAX_URI_LEN),
            None => true,
        };
        let external_url_ok = match &args.external_url {
            Some(s) => within_len(s, MAX_URI_LEN),
            None => true,
        };
        if !name_ok || !symbol_ok || !description_ok || !image_uri_ok || !external_url_ok {
            return Err(ErrorCode::CapacityExceeded);
        }
        match args.seller_fee_basis_points {
            Some(bps) => {
                if bps > MAX_BASIS_POINTS {
                    return Err(ErrorCode::InvalidMetadata);
                }
            },
            None => {},
        }
        match args.max_supply {
            Some(m) => {
                if m == 0 || m < self.total_minted {
                    return Err(ErrorCode::InvalidSupply);
                }
            },
            None => {},
        }
        match args.name {
            Some(v) => {
                self.name = v;
            },
            None => {},
        }
        match args.symbol {
            Some(v) => {
                self.symbol = v;
            },
            None => {},
        }
        match args.description {
            Some(v) => {
                self.description = v;
            },
            None => {},
        }
        match args.image_uri {
            Some(v) => {
                self.image_uri = v;
            },
            None => {},
        }
        match args.external_url {
            Some(v) => {
                self.external_url = v;
            },
            None => {},
        }
        match args.seller_fee_basis_points {
            Some(v) => {
                self.seller_fee_basis_points = v;
            },
            None => {},
        }
        match args.max_supply {
            Some(v) => {
                self.max_supply = v;
            },
            None => {},
        }
        match args.mint_price {
            Some(v) => {
                self.mint_price = v;
            },
            None => {},
        }
        match args.fee_recipient {
            Some(v) => {
                self.fee_recipient = v;
            },
            None => {},
        }
        match args.is_public {
            Some(v) => {
                self.is_public = v;
            },
            None => {},
        }
        match args.presale_start {
            Some(v) => {
                self.presale_start = Some(v);
            },
            None => {},
        }
        match args.presale_end {
            Some(v) => {
                self.presale_end = Some(v);
            },
            None => {},
        }
        match args.public_start {
            Some(v) => {
                self.public_start = Some(v);
            },
            None => {},
        }
        Ok(())
    }
}

/// The whitelist after one address is admitted: a duplicate is silently
/// skipped, a new address goes to the end.
pub open spec fn push_unique(ws: Seq<AccountId>, a: AccountId) -> Seq<AccountId> {
    if ws.contains(a) {
        ws
    } else {
        ws.push(a)
    }
}

/// The whitelist after every address of `xs` is admitted in order.
pub open spec fn with_all(ws: Seq<AccountId>, xs: Seq<AccountId>) -> Seq<AccountId>
    decreases xs.len(),
{
    if xs.len() == 0 {
        ws
    } else {
        push_unique(with_all(ws, xs.drop_last()), xs.last())
    }
}

/// The whitelist after every member of `xs` is removed; absent entries are
/// silently ignored and the order of the kept entries is preserved.
pub open spec fn remove_members(ws: Seq<AccountId>, xs: Seq<AccountId>) -> Seq<AccountId>
    decreases ws.len(),
{
    if ws.len() == 0 {
        ws
    } else {
        let kept = remove_members(ws.drop_last(), xs);
        if xs.contains(ws.last()) {
            kept
        } else {
            kept.push(ws.last())
        }
    }
}

/// A pushed sequence holds exactly the old members and the new element.
proof fn lemma_push_contains(ws: Seq<AccountId>, a: AccountId)
    ensures
        forall|x: AccountId| #[trigger] ws.push(a).contains(x) <==> ws.contains(x) || x == a,
{
    assert forall|x: AccountId| #[trigger] ws.push(a).contains(x) implies ws.contains(x) || x == a by {
        let i = choose|i: int| 0 <= i < ws.push(a).len() && ws.push(a)[i] == x;
        if i < ws.len() {
            assert(ws[i] == x);
        }
    };
    assert forall|x: AccountId| ws.contains(x) || x == a implies #[trigger] ws.push(a).contains(
        x,
    ) by {
        if ws.contains(x) {
            let i = choose|i: int| 0 <= i < ws.len() && ws[i] == x;
            assert(ws.push(a)[i] == x);
        } else {
            assert(ws.push(a)[ws.len() as int] == a);
        }
    };
}

/// Admitting one address keeps the members plus that address, keeps the list
/// free of duplicates, and grows it by at most one entry.
proof fn lemma_push_unique_props(ws: Seq<AccountId>, a: AccountId)
    requires
        ws.no_duplicates(),
    ensures
        forall|x: AccountId| #[trigger] push_unique(ws, a).contains(x) <==> ws.contains(x) || x
            == a,
        push_unique(ws, a).no_duplicates(),
        ws.len() <= push_unique(ws, a).len() <= ws.len() + 1,
{
    lemma_push_contains(ws, a);
    if !ws.contains(a) {
        assert forall|i: int, j: int|
            0 <= i < ws.push(a).len() && 0 <= j < ws.push(a).len() && i != j implies ws.push(a)[i]
            != ws.push(a)[j] by {
            if i < ws.len() && j < ws.len() {
            } else if i < ws.len() {
                assert(ws.contains(ws[i]));
            } else if j < ws.len() {
                assert(ws.contains(ws[j]));
            }
        };
    }
}

/// Admitting a batch keeps exactly the old members plus the batch, keeps the
/// list free of duplicates, and never shrinks it.
pub proof fn lemma_with_all_props(ws: Seq<AccountId>, xs: Seq<AccountId>)
    requires
        ws.no_duplicates(),
    ensures
        with_all(ws, xs).no_duplicates(),
        with_all(ws, xs).len() >= ws.len(),
        forall|x: AccountId| #[trigger] with_all(ws, xs).contains(x) <==> ws.contains(x)
            || xs.contains(x),
    decreases xs.len(),
{
    if xs.len() == 0 {
        assert(forall|x: AccountId| !xs.contains(x));
    } else {
        let prev = xs.drop_last();
        lemma_with_all_props(ws, prev);
        lemma_push_unique_props(with_all(ws, prev), xs.last());
        assert(xs =~= prev.push(xs.last()));
        lemma_push_contains(prev, xs.last());
    }
}

/// Admitting a longer prefix of a batch never shrinks the result.
pub proof fn lemma_with_all_len_monotone(ws: Seq<AccountId>, xs: Seq<AccountId>, j: int)
    requires
        0 <= j <= xs.len(),
    ensures
        with_all(ws, xs.take(j)).len() <= with_all(ws, xs).len(),
    decreases xs.len() - j,
{
    if j == xs.len() {
        assert(xs.take(j) =~= xs);
    } else {
        assert(xs.take(j + 1).drop_last() =~= xs.take(j));
        assert(xs.take(j + 1).last() == xs[j]);
        lemma_with_all_len_monotone(ws, xs, j + 1);
    }
}

/// Removing members keeps exactly the members outside the batch, keeps the
/// list free of duplicates, and never grows it.
pub proof fn lemma_remove_members_props(ws: Seq<AccountId>, xs: Seq<AccountId>)
    requires
        ws.no_duplicates(),
    ensures
        remove_members(ws, xs).no_duplicates(),
        remove_members(ws, xs).len() <= ws.len(),
        forall|x: AccountId| #[trigger] remove_members(ws, xs).contains(x) <==> ws.contains(x)
            && !xs.contains(x),
    decreases ws.len(),
{
    if ws.len() == 0 {
        assert(forall|x: AccountId| !ws.contains(x));
    } else {
        let prev = ws.drop_last();
        assert(prev.no_duplicates());
        lemma_remove_members_props(prev, xs);
        let kept = remove_members(prev, xs);
        assert(ws =~= prev.push(ws.last()));
        lemma_push_contains(prev, ws.last());
        if !xs.contains(ws.last()) {
            assert(!prev.contains(ws.last())) by {
                if prev.contains(ws.last()) {
                    let i = choose|i: int| 0 <= i < prev.len() && prev[i] == ws.last();
                    assert(ws[i] == ws[ws.len() - 1]);
                }
            };
            assert(!kept.contains(ws.last()));
            lemma_push_unique_props(kept, ws.last());
            assert(remove_members(ws, xs) == kept.push(ws.last()));
            assert(push_unique(kept, ws.last()) == kept.push(ws.last()));
        }
    }
}

/// Why a whitelist addition is rejected, or `None` if it is accepted.
pub open spec fn add_whitelist_error(
    c: Collection,
    caller: AccountId,
    addrs: Seq<AccountId>,
) -> Option<ErrorCode> {
    if caller != c.authority {
        Some(ErrorCode::InvalidAuthority)
    } else if with_all(c.whitelist@, addrs).len() > MAX_WHITELIST_LEN {
        Some(ErrorCode::CapacityExceeded)
    } else {
        None
    }
}

impl Collection {
    /// True when the account is on the whitelist.
    pub fn is_whitelisted(&self, a: AccountId) -> (r: bool)
        ensures
            r == self.whitelist@.contains(a),
    {
        contains_account(&self.whitelist, a)
    }

    /// Admits a batch of accounts to the whitelist. Authority-only;
    /// duplicates, both inside the batch and against the stored list, are
    /// silently skipped. The whole batch is admitted atomically: if the list
    /// would grow past its capacity, nothing changes.
    pub fn add_whitelist(&mut self, caller: AccountId, addrs: &Vec<AccountId>) -> (r: Result<
        (),
        ErrorCode,
    >)
        requires
            old(self).wf(),
        ensures
            match r {
                Ok(()) => {
                    &&& add_whitelist_error(*old(self), caller, addrs@) is None
                    &&& final(self).whitelist@ == with_all(old(self).whitelist@, addrs@)
                    &&& forall|x: AccountId|
                        final(self).whitelist@.contains(x) <==> old(self).whitelist@.contains(x)
                            || addrs@.contains(x)
                    &&& *final(self) == (Collection {
                        whitelist: final(self).whitelist,
                        ..*old(self)
                    })
                    &&& final(self).wf()
                },
                Err(e) => {
                    &&& add_whitelist_error(*old(self), caller, addrs@) == Some(e)
                    &&& *final(self) == *old(self)
                },
            },
    {
        if caller != self.authority {
            return Err(ErrorCode::InvalidAuthority);
        }
        let ghost ws0 = self.whitelist@;
        let mut cur: Vec<AccountId> = Vec::new();
        let mut i: usize = 0;
        while i < self.whitelist.len()
            invariant
                *self == *old(self),
                i <= self.whitelist@.len(),
                cur@ =~= self.whitelist@.take(i as int),
            decreases self.whitelist@.len() - i,
        {
            cur.push(self.whitelist[i]);
            i += 1;
        }
        assert(cur@ =~= ws0);
        let mut j: usize = 0;
        while j < addrs.len()
            invariant
                *self == *old(self),
                old(self).wf(),
                caller == old(self).authority,
                ws0 == self.whitelist@,
                j <= addrs@.len(),
                cur@ == with_all(ws0, addrs@.take(j as int)),
                cur@.len() <= MAX_WHITELIST_LEN,
                cur@.no_duplicates(),
            decreases addrs@.len() - j,
        {
            let a = addrs[j];
            proof {
                assert(addrs@.take(j + 1).drop_last() =~= addrs@.take(j as int));
                lemma_push_unique_props(cur@, a);
            }
            assert(with_all(ws0, addrs@.take(j + 1)) == push_unique(cur@, a));
            if !contains_account(&cur, a) {
                if cur.len() == MAX_WHITELIST_LEN {
                    proof {
                        assert(with_all(ws0, addrs@.take(j + 1)).len() == MAX_WHITELIST_LEN + 1);
                        lemma_with_all_len_monotone(ws0, addrs@, j + 1);
                    }
                    return Err(ErrorCode::CapacityExceeded);
                }
                cur.push(a);
            }
            j += 1;
        }
        proof {
            assert(addrs@.take(addrs@.len() as int) =~= addrs@);
            lemma_with_all_props(ws0, addrs@);
        }
        self.whitelist = cur;
        Ok(())
    }

    /// Removes a batch of accounts from the whitelist. Authority-only;
    /// entries that are absent are silently ignored, and the order of the
    /// kept entries is preserved.
    pub fn remove_whitelist(&mut self, caller: AccountId, addrs: &Vec<AccountId>) -> (r: Result<
        (),
        ErrorCode,
    >)
        requires
            old(self).wf(),
        ensures
            match r {
                Ok(()) => {
                    &&& caller == old(self).authority
                    &&& final(self).whitelist@ == remove_members(old(self).whitelist@, addrs@)
                    &&& forall|x: AccountId|
                        final(self).whitelist@.contains(x) <==> old(self).whitelist@.contains(x)
                            && !addrs@.contains(x)
                    &&& *final(self) == (Collection {
                        whitelist: final(self).whitelist,
                        ..*old(self)
                    })
                    &&& final(self).wf()
                },
                Err(e) => {
                    &&& e == ErrorCode::InvalidAuthority
                    &&& caller != old(self).authority
                    &&& *final(self) == *old(self)
                },
            },
    {
        if caller != self.authority {
            return Err(ErrorCode::InvalidAuthority);
        }
        let ghost ws0 = self.whitelist@;
        let mut kept: Vec<AccountId> = Vec::new();
        let mut i: usize = 0;
        while i < self.whitelist.len()
            invariant
                *self == *old(self),
                old(self).wf(),
                caller == old(self).authority,
                ws0 == self.whitelist@,
                i <= self.whitelist@.len(),
                kept@ == remove_members(ws0.take(i as int), addrs@),
            decreases self.whitelist@.len() - i,
        {
            let a = self.whitelist[i];
            proof {
                assert(ws0.take(i + 1).drop_last() =~= ws0.take(i as int));
                assert(ws0.take(i + 1).last() == ws0[i as int]);
            }
            if !contains_account(addrs, a) {
                kept.push(a);
            }
            i += 1;
        }
        proof {
            assert(ws0.take(ws0.len() as int) =~= ws0);
            lemma_remove_members_props(ws0, addrs@);
        }
        self.whitelist = kept;
        Ok(())
    }
}

} // verus!
