use vstd::prelude::*;

use crate::collection::AccountId;
use crate::collection::Collection;
use crate::errors::ErrorCode;

verus! {

/// The named time window a mint request claims. A request may also carry no
/// phase at all, which only a public collection accepts; the closed
/// enumeration leaves no room for an unrecognized tag.
#[derive(Clone, Copy, Debug, PartialEq, Eq, Structural)]
pub enum Phase {
    Presale,
    Public,
}

/// Why the access policy rejects a mint request, or `None` when access is
/// granted. The policy is read-only and uses the platform's clock (`now`),
/// never a requester-supplied time.
///
/// Without a phase tag, access is granted exactly on public collections.
/// `Presale` requires `presale_start <= now < presale_end` and the requester
/// whitelisted (or the collection public); a missing bound disables the
/// phase. `Public` requires `now >= public_start`, and is likewise disabled
/// while `public_start` is absent.
pub open spec fn access_error(
    c: Collection,
    requester: AccountId,
    phase: Option<Phase>,
    now: u64,
) -> Option<ErrorCode> {
    match phase {
        None => if c.is_public {
            None
        } else {
            Some(ErrorCode::InvalidPhase)
        },
        Some(Phase::Presale) => {
            if match c.presale_start {
                Some(s) => now < s,
                None => true,
            } {
                Some(ErrorCode::PresaleNotStarted)
            } else if match c.presale_end {
                Some(e) => now >= e,
                None => true,
            } {
                Some(ErrorCode::PresaleEnded)
            } else if !c.whitelist@.contains(requester) && !c.is_public {
                Some(ErrorCode::NotWhitelisted)
            } else {
                None
            }
        },
        Some(Phase::Public) => {
            if match c.public_start {
                Some(s) => now >= s,
                None => false,
            } {
                None
            } else {
                Some(ErrorCode::PublicMintNotStarted)
            }
        },
    }
}

impl Collection {
    /// Decides whether `requester` may mint under the claimed phase at time
    /// `now`. Read-only; returns the exact rejection of the access policy,
    /// or `None` when access is granted.
    pub fn check_access(&self, requester: AccountId, phase: Option<Phase>, now: u64) -> (r: Option<
        ErrorCode,
    >)
        ensures
            r == access_error(*self, requester, phase, now),
    {
        match phase {
            None => {
                if self.is_public {
                    None
                } else {
                    Some(ErrorCode::InvalidPhase)
                }
            },
            Some(Phase::Presale) => {
                let started = match self.presale_start {
                    Some(s) => now >= s,
                    None => false,
                };
                if !started {
                    return Some(ErrorCode::PresaleNotStarted);
                }
                let open = match self.presale_end {
                    Some(e) => now < e,
                    None => false,
                };
                if !open {
                    return Some(ErrorCode::PresaleEnded);
                }
                if !self.is_whitelisted(requester) && !self.is_public {
                    return Some(ErrorCode::NotWhitelisted);
                }
                None
            },
            Some(Phase::Public) => {
                let open = match self.public_start {
                    Some(s) => now >= s,
                    None => false,
                };
                if open {
                    None
                } else {
                    Some(ErrorCode::PublicMintNotStarted)
                }
            },
        }
    }
}

} // verus!
