//! The redirect rule of the transport client.

use vstd::prelude::*;

verus! {

/// The largest number of locations already requested at which a redirect is
/// still followed. The location first asked for counts as one of them.
pub const MAX_PREVIOUS: usize = 5;

/// Whether a redirect is followed when `previous` locations have already
/// been requested in this chain.
pub open spec fn follows(previous: nat) -> bool {
    previous <= MAX_PREVIOUS as nat
}

/// How many redirects of a chain of `chain` redirects are followed when
/// `previous` locations had been requested before its first one.
pub open spec fn followed(previous: nat, chain: nat) -> nat
    decreases chain,
{
    if chain == 0 || !follows(previous) {
        0
    } else {
        1 + followed(previous + 1, (chain - 1) as nat)
    }
}

/// Decides whether the client follows a redirect, given how many locations
/// it has requested before in this chain, the first one included. A redirect
/// that is not followed is no error: the response that carried it is handed
/// to the caller as it is.
pub fn follow_redirect(previous: usize) -> (follow: bool)
    ensures
        follow == follows(previous as nat),
{
    previous <= MAX_PREVIOUS
}

/// From any point of a chain on, the redirects followed are those that
/// remain, but no more than the rule still has room for.
proof fn lemma_followed_from(previous: nat, chain: nat)
    ensures
        followed(previous, chain) == if previous > MAX_PREVIOUS as nat {
            0
        } else if chain <= MAX_PREVIOUS as nat + 1 - previous {
            chain
        } else {
            (MAX_PREVIOUS as nat + 1 - previous) as nat
        },
    decreases chain,
{
    if chain > 0 && follows(previous) {
        lemma_followed_from(previous + 1, (chain - 1) as nat);
    }
}

/// A request that meets a chain of redirects follows all of them where they
/// are five or fewer, and the first five where they are more: the response
/// of the sixth is the result, and its length alone makes no chain fail.
pub proof fn lemma_redirect_bound(chain: nat)
    ensures
        followed(1, chain) == if chain <= MAX_PREVIOUS as nat {
            chain
        } else {
            MAX_PREVIOUS as nat
        },
{
    lemma_followed_from(1, chain);
}

} // verus!
