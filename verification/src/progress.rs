//! The progress counter of one download: how many bytes have arrived, never
//! more than the size the server declared.

use vstd::prelude::*;

verus! {

/// The position that follows `position` once `received` more bytes have
/// arrived: their sum, cut off at `total`.
pub open spec fn clamped(total: nat, position: nat, received: nat) -> nat {
    if position + received <= total {
        position + received
    } else {
        total
    }
}

/// The number of bytes in chunks of the given sizes.
pub open spec fn sum_of(sizes: Seq<nat>) -> nat
    decreases sizes.len(),
{
    if sizes.len() == 0 {
        0
    } else {
        sum_of(sizes.drop_last()) + sizes.last()
    }
}

/// The position reported after chunks of the given sizes have arrived one by
/// one, each step cut off at `total`.
pub open spec fn position_after(total: nat, sizes: Seq<nat>) -> nat
    decreases sizes.len(),
{
    if sizes.len() == 0 {
        0
    } else {
        clamped(total, position_after(total, sizes.drop_last()), sizes.last())
    }
}

/// What a progress counter stands for: the declared size and the position.
pub struct ProgressView {
    pub total: nat,
    pub position: nat,
}

/// Counts the bytes of one download against the size the server declared.
#[derive(Debug, Clone, Copy)]
pub struct Progress {
    total: u64,
    downloaded: u64,
}

impl View for Progress {
    type V = ProgressView;

    closed spec fn view(&self) -> ProgressView {
        ProgressView { total: self.total as nat, position: self.downloaded as nat }
    }
}

impl Progress {
    #[verifier::type_invariant]
    spec fn within_total(&self) -> bool {
        self.downloaded <= self.total
    }

    /// A counter at position 0 for a download of `total` bytes.
    pub fn new(total: u64) -> (progress: Progress)
        ensures
            progress@ == (ProgressView { total: total as nat, position: 0 }),
    {
        Progress { total, downloaded: 0 }
    }

    /// The declared size.
    pub fn total(&self) -> (total: u64)
        ensures
            total as nat == self@.total,
    {
        self.total
    }

    /// The number of bytes counted so far.
    pub fn position(&self) -> (position: u64)
        ensures
            position as nat == self@.position,
            position as nat <= self@.total,
    {
        proof {
            use_type_invariant(self);
        }
        self.downloaded
    }

    /// Counts a chunk of `received` bytes and returns the new position: the
    /// old one plus `received`, or the declared size where that would be
    /// passed. No sum is formed that could leave the range of the counter.
    pub fn advance(&mut self, received: usize) -> (position: u64)
        ensures
            final(self)@.total == old(self)@.total,
            final(self)@.position == clamped(
                old(self)@.total,
                old(self)@.position,
                received as nat,
            ),
            position as nat == final(self)@.position,
    {
        proof {
            use_type_invariant(&*self);
        }
        let room: u64 = self.total - self.downloaded;
        let arrived: u64 = received as u64;
        if arrived >= room {
            self.downloaded = self.total;
        } else {
            self.downloaded = self.downloaded + arrived;
        }
        self.downloaded
    }
}

/// One more chunk never lowers the position and never takes it past the
/// declared size, whatever the position was.
pub proof fn lemma_clamped_bounds(total: nat, position: nat, received: nat)
    requires
        position <= total,
    ensures
        position <= clamped(total, position, received) <= total,
{
}

/// After any chunks the position is the number of bytes received, or the
/// declared size where more than that arrived.
pub proof fn lemma_position_is_clamped_sum(total: nat, sizes: Seq<nat>)
    ensures
        position_after(total, sizes) == if sum_of(sizes) <= total {
            sum_of(sizes)
        } else {
            total
        },
    decreases sizes.len(),
{
    if sizes.len() > 0 {
        lemma_position_is_clamped_sum(total, sizes.drop_last());
    }
}

/// Where more bytes arrive than were declared, the position is exactly the
/// declared size.
pub proof fn lemma_position_clamped_at_total(total: nat, sizes: Seq<nat>)
    requires
        sum_of(sizes) > total,
    ensures
        position_after(total, sizes) == total,
{
    lemma_position_is_clamped_sum(total, sizes);
}

/// For every sequence of chunk sizes, the positions reported chunk after
/// chunk never decrease and never exceed the declared size.
pub proof fn lemma_position_monotonic(total: nat, sizes: Seq<nat>, earlier: int, later: int)
    requires
        0 <= earlier <= later <= sizes.len(),
    ensures
        position_after(total, sizes.take(earlier)) <= position_after(total, sizes.take(later))
            <= total,
    decreases later - earlier,
{
    lemma_position_is_clamped_sum(total, sizes.take(later));
    if earlier < later {
        lemma_position_monotonic(total, sizes, earlier, later - 1);
        assert(sizes.take(later).drop_last() =~= sizes.take(later - 1));
    }
}

} // verus!
