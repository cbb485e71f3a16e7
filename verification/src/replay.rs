//! Running a watcher over a recorded stretch of blocks, and what holds of
//! every such run.

use vstd::prelude::*;
use crate::events::{count_for, first_for, lemma_found_iff_counted};
use crate::records::BlockRecord;
use crate::watcher::{Verdict, Watcher};

verus! {

impl Watcher {
    /// The watcher after the first `n` of `blocks`, handled in order.
    pub open spec fn after_blocks(self, blocks: Seq<BlockRecord>, n: nat) -> Watcher
        decreases n,
    {
        if n == 0 {
            self
        } else {
            self.after_blocks(blocks, (n - 1) as nat).after_block(blocks[n - 1])
        }
    }

    /// The verdict at the block at position `i` of `blocks`, reached from
    /// `self` through the blocks before it.
    pub open spec fn verdict_at(self, blocks: Seq<BlockRecord>, i: int) -> Verdict {
        self.after_blocks(blocks, i as nat).block_verdict(blocks[i])
    }

    /// How many of the first `n` of `blocks` ask for a renewal.
    pub open spec fn renewals(self, blocks: Seq<BlockRecord>, n: nat) -> nat
        decreases n,
    {
        if n == 0 {
            0
        } else if self.verdict_at(blocks, n - 1) is Renew {
            self.renewals(blocks, (n - 1) as nat) + 1
        } else {
            self.renewals(blocks, (n - 1) as nat)
        }
    }

    /// How many events in the first `n` of `blocks` announce the watched core.
    pub open spec fn announcements(self, blocks: Seq<BlockRecord>, n: nat) -> nat
        decreases n,
    {
        if n == 0 {
            0
        } else {
            self.announcements(blocks, (n - 1) as nat) + count_for(
                blocks[n - 1].events@,
                self.target.core,
            )
        }
    }

    /// Handles `blocks` in order and returns the verdict at each.
    pub fn replay(&mut self, blocks: &Vec<BlockRecord>) -> (verdicts: Vec<Verdict>)
        ensures
            *final(self) == old(self).after_blocks(blocks@, blocks@.len()),
            verdicts@.len() == blocks@.len(),
            forall|i: int|
                0 <= i < blocks@.len() ==> verdicts@[i] == old(self).verdict_at(blocks@, i),
            old(self).consistent() ==> final(self).consistent(),
    {
        let mut verdicts: Vec<Verdict> = Vec::new();
        let ghost start = *self;
        let mut i: usize = 0;
        while i < blocks.len()
            invariant
                i <= blocks.len(),
                *self == start.after_blocks(blocks@, i as nat),
                verdicts@.len() == i,
                forall|j: int| 0 <= j < i ==> verdicts@[j] == start.verdict_at(blocks@, j),
                start.consistent() ==> self.consistent(),
            decreases blocks.len() - i,
        {
            let evaluation = self.step(&blocks[i]);
            verdicts.push(evaluation.verdict);
            i += 1;
        }
        verdicts
    }
}

/// The watcher's settings never change, whatever the blocks.
pub proof fn lemma_settings_are_kept(watcher: Watcher, blocks: Seq<BlockRecord>, n: nat)
    ensures
        watcher.after_blocks(blocks, n).target == watcher.target,
        watcher.after_blocks(blocks, n).config == watcher.config,
        watcher.after_blocks(blocks, n).existential_deposit == watcher.existential_deposit,
    decreases n,
{
    if n > 0 {
        lemma_settings_are_kept(watcher, blocks, (n - 1) as nat);
    }
}

/// Every renewal uses up an announcement. Over the first `n` blocks, the
/// renewals asked for, and one more if a cycle is still under way, are at most
/// the announcements of the watched core, and one more if a cycle was under
/// way at the start.
pub proof fn lemma_renewals_need_announcements(watcher: Watcher, blocks: Seq<BlockRecord>, n: nat)
    requires
        n <= blocks.len(),
    ensures
        watcher.renewals(blocks, n) + (if watcher.after_blocks(blocks, n).state.renewable {
            1nat
        } else {
            0nat
        }) <= watcher.announcements(blocks, n) + (if watcher.state.renewable {
            1nat
        } else {
            0nat
        }),
    decreases n,
{
    if n > 0 {
        let m = (n - 1) as nat;
        lemma_renewals_need_announcements(watcher, blocks, m);
        lemma_settings_are_kept(watcher, blocks, m);
        lemma_found_iff_counted(blocks[n - 1].events@, watcher.target.core);
    }
}

/// One announcement, at most one renewal: an idle watcher that is shown
/// blocks with exactly one announcement of its core asks for a renewal at
/// most once.
pub proof fn lemma_single_submission(watcher: Watcher, blocks: Seq<BlockRecord>)
    requires
        !watcher.state.renewable,
        watcher.announcements(blocks, blocks.len()) == 1,
    ensures
        watcher.renewals(blocks, blocks.len()) <= 1,
{
    lemma_renewals_need_announcements(watcher, blocks, blocks.len());
}

/// Without an announcement an idle watcher stays idle and asks for nothing.
pub proof fn lemma_idle_without_announcement(watcher: Watcher, blocks: Seq<BlockRecord>, n: nat)
    requires
        n <= blocks.len(),
        !watcher.state.renewable,
        watcher.announcements(blocks, n) == 0,
    ensures
        watcher.after_blocks(blocks, n) == watcher,
        watcher.renewals(blocks, n) == 0,
    decreases n,
{
    if n > 0 {
        let m = (n - 1) as nat;
        lemma_idle_without_announcement(watcher, blocks, m);
        lemma_found_iff_counted(blocks[n - 1].events@, watcher.target.core);
        assert(first_for(blocks[n - 1].events@, watcher.target.core) is None);
    }
}

} // verus!
