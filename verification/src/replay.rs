//! Sliding-window replay protection.
//!
//! One filter instance tracks one sender identity. The filter remembers
//! the highest sequence number accepted so far and, for the `W` most
//! recent numbers at or below it, whether each one has been accepted.
//! A receiver consults the filter for every inbound envelope; senders
//! never do.

use vstd::prelude::*;

verus! {

/// Replay-protection state for a single sender.
///
/// `window[d]` records whether sequence number `highest_seen - d` has
/// been accepted; only distances below the window size are tracked.
pub struct ReplayFilter {
    highest_seen: u64,
    window: Vec<bool>,
}

impl ReplayFilter {
    /// The window size `W` chosen at construction.
    pub closed spec fn window_size(self) -> int {
        self.window@.len() as int
    }

    /// The highest sequence number accepted so far; 0 before any.
    pub closed spec fn highest(self) -> u64 {
        self.highest_seen
    }

    /// Whether sequence number `s` is recorded as accepted. Only numbers
    /// within the current window can be recorded.
    pub closed spec fn seen(self, s: u64) -> bool {
        &&& 1 <= s <= self.highest_seen
        &&& self.highest_seen - s < self.window@.len()
        &&& self.window@[self.highest_seen - s]
    }

    /// A filter is well formed when its window holds at least one slot.
    pub open spec fn wf(self) -> bool {
        self.window_size() >= 1
    }

    /// The acceptance rule: `seq` is accepted exactly when it is nonzero
    /// and either advances past `highest`, or lies inside the window and
    /// has not been accepted before.
    pub open spec fn accepts(self, seq: u64) -> bool {
        &&& seq != 0
        &&& (seq > self.highest() || (self.highest() - seq < self.window_size()
            && !self.seen(seq)))
    }

    /// How an accepted sequence number changes the filter: `highest`
    /// becomes the larger of the old highest and `seq`, `seq` is
    /// recorded as seen, and earlier numbers stay recorded exactly as
    /// long as they remain inside the shifted window.
    pub open spec fn stepped(pre: ReplayFilter, post: ReplayFilter, seq: u64) -> bool {
        &&& post.window_size() == pre.window_size()
        &&& post.highest() == (if seq > pre.highest() {
            seq
        } else {
            pre.highest()
        })
        &&& forall|s: u64|
            post.seen(s) <==> ((s == seq || pre.seen(s)) && post.highest() - s
                < post.window_size())
    }

    /// The filter did not change: same highest, same window, same
    /// record of seen numbers.
    pub open spec fn unchanged(pre: ReplayFilter, post: ReplayFilter) -> bool {
        &&& post.window_size() == pre.window_size()
        &&& post.highest() == pre.highest()
        &&& forall|s: u64| post.seen(s) == pre.seen(s)
    }

    /// A fresh filter: nothing seen yet, window of `window_size` slots.
    pub fn new(window_size: usize) -> (r: ReplayFilter)
        requires
            window_size >= 1,
        ensures
            r.wf(),
            r.highest() == 0,
            r.window_size() == window_size,
            forall|s: u64| !r.seen(s),
    {
        let mut window: Vec<bool> = Vec::new();
        let mut i: usize = 0;
        while i < window_size
            invariant
                i <= window_size,
                window@.len() == i,
            decreases window_size - i,
        {
            window.push(false);
            i = i + 1;
        }
        ReplayFilter { highest_seen: 0, window }
    }

    /// Observe sequence number `seq`; return whether it is accepted.
    ///
    /// On acceptance the window advances: `highest` becomes the larger of
    /// the old highest and `seq`, `seq` is recorded as seen, and earlier
    /// numbers stay recorded exactly as long as they remain inside the
    /// shifted window. On rejection the state does not change, so a
    /// forged or replayed envelope leaves no trace.
    pub fn check(&mut self, seq: u64) -> (accepted: bool)
        requires
            old(self).wf(),
        ensures
            final(self).wf(),
            accepted == old(self).accepts(seq),
            accepted ==> ReplayFilter::stepped(*old(self), *final(self), seq),
            !accepted ==> ReplayFilter::unchanged(*old(self), *final(self)),
    {
        let ghost pre = *self;
        if seq == 0 {
            return false;
        }
        let w = self.window.len();
        if seq > self.highest_seen {
            let d = seq - self.highest_seen;
            let mut shifted: Vec<bool> = Vec::new();
            let mut i: usize = 0;
            while i < w
                invariant
                    i <= w,
                    w == pre.window@.len(),
                    self.window@ == pre.window@,
                    d >= 1,
                    shifted@.len() == i,
                    forall|j: int|
                        0 <= j < i ==> shifted@[j] == (if j == 0 {
                            true
                        } else if j >= d {
                            pre.window@[j - d]
                        } else {
                            false
                        }),
                decreases w - i,
            {
                let bit = if i == 0 {
                    true
                } else if (i as u64) >= d {
                    let idx = ((i as u64) - d) as usize;
                    assert(idx == i - d);
                    self.window[idx]
                } else {
                    false
                };
                shifted.push(bit);
                i = i + 1;
            }
            self.window = shifted;
            self.highest_seen = seq;
            proof {
                let post = *self;
                assert forall|s: u64|
                    post.seen(s) <==> ((s == seq || pre.seen(s)) && post.highest() - s
                        < post.window_size()) by {
                    if 1 <= s <= seq && seq - s < w {
                        let j = seq - s;
                        if j == 0 {
                            assert(post.seen(s));
                        } else {
                            assert(post.window@[j] == (if j >= d {
                                pre.window@[j - d]
                            } else {
                                false
                            }));
                            assert(j >= d <==> s <= pre.highest_seen);
                            assert(j >= d ==> j - d == pre.highest_seen - s);
                        }
                    }
                }
            }
            true
        } else {
            let delta = self.highest_seen - seq;
            if delta >= w as u64 {
                false
            } else {
                let idx = delta as usize;
                if self.window[idx] {
                    assert(pre.seen(seq));
                    false
                } else {
                    self.window.set(idx, true);
                    proof {
                        let post = *self;
                        assert forall|s: u64|
                            post.seen(s) <==> ((s == seq || pre.seen(s)) && post.highest() - s
                                < post.window_size()) by {
                            if s != seq && 1 <= s <= post.highest_seen && post.highest_seen - s
                                < w {
                                assert(post.highest_seen - s != delta);
                                assert(post.window@[post.highest_seen - s]
                                    == pre.window@[post.highest_seen - s]);
                            }
                        }
                    }
                    true
                }
            }
        }
    }
}

/// Law: an accepted sequence number is remembered. Right after the
/// step that accepted `seq`, the filter rejects `seq`, and while `seq`
/// is inside the window it is recorded as seen.
pub proof fn lemma_accepted_is_remembered(pre: ReplayFilter, post: ReplayFilter, seq: u64)
    requires
        ReplayFilter::stepped(pre, post, seq),
    ensures
        seq <= post.highest(),
        post.highest() - seq < post.window_size() ==> post.seen(seq),
        !post.accepts(seq),
{
}

/// Law: the memory of an accepted number survives every later accepted
/// step. A number the filter accepted is never accepted again: as long
/// as it sits inside the window it stays recorded as seen, and once it
/// falls off the window it is rejected as too old.
pub proof fn lemma_memory_is_kept(pre: ReplayFilter, post: ReplayFilter, seq: u64, next: u64)
    requires
        seq <= pre.highest(),
        pre.highest() - seq < pre.window_size() ==> pre.seen(seq),
        ReplayFilter::stepped(pre, post, next),
    ensures
        seq <= post.highest(),
        post.highest() - seq < post.window_size() ==> post.seen(seq),
        !post.accepts(seq),
{
}

} // verus!
