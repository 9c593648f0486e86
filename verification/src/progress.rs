//! The progress monitor for one asynchronous file operation.
//!
//! An operation reports progress zero or more times as a byte count against a
//! fixed total; the monitor turns each report into a fraction `current /
//! total` and guarantees that the fractions it hands out never decrease over
//! the run, whatever order the raw reports arrive in, and that a successful
//! finish ends the run at exactly `total / total`.

use vstd::prelude::*;

verus! {

/// Every element of `s` is at most the one after it.
pub open spec fn stepwise_nondecreasing(s: Seq<u64>) -> bool {
    forall|i: int| 0 <= i && i + 1 < s.len() ==> #[trigger] s[i] <= s[i + 1]
}

/// Tracks one operation's progress.  `history` records, in order, every
/// fraction numerator the monitor has handed out during this operation.
pub struct ProgressMonitor {
    total: u64,
    current: u64,
    history: Ghost<Seq<u64>>,
}

impl ProgressMonitor {
    /// The fixed denominator: the operation's total number of bytes.
    pub closed spec fn total(&self) -> u64 {
        self.total
    }

    /// The latest numerator handed out (0 before any report).
    pub closed spec fn current(&self) -> u64 {
        self.current
    }

    /// Every numerator handed out so far, oldest first.
    pub closed spec fn reported(&self) -> Seq<u64> {
        self.history@
    }

    /// The monitor's invariant: the numerator never passes the total, the
    /// record of reports never steps down, and its last entry is the current
    /// numerator.
    pub closed spec fn wf(&self) -> bool {
        &&& self.current <= self.total
        &&& stepwise_nondecreasing(self.history@)
        &&& (self.history@.len() > 0 ==> self.history@.last() == self.current)
        &&& (self.history@.len() == 0 ==> self.current == 0)
    }

    /// A monitor for an operation of `total` bytes, before any report.
    pub fn new(total: u64) -> (m: ProgressMonitor)
        ensures
            m.wf(),
            m.total() == total,
            m.current() == 0,
            m.reported() == Seq::<u64>::empty(),
    {
        ProgressMonitor { total, current: 0, history: Ghost(Seq::empty()) }
    }

    /// Take one raw progress report and hand out the next fraction as the
    /// pair (numerator, denominator).  A report is clamped into the range the
    /// run has already reached, so the fraction never decreases and never
    /// exceeds one.
    pub fn report(&mut self, bytes_done: u64) -> (frac: (u64, u64))
        requires
            old(self).wf(),
        ensures
            final(self).wf(),
            final(self).total() == old(self).total(),
            final(self).current() >= old(self).current(),
            final(self).current() == if bytes_done > old(self).total() {
                old(self).total()
            } else if bytes_done > old(self).current() {
                bytes_done
            } else {
                old(self).current()
            },
            final(self).reported() == old(self).reported().push(final(self).current()),
            frac.0 == final(self).current(),
            frac.1 == final(self).total(),
    {
        let stepped: u64 = if bytes_done > self.total {
            self.total
        } else if bytes_done > self.current {
            bytes_done
        } else {
            self.current
        };
        self.current = stepped;
        proof {
            self.history@ = self.history@.push(stepped);
        }
        (self.current, self.total)
    }

    /// End the operation successfully: the final fraction is total / total,
    /// that is, exactly one.
    pub fn finish_success(&mut self) -> (frac: (u64, u64))
        requires
            old(self).wf(),
        ensures
            final(self).wf(),
            final(self).total() == old(self).total(),
            final(self).current() == final(self).total(),
            final(self).reported() == old(self).reported().push(final(self).total()),
            frac.0 == frac.1,
            frac.1 == final(self).total(),
    {
        self.current = self.total;
        proof {
            self.history@ = self.history@.push(self.total);
        }
        (self.current, self.total)
    }

    /// Whether the run has reached the whole total.
    pub fn is_complete(&self) -> (r: bool)
        ensures
            r == (self.current() == self.total()),
    {
        self.current == self.total
    }

    /// The latest fraction, as the pair (numerator, denominator).
    pub fn fraction(&self) -> (frac: (u64, u64))
        ensures
            frac.0 == self.current(),
            frac.1 == self.total(),
    {
        (self.current, self.total)
    }
}

/// Law: within one operation the fractions a monitor hands out are
/// monotonically non-decreasing — every earlier report is at most every later
/// one, not only its immediate neighbour.
pub proof fn lemma_reports_monotone(m: ProgressMonitor, i: int, j: int)
    requires
        m.wf(),
        0 <= i <= j < m.reported().len(),
    ensures
        m.reported()[i] <= m.reported()[j],
    decreases j - i,
{
    if i < j {
        lemma_reports_monotone(m, i + 1, j);
        assert(m.reported()[i] <= m.reported()[i + 1]);
    }
}

/// Law: a run that ended in `finish_success` has reported the fraction one
/// last: its final numerator equals its denominator.
pub proof fn lemma_success_ends_at_one(m: ProgressMonitor)
    requires
        m.wf(),
        m.current() == m.total(),
        m.reported().len() > 0,
    ensures
        m.reported().last() == m.total(),
{
}

} // verus!
