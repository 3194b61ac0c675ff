//! Scan for a free port in a configured range, in ascending order.
//!
//! The scan itself cannot bind sockets: the surrounding program tries a
//! listening bind on each candidate and reports the outcome. `PortScan`
//! keeps the position; the lemmas below say that a scan driven by the true
//! availability of each port stops at the smallest free port, and finds
//! none exactly when the whole range is occupied. The transient bind is a
//! best-effort check, not a reservation: the port can be taken again
//! between the scan and its eventual use.

use vstd::prelude::*;

verus! {

/// The smallest free port in `lo .. end`, given the availability of every
/// port as a map.
pub open spec fn first_free_in(free: Map<u16, bool>, lo: u16, end: u16) -> Option<u16>
    decreases end - lo,
{
    if lo >= end {
        None
    } else if free[lo] {
        Some(lo)
    } else {
        first_free_in(free, (lo + 1) as u16, end)
    }
}

/// What `first_free_in` returns: the smallest free port of the range when
/// one exists, nothing when the range is fully occupied.
pub proof fn lemma_first_free_smallest(free: Map<u16, bool>, lo: u16, end: u16)
    ensures
        match first_free_in(free, lo, end) {
            Some(p) => lo <= p < end && free[p] && (forall|q: u16| lo <= q < p ==> !free[q]),
            None => forall|q: u16| lo <= q < end ==> !free[q],
        },
    decreases end - lo,
{
    if lo >= end {
    } else if free[lo] {
    } else {
        lemma_first_free_smallest(free, (lo + 1) as u16, end);
    }
}

/// Position of an in-progress scan over the candidates `start .. end`.
pub struct PortScan {
    /// First port of the range.
    pub start: u16,
    /// One past the last port of the range.
    pub end: u16,
    /// Next candidate; everything in `start .. next` was reported busy.
    pub next: u16,
}

impl PortScan {
    pub open spec fn wf(self) -> bool {
        self.start <= self.next <= self.end
    }

    /// Every candidate the scan has passed over is occupied in `free`.
    /// The surrounding program maintains this by calling `mark_busy`
    /// exactly when the listening bind on the candidate failed.
    pub open spec fn ruled_out(self, free: Map<u16, bool>) -> bool {
        forall|q: u16| self.start <= q < self.next ==> !free[q]
    }

    pub fn new(start: u16, end: u16) -> (r: PortScan)
        requires
            start <= end,
        ensures
            r.wf(),
            r.start == start,
            r.end == end,
            r.next == start,
    {
        PortScan { start, end, next: start }
    }

    /// The port to try next, or nothing once the range is exhausted.
    pub fn candidate(&self) -> (r: Option<u16>)
        requires
            self.wf(),
        ensures
            r == (if self.next < self.end {
                Some(self.next)
            } else {
                None::<u16>
            }),
    {
        if self.next < self.end {
            Some(self.next)
        } else {
            None
        }
    }

    /// The current candidate could not be bound: move past it.
    pub fn mark_busy(&mut self)
        requires
            old(self).wf(),
            old(self).next < old(self).end,
        ensures
            final(self).wf(),
            final(self).start == old(self).start,
            final(self).end == old(self).end,
            final(self).next == old(self).next + 1,
    {
        self.next = self.next + 1;
    }
}

/// Ports ruled out so far stay ruled out below a later position.
proof fn lemma_first_free_skip(free: Map<u16, bool>, lo: u16, mid: u16, end: u16)
    requires
        lo <= mid <= end,
        forall|q: u16| lo <= q < mid ==> !free[q],
    ensures
        first_free_in(free, lo, end) == first_free_in(free, mid, end),
    decreases mid - lo,
{
    if lo < mid {
        lemma_first_free_skip(free, (lo + 1) as u16, mid, end);
    }
}

/// A scan whose passed-over candidates were all truly occupied, and whose
/// current candidate is free, has found the smallest free port of its
/// range.
pub proof fn lemma_scan_found_is_smallest(s: PortScan, free: Map<u16, bool>)
    requires
        s.wf(),
        s.ruled_out(free),
        s.next < s.end,
        free[s.next],
    ensures
        first_free_in(free, s.start, s.end) == Some(s.next),
        forall|q: u16| s.start <= q < s.next ==> !free[q],
{
    lemma_first_free_skip(free, s.start, s.next, s.end);
}

/// A scan that ran out of candidates, each truly occupied, scanned a fully
/// occupied range: there is no free port in it.
pub proof fn lemma_scan_exhausted(s: PortScan, free: Map<u16, bool>)
    requires
        s.wf(),
        s.ruled_out(free),
        s.next == s.end,
    ensures
        first_free_in(free, s.start, s.end) is None,
        forall|q: u16| s.start <= q < s.end ==> !free[q],
{
    lemma_first_free_skip(free, s.start, s.end, s.end);
}

} // verus!
