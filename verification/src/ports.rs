//! The port allocator: a scan over a bounded port range, in increasing
//! order, for the first port whose bind-then-release probe succeeds. The
//! probe itself is I/O the caller performs; the scanner only tracks the
//! scan and decides, and `scan_outcome` runs the whole scan over probe
//! outcomes already observed.

use vstd::prelude::*;

verus! {

/// The first port of `[lo, lo + free.len())` whose probe outcome (given
/// in port order) is a success, if any.
pub open spec fn first_free(lo: int, free: Seq<bool>) -> Option<int>
    decreases free.len(),
{
    if free.len() == 0 {
        None
    } else if free[0] {
        Some(lo)
    } else {
        first_free(lo + 1, free.drop_first())
    }
}

/// The scan's position inside a port range: ports before `next_port` have
/// been probed and found taken; `end` is exclusive.
#[derive(Clone, Copy, Debug)]
pub struct PortScanner {
    pub next_port: u16,
    pub end: u16,
}

impl PortScanner {
    pub open spec fn wf(self) -> bool {
        self.next_port <= self.end
    }

    /// A scan that has probed nothing yet.
    pub fn new(lo: u16, hi: u16) -> (r: PortScanner)
        requires
            lo <= hi,
        ensures
            r == (PortScanner { next_port: lo, end: hi }),
    {
        PortScanner { next_port: lo, end: hi }
    }

    /// The port to probe next, or `None` once the range is exhausted.
    pub fn current(&self) -> (r: Option<u16>)
        ensures
            r == (if self.next_port < self.end {
                Some(self.next_port)
            } else {
                None::<u16>
            }),
    {
        if self.next_port < self.end {
            Some(self.next_port)
        } else {
            None
        }
    }

    /// The current port's probe failed: move past it.
    pub fn mark_taken(&mut self)
        requires
            old(self).next_port < old(self).end,
        ensures
            final(self).next_port == old(self).next_port + 1,
            final(self).end == old(self).end,
    {
        self.next_port = self.next_port + 1;
    }
}

/// Runs a whole scan of `[lo, lo + free.len())` against probe outcomes
/// already observed, one per port in order: exactly the first port whose
/// probe succeeded, or `None` if every port in the range was taken.
pub fn scan_outcome(lo: u16, free: &Vec<bool>) -> (r: Option<u16>)
    requires
        lo + free.len() <= u16::MAX,
    ensures
        r is Some <==> first_free(lo as int, free@) is Some,
        r is Some ==> first_free(lo as int, free@) == Some(r->0 as int),
        r is Some ==> lo <= r->0 < lo + free.len() && free@[r->0 - lo],
{
    let end: u16 = lo + free.len() as u16;
    let mut scanner = PortScanner::new(lo, end);
    proof {
        assert(free@.skip(0) =~= free@);
    }
    loop
        invariant
            scanner.end == end,
            end == lo + free@.len(),
            lo <= scanner.next_port <= end,
            first_free(lo as int, free@) == first_free(
                scanner.next_port as int,
                free@.skip(scanner.next_port - lo),
            ),
        decreases end - scanner.next_port,
    {
        let ghost pos = scanner.next_port as int;
        let ghost rest = free@.skip(pos - lo);
        match scanner.current() {
            None => {
                assert(rest.len() == 0);
                return None;
            },
            Some(p) => {
                assert(rest.len() > 0 && rest[0] == free@[pos - lo]);
                if free[(p - lo) as usize] {
                    assert(first_free(lo as int, free@) == Some(pos));
                    return Some(p);
                }
                scanner.mark_taken();
                proof {
                    assert(rest.drop_first() =~= free@.skip(pos + 1 - lo));
                }
            },
        }
    }
}

/// First-bindable-port law: if `p` lies in the scanned range, its probe
/// succeeds, and the probe of every port before it fails, then the scan
/// yields exactly `p`.
pub proof fn lemma_scan_finds_first(lo: int, free: Seq<bool>, p: int)
    requires
        lo <= p < lo + free.len(),
        free[p - lo],
        forall|q: int| lo <= q < p ==> !#[trigger] free[q - lo],
    ensures
        first_free(lo, free) == Some(p),
    decreases p - lo,
{
    if p == lo {
    } else {
        assert(!free[lo - lo]);
        assert(!free[0]);
        assert forall|q: int| lo + 1 <= q < p implies !#[trigger] free.drop_first()[q - (lo + 1)] by {
            assert(free.drop_first()[q - (lo + 1)] == free[q - lo]);
        }
        assert(free.drop_first()[p - (lo + 1)] == free[p - lo]);
        lemma_scan_finds_first(lo + 1, free.drop_first(), p);
    }
}

/// Exhaustion law: if no port in the range is bindable, the scan yields
/// nothing.
pub proof fn lemma_scan_exhausts(lo: int, free: Seq<bool>)
    requires
        forall|q: int| 0 <= q < free.len() ==> !#[trigger] free[q],
    ensures
        first_free(lo, free) is None,
    decreases free.len(),
{
    if free.len() > 0 {
        lemma_scan_exhausts(lo + 1, free.drop_first());
    }
}

} // verus!
