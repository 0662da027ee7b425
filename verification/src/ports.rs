//! Port allocation: scan an inclusive port range in ascending order and pick
//! the first port whose trial bind succeeded.
//!
//! Binding a local TCP listener is outside work; the library sees each
//! probe's outcome as a boolean. `find_available_port` decides over a
//! recorded sequence of outcomes, and `PortScan` hands the candidates to the
//! caller one at a time, in the same order, so a driver can probe lazily and
//! stop at the first success.

use vstd::prelude::*;

verus! {

/// The first port of `[start, end]` whose probe outcome in `avail` is true,
/// where `avail[i]` is the outcome for port `start + i`.
pub open spec fn first_free_port(start: int, end: int, avail: Seq<bool>) -> Option<u16>
    recommends
        0 <= start <= end <= u16::MAX,
        avail.len() == end - start + 1,
    decreases avail.len(),
{
    if avail.len() == 0 {
        None
    } else if avail[0] {
        Some(start as u16)
    } else {
        first_free_port(start + 1, end, avail.skip(1))
    }
}

/// Skipping the first `i` probe outcomes does not change the scan result when
/// none of them was a success.
proof fn lemma_first_free_port_skip(start: int, end: int, avail: Seq<bool>, i: int)
    requires
        0 <= start <= end + 1,
        end <= u16::MAX,
        avail.len() == end - start + 1,
        0 <= i <= avail.len(),
        forall|j: int| 0 <= j < i ==> !avail[j],
    ensures
        first_free_port(start, end, avail) == first_free_port(start + i, end, avail.skip(i)),
    decreases i,
{
    if i == 0 {
        assert(avail.skip(0) =~= avail);
    } else {
        lemma_first_free_port_skip(start, end, avail, i - 1);
        assert(avail.skip(i - 1).len() > 0);
        assert(!avail.skip(i - 1)[0]);
        assert(avail.skip(i - 1).skip(1) =~= avail.skip(i));
        assert(first_free_port(start + (i - 1), end, avail.skip(i - 1)) == first_free_port(
            start + (i - 1) + 1,
            end,
            avail.skip(i - 1).skip(1),
        ));
    }
}

/// The scan result is the first success: a port in range whose outcome was
/// true, with only failed outcomes before it; or nothing when every outcome
/// failed.
pub proof fn lemma_first_free_port_characterization(start: int, end: int, avail: Seq<bool>)
    requires
        0 <= start <= end + 1,
        end <= u16::MAX,
        avail.len() == end - start + 1,
    ensures
        match first_free_port(start, end, avail) {
            Some(p) => {
                &&& start <= p <= end
                &&& avail[p - start]
                &&& forall|j: int| 0 <= j < p - start ==> !avail[j]
            },
            None => forall|j: int| 0 <= j < avail.len() ==> !avail[j],
        },
    decreases avail.len(),
{
    if avail.len() > 0 && !avail[0] {
        lemma_first_free_port_characterization(start + 1, end, avail.skip(1));
        assert forall|j: int| 1 <= j < avail.len() implies avail[j] == avail.skip(1)[j - 1] by {
            assert(avail.skip(1)[j - 1] == avail[j]);
        }
    }
}

/// Law: a range that contains at least one free port yields a port within
/// that inclusive range, and that port's own trial bind succeeded.
pub proof fn lemma_range_with_free_port_yields_one(start: int, end: int, avail: Seq<bool>)
    requires
        0 <= start <= end <= u16::MAX,
        avail.len() == end - start + 1,
        exists|i: int| 0 <= i < avail.len() && avail[i],
    ensures
        first_free_port(start, end, avail) matches Some(p)
            && start <= p <= end
            && avail[p - start],
{
    lemma_first_free_port_characterization(start, end, avail);
    if first_free_port(start, end, avail) is None {
        let i = choose|i: int| 0 <= i < avail.len() && avail[i];
        assert(!avail[i]);
    }
}

/// Law: a range with no free port yields nothing -- not an error, and the
/// scan function itself cannot fail in any other way.
pub proof fn lemma_range_exhausted_yields_none(start: int, end: int, avail: Seq<bool>)
    requires
        0 <= start <= end <= u16::MAX,
        avail.len() == end - start + 1,
        forall|i: int| 0 <= i < avail.len() ==> !avail[i],
    ensures
        first_free_port(start, end, avail) is None,
{
    lemma_first_free_port_characterization(start, end, avail);
}

/// Find the first available port in the inclusive range `[start, end]`,
/// given the recorded probe outcome for every port of the range.
pub fn find_available_port(start: u16, end: u16, available: &Vec<bool>) -> (r: Option<u16>)
    requires
        start <= end,
        available@.len() == end - start + 1,
    ensures
        r == first_free_port(start as int, end as int, available@),
{
    let len: usize = available.len();
    let mut i: usize = 0;
    while i < len
        invariant
            start <= end,
            available@.len() == end - start + 1,
            len == available@.len(),
            0 <= i <= len,
            forall|j: int| 0 <= j < i ==> !available@[j],
        decreases len - i,
    {
        if available[i] {
            proof {
                lemma_first_free_port_skip(start as int, end as int, available@, i as int);
                assert(available@.skip(i as int)[0]);
            }
            return Some(start + (i as u16));
        }
        i += 1;
    }
    proof {
        lemma_first_free_port_skip(start as int, end as int, available@, len as int);
    }
    None
}

/// An ascending scan over the inclusive port range `[next, end]`.
///
/// A driver repeatedly reads `candidate`, performs the trial bind outside the
/// library, and either keeps the port or calls `advance`; the candidates come
/// out as `start, start + 1, ..., end`, then `None` forever.
pub struct PortScan {
    pub next: u16,
    pub end: u16,
    pub exhausted: bool,
}

impl PortScan {
    /// A scan is well formed while its candidates stay inside the range it
    /// was created over.
    pub open spec fn wf(&self) -> bool {
        !self.exhausted ==> self.next <= self.end
    }

    /// Start a scan of the inclusive range `[start, end]`.
    pub fn new(start: u16, end: u16) -> (s: Self)
        requires
            start <= end,
        ensures
            s.wf(),
            !s.exhausted,
            s.next == start,
            s.end == end,
    {
        PortScan { next: start, end, exhausted: false }
    }

    /// The next port to probe, or nothing once the range is exhausted.
    pub fn candidate(&self) -> (r: Option<u16>)
        ensures
            r == (if self.exhausted {
                Option::<u16>::None
            } else {
                Option::Some(self.next)
            }),
    {
        if self.exhausted {
            None
        } else {
            Some(self.next)
        }
    }

    /// Give up on the current candidate and move to the next one.
    pub fn advance(&mut self)
        requires
            old(self).wf(),
            !old(self).exhausted,
        ensures
            final(self).wf(),
            final(self).end == old(self).end,
            old(self).next < old(self).end ==> !final(self).exhausted
                && final(self).next == old(self).next + 1,
            old(self).next == old(self).end ==> final(self).exhausted,
    {
        if self.next < self.end {
            self.next += 1;
        } else {
            self.exhausted = true;
        }
    }
}

} // verus!
