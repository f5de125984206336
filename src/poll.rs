use vstd::prelude::*;
use crate::dispatch::{outcome_of, DeliveryOutcome, SideOutcome};
use crate::record::{is_ended, CampaignRecord};
use crate::seen::SeenSet;
use crate::source::FetchError;

verus! {

/// Whether a record of a snapshot is to be announced: it has not ended and its
/// identifier has not been announced yet.
pub open spec fn should_deliver(seen: Set<Seq<char>>, r: CampaignRecord) -> bool {
    !is_ended(r) && !seen.contains(r.id@)
}

/// The announced identifiers after a delivery of `r` with the given outcome: the
/// identifier is added exactly when the primary channel took the announcement.
pub open spec fn seen_after(seen: Set<Seq<char>>, r: CampaignRecord, outcome: DeliveryOutcome) -> Set<
    Seq<char>,
> {
    if outcome.primary_succeeded {
        seen.insert(r.id@)
    } else {
        seen
    }
}

/// One pass of the poll loop over a fetched snapshot.
///
/// The records are visited in the order received; `next` is the first one not visited
/// yet. The caller delivers each record that `next_delivery` hands out, and reports the
/// outcome through `finish_delivery` before asking for the next one.
pub struct PollCycle {
    pub records: Vec<CampaignRecord>,
    pub next: usize,
}

impl PollCycle {
    pub open spec fn wf(&self) -> bool {
        self.next <= self.records.len()
    }

    /// A pass over the result of a fetch; a failed fetch gives a pass with nothing in it.
    pub fn from_fetch(fetched: Result<Vec<CampaignRecord>, FetchError>) -> (r: PollCycle)
        ensures
            r.wf(),
            r.next == 0,
            match fetched {
                Ok(v) => r.records@ == v@,
                Err(_) => r.records@.len() == 0,
            },
    {
        match fetched {
            Ok(records) => PollCycle { records, next: 0 },
            Err(_) => PollCycle { records: Vec::new(), next: 0 },
        }
    }

    /// Moves to the next record to announce and returns its index, or returns `None` when
    /// the snapshot holds no further one.
    pub fn next_delivery(&mut self, seen: &SeenSet) -> (r: Option<usize>)
        requires
            old(self).wf(),
        ensures
            final(self).wf(),
            final(self).records == old(self).records,
            match r {
                Some(i) => {
                    &&& old(self).next <= i < old(self).records.len()
                    &&& should_deliver(seen@, old(self).records@[i as int])
                    &&& forall|j: int|
                        old(self).next <= j < i ==> !should_deliver(
                            seen@,
                            #[trigger] old(self).records@[j],
                        )
                    &&& final(self).next == i + 1
                },
                None => {
                    &&& forall|j: int|
                        old(self).next <= j < old(self).records.len() ==> !should_deliver(
                            seen@,
                            #[trigger] old(self).records@[j],
                        )
                    &&& final(self).next == old(self).records.len()
                },
            },
    {
        let mut i: usize = self.next;
        while i < self.records.len()
            invariant
                self.records == old(self).records,
                old(self).next <= i <= self.records.len(),
                forall|j: int|
                    old(self).next <= j < i ==> !should_deliver(seen@, #[trigger] self.records@[j]),
            decreases self.records.len() - i,
        {
            let record = &self.records[i];
            if !record.is_ended() && seen.is_novel(&record.id) {
                self.next = i + 1;
                return Some(i);
            }
            i = i + 1;
        }
        self.next = i;
        None
    }

    /// Records the outcome of delivering record `index`: it counts as announced exactly
    /// when the primary channel took it.
    pub fn finish_delivery(&self, seen: &mut SeenSet, index: usize, outcome: DeliveryOutcome)
        requires
            old(seen).wf(),
            index < self.records.len(),
        ensures
            final(seen).wf(),
            final(seen)@ == seen_after(old(seen)@, self.records@[index as int], outcome),
    {
        if outcome.primary_succeeded {
            seen.mark_seen(&self.records[index].id);
        }
    }
}

/// A record with the terminal status is never announced, whether or not its identifier
/// has been seen.
pub proof fn ended_never_delivered(seen: Set<Seq<char>>, r: CampaignRecord)
    requires
        is_ended(r),
    ensures
        !should_deliver(seen, r),
{
}

/// A record whose announcement the primary channel took is added to the announced
/// identifiers, and a later snapshot that holds the same identifier does not announce it
/// again.
pub proof fn delivered_not_repeated(
    seen: Set<Seq<char>>,
    r: CampaignRecord,
    outcome: DeliveryOutcome,
    later: CampaignRecord,
)
    requires
        should_deliver(seen, r),
        outcome.primary_succeeded,
        later.id@ == r.id@,
    ensures
        seen_after(seen, r, outcome) == seen.insert(r.id@),
        !seen.contains(r.id@),
        seen_after(seen, r, outcome).contains(r.id@),
        !should_deliver(seen_after(seen, r, outcome), later),
{
}

/// A record whose announcement the primary channel did not take stays unannounced, and
/// the next snapshot that holds it tries again.
pub proof fn failed_delivery_retried(
    seen: Set<Seq<char>>,
    r: CampaignRecord,
    outcome: DeliveryOutcome,
)
    requires
        should_deliver(seen, r),
        !outcome.primary_succeeded,
    ensures
        seen_after(seen, r, outcome) == seen,
        !seen_after(seen, r, outcome).contains(r.id@),
        should_deliver(seen_after(seen, r, outcome), r),
{
}

/// Whatever the webhook reported, a record that the primary channel took is marked as
/// announced.
pub proof fn side_failure_still_marks_seen(
    seen: Set<Seq<char>>,
    r: CampaignRecord,
    side: SideOutcome,
)
    ensures
        seen_after(seen, r, outcome_of(true, side)) == seen.insert(r.id@),
{
}

} // verus!
