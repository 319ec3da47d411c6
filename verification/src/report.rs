//! The report of a run: one outcome for every artifact that was attempted,
//! and a marker for every family that could not be fetched.

use vstd::prelude::*;
use crate::publish::{OutcomeView, PublishOutcome};

verus! {

/// What came of one artifact.
#[derive(Clone, Debug, PartialEq, Eq)]
pub struct ReportEntry {
    pub path: String,
    pub outcome: PublishOutcome,
}

/// A report entry as a mathematical value.
pub ghost struct EntryView {
    pub path: Seq<char>,
    pub outcome: OutcomeView,
}

impl View for ReportEntry {
    type V = EntryView;

    open spec fn view(&self) -> EntryView {
        EntryView { path: self.path@, outcome: self.outcome@ }
    }
}

/// A family whose records could not be fetched.
#[derive(Clone, Debug, PartialEq, Eq)]
pub struct FamilyFailure {
    pub family: String,
    pub reason: String,
}

/// A family failure as a mathematical value.
pub ghost struct FamilyFailureView {
    pub family: Seq<char>,
    pub reason: Seq<char>,
}

impl View for FamilyFailure {
    type V = FamilyFailureView;

    open spec fn view(&self) -> FamilyFailureView {
        FamilyFailureView { family: self.family@, reason: self.reason@ }
    }
}

/// The report of a run.
#[derive(Clone, Debug, PartialEq, Eq)]
pub struct BatchReport {
    /// The outcomes, in the order in which they became known.
    pub outcomes: Vec<ReportEntry>,
    /// The families that could not be fetched, in the order of the run.
    pub family_failures: Vec<FamilyFailure>,
}

/// A report as a mathematical value.
pub ghost struct ReportView {
    pub outcomes: Seq<EntryView>,
    pub family_failures: Seq<FamilyFailureView>,
}

/// The views of a sequence of report entries, in order.
pub open spec fn entry_views(entries: Seq<ReportEntry>) -> Seq<EntryView> {
    Seq::new(entries.len(), |i: int| entries[i]@)
}

/// The views of a sequence of family failures, in order.
pub open spec fn family_failure_views(failures: Seq<FamilyFailure>) -> Seq<FamilyFailureView> {
    Seq::new(failures.len(), |i: int| failures[i]@)
}

impl View for BatchReport {
    type V = ReportView;

    open spec fn view(&self) -> ReportView {
        ReportView {
            outcomes: entry_views(self.outcomes@),
            family_failures: family_failure_views(self.family_failures@),
        }
    }
}

/// The entries that report a failure.
pub open spec fn failed_entries(outcomes: Seq<EntryView>) -> Seq<EntryView> {
    outcomes.filter(|e: EntryView| e.outcome is Failed)
}

/// How many units of a run failed: the artifacts that were not rendered or
/// not published, and the families that were not fetched.
pub open spec fn failure_count(report: ReportView) -> nat {
    failed_entries(report.outcomes).len() + report.family_failures.len()
}

/// The summary of a run in which something failed.
#[derive(Clone, Debug, PartialEq, Eq)]
pub struct PartialBatchFailure {
    /// How many artifacts were not rendered or not published.
    pub failed_artifacts: usize,
    /// How many families could not be fetched.
    pub failed_families: usize,
    /// How many artifacts were attempted.
    pub attempted: usize,
}

impl BatchReport {
    /// The report of a run in which nothing has happened yet.
    pub fn new() -> (out: BatchReport)
        ensures
            out@.outcomes == Seq::<EntryView>::empty(),
            out@.family_failures == Seq::<FamilyFailureView>::empty(),
    {
        BatchReport { outcomes: Vec::new(), family_failures: Vec::new() }
    }

    /// Appends the outcome of one artifact.
    pub fn record(&mut self, path: String, outcome: PublishOutcome)
        ensures
            final(self)@.outcomes == old(self)@.outcomes.push(
                EntryView { path: path@, outcome: outcome@ },
            ),
            final(self)@.family_failures == old(self)@.family_failures,
    {
        self.outcomes.push(ReportEntry { path, outcome });
    }

    /// Appends the marker of a family that could not be fetched.
    pub fn record_family_failure(&mut self, family: String, reason: String)
        ensures
            final(self)@.outcomes == old(self)@.outcomes,
            final(self)@.family_failures == old(self)@.family_failures.push(
                FamilyFailureView { family: family@, reason: reason@ },
            ),
    {
        self.family_failures.push(FamilyFailure { family, reason });
    }

    /// How many artifacts were not rendered or not published.
    pub fn failed_artifacts(&self) -> (out: usize)
        ensures
            out == failed_entries(self@.outcomes).len(),
    {
        let ghost pred = |e: EntryView| e.outcome is Failed;
        let mut count: usize = 0;
        let mut i: usize = 0;
        assert(self@.outcomes.take(0) =~= Seq::empty());
        while i < self.outcomes.len()
            invariant
                i <= self.outcomes.len(),
                count <= i,
                pred == (|e: EntryView| e.outcome is Failed),
                count == self@.outcomes.take(i as int).filter(pred).len(),
            decreases self.outcomes.len() - i,
        {
            proof {
                let front = self@.outcomes.take(i as int);
                assert(self@.outcomes.take(i + 1) =~= front.push(self.outcomes@[i as int]@));
                front.lemma_filter_push(self.outcomes@[i as int]@, pred);
            }
            if self.outcomes[i].outcome.is_failure() {
                count = count + 1;
            }
            i = i + 1;
        }
        assert(self@.outcomes.take(self.outcomes@.len() as int) =~= self@.outcomes);
        count
    }

    /// Whether any unit of the run failed.
    pub fn has_failures(&self) -> (out: bool)
        ensures
            out == (failure_count(self@) > 0),
    {
        self.failed_artifacts() > 0 || self.family_failures.len() > 0
    }

    /// The verdict on a run: `Ok` where nothing failed, and otherwise the
    /// counts of what failed.
    pub fn summary(&self) -> (out: Result<(), PartialBatchFailure>)
        ensures
            out is Ok <==> failure_count(self@) == 0,
            out matches Err(failure) ==> {
                &&& failure.failed_artifacts == failed_entries(self@.outcomes).len()
                &&& failure.failed_families == self@.family_failures.len()
                &&& failure.attempted == self@.outcomes.len()
            },
    {
        let failed_artifacts = self.failed_artifacts();
        let failed_families = self.family_failures.len();
        if failed_artifacts == 0 && failed_families == 0 {
            Ok(())
        } else {
            Err(
                PartialBatchFailure {
                    failed_artifacts,
                    failed_families,
                    attempted: self.outcomes.len(),
                },
            )
        }
    }
}

} // verus!
