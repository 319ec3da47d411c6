//! Driving a run over all families.
//!
//! The orchestrator decides and the caller acts: the caller asks for the
//! [`Action`] that is due, performs it against the record source or the
//! destination store, and hands back what came of it as an [`Event`]. A
//! failure is recorded for the unit that it befell, and the run goes on with
//! the next unit.

use vstd::prelude::*;
use vstd::string::StringExecFns;
use crate::artifact::{
    rendering_view, rendering_views, ArtifactSpec, ArtifactSpecView, ArtifactView, FailureView,
    RenderFailure, RenderedArtifact,
};
use crate::errors::{
    lemma_readable_is_not_empty, readable, readable_reason, SourceError, StoreError,
};
use crate::partition::partitions;
use crate::publish::{
    after_read, after_write, carries_reason, lemma_failures_carry_a_reason, outcome_after_write,
    place_of, published, read_at, resolve_branch, resolved_branch, step_after_read, write_error,
    OutcomeView, PublishOutcome, PublishStep, ReadView, StepView, StoreModel, StoreRead,
};
use crate::records::{views, ShortUrl};
use crate::renderer::{are_renderings_of, render_family};
use crate::report::{
    entry_views, BatchReport, EntryView, FamilyFailureView, ReportEntry, ReportView,
};

verus! {

/// A family of artifacts under the name by which its records are fetched.
#[derive(Clone, Debug, PartialEq, Eq)]
pub struct Family {
    pub id: String,
    pub spec: ArtifactSpec,
}

/// A family as a mathematical value.
pub ghost struct FamilyView {
    pub id: Seq<char>,
    pub spec: ArtifactSpecView,
}

impl View for Family {
    type V = FamilyView;

    open spec fn view(&self) -> FamilyView {
        FamilyView { id: self.id@, spec: self.spec@ }
    }
}

/// What the caller reports back.
#[derive(Debug, PartialEq, Eq)]
pub enum Event {
    /// The records of the family that was asked for, or why they could not be
    /// fetched.
    Records(Result<Vec<ShortUrl>, SourceError>),
    /// What the store holds at the place that was asked for.
    Content(StoreRead),
    /// Whether the write that was asked for went through.
    Written(Result<(), StoreError>),
}

/// What the caller is to do next.
#[derive(Clone, Debug, PartialEq, Eq)]
pub enum Action {
    /// Fetch the records of a family.
    Fetch { family: String },
    /// Read the store at a path on a branch.
    Read { path: String, branch: String },
    /// Write content at a path on a branch; `replaces` says whether content
    /// is there to be overwritten.
    Write { path: String, branch: String, content: Vec<u8>, replaces: bool },
    /// The run is over.
    Finish,
}

/// An action as a mathematical value.
pub ghost enum ActionView {
    Fetch { family: Seq<char> },
    Read { path: Seq<char>, branch: Seq<char> },
    Write { path: Seq<char>, branch: Seq<char>, content: Seq<u8>, replaces: bool },
    Finish,
}

impl View for Action {
    type V = ActionView;

    open spec fn view(&self) -> ActionView {
        match self {
            Action::Fetch { family } => ActionView::Fetch { family: family@ },
            Action::Read { path, branch } => ActionView::Read { path: path@, branch: branch@ },
            Action::Write { path, branch, content, replaces } => ActionView::Write {
                path: path@,
                branch: branch@,
                content: content@,
                replaces: *replaces,
            },
            Action::Finish => ActionView::Finish,
        }
    }
}

/// The state of a run as a mathematical value.
pub ghost struct RunView {
    /// The primary branch of the destination store.
    pub primary: Seq<char>,
    pub families: Seq<FamilyView>,
    /// How many families have been dealt with.
    pub next_family: nat,
    /// The artifacts of the family last fetched.
    pub queue: Seq<ArtifactView>,
    /// How many artifacts of the queue have been dealt with.
    pub next_artifact: nat,
    /// `Some` while a write for the current artifact is awaited.
    pub replaces: Option<bool>,
    pub report: ReportView,
    /// How many artifacts have been attempted so far: those that could not
    /// be rendered and those that were queued for publishing.
    pub attempted: nat,
    /// Whether the run was told to stop.
    pub cancelled: bool,
}

impl RunView {
    /// The invariant of a run: the cursors are in range, a write is awaited
    /// only for an artifact of the queue, every attempted artifact is either
    /// reported, once, or still waiting in the queue, and every failure in
    /// the report says why.
    pub open spec fn wf(self) -> bool {
        &&& self.next_family <= self.families.len()
        &&& self.next_artifact <= self.queue.len()
        &&& self.next_artifact == self.queue.len() ==> self.replaces is None
        &&& self.report.outcomes.len() + (self.queue.len() - self.next_artifact) == self.attempted
        &&& says_why(self.report)
    }

    /// The action that is due: the read or the write for the current
    /// artifact; with the queue done, the fetch of the next family; with the
    /// families done, the end. A run that was told to stop begins nothing
    /// new: it still asks for the write that its current artifact is waiting
    /// for, and then ends.
    pub open spec fn action(self) -> ActionView {
        if self.next_artifact < self.queue.len() && self.replaces is Some {
            let artifact = self.queue[self.next_artifact as int];
            ActionView::Write {
                path: artifact.path,
                branch: resolved_branch(artifact, self.primary),
                content: artifact.content,
                replaces: self.replaces->0,
            }
        } else if self.cancelled {
            ActionView::Finish
        } else if self.next_artifact < self.queue.len() {
            let artifact = self.queue[self.next_artifact as int];
            ActionView::Read {
                path: artifact.path,
                branch: resolved_branch(artifact, self.primary),
            }
        } else if self.next_family < self.families.len() {
            ActionView::Fetch { family: self.families[self.next_family as int].id }
        } else {
            ActionView::Finish
        }
    }

    /// The run with the current artifact reported and the next one current.
    pub open spec fn reported(self, outcome: OutcomeView) -> RunView {
        RunView {
            report: ReportView {
                outcomes: self.report.outcomes.push(
                    EntryView { path: self.queue[self.next_artifact as int].path, outcome },
                ),
                ..self.report
            },
            next_artifact: self.next_artifact + 1,
            replaces: None,
            ..self
        }
    }

    /// The run after the store was read for the current artifact.
    pub open spec fn after_content(self, current: ReadView) -> RunView {
        match step_after_read(self.queue[self.next_artifact as int].content, current) {
            StepView::Done(outcome) => self.reported(outcome),
            StepView::Write { replaces } => RunView { replaces: Some(replaces), ..self },
        }
    }

    /// The run after the write for the current artifact was tried.
    pub open spec fn after_written(self, error: Option<Seq<char>>) -> RunView {
        self.reported(outcome_after_write(self.replaces->0, error))
    }

    /// The run after the records of the current family could not be
    /// fetched: the family is marked, with the source's reason made readable.
    pub open spec fn after_fetch_failed(self, reason: Seq<char>) -> RunView {
        RunView {
            report: ReportView {
                family_failures: self.report.family_failures.push(
                    FamilyFailureView {
                        family: self.families[self.next_family as int].id,
                        reason: readable(reason),
                    },
                ),
                ..self.report
            },
            next_family: self.next_family + 1,
            ..self
        }
    }

    /// The run after the current family was rendered: its failures are
    /// reported and its artifacts are queued for publishing.
    pub open spec fn after_rendered(
        self,
        entries: Seq<Result<ArtifactView, FailureView>>,
    ) -> RunView {
        RunView {
            report: ReportView {
                outcomes: self.report.outcomes + render_failures(entries),
                ..self.report
            },
            queue: rendered_artifacts(entries),
            next_artifact: 0,
            next_family: self.next_family + 1,
            attempted: self.attempted + entries.len(),
            ..self
        }
    }
}

/// Whether every failure in the report says why: no failed outcome and no
/// family marker has an empty reason.
pub open spec fn says_why(report: ReportView) -> bool {
    &&& forall|i: int|
        0 <= i < report.outcomes.len() ==> carries_reason((#[trigger] report.outcomes[i]).outcome)
    &&& forall|i: int|
        0 <= i < report.family_failures.len() ==> (#[trigger] report.family_failures[i]).reason.len()
            > 0
}

/// The artifacts among the entries of a rendered family, in order.
pub open spec fn rendered_artifacts(
    entries: Seq<Result<ArtifactView, FailureView>>,
) -> Seq<ArtifactView>
    decreases entries.len(),
{
    if entries.len() == 0 {
        Seq::empty()
    } else {
        let front = rendered_artifacts(entries.drop_last());
        match entries.last() {
            Ok(artifact) => front.push(artifact),
            Err(_) => front,
        }
    }
}

/// The report entries for the failures among the entries of a rendered
/// family, in order, each with its reason made readable.
pub open spec fn render_failures(
    entries: Seq<Result<ArtifactView, FailureView>>,
) -> Seq<EntryView>
    decreases entries.len(),
{
    if entries.len() == 0 {
        Seq::empty()
    } else {
        let front = render_failures(entries.drop_last());
        match entries.last() {
            Ok(_) => front,
            Err(failure) => front.push(
                EntryView {
                    path: failure.path,
                    outcome: OutcomeView::Failed(readable(failure.reason)),
                },
            ),
        }
    }
}

/// Every entry of a rendered family is an artifact or a failure, and every
/// failure is reported with a reason.
pub proof fn lemma_entries_split(entries: Seq<Result<ArtifactView, FailureView>>)
    ensures
        rendered_artifacts(entries).len() + render_failures(entries).len() == entries.len(),
        forall|i: int|
            0 <= i < render_failures(entries).len() ==> carries_reason(
                (#[trigger] render_failures(entries)[i]).outcome,
            ),
    decreases entries.len(),
{
    if entries.len() > 0 {
        lemma_entries_split(entries.drop_last());
        if let Err(failure) = entries.last() {
            lemma_readable_is_not_empty(failure.reason);
        }
    }
}

/// Reporting an outcome that says why, where it is a failure, keeps the
/// invariant of a run whose current artifact is in the queue.
pub proof fn lemma_reporting_keeps_the_invariant(run: RunView, outcome: OutcomeView)
    requires
        run.wf(),
        run.next_artifact < run.queue.len(),
        carries_reason(outcome),
    ensures
        run.reported(outcome).wf(),
{
    let next = run.reported(outcome);
    assert forall|i: int| 0 <= i < next.report.outcomes.len() implies carries_reason(
        (#[trigger] next.report.outcomes[i]).outcome,
    ) by {
        if i < run.report.outcomes.len() {
            assert(next.report.outcomes[i] == run.report.outcomes[i]);
        }
    }
}

/// Marking a family as failed keeps the invariant of a run that has a
/// family left.
pub proof fn lemma_marking_keeps_the_invariant(run: RunView, reason: Seq<char>)
    requires
        run.wf(),
        run.next_family < run.families.len(),
    ensures
        run.after_fetch_failed(reason).wf(),
{
    lemma_readable_is_not_empty(reason);
    let next = run.after_fetch_failed(reason);
    assert forall|i: int| 0 <= i < next.report.family_failures.len() implies (
    #[trigger] next.report.family_failures[i]).reason.len() > 0 by {
        if i < run.report.family_failures.len() {
            assert(next.report.family_failures[i] == run.report.family_failures[i]);
        }
    }
}

/// Taking in the entries of a rendered family keeps the invariant of a run
/// whose queue is done and that has a family left.
pub proof fn lemma_taking_in_keeps_the_invariant(
    run: RunView,
    entries: Seq<Result<ArtifactView, FailureView>>,
)
    requires
        run.wf(),
        run.next_artifact == run.queue.len(),
        run.next_family < run.families.len(),
    ensures
        run.after_rendered(entries).wf(),
{
    lemma_entries_split(entries);
    let next = run.after_rendered(entries);
    assert forall|i: int| 0 <= i < next.report.outcomes.len() implies carries_reason(
        (#[trigger] next.report.outcomes[i]).outcome,
    ) by {
        if i < run.report.outcomes.len() {
            assert(next.report.outcomes[i] == run.report.outcomes[i]);
        } else {
            assert(next.report.outcomes[i] == render_failures(entries)[i
                - run.report.outcomes.len()]);
        }
    }
}

/// A read that fails is recorded for the artifact that it was made for and
/// for no other: the entries before it stay, the queue stays, and the next
/// artifact of the queue becomes due with a read of its own.
pub proof fn lemma_failed_read_is_isolated(run: RunView, reason: Seq<char>)
    requires
        run.wf(),
        run.action() is Read,
    ensures
        ({
            let next = run.after_content(ReadView::Failed(reason));
            &&& next.wf()
            &&& next.report.outcomes == run.report.outcomes.push(
                EntryView {
                    path: run.queue[run.next_artifact as int].path,
                    outcome: OutcomeView::Failed(readable(reason)),
                },
            )
            &&& next.report.family_failures == run.report.family_failures
            &&& next.queue == run.queue
            &&& next.families == run.families
            &&& next.next_family == run.next_family
            &&& next.next_artifact == run.next_artifact + 1
            &&& next.next_artifact < next.queue.len() ==> next.action() == (ActionView::Read {
                path: run.queue[(run.next_artifact + 1) as int].path,
                branch: resolved_branch(run.queue[(run.next_artifact + 1) as int], run.primary),
            })
        }),
{
    lemma_readable_is_not_empty(reason);
    lemma_reporting_keeps_the_invariant(run, OutcomeView::Failed(readable(reason)));
}

/// A write that fails is recorded for the artifact that it was made for and
/// for no other: the entries before it stay, the queue stays, and the next
/// artifact of the queue becomes due with a read of its own, unless the run
/// was told to stop.
pub proof fn lemma_failed_write_is_isolated(run: RunView, reason: Seq<char>)
    requires
        run.wf(),
        run.action() is Write,
    ensures
        ({
            let next = run.after_written(Some(reason));
            &&& next.wf()
            &&& next.report.outcomes == run.report.outcomes.push(
                EntryView {
                    path: run.queue[run.next_artifact as int].path,
                    outcome: OutcomeView::Failed(readable(reason)),
                },
            )
            &&& next.report.family_failures == run.report.family_failures
            &&& next.queue == run.queue
            &&& next.families == run.families
            &&& next.next_family == run.next_family
            &&& next.next_artifact == run.next_artifact + 1
            &&& !run.cancelled && next.next_artifact < next.queue.len() ==> next.action() == (
            ActionView::Read {
                path: run.queue[(run.next_artifact + 1) as int].path,
                branch: resolved_branch(run.queue[(run.next_artifact + 1) as int], run.primary),
            })
        }),
{
    lemma_readable_is_not_empty(reason);
    lemma_reporting_keeps_the_invariant(run, OutcomeView::Failed(readable(reason)));
}

/// A fetch that fails is recorded for its family and for no other: the
/// outcomes stay as they are, and the next family becomes due.
pub proof fn lemma_failed_fetch_is_isolated(run: RunView, reason: Seq<char>)
    requires
        run.wf(),
        run.action() is Fetch,
    ensures
        ({
            let next = run.after_fetch_failed(reason);
            &&& next.wf()
            &&& next.report.outcomes == run.report.outcomes
            &&& next.report.family_failures == run.report.family_failures.push(
                FamilyFailureView {
                    family: run.families[run.next_family as int].id,
                    reason: readable(reason),
                },
            )
            &&& next.families == run.families
            &&& next.next_family == run.next_family + 1
            &&& next.next_family < next.families.len() ==> next.action() == (ActionView::Fetch {
                family: run.families[(run.next_family + 1) as int].id,
            })
        }),
{
    lemma_marking_keeps_the_invariant(run, reason);
}

/// A family without records asks nothing of the store: its rendering has
/// no entries, the report stays as it is, and what becomes due is the fetch
/// of the next family or the end of the run.
pub proof fn lemma_no_records_no_store_action(
    run: RunView,
    entries: Seq<Result<ArtifactView, FailureView>>,
    branch: Option<Seq<char>>,
)
    requires
        run.wf(),
        run.action() is Fetch,
        are_renderings_of(
            entries,
            run.families[run.next_family as int].spec,
            partitions(Seq::empty()),
            branch,
        ),
    ensures
        entries.len() == 0,
        run.after_rendered(entries).wf(),
        run.after_rendered(entries).report == run.report,
        run.after_rendered(entries).action() is Fetch || run.after_rendered(entries).action() is Finish,
{
    assert(run.report.outcomes + render_failures(entries) =~= run.report.outcomes);
}

/// When a run is over that nobody told to stop, the report holds one
/// outcome for every artifact that was attempted.
pub proof fn lemma_finished_run_reports_every_artifact(run: RunView)
    requires
        run.wf(),
        run.action() is Finish,
        !run.cancelled,
    ensures
        run.report.outcomes.len() == run.attempted,
{
}

/// A run publishes as the publisher does. Against a store that answers every
/// request, the read and the write, if any, that the run asks for the
/// current artifact end in the report of the publisher's outcome for that
/// artifact, and a write is asked for exactly when the publisher writes.
pub proof fn lemma_run_publishes_as_the_publisher_does(run: RunView, store: StoreModel)
    requires
        run.wf(),
        run.action() is Read,
    ensures
        ({
            let artifact = run.queue[run.next_artifact as int];
            let place = place_of(artifact, run.primary);
            let expected = published(store, run.primary, artifact);
            let read = run.after_content(read_at(store, place));
            &&& run.action() == (ActionView::Read { path: place.path, branch: place.branch })
            &&& expected.writes == 0 ==> read == run.reported(expected.outcome)
            &&& expected.writes != 0 ==> read.action() == (ActionView::Write {
                path: place.path,
                branch: place.branch,
                content: artifact.content,
                replaces: store.dom().contains(place),
            }) && read.after_written(None) == run.reported(expected.outcome)
        }),
{
}

/// A run that is told to stop begins nothing new: what is due is the write
/// that the current artifact is waiting for, or the end; and once that write
/// is answered, whatever the answer, the end is due.
pub proof fn lemma_cancelled_run_winds_down(run: RunView, error: Option<Seq<char>>)
    requires
        run.wf(),
    ensures
        ({
            let stopped = RunView { cancelled: true, ..run };
            &&& stopped.wf()
            &&& stopped.report == run.report
            &&& run.action() is Write ==> stopped.action() == run.action()
            &&& !(run.action() is Write) ==> stopped.action() is Finish
            &&& stopped.action() is Write ==> stopped.after_written(error).action() is Finish
        }),
{
}

/// Every way in which a run goes on keeps its invariant, and reports the
/// artifact that was current exactly when that artifact is done with.
pub proof fn lemma_steps_keep_the_invariant(
    run: RunView,
    current: ReadView,
    error: Option<Seq<char>>,
    entries: Seq<Result<ArtifactView, FailureView>>,
)
    requires
        run.wf(),
    ensures
        run.action() is Read ==> run.after_content(current).wf(),
        run.action() is Read ==> run.after_content(current).attempted == run.attempted,
        run.action() is Write ==> run.after_written(error).wf(),
        run.action() is Write ==> run.after_written(error).report.outcomes.len()
            == run.report.outcomes.len() + 1,
        run.action() is Fetch ==> run.after_rendered(entries).wf(),
{
    if run.action() is Read {
        let artifact = run.queue[run.next_artifact as int];
        lemma_failures_carry_a_reason(artifact.content, current, false, None);
        if let StepView::Done(outcome) = step_after_read(artifact.content, current) {
            lemma_reporting_keeps_the_invariant(run, outcome);
        }
    }
    if run.action() is Write {
        lemma_failures_carry_a_reason(Seq::empty(), ReadView::Missing, run.replaces->0, error);
        lemma_reporting_keeps_the_invariant(
            run,
            outcome_after_write(run.replaces->0, error),
        );
    }
    if run.action() is Fetch {
        lemma_taking_in_keeps_the_invariant(run, entries);
    }
}

/// The views of a sequence of artifacts, in order.
pub open spec fn artifact_views(artifacts: Seq<RenderedArtifact>) -> Seq<ArtifactView> {
    Seq::new(artifacts.len(), |i: int| artifacts[i]@)
}

/// The views of a sequence of families, in order.
pub open spec fn family_views(families: Seq<Family>) -> Seq<FamilyView> {
    Seq::new(families.len(), |i: int| families[i]@)
}

/// A run over a list of families.
pub struct Orchestrator {
    primary: String,
    families: Vec<Family>,
    next_family: usize,
    queue: Vec<RenderedArtifact>,
    next_artifact: usize,
    replaces: Option<bool>,
    report: BatchReport,
    attempted: Ghost<nat>,
    cancelled: bool,
}

impl View for Orchestrator {
    type V = RunView;

    closed spec fn view(&self) -> RunView {
        RunView {
            primary: self.primary@,
            families: family_views(self.families@),
            next_family: self.next_family as nat,
            queue: artifact_views(self.queue@),
            next_artifact: self.next_artifact as nat,
            replaces: self.replaces,
            report: self.report@,
            attempted: self.attempted@,
            cancelled: self.cancelled,
        }
    }
}

impl Orchestrator {
    /// A run that is about to begin, for a store with the given primary
    /// branch.
    pub fn new(primary: String, families: Vec<Family>) -> (out: Orchestrator)
        ensures
            out@.wf(),
            out@ == (RunView {
                primary: primary@,
                families: family_views(families@),
                next_family: 0,
                queue: Seq::empty(),
                next_artifact: 0,
                replaces: None,
                report: ReportView { outcomes: Seq::empty(), family_failures: Seq::empty() },
                attempted: 0,
                cancelled: false,
            }),
    {
        let out = Orchestrator {
            primary,
            families,
            next_family: 0,
            queue: Vec::new(),
            next_artifact: 0,
            replaces: None,
            report: BatchReport::new(),
            attempted: Ghost(0),
            cancelled: false,
        };
        assert(artifact_views(out.queue@) =~= Seq::empty());
        out
    }

    /// The action that is due.
    pub fn next_action(&self) -> (out: Action)
        ensures
            out@ == self@.action(),
    {
        if self.next_artifact < self.queue.len() {
            let artifact = &self.queue[self.next_artifact];
            match self.replaces {
                Some(replaces) => {
                    return Action::Write {
                        path: artifact.path.clone(),
                        branch: resolve_branch(artifact, self.primary.as_str()),
                        content: duplicate_bytes(&artifact.content),
                        replaces,
                    };
                },
                None => {},
            }
        }
        if self.cancelled {
            Action::Finish
        } else if self.next_artifact < self.queue.len() {
            let artifact = &self.queue[self.next_artifact];
            Action::Read {
                path: artifact.path.clone(),
                branch: resolve_branch(artifact, self.primary.as_str()),
            }
        } else if self.next_family < self.families.len() {
            Action::Fetch { family: self.families[self.next_family].id.clone() }
        } else {
            Action::Finish
        }
    }

    /// Takes in the rendered entries of the family that is due: reports
    /// those that could not be rendered and queues the others for publishing.
    /// Where no fetch is due, the entries are dropped and nothing changes.
    pub fn accept(&mut self, entries: Vec<Result<RenderedArtifact, RenderFailure>>)
        ensures
            old(self)@.wf() ==> final(self)@.wf(),
            old(self)@.action() is Fetch ==> final(self)@ == old(self)@.after_rendered(
                rendering_views(entries@),
            ),
            !(old(self)@.action() is Fetch) ==> final(self)@ == old(self)@,
    {
        if self.cancelled || self.next_artifact < self.queue.len() || self.next_family
            >= self.families.len() {
            return ;
        }
        proof {
            lemma_entries_split(rendering_views(entries@));
            if self@.wf() {
                lemma_taking_in_keeps_the_invariant(self@, rendering_views(entries@));
            }
        }
        let ghost before = self.report@.outcomes;
        let ghost count = entries@.len();
        let (artifacts, mut failures) = split_entries(entries);
        self.report.outcomes.append(&mut failures);
        assert(self.report@.outcomes =~= before + render_failures(rendering_views(entries@)));
        self.queue = artifacts;
        self.next_artifact = 0;
        self.next_family = self.next_family + 1;
        self.attempted = Ghost(self.attempted@ + count);
    }

    /// Takes in what came of the action that was due. An event that does not
    /// answer that action changes nothing.
    ///
    /// Records that were fetched are rendered, for the store's primary
    /// branch, and taken in as [`Orchestrator::accept`] does. A failure,
    /// whether of a fetch, a read or a write, is recorded for its family or
    /// its artifact, and the next unit becomes due.
    pub fn handle(&mut self, event: Event)
        ensures
            old(self)@.wf() ==> final(self)@.wf(),
            match (old(self)@.action(), event) {
                (ActionView::Read { .. }, Event::Content(current)) => final(self)@ == old(
                    self,
                )@.after_content(current@),
                (ActionView::Write { .. }, Event::Written(written)) => final(self)@ == old(
                    self,
                )@.after_written(write_error(written)),
                (ActionView::Fetch { .. }, Event::Records(Err(error))) => final(self)@ == old(
                    self,
                )@.after_fetch_failed(error.reason@),
                (ActionView::Fetch { .. }, Event::Records(Ok(records))) => exists|
                    entries: Seq<Result<ArtifactView, FailureView>>,
                |
                    #![trigger old(self)@.after_rendered(entries)]
                    are_renderings_of(
                        entries,
                        old(self)@.families[old(self)@.next_family as int].spec,
                        partitions(views(records@)),
                        None,
                    ) && final(self)@ == old(self)@.after_rendered(entries),
                _ => final(self)@ == old(self)@,
            },
    {
        if self.next_artifact < self.queue.len() {
            match self.replaces {
                None => if !self.cancelled {
                    if let Event::Content(current) = event {
                        proof {
                            lemma_failures_carry_a_reason(
                                self.queue@[self.next_artifact as int]@.content,
                                current@,
                                false,
                                None,
                            );
                        }
                        match after_read(&self.queue[self.next_artifact], current) {
                            PublishStep::Done(outcome) => {
                                self.finish_artifact(outcome);
                            },
                            PublishStep::Write { replaces } => {
                                self.replaces = Some(replaces);
                            },
                        }
                    }
                },
                Some(replaces) => {
                    if let Event::Written(written) = event {
                        proof {
                            lemma_failures_carry_a_reason(
                                Seq::empty(),
                                ReadView::Missing,
                                replaces,
                                write_error(written),
                            );
                        }
                        self.finish_artifact(after_write(replaces, written));
                    }
                },
            }
        } else if !self.cancelled && self.next_family < self.families.len() {
            if let Event::Records(fetched) = event {
                match fetched {
                    Ok(records) => {
                        let entries = render_family(
                            &self.families[self.next_family].spec,
                            &records,
                            &None,
                        );
                        self.accept(entries);
                    },
                    Err(error) => {
                        proof {
                            if self@.wf() {
                                lemma_marking_keeps_the_invariant(self@, error.reason@);
                            }
                        }
                        let family = self.families[self.next_family].id.clone();
                        self.report.record_family_failure(family, readable_reason(error.reason));
                        self.next_family = self.next_family + 1;
                    },
                }
            }
        }
    }

    fn finish_artifact(&mut self, outcome: PublishOutcome)
        requires
            old(self).next_artifact < old(self).queue.len(),
            carries_reason(outcome@),
        ensures
            old(self)@.wf() ==> final(self)@.wf(),
            final(self)@ == old(self)@.reported(outcome@),
    {
        proof {
            if self@.wf() {
                lemma_reporting_keeps_the_invariant(self@, outcome@);
            }
        }
        let path = self.queue[self.next_artifact].path.clone();
        self.report.record(path, outcome);
        self.next_artifact = self.next_artifact + 1;
        self.replaces = None;
    }

    /// Tells the run to stop. Nothing new is begun from here on: no family
    /// is fetched and no artifact is read. A write that the current artifact
    /// is waiting for is still asked for and its outcome is still reported,
    /// so that no publish is left half done.
    pub fn cancel(&mut self)
        ensures
            final(self)@ == (RunView { cancelled: true, ..old(self)@ }),
            old(self)@.wf() ==> final(self)@.wf(),
    {
        self.cancelled = true;
    }

    /// Whether the run is over.
    pub fn is_finished(&self) -> (out: bool)
        ensures
            out == (self@.action() is Finish),
    {
        if self.next_artifact < self.queue.len() {
            match self.replaces {
                Some(_) => false,
                None => self.cancelled,
            }
        } else {
            self.cancelled || self.next_family >= self.families.len()
        }
    }

    /// The report of the run so far.
    pub fn report(&self) -> (out: &BatchReport)
        ensures
            out@ == self@.report,
    {
        &self.report
    }

    /// Ends the run and hands out its report.
    pub fn into_report(self) -> (out: BatchReport)
        ensures
            out@ == self@.report,
    {
        self.report
    }
}

/// Parts the entries of a rendered family into the artifacts to publish and
/// the report entries of those that could not be rendered, each in order.
pub fn split_entries(entries: Vec<Result<RenderedArtifact, RenderFailure>>) -> (out: (
    Vec<RenderedArtifact>,
    Vec<ReportEntry>,
))
    ensures
        artifact_views(out.0@) == rendered_artifacts(rendering_views(entries@)),
        entry_views(out.1@) == render_failures(rendering_views(entries@)),
{
    let mut artifacts: Vec<RenderedArtifact> = Vec::new();
    let mut failures: Vec<ReportEntry> = Vec::new();
    assert(artifact_views(artifacts@) =~= Seq::empty());
    assert(entry_views(failures@) =~= Seq::empty());
    assert(rendering_views(entries@).take(0) =~= Seq::empty());
    for entry in it: entries
        invariant
            it.seq() == entries@,
            artifact_views(artifacts@) == rendered_artifacts(
                rendering_views(entries@).take(it.index() as int),
            ),
            entry_views(failures@) == render_failures(
                rendering_views(entries@).take(it.index() as int),
            ),
    {
        proof {
            let next = rendering_views(entries@).take(it.index() + 1);
            assert(next.drop_last() =~= rendering_views(entries@).take(it.index() as int));
            assert(next.last() == rendering_view(entry));
        }
        match entry {
            Ok(artifact) => {
                let ghost before = artifact_views(artifacts@);
                artifacts.push(artifact);
                assert(artifact_views(artifacts@) =~= before.push(artifact@));
            },
            Err(failure) => {
                let ghost before = entry_views(failures@);
                let ghost view = EntryView {
                    path: failure.path@,
                    outcome: OutcomeView::Failed(readable(failure.reason@)),
                };
                failures.push(
                    ReportEntry {
                        path: failure.path,
                        outcome: PublishOutcome::Failed(readable_reason(failure.reason)),
                    },
                );
                assert(entry_views(failures@) =~= before.push(view));
            },
        }
    }
    assert(rendering_views(entries@).take(entries@.len() as int) =~= rendering_views(entries@));
    (artifacts, failures)
}

/// A copy of a byte string.
pub fn duplicate_bytes(bytes: &Vec<u8>) -> (out: Vec<u8>)
    ensures
        out@ == bytes@,
{
    let mut copy: Vec<u8> = Vec::new();
    let mut i: usize = 0;
    while i < bytes.len()
        invariant
            i <= bytes.len(),
            copy@ == bytes@.take(i as int),
        decreases bytes.len() - i,
    {
        copy.push(bytes[i]);
        assert(bytes@.take(i + 1) =~= bytes@.take(i as int).push(bytes@[i as int]));
        i = i + 1;
    }
    assert(bytes@.take(bytes@.len() as int) =~= bytes@);
    copy
}

} // verus!
