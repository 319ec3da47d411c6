//! Publishing one artifact into the destination store.
//!
//! The store is reached by the caller. The decisions are made here: the
//! caller reads the current content at the artifact's path and hands it to
//! [`after_read`], performs the write that is asked for, if any, and hands
//! what came of it to [`after_write`].

use vstd::prelude::*;
use vstd::string::StringExecFns;
use crate::artifact::{ArtifactView, RenderedArtifact};
use crate::errors::{lemma_readable_is_not_empty, readable, readable_reason, StoreError};

verus! {

/// What came of publishing one artifact.
#[derive(Clone, Debug, PartialEq, Eq)]
pub enum PublishOutcome {
    /// Nothing was at the path: the file was created.
    Created,
    /// Other content was at the path: the file was overwritten.
    Updated,
    /// The same content was at the path: nothing was written.
    Unchanged,
    /// The store refused a read or a write; nothing is known to be written.
    /// The text says why.
    Failed(String),
}

/// An outcome as a mathematical value.
pub ghost enum OutcomeView {
    Created,
    Updated,
    Unchanged,
    Failed(Seq<char>),
}

impl View for PublishOutcome {
    type V = OutcomeView;

    open spec fn view(&self) -> OutcomeView {
        match self {
            PublishOutcome::Created => OutcomeView::Created,
            PublishOutcome::Updated => OutcomeView::Updated,
            PublishOutcome::Unchanged => OutcomeView::Unchanged,
            PublishOutcome::Failed(reason) => OutcomeView::Failed(reason@),
        }
    }
}

impl PublishOutcome {
    /// Whether the outcome is a failure.
    pub fn is_failure(&self) -> (out: bool)
        ensures
            out == (self@ is Failed),
    {
        match self {
            PublishOutcome::Failed(_) => true,
            _ => false,
        }
    }
}

/// What a read of the store at a path gave.
#[derive(Clone, Debug, PartialEq, Eq)]
pub enum StoreRead {
    /// Nothing is at the path.
    Missing,
    /// The content at the path.
    Found(Vec<u8>),
    /// The store could not be read.
    Failed(StoreError),
}

/// A read as a mathematical value.
pub ghost enum ReadView {
    Missing,
    Found(Seq<u8>),
    Failed(Seq<char>),
}

impl View for StoreRead {
    type V = ReadView;

    open spec fn view(&self) -> ReadView {
        match self {
            StoreRead::Missing => ReadView::Missing,
            StoreRead::Found(content) => ReadView::Found(content@),
            StoreRead::Failed(error) => ReadView::Failed(error.reason@),
        }
    }
}

/// What is to be done once the current content is known.
#[derive(Clone, Debug, PartialEq, Eq)]
pub enum PublishStep {
    /// Write the artifact's content; `replaces` says whether content is there
    /// to be overwritten.
    Write { replaces: bool },
    /// Nothing more is to be done.
    Done(PublishOutcome),
}

/// A step as a mathematical value.
pub ghost enum StepView {
    Write { replaces: bool },
    Done(OutcomeView),
}

impl View for PublishStep {
    type V = StepView;

    open spec fn view(&self) -> StepView {
        match self {
            PublishStep::Write { replaces } => StepView::Write { replaces: *replaces },
            PublishStep::Done(outcome) => StepView::Done(outcome@),
        }
    }
}

/// The step that follows a read: create where nothing is there, leave alone
/// what is the same byte for byte, overwrite what differs, and give up where
/// the read failed, with the store's reason made readable.
pub open spec fn step_after_read(content: Seq<u8>, current: ReadView) -> StepView {
    match current {
        ReadView::Missing => StepView::Write { replaces: false },
        ReadView::Found(found) => if found == content {
            StepView::Done(OutcomeView::Unchanged)
        } else {
            StepView::Write { replaces: true }
        },
        ReadView::Failed(reason) => StepView::Done(OutcomeView::Failed(readable(reason))),
    }
}

/// The outcome that follows a write: `written` is `None` where the write
/// went through and the store's reason where it did not. A failure carries
/// that reason made readable.
pub open spec fn outcome_after_write(replaces: bool, written: Option<Seq<char>>) -> OutcomeView {
    match written {
        Some(reason) => OutcomeView::Failed(readable(reason)),
        None => if replaces {
            OutcomeView::Updated
        } else {
            OutcomeView::Created
        },
    }
}

/// Whether two byte strings are the same.
pub fn same_bytes(left: &Vec<u8>, right: &Vec<u8>) -> (out: bool)
    ensures
        out == (left@ == right@),
{
    if left.len() != right.len() {
        return false;
    }
    let mut i: usize = 0;
    while i < left.len()
        invariant
            i <= left.len(),
            left.len() == right.len(),
            forall|k: int| 0 <= k < i ==> left@[k] == right@[k],
        decreases left.len() - i,
    {
        if left[i] != right[i] {
            return false;
        }
        i = i + 1;
    }
    assert(left@ =~= right@);
    true
}

/// Decides what to do for an artifact once the store has been read at its
/// path. A write is asked for exactly when the store holds nothing or other
/// content there.
pub fn after_read(artifact: &RenderedArtifact, current: StoreRead) -> (out: PublishStep)
    ensures
        out@ == step_after_read(artifact@.content, current@),
{
    match current {
        StoreRead::Missing => PublishStep::Write { replaces: false },
        StoreRead::Found(found) => {
            if same_bytes(&found, &artifact.content) {
                PublishStep::Done(PublishOutcome::Unchanged)
            } else {
                PublishStep::Write { replaces: true }
            }
        },
        StoreRead::Failed(error) => PublishStep::Done(
            PublishOutcome::Failed(readable_reason(error.reason)),
        ),
    }
}

/// The error of a write, by view: `None` where the write went through.
pub open spec fn write_error(written: Result<(), StoreError>) -> Option<Seq<char>> {
    match written {
        Ok(_) => None,
        Err(error) => Some(error.reason@),
    }
}

/// Gives the outcome once the write that [`after_read`] asked for has been
/// tried.
pub fn after_write(replaces: bool, written: Result<(), StoreError>) -> (out: PublishOutcome)
    ensures
        out@ == outcome_after_write(replaces, write_error(written)),
{
    match written {
        Err(error) => PublishOutcome::Failed(readable_reason(error.reason)),
        Ok(_) => if replaces {
            PublishOutcome::Updated
        } else {
            PublishOutcome::Created
        },
    }
}

/// The branch that an artifact is bound for: its own, or the store's primary
/// branch where it names none.
pub open spec fn resolved_branch(artifact: ArtifactView, primary: Seq<char>) -> Seq<char> {
    match artifact.branch {
        Some(branch) => branch,
        None => primary,
    }
}

/// Resolves the branch that an artifact is bound for. The store is read on
/// that branch; whether it can be written there is [`writable_branch`]'s to
/// say.
pub fn resolve_branch(artifact: &RenderedArtifact, primary: &str) -> (out: String)
    ensures
        out@ == resolved_branch(artifact@, primary@),
{
    match &artifact.branch {
        Some(branch) => branch.clone(),
        None => String::from_str(primary),
    }
}

/// Why a write that is bound for another branch than the primary one is
/// refused.
pub const OTHER_BRANCH_REFUSED: &'static str = "the store writes on its primary branch only";

/// Whether the store can be asked to write on `branch`.
///
/// The store is read on any branch, but its interface for writing a file
/// takes a path, a content and a message, and writes on the primary branch:
/// it has no way to name another. So a write that is bound elsewhere is
/// refused here, before the store is asked, and its artifact fails like one
/// whose write the store refused. Artifacts that name no branch, and those
/// that name the primary one, are never refused.
pub fn writable_branch(branch: &str, primary: &str) -> (out: Result<(), StoreError>)
    ensures
        out is Ok <==> branch@ == primary@,
        out matches Err(error) ==> error.reason@ == OTHER_BRANCH_REFUSED@,
{
    if String::from_str(branch) == String::from_str(primary) {
        Ok(())
    } else {
        Err(StoreError { reason: String::from_str(OTHER_BRANCH_REFUSED) })
    }
}

/// Whether an outcome that is a failure says why.
pub open spec fn carries_reason(outcome: OutcomeView) -> bool {
    outcome matches OutcomeView::Failed(reason) ==> reason.len() > 0
}

/// Every failure that the publisher reports carries a reason, whatever the
/// store said.
pub proof fn lemma_failures_carry_a_reason(
    content: Seq<u8>,
    current: ReadView,
    replaces: bool,
    written: Option<Seq<char>>,
)
    ensures
        step_after_read(content, current) matches StepView::Done(outcome) ==> carries_reason(
            outcome,
        ),
        carries_reason(outcome_after_write(replaces, written)),
{
    if let ReadView::Failed(reason) = current {
        lemma_readable_is_not_empty(reason);
    }
    if let Some(reason) = written {
        lemma_readable_is_not_empty(reason);
    }
}

/// A place in the store: a branch and a path on it.
pub ghost struct Place {
    pub branch: Seq<char>,
    pub path: Seq<char>,
}

/// The content of a store: what is at each place that holds anything.
pub type StoreModel = Map<Place, Seq<u8>>;

/// What a read of the store gives at a place, where the read goes through.
pub open spec fn read_at(store: StoreModel, place: Place) -> ReadView {
    if store.dom().contains(place) {
        ReadView::Found(store[place])
    } else {
        ReadView::Missing
    }
}

/// Where an artifact goes in a store with the given primary branch.
pub open spec fn place_of(artifact: ArtifactView, primary: Seq<char>) -> Place {
    Place { branch: resolved_branch(artifact, primary), path: artifact.path }
}

/// One run of the publisher against a store that answers every request.
pub ghost struct PublishRun {
    pub outcome: OutcomeView,
    /// The store after the run.
    pub store: StoreModel,
    /// How many writes the run made.
    pub writes: nat,
}

/// Publishes an artifact into a store that answers every request: reads the
/// artifact's place, takes the step that follows, and writes where that step
/// asks for it.
pub open spec fn published(store: StoreModel, primary: Seq<char>, artifact: ArtifactView) -> PublishRun {
    let place = place_of(artifact, primary);
    match step_after_read(artifact.content, read_at(store, place)) {
        StepView::Done(outcome) => PublishRun { outcome, store, writes: 0 },
        StepView::Write { replaces } => PublishRun {
            outcome: outcome_after_write(replaces, None),
            store: store.insert(place, artifact.content),
            writes: 1,
        },
    }
}

/// Publishing never fails against a store that answers, leaves the
/// artifact's content at its place, touches no other place, and writes
/// exactly when the content there was missing or different.
pub proof fn lemma_publish_reconciles(store: StoreModel, primary: Seq<char>, artifact: ArtifactView)
    ensures
        !(published(store, primary, artifact).outcome is Failed),
        read_at(published(store, primary, artifact).store, place_of(artifact, primary))
            == ReadView::Found(artifact.content),
        forall|other: Place|
            other != place_of(artifact, primary) ==> read_at(
                published(store, primary, artifact).store,
                other,
            ) == read_at(store, other),
        published(store, primary, artifact).writes == (if read_at(
            store,
            place_of(artifact, primary),
        ) == ReadView::Found(artifact.content) {
            0nat
        } else {
            1nat
        }),
        published(store, primary, artifact).outcome is Unchanged <==> published(
            store,
            primary,
            artifact,
        ).writes == 0,
{
}

/// Publishing is idempotent: of two runs in succession for the same
/// artifact, the first creates, updates or finds nothing to do, the second
/// finds nothing to do and leaves the store as the first left it, and the two
/// together make one write where the first changed anything and none where it
/// did not.
pub proof fn lemma_publish_is_idempotent(store: StoreModel, primary: Seq<char>, artifact: ArtifactView)
    ensures
        ({
            let first = published(store, primary, artifact);
            let second = published(first.store, primary, artifact);
            &&& first.outcome is Created || first.outcome is Updated || first.outcome is Unchanged
            &&& second.outcome is Unchanged
            &&& second.store == first.store
            &&& second.writes == 0
            &&& first.outcome is Unchanged ==> first.writes + second.writes == 0
            &&& !(first.outcome is Unchanged) ==> first.writes + second.writes == 1
        }),
{
    lemma_publish_reconciles(store, primary, artifact);
}

} // verus!
