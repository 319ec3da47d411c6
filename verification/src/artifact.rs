//! What a family of artifacts is, and what a rendered artifact holds.

use vstd::prelude::*;
use vstd::string::StringExecFns;
use crate::helpers::optional_text;

verus! {

/// What kind of file an artifact is. Configuration files end in an editor
/// mode line; the other kinds do not.
#[derive(Clone, Copy, Debug, PartialEq, Eq, Structural)]
pub enum ContentType {
    Config,
    InfraCode,
    Documentation,
}

/// A path with one hole for the partition key.
#[derive(Clone, Debug, PartialEq, Eq)]
pub struct PathTemplate {
    /// What stands before the key.
    pub prefix: String,
    /// What stands after the key.
    pub suffix: String,
}

/// The path that a template gives for a key.
pub open spec fn instantiated(prefix: Seq<char>, key: Seq<char>, suffix: Seq<char>) -> Seq<char> {
    prefix + key + suffix
}

impl PathTemplate {
    /// The path for one partition key.
    pub fn instantiate(&self, key: &str) -> (out: String)
        ensures
            out@ == instantiated(self.prefix@, key@, self.suffix@),
    {
        let mut path = self.prefix.clone();
        path.append(key);
        path.append(self.suffix.as_str());
        path
    }
}

/// A family of artifacts: where its files go, which template renders them and
/// what kind of file they are. Records are partitioned by subdomain.
#[derive(Clone, Debug, PartialEq, Eq)]
pub struct ArtifactSpec {
    pub path_template: PathTemplate,
    pub content_template: String,
    pub content_type: ContentType,
}

/// A family of artifacts as a mathematical value.
pub ghost struct ArtifactSpecView {
    pub path_prefix: Seq<char>,
    pub path_suffix: Seq<char>,
    pub content_template: Seq<char>,
    pub content_type: ContentType,
}

impl View for ArtifactSpec {
    type V = ArtifactSpecView;

    open spec fn view(&self) -> ArtifactSpecView {
        ArtifactSpecView {
            path_prefix: self.path_template.prefix@,
            path_suffix: self.path_template.suffix@,
            content_template: self.content_template@,
            content_type: self.content_type,
        }
    }
}

/// The full text of one file, bound for a path on a branch of the
/// destination store. `None` as the branch means the store's primary branch.
#[derive(Clone, Debug, PartialEq, Eq)]
pub struct RenderedArtifact {
    pub path: String,
    pub content: Vec<u8>,
    pub branch: Option<String>,
}

/// A rendered artifact as a mathematical value.
pub ghost struct ArtifactView {
    pub path: Seq<char>,
    pub content: Seq<u8>,
    pub branch: Option<Seq<char>>,
}

impl View for RenderedArtifact {
    type V = ArtifactView;

    open spec fn view(&self) -> ArtifactView {
        ArtifactView {
            path: self.path@,
            content: self.content@,
            branch: optional_text(self.branch),
        }
    }
}

/// A partition whose template could not be rendered: the path that the file
/// would have had, and the template engine's message.
#[derive(Clone, Debug, PartialEq, Eq)]
pub struct RenderFailure {
    pub path: String,
    pub reason: String,
}

/// A render failure as a mathematical value.
pub ghost struct FailureView {
    pub path: Seq<char>,
    pub reason: Seq<char>,
}

impl View for RenderFailure {
    type V = FailureView;

    open spec fn view(&self) -> FailureView {
        FailureView { path: self.path@, reason: self.reason@ }
    }
}

/// What rendering gave for one file, as a mathematical value: the artifact,
/// or the failure.
pub open spec fn rendering_view(entry: Result<RenderedArtifact, RenderFailure>) -> Result<
    ArtifactView,
    FailureView,
> {
    match entry {
        Ok(artifact) => Ok(artifact@),
        Err(failure) => Err(failure@),
    }
}

/// The views of a sequence of renderings, in order.
pub open spec fn rendering_views(entries: Seq<Result<RenderedArtifact, RenderFailure>>) -> Seq<
    Result<ArtifactView, FailureView>,
> {
    Seq::new(entries.len(), |i: int| rendering_view(entries[i]))
}

/// A copy of an optional text.
pub fn duplicate_optional_text(text: &Option<String>) -> (out: Option<String>)
    ensures
        optional_text(out) == optional_text(*text),
{
    match text {
        Some(t) => Some(t.clone()),
        None => None,
    }
}

} // verus!
