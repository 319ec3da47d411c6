//! Rendering a family of artifacts from its records.

use vstd::prelude::*;
use vstd::string::StringExecFns;
use crate::artifact::{
    duplicate_optional_text, instantiated, rendering_view, rendering_views, ArtifactSpec,
    ArtifactSpecView, ArtifactView, ContentType, FailureView, RenderFailure, RenderedArtifact,
};
use crate::engine::{is_failure_reason, render, render_outcome};
use crate::helpers::optional_text;
use crate::partition::{group_by_subdomain, partition_views, partitions, Partition, PartitionView};
use crate::context::{
    groups_context, groups_json, links_context, links_json, people_context, people_json,
    short_urls_context, short_urls_json,
};
use crate::json::{Json, TemplateData};
use crate::records::{
    group_views, link_views, person_views, views, Group, Link, Person, ShortUrl,
};
use crate::templates::{
    NGINX_MODE_LINE, TEMPLATE_TABLE_GROUPS, TEMPLATE_TABLE_LINKS, TEMPLATE_TABLE_PEOPLE,
    TEMPLATE_WARNING,
};

verus! {

/// What closes a file of the given kind, after the template's output.
pub open spec fn trailer(content_type: ContentType) -> Seq<char> {
    match content_type {
        ContentType::Config => NGINX_MODE_LINE@,
        _ => Seq::empty(),
    }
}

/// The text of a generated file: the warning, then what the template gave,
/// then the trailer of the file's kind.
pub open spec fn framed(content_type: ContentType, body: Seq<char>) -> Seq<char> {
    TEMPLATE_WARNING@ + body + trailer(content_type)
}

/// The bytes of a text: its UTF-8 encoding.
pub open spec fn bytes_of(text: Seq<char>) -> Seq<u8> {
    vstd::utf8::encode_utf8(text)
}

/// Puts the warning in front of a template's output and the trailer of the
/// file's kind behind it.
pub fn frame(content_type: ContentType, body: &str) -> (out: String)
    ensures
        out@ == framed(content_type, body@),
{
    let mut text = String::from_str(TEMPLATE_WARNING);
    text.append(body);
    match content_type {
        ContentType::Config => {
            text.append(NGINX_MODE_LINE);
        },
        _ => {
            assert(text@ + Seq::<char>::empty() =~= text@);
        },
    }
    text
}

/// The path of the file that a family writes for a partition key.
pub open spec fn path_for(spec: ArtifactSpecView, key: Seq<char>) -> Seq<char> {
    instantiated(spec.path_prefix, key, spec.path_suffix)
}

/// The artifact for a file at `path`, or `None` where the template does not
/// render over the data.
pub open spec fn artifact_at(
    path: Seq<char>,
    content_type: ContentType,
    template: Seq<char>,
    data: Json,
    branch: Option<Seq<char>>,
) -> Option<ArtifactView> {
    match render_outcome(template, data) {
        Some(body) => Some(
            ArtifactView { path, content: bytes_of(framed(content_type, body)), branch },
        ),
        None => None,
    }
}

/// Whether `entry` is what rendering owes for a file at `path`: the
/// artifact, where the template renders over the data; and otherwise a
/// failure that names the path and says why, in the library's words where
/// the library refused the template and in the engine's where the engine
/// failed.
pub open spec fn is_rendering_at(
    entry: Result<ArtifactView, FailureView>,
    path: Seq<char>,
    content_type: ContentType,
    template: Seq<char>,
    data: Json,
    branch: Option<Seq<char>>,
) -> bool {
    match entry {
        Ok(artifact) => artifact_at(path, content_type, template, data, branch) == Some(artifact),
        Err(failure) => {
            &&& artifact_at(path, content_type, template, data, branch) is None
            &&& failure.path == path
            &&& is_failure_reason(template, failure.reason)
        },
    }
}

/// Whether `entry` is what rendering owes for one partition of a family.
pub open spec fn is_rendering_of(
    entry: Result<ArtifactView, FailureView>,
    spec: ArtifactSpecView,
    partition: PartitionView,
    branch: Option<Seq<char>>,
) -> bool {
    is_rendering_at(
        entry,
        path_for(spec, partition.key),
        spec.content_type,
        spec.content_template,
        short_urls_json(partition.records),
        branch,
    )
}

/// Whether `entries` are what rendering owes for a family: one entry for
/// each partition, in the order of the partitions.
pub open spec fn are_renderings_of(
    entries: Seq<Result<ArtifactView, FailureView>>,
    spec: ArtifactSpecView,
    partitions: Seq<PartitionView>,
    branch: Option<Seq<char>>,
) -> bool {
    &&& entries.len() == partitions.len()
    &&& forall|j: int|
        0 <= j < entries.len() ==> is_rendering_of(#[trigger] entries[j], spec, partitions[j], branch)
}

fn render_at(
    path: String,
    content_type: ContentType,
    template: &str,
    data: &TemplateData,
    branch: &Option<String>,
) -> (out: Result<RenderedArtifact, RenderFailure>)
    ensures
        is_rendering_at(
            rendering_view(out),
            path@,
            content_type,
            template@,
            data@,
            optional_text(*branch),
        ),
{
    match render(template, data) {
        Ok(body) => {
            let text = frame(content_type, body.as_str());
            Ok(
                RenderedArtifact {
                    path,
                    content: text.as_str().as_bytes_vec(),
                    branch: duplicate_optional_text(branch),
                },
            )
        },
        Err(error) => Err(RenderFailure { path, reason: error.reason }),
    }
}

/// Renders the one artifact of a partition.
pub fn render_partition(spec: &ArtifactSpec, partition: &Partition, branch: &Option<String>) -> (out:
    Result<RenderedArtifact, RenderFailure>)
    ensures
        is_rendering_of(rendering_view(out), spec@, partition@, optional_text(*branch)),
{
    let path = spec.path_template.instantiate(partition.key.as_str());
    let data = short_urls_context(&partition.records);
    render_at(path, spec.content_type, spec.content_template.as_str(), &data, branch)
}

/// Whether `entry` is what rendering owes for a document that is rendered
/// from one collection as a whole.
pub open spec fn is_document_of(
    entry: Result<ArtifactView, FailureView>,
    path: Seq<char>,
    template: Seq<char>,
    data: Json,
    branch: Option<Seq<char>>,
) -> bool {
    is_rendering_at(entry, path, ContentType::Documentation, template, data, branch)
}

/// Renders a document from one collection as a whole.
pub fn render_document(
    path: &str,
    template: &str,
    data: &TemplateData,
    branch: &Option<String>,
) -> (out: Result<RenderedArtifact, RenderFailure>)
    ensures
        is_document_of(rendering_view(out), path@, template@, data@, optional_text(*branch)),
{
    render_at(String::from_str(path), ContentType::Documentation, template, data, branch)
}

/// Renders the people table for the file at `path`: one row for each person,
/// in the order supplied.
pub fn render_people_table(path: &str, people: &Vec<Person>, branch: &Option<String>) -> (out:
    Result<RenderedArtifact, RenderFailure>)
    ensures
        is_document_of(
            rendering_view(out),
            path@,
            TEMPLATE_TABLE_PEOPLE@,
            people_json(person_views(people@)),
            optional_text(*branch),
        ),
{
    render_document(path, TEMPLATE_TABLE_PEOPLE, &people_context(people), branch)
}

/// Renders the groups table for the file at `path`: one row for each group,
/// in the order supplied.
pub fn render_groups_table(path: &str, groups: &Vec<Group>, branch: &Option<String>) -> (out:
    Result<RenderedArtifact, RenderFailure>)
    ensures
        is_document_of(
            rendering_view(out),
            path@,
            TEMPLATE_TABLE_GROUPS@,
            groups_json(group_views(groups@)),
            optional_text(*branch),
        ),
{
    render_document(path, TEMPLATE_TABLE_GROUPS, &groups_context(groups), branch)
}

/// Renders the links table for the file at `path`.
///
/// The template reads the links as an object keyed by name, and an object
/// keeps no order: whatever the order in which the links were supplied, the
/// rows come in the order of the names, as the engine walks an object by its
/// sorted keys. Of two links with one name only the later one has a row.
pub fn render_links_table(path: &str, links: &Vec<Link>, branch: &Option<String>) -> (out: Result<
    RenderedArtifact,
    RenderFailure,
>)
    ensures
        is_document_of(
            rendering_view(out),
            path@,
            TEMPLATE_TABLE_LINKS@,
            links_json(link_views(links@)),
            optional_text(*branch),
        ),
{
    render_document(path, TEMPLATE_TABLE_LINKS, &links_context(links), branch)
}

/// Renders a family: groups the records by subdomain and renders one artifact
/// for each group, in the order in which the subdomains first occur. A
/// partition that does not render gives a failure in its place and leaves
/// the others as they are. No records give no entries.
pub fn render_family(spec: &ArtifactSpec, records: &Vec<ShortUrl>, branch: &Option<String>) -> (out:
    Vec<Result<RenderedArtifact, RenderFailure>>)
    ensures
        are_renderings_of(
            rendering_views(out@),
            spec@,
            partitions(views(records@)),
            optional_text(*branch),
        ),
        records@.len() == 0 ==> out@.len() == 0,
{
    let groups = group_by_subdomain(records);
    let mut entries: Vec<Result<RenderedArtifact, RenderFailure>> = Vec::new();
    let mut j: usize = 0;
    while j < groups.len()
        invariant
            j <= groups.len(),
            entries@.len() == j,
            partition_views(groups@) == partitions(views(records@)),
            forall|k: int|
                0 <= k < j ==> is_rendering_of(
                    rendering_view(#[trigger] entries@[k]),
                    spec@,
                    partitions(views(records@))[k],
                    optional_text(*branch),
                ),
        decreases groups.len() - j,
    {
        assert(partition_views(groups@)[j as int] == groups@[j as int]@);
        entries.push(render_partition(spec, &groups[j], branch));
        j = j + 1;
    }
    assert(partition_views(groups@).len() == groups@.len());
    assert forall|k: int| 0 <= k < rendering_views(entries@).len() implies is_rendering_of(
        #[trigger] rendering_views(entries@)[k],
        spec@,
        partitions(views(records@))[k],
        optional_text(*branch),
    ) by {
        assert(rendering_views(entries@)[k] == rendering_view(entries@[k]));
    }
    entries
}

/// Rendering is a function of the family, the records and the branch, but
/// for the words of a failure: two results for the same partition succeed
/// or fail together, an artifact rendered twice has the same path, the same
/// bytes and the same branch, and a failure reported twice names the same
/// path and says why both times.
pub proof fn lemma_rendering_is_deterministic(
    first: Result<ArtifactView, FailureView>,
    second: Result<ArtifactView, FailureView>,
    spec: ArtifactSpecView,
    partition: PartitionView,
    branch: Option<Seq<char>>,
)
    requires
        is_rendering_of(first, spec, partition, branch),
        is_rendering_of(second, spec, partition, branch),
    ensures
        first is Ok <==> second is Ok,
        first is Ok ==> first->Ok_0.content == second->Ok_0.content,
        first is Ok ==> first == second,
        first is Err ==> first->Err_0.path == second->Err_0.path,
        first is Err ==> first->Err_0.reason.len() > 0 && second->Err_0.reason.len() > 0,
{
}

/// Rendering a family is a function of the family, the records and the
/// branch, but for the words of a failure: two results for the same
/// partitions have the same number of entries and agree entry by entry on
/// whether the partition rendered, on the artifact where it did and on the
/// path where it did not.
pub proof fn lemma_family_rendering_is_deterministic(
    first: Seq<Result<ArtifactView, FailureView>>,
    second: Seq<Result<ArtifactView, FailureView>>,
    spec: ArtifactSpecView,
    partitions: Seq<PartitionView>,
    branch: Option<Seq<char>>,
)
    requires
        are_renderings_of(first, spec, partitions, branch),
        are_renderings_of(second, spec, partitions, branch),
    ensures
        first.len() == second.len(),
        forall|j: int|
            0 <= j < first.len() ==> ((#[trigger] first[j]) is Ok <==> second[j] is Ok),
        forall|j: int| 0 <= j < first.len() && (#[trigger] first[j]) is Ok ==> first[j] == second[j],
        forall|j: int|
            0 <= j < first.len() && (#[trigger] first[j]) is Err ==> first[j]->Err_0.path
                == second[j]->Err_0.path,
{
    assert forall|j: int| 0 <= j < first.len() implies ((#[trigger] first[j]) is Ok
        <==> second[j] is Ok) && (first[j] is Ok ==> first[j] == second[j]) && (first[j] is Err
        ==> first[j]->Err_0.path == second[j]->Err_0.path) by {
        lemma_rendering_is_deterministic(first[j], second[j], spec, partitions[j], branch);
    }
}

/// Every file starts with the warning and, where it is a configuration
/// file, ends with the editor mode line, whatever the template gave.
pub proof fn lemma_frame_surrounds_the_body(content_type: ContentType, body: Seq<char>)
    ensures
        TEMPLATE_WARNING@.is_prefix_of(framed(content_type, body)),
        content_type == ContentType::Config ==> NGINX_MODE_LINE@.is_suffix_of(
            framed(content_type, body),
        ),
        framed(content_type, body).len() == TEMPLATE_WARNING@.len() + body.len() + trailer(
            content_type,
        ).len(),
{
    let text = framed(content_type, body);
    assert(text.subrange(0, TEMPLATE_WARNING@.len() as int) =~= TEMPLATE_WARNING@);
    if content_type == ContentType::Config {
        assert(text.subrange(text.len() - NGINX_MODE_LINE@.len(), text.len() as int)
            =~= NGINX_MODE_LINE@);
    }
}

} // verus!
