//! The data that the templates see of the records.
//!
//! Templates look fields up by name, so each kind of record has its schema
//! here: the names under which its fields appear, and which of them appear
//! only where the record has a value for them.

use vstd::prelude::*;
use vstd::string::StringExecFns;
use crate::json::{
    json_flag, json_insert, json_list, json_members, json_object, json_of, json_text, jsons_of,
    members_in, no_members, Json, JsonMembers, TemplateData,
};
use crate::helpers::optional_text;
use crate::records::{
    group_views, link_views, person_views, texts, views, Group, GroupView, Link, LinkView, Person,
    PersonView, ShortUrl, ShortUrlView,
};

verus! {

/// The members of an object to which an optional text member is added: the
/// member is there exactly when the text is.
pub open spec fn with_optional(
    members: Map<Seq<char>, Json>,
    name: Seq<char>,
    text: Option<Seq<char>>,
) -> Map<Seq<char>, Json> {
    match text {
        Some(t) => members.insert(name, Json::Text(t)),
        None => members,
    }
}

/// The array of the given texts.
pub open spec fn text_list_json(items: Seq<Seq<char>>) -> Json {
    Json::List(Seq::new(items.len(), |i: int| Json::Text(items[i])))
}

fn add_member(
    members: &mut JsonMembers,
    name: &str,
    value: serde_json::Value,
)
    ensures
        members_in(*final(members)) == members_in(*old(members)).insert(name@, json_of(value)),
{
    json_insert(members, String::from_str(name), value);
}

fn add_text(members: &mut JsonMembers, name: &str, text: &String)
    ensures
        members_in(*final(members)) == members_in(*old(members)).insert(name@, Json::Text(text@)),
{
    add_member(members, name, json_text(text.as_str()));
}

fn add_optional_text(
    members: &mut JsonMembers,
    name: &str,
    text: &Option<String>,
)
    ensures
        members_in(*final(members)) == with_optional(
            members_in(*old(members)),
            name@,
            optional_text(*text),
        ),
{
    match text {
        Some(t) => add_text(members, name, t),
        None => {},
    }
}

fn text_list(items: &Vec<String>) -> (out: serde_json::Value)
    ensures
        json_of(out) == text_list_json(texts(items@)),
{
    let mut values: Vec<serde_json::Value> = Vec::new();
    let mut i: usize = 0;
    while i < items.len()
        invariant
            i <= items.len(),
            values@.len() == i,
            forall|k: int| 0 <= k < i ==> json_of(#[trigger] values@[k]) == Json::Text(items@[k]@),
        decreases items.len() - i,
    {
        values.push(json_text(items[i].as_str()));
        i = i + 1;
    }
    assert(jsons_of(values@) =~= Seq::new(
        texts(items@).len(),
        |k: int| Json::Text(texts(items@)[k]),
    ));
    json_list(values)
}

/// The object that a template sees of a short link: one text member for each
/// field, and a `discussion` member only where the record has one.
pub open spec fn short_url_json(record: ShortUrlView) -> Json {
    Json::Object(
        with_optional(
            no_members().insert("name"@, Json::Text(record.name)).insert(
                "description"@,
                Json::Text(record.description),
            ).insert("link"@, Json::Text(record.link)).insert("ip"@, Json::Text(record.ip)).insert(
                "subdomain"@,
                Json::Text(record.subdomain),
            ),
            "discussion"@,
            record.discussion,
        ),
    )
}

/// The array that a template sees of a sequence of short links.
pub open spec fn short_urls_json(records: Seq<ShortUrlView>) -> Json {
    Json::List(Seq::new(records.len(), |i: int| short_url_json(records[i])))
}

/// Builds the template data of one short link.
fn short_url_value(record: &ShortUrl) -> (out: serde_json::Value)
    ensures
        json_of(out) == short_url_json(record@),
{
    let mut fields = json_members();
    add_text(&mut fields, "name", &record.name);
    add_text(&mut fields, "description", &record.description);
    add_text(&mut fields, "link", &record.link);
    add_text(&mut fields, "ip", &record.ip);
    add_text(&mut fields, "subdomain", &record.subdomain);
    add_optional_text(&mut fields, "discussion", &record.discussion);
    json_object(fields)
}

/// Builds the template data of a sequence of short links: an array with one
/// object per record, in the order of the records.
pub fn short_urls_context(records: &Vec<ShortUrl>) -> (out: TemplateData)
    ensures
        out@ == short_urls_json(views(records@)),
{
    let mut items: Vec<serde_json::Value> = Vec::new();
    let mut i: usize = 0;
    while i < records.len()
        invariant
            i <= records.len(),
            items@.len() == i,
            forall|k: int|
                0 <= k < i ==> json_of(#[trigger] items@[k]) == short_url_json(records@[k]@),
        decreases records.len() - i,
    {
        items.push(short_url_value(&records[i]));
        i = i + 1;
    }
    assert(jsons_of(items@) =~= Seq::new(
        views(records@).len(),
        |k: int| short_url_json(views(records@)[k]),
    ));
    TemplateData::new(json_list(items))
}

/// The object that a template sees of a person: the handles are members only
/// where the person has them.
pub open spec fn person_json(person: PersonView) -> Json {
    Json::Object(
        with_optional(
            with_optional(
                with_optional(
                    no_members().insert(
                        "first_name"@,
                        Json::Text(person.first_name),
                    ).insert("last_name"@, Json::Text(person.last_name)).insert(
                        "username"@,
                        Json::Text(person.username),
                    ).insert("aliases"@, text_list_json(person.aliases)),
                    "github"@,
                    person.github,
                ),
                "chat"@,
                person.chat,
            ),
            "twitter"@,
            person.twitter,
        ),
    )
}

/// What the people table sees: the people under `users`, in order.
pub open spec fn people_json(people: Seq<PersonView>) -> Json {
    Json::Object(
        no_members().insert(
            "users"@,
            Json::List(Seq::new(people.len(), |i: int| person_json(people[i]))),
        ),
    )
}

/// Builds the template data of one person.
fn person_value(person: &Person) -> (out: serde_json::Value)
    ensures
        json_of(out) == person_json(person@),
{
    let mut fields = json_members();
    add_text(&mut fields, "first_name", &person.first_name);
    add_text(&mut fields, "last_name", &person.last_name);
    add_text(&mut fields, "username", &person.username);
    add_member(&mut fields, "aliases", text_list(&person.aliases));
    add_optional_text(&mut fields, "github", &person.github);
    add_optional_text(&mut fields, "chat", &person.chat);
    add_optional_text(&mut fields, "twitter", &person.twitter);
    json_object(fields)
}

/// Builds the template data of the people table.
pub fn people_context(people: &Vec<Person>) -> (out: TemplateData)
    ensures
        out@ == people_json(person_views(people@)),
{
    let mut items: Vec<serde_json::Value> = Vec::new();
    let mut i: usize = 0;
    while i < people.len()
        invariant
            i <= people.len(),
            items@.len() == i,
            forall|k: int| 0 <= k < i ==> json_of(#[trigger] items@[k]) == person_json(people@[k]@),
        decreases people.len() - i,
    {
        items.push(person_value(&people[i]));
        i = i + 1;
    }
    assert(jsons_of(items@) =~= Seq::new(
        person_views(people@).len(),
        |k: int| person_json(person_views(people@)[k]),
    ));
    let mut fields = json_members();
    add_member(&mut fields, "users", json_list(items));
    TemplateData::new(json_object(fields))
}

/// The object that a template sees of a group.
pub open spec fn group_json(group: GroupView) -> Json {
    Json::Object(
        no_members().insert("name"@, Json::Text(group.name)).insert(
            "description"@,
            Json::Text(group.description),
        ).insert("allow_external_members"@, Json::Flag(group.allow_external_members)).insert(
            "who_can_post_message"@,
            Json::Text(group.who_can_post_message),
        ).insert("who_can_view_group"@, Json::Text(group.who_can_view_group)).insert(
            "who_can_join"@,
            Json::Text(group.who_can_join),
        ).insert("who_can_discover_group"@, Json::Text(group.who_can_discover_group)),
    )
}

/// What the groups table sees: the groups under `groups`, in order.
pub open spec fn groups_json(groups: Seq<GroupView>) -> Json {
    Json::Object(
        no_members().insert(
            "groups"@,
            Json::List(Seq::new(groups.len(), |i: int| group_json(groups[i]))),
        ),
    )
}

/// Builds the template data of one group.
fn group_value(group: &Group) -> (out: serde_json::Value)
    ensures
        json_of(out) == group_json(group@),
{
    let mut fields = json_members();
    add_text(&mut fields, "name", &group.name);
    add_text(&mut fields, "description", &group.description);
    add_member(&mut fields, "allow_external_members", json_flag(group.allow_external_members));
    add_text(&mut fields, "who_can_post_message", &group.who_can_post_message);
    add_text(&mut fields, "who_can_view_group", &group.who_can_view_group);
    add_text(&mut fields, "who_can_join", &group.who_can_join);
    add_text(&mut fields, "who_can_discover_group", &group.who_can_discover_group);
    json_object(fields)
}

/// Builds the template data of the groups table.
pub fn groups_context(groups: &Vec<Group>) -> (out: TemplateData)
    ensures
        out@ == groups_json(group_views(groups@)),
{
    let mut items: Vec<serde_json::Value> = Vec::new();
    let mut i: usize = 0;
    while i < groups.len()
        invariant
            i <= groups.len(),
            items@.len() == i,
            forall|k: int| 0 <= k < i ==> json_of(#[trigger] items@[k]) == group_json(groups@[k]@),
        decreases groups.len() - i,
    {
        items.push(group_value(&groups[i]));
        i = i + 1;
    }
    assert(jsons_of(items@) =~= Seq::new(
        group_views(groups@).len(),
        |k: int| group_json(group_views(groups@)[k]),
    ));
    let mut fields = json_members();
    add_member(&mut fields, "groups", json_list(items));
    TemplateData::new(json_object(fields))
}

/// The object that a template sees of a link, under the link's name.
pub open spec fn link_json(link: LinkView) -> Json {
    Json::Object(
        no_members().insert("description"@, Json::Text(link.description)).insert(
            "aliases"@,
            text_list_json(link.aliases),
        ),
    )
}

/// The links by name. Of two links with one name the later one stands, and
/// the order in which the links were supplied is not kept: an object has
/// none.
pub open spec fn links_by_name(links: Seq<LinkView>) -> Map<Seq<char>, Json>
    decreases links.len(),
{
    if links.len() == 0 {
        Map::empty()
    } else {
        links_by_name(links.drop_last()).insert(links.last().name, link_json(links.last()))
    }
}

/// What the links table sees: the links by name, under `links`.
pub open spec fn links_json(links: Seq<LinkView>) -> Json {
    Json::Object(
        no_members().insert("links"@, Json::Object(links_by_name(links))),
    )
}

/// Builds the template data of one link.
fn link_value(link: &Link) -> (out: serde_json::Value)
    ensures
        json_of(out) == link_json(link@),
{
    let mut fields = json_members();
    add_text(&mut fields, "description", &link.description);
    add_member(&mut fields, "aliases", text_list(&link.aliases));
    json_object(fields)
}

/// Builds the template data of the links table.
pub fn links_context(links: &Vec<Link>) -> (out: TemplateData)
    ensures
        out@ == links_json(link_views(links@)),
{
    let mut named = json_members();
    let mut i: usize = 0;
    assert(link_views(links@).take(0) =~= Seq::empty());
    while i < links.len()
        invariant
            i <= links.len(),
            members_in(named) == links_by_name(link_views(links@).take(i as int)),
        decreases links.len() - i,
    {
        proof {
            let next = link_views(links@).take(i + 1);
            assert(next.drop_last() =~= link_views(links@).take(i as int));
            assert(next.last() == links@[i as int]@);
        }
        add_member(&mut named, links[i].name.as_str(), link_value(&links[i]));
        i = i + 1;
    }
    assert(link_views(links@).take(links@.len() as int) =~= link_views(links@));
    let mut fields = json_members();
    add_member(&mut fields, "links", json_object(named));
    TemplateData::new(json_object(fields))
}

} // verus!
