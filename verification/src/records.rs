//! The canonical records that artifacts are rendered from.

use vstd::prelude::*;
use crate::helpers::optional_text;

verus! {

/// A short link: `name.subdomain` redirects to `link`.
#[derive(Clone, Debug, PartialEq, Eq)]
pub struct ShortUrl {
    pub name: String,
    pub description: String,
    pub link: String,
    /// The address expression of the DNS record, written into infrastructure
    /// declarations as it stands.
    pub ip: String,
    /// The partition key: records of one subdomain render into one file.
    pub subdomain: String,
    /// Where the link is discussed, for the records that have such a place.
    pub discussion: Option<String>,
}

/// A short link as a mathematical value.
pub ghost struct ShortUrlView {
    pub name: Seq<char>,
    pub description: Seq<char>,
    pub link: Seq<char>,
    pub ip: Seq<char>,
    pub subdomain: Seq<char>,
    pub discussion: Option<Seq<char>>,
}

impl View for ShortUrl {
    type V = ShortUrlView;

    open spec fn view(&self) -> ShortUrlView {
        ShortUrlView {
            name: self.name@,
            description: self.description@,
            link: self.link@,
            ip: self.ip@,
            subdomain: self.subdomain@,
            discussion: optional_text(self.discussion),
        }
    }
}

/// The views of a sequence of records, in order.
pub open spec fn views(records: Seq<ShortUrl>) -> Seq<ShortUrlView> {
    Seq::new(records.len(), |i: int| records[i]@)
}

impl ShortUrl {
    /// A copy of the record.
    pub fn duplicate(&self) -> (out: ShortUrl)
        ensures
            out@ == self@,
    {
        ShortUrl {
            name: self.name.clone(),
            description: self.description.clone(),
            link: self.link.clone(),
            ip: self.ip.clone(),
            subdomain: self.subdomain.clone(),
            discussion: match &self.discussion {
                Some(d) => Some(d.clone()),
                None => None,
            },
        }
    }
}

/// The views of a sequence of texts, in order.
pub open spec fn texts(items: Seq<String>) -> Seq<Seq<char>> {
    Seq::new(items.len(), |i: int| items[i]@)
}

/// A member of the company, as the people table shows them.
#[derive(Clone, Debug, PartialEq, Eq)]
pub struct Person {
    pub first_name: String,
    pub last_name: String,
    pub username: String,
    pub aliases: Vec<String>,
    pub github: Option<String>,
    pub chat: Option<String>,
    pub twitter: Option<String>,
}

/// A person as a mathematical value.
pub ghost struct PersonView {
    pub first_name: Seq<char>,
    pub last_name: Seq<char>,
    pub username: Seq<char>,
    pub aliases: Seq<Seq<char>>,
    pub github: Option<Seq<char>>,
    pub chat: Option<Seq<char>>,
    pub twitter: Option<Seq<char>>,
}

impl View for Person {
    type V = PersonView;

    open spec fn view(&self) -> PersonView {
        PersonView {
            first_name: self.first_name@,
            last_name: self.last_name@,
            username: self.username@,
            aliases: texts(self.aliases@),
            github: optional_text(self.github),
            chat: optional_text(self.chat),
            twitter: optional_text(self.twitter),
        }
    }
}

/// The views of a sequence of people, in order.
pub open spec fn person_views(people: Seq<Person>) -> Seq<PersonView> {
    Seq::new(people.len(), |i: int| people[i]@)
}

/// A mailing list group, as the groups table shows it.
#[derive(Clone, Debug, PartialEq, Eq)]
pub struct Group {
    pub name: String,
    pub description: String,
    pub allow_external_members: bool,
    pub who_can_post_message: String,
    pub who_can_view_group: String,
    pub who_can_join: String,
    pub who_can_discover_group: String,
}

/// A group as a mathematical value.
pub ghost struct GroupView {
    pub name: Seq<char>,
    pub description: Seq<char>,
    pub allow_external_members: bool,
    pub who_can_post_message: Seq<char>,
    pub who_can_view_group: Seq<char>,
    pub who_can_join: Seq<char>,
    pub who_can_discover_group: Seq<char>,
}

impl View for Group {
    type V = GroupView;

    open spec fn view(&self) -> GroupView {
        GroupView {
            name: self.name@,
            description: self.description@,
            allow_external_members: self.allow_external_members,
            who_can_post_message: self.who_can_post_message@,
            who_can_view_group: self.who_can_view_group@,
            who_can_join: self.who_can_join@,
            who_can_discover_group: self.who_can_discover_group@,
        }
    }
}

/// The views of a sequence of groups, in order.
pub open spec fn group_views(groups: Seq<Group>) -> Seq<GroupView> {
    Seq::new(groups.len(), |i: int| groups[i]@)
}

/// An internal resource, as the links table shows it.
#[derive(Clone, Debug, PartialEq, Eq)]
pub struct Link {
    pub name: String,
    pub description: String,
    pub aliases: Vec<String>,
}

/// A link as a mathematical value.
pub ghost struct LinkView {
    pub name: Seq<char>,
    pub description: Seq<char>,
    pub aliases: Seq<Seq<char>>,
}

impl View for Link {
    type V = LinkView;

    open spec fn view(&self) -> LinkView {
        LinkView { name: self.name@, description: self.description@, aliases: texts(self.aliases@) }
    }
}

/// The views of a sequence of links, in order.
pub open spec fn link_views(links: Seq<Link>) -> Seq<LinkView> {
    Seq::new(links.len(), |i: int| links[i]@)
}

} // verus!
