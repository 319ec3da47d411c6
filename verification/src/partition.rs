//! Grouping records by their partition key.
//!
//! Records of one subdomain render together into one file. Keys keep the
//! order in which they are first seen, and the records of a key keep the
//! order in which they were supplied: both orders show in the rendered text.

use vstd::prelude::*;
use crate::records::{texts, views, ShortUrl, ShortUrlView};

verus! {

/// The distinct subdomains of the records, each at the place of its first
/// occurrence.
pub open spec fn partition_keys(records: Seq<ShortUrlView>) -> Seq<Seq<char>>
    decreases records.len(),
{
    if records.len() == 0 {
        Seq::empty()
    } else {
        let before = partition_keys(records.drop_last());
        if before.contains(records.last().subdomain) {
            before
        } else {
            before.push(records.last().subdomain)
        }
    }
}

/// The records of one subdomain, in the order supplied.
pub open spec fn partition_of(records: Seq<ShortUrlView>, key: Seq<char>) -> Seq<ShortUrlView> {
    records.filter(|r: ShortUrlView| r.subdomain == key)
}

/// The records that share one partition key.
#[derive(Clone, Debug, PartialEq, Eq)]
pub struct Partition {
    pub key: String,
    pub records: Vec<ShortUrl>,
}

/// A partition as a mathematical value.
pub ghost struct PartitionView {
    pub key: Seq<char>,
    pub records: Seq<ShortUrlView>,
}

impl View for Partition {
    type V = PartitionView;

    open spec fn view(&self) -> PartitionView {
        PartitionView { key: self.key@, records: views(self.records@) }
    }
}

/// The partitions of a sequence of records: one for each key, in the order of
/// the keys.
pub open spec fn partitions(records: Seq<ShortUrlView>) -> Seq<PartitionView> {
    Seq::new(
        partition_keys(records).len(),
        |j: int|
            PartitionView {
                key: partition_keys(records)[j],
                records: partition_of(records, partition_keys(records)[j]),
            },
    )
}

/// A key is among the partition keys exactly when some record carries it.
pub proof fn lemma_partition_keys_cover(records: Seq<ShortUrlView>, key: Seq<char>)
    ensures
        partition_keys(records).contains(key) <==> exists|i: int|
            0 <= i < records.len() && (#[trigger] records[i]).subdomain == key,
        partition_keys(records).no_duplicates(),
    decreases records.len(),
{
    if records.len() > 0 {
        let front = records.drop_last();
        let before = partition_keys(front);
        lemma_partition_keys_cover(front, key);
        lemma_partition_keys_cover(front, records.last().subdomain);
        if partition_keys(records).contains(key) {
            if before.contains(key) {
                let i = choose|i: int| 0 <= i < front.len() && (#[trigger] front[i]).subdomain == key;
                assert(records[i].subdomain == key);
            } else {
                assert(key == records.last().subdomain);
                assert(records[records.len() - 1].subdomain == key);
            }
        }
        if exists|i: int| 0 <= i < records.len() && (#[trigger] records[i]).subdomain == key {
            let i = choose|i: int| 0 <= i < records.len() && (#[trigger] records[i]).subdomain == key;
            if i < front.len() {
                assert(front[i].subdomain == key);
                assert(before.contains(key));
                let j = choose|j: int| 0 <= j < before.len() && before[j] == key;
                assert(partition_keys(records)[j] == key);
            } else {
                if !before.contains(key) {
                    assert(partition_keys(records)[before.len() as int] == key);
                }
            }
        }
    }
}

/// Every record is in the partition of its own subdomain, and that subdomain
/// is among the keys.
pub proof fn lemma_partitions_keep_every_record(records: Seq<ShortUrlView>, i: int)
    requires
        0 <= i < records.len(),
    ensures
        partition_keys(records).contains(records[i].subdomain),
        partition_of(records, records[i].subdomain).contains(records[i]),
{
    let key = records[i].subdomain;
    lemma_partition_keys_cover(records, key);
    let pred = |r: ShortUrlView| r.subdomain == key;
    assert(pred(records[i]));
    records.lemma_filter_contains(pred, i);
}

/// A partition holds records of its own subdomain only.
pub proof fn lemma_partitions_hold_their_own_records(
    records: Seq<ShortUrlView>,
    key: Seq<char>,
    k: int,
)
    requires
        0 <= k < partition_of(records, key).len(),
    ensures
        partition_of(records, key)[k].subdomain == key,
        records.contains(partition_of(records, key)[k]),
{
    let pred = |r: ShortUrlView| r.subdomain == key;
    records.lemma_filter_pred(pred, k);
    records.lemma_filter_contains_rev(pred, partition_of(records, key)[k]);
}

/// Every partition holds at least one record.
pub proof fn lemma_partitions_are_inhabited(records: Seq<ShortUrlView>, j: int)
    requires
        0 <= j < partition_keys(records).len(),
    ensures
        partition_of(records, partition_keys(records)[j]).len() > 0,
{
    let key = partition_keys(records)[j];
    assert(partition_keys(records).contains(key));
    lemma_partition_keys_cover(records, key);
    let i = choose|i: int| 0 <= i < records.len() && (#[trigger] records[i]).subdomain == key;
    let pred = |r: ShortUrlView| r.subdomain == key;
    assert(pred(records[i]));
    records.lemma_filter_contains(pred, i);
}

fn has_text(items: &Vec<String>, text: &String) -> (out: bool)
    ensures
        out == texts(items@).contains(text@),
{
    let mut i: usize = 0;
    while i < items.len()
        invariant
            i <= items.len(),
            forall|k: int| 0 <= k < i ==> texts(items@)[k] != text@,
        decreases items.len() - i,
    {
        if items[i] == *text {
            assert(texts(items@)[i as int] == text@);
            return true;
        }
        i = i + 1;
    }
    false
}

/// The distinct subdomains of the records, in the order of first occurrence.
pub fn subdomains(records: &Vec<ShortUrl>) -> (out: Vec<String>)
    ensures
        texts(out@) == partition_keys(views(records@)),
{
    let mut keys: Vec<String> = Vec::new();
    let mut i: usize = 0;
    assert(views(records@).take(0) =~= Seq::empty());
    assert(texts(keys@) =~= Seq::empty());
    while i < records.len()
        invariant
            i <= records.len(),
            texts(keys@) == partition_keys(views(records@).take(i as int)),
        decreases records.len() - i,
    {
        proof {
            let next = views(records@).take(i + 1);
            assert(next.drop_last() =~= views(records@).take(i as int));
            assert(next.last() == records@[i as int]@);
        }
        if !has_text(&keys, &records[i].subdomain) {
            let ghost before = texts(keys@);
            keys.push(records[i].subdomain.clone());
            assert(texts(keys@) =~= before.push(records@[i as int].subdomain@));
        }
        i = i + 1;
    }
    assert(views(records@).take(records@.len() as int) =~= views(records@));
    keys
}

/// The records whose subdomain is `key`, in the order supplied.
pub fn records_of(records: &Vec<ShortUrl>, key: &String) -> (out: Vec<ShortUrl>)
    ensures
        views(out@) == partition_of(views(records@), key@),
{
    let mut group: Vec<ShortUrl> = Vec::new();
    let mut i: usize = 0;
    let ghost pred = |r: ShortUrlView| r.subdomain == key@;
    assert(views(records@).take(0) =~= Seq::empty());
    assert(views(group@) =~= Seq::empty());
    while i < records.len()
        invariant
            i <= records.len(),
            pred == (|r: ShortUrlView| r.subdomain == key@),
            views(group@) == views(records@).take(i as int).filter(pred),
        decreases records.len() - i,
    {
        proof {
            let front = views(records@).take(i as int);
            assert(views(records@).take(i + 1) =~= front.push(records@[i as int]@));
            front.lemma_filter_push(records@[i as int]@, pred);
        }
        if records[i].subdomain == *key {
            let ghost before = views(group@);
            group.push(records[i].duplicate());
            assert(views(group@) =~= before.push(records@[i as int]@));
        }
        i = i + 1;
    }
    assert(views(records@).take(records@.len() as int) =~= views(records@));
    group
}

/// The views of a sequence of partitions, in order.
pub open spec fn partition_views(items: Seq<Partition>) -> Seq<PartitionView> {
    Seq::new(items.len(), |i: int| items[i]@)
}

/// Groups records by subdomain. Keys come in the order of their first
/// occurrence; within a partition the records keep the order supplied.
/// No records give no partitions.
pub fn group_by_subdomain(records: &Vec<ShortUrl>) -> (out: Vec<Partition>)
    ensures
        partition_views(out@) == partitions(views(records@)),
        records@.len() == 0 ==> out@.len() == 0,
{
    let keys = subdomains(records);
    let mut groups: Vec<Partition> = Vec::new();
    let mut j: usize = 0;
    while j < keys.len()
        invariant
            j <= keys.len(),
            texts(keys@) == partition_keys(views(records@)),
            groups@.len() == j,
            forall|k: int| 0 <= k < j ==> (#[trigger] groups@[k])@ == partitions(views(records@))[k],
        decreases keys.len() - j,
    {
        assert(texts(keys@)[j as int] == keys@[j as int]@);
        let members = records_of(records, &keys[j]);
        groups.push(Partition { key: keys[j].clone(), records: members });
        j = j + 1;
    }
    assert(texts(keys@).len() == keys@.len());
    assert(partition_views(groups@) =~= partitions(views(records@)));
    groups
}

} // verus!
