//! Laws of directory listings.

use crate::listing::{
    found_streams, listed_ids, stream_ids, streams_by_id, text_order, text_order_is_total,
    DirEntryView, MetadataView,
};
use vstd::prelude::*;
use vstd::relations::sorted_by;
use vstd::seq_lib::*;

verus! {

broadcast use {
    vstd::seq_lib::group_to_multiset_ensures,
    vstd::multiset::group_multiset_axioms,
};

proof fn lemma_filter_map_remove<A, B>(s: Seq<A>, f: spec_fn(A) -> Option<B>, i: int)
    requires
        0 <= i < s.len(),
    ensures
        s.filter_map(f).to_multiset() == match f(s[i]) {
            Some(b) => s.remove(i).filter_map(f).to_multiset().insert(b),
            None => s.remove(i).filter_map(f).to_multiset(),
        },
    decreases s.len(),
{
    let rest = s.drop_last();
    let whole = s.filter_map(f);
    if i == s.len() - 1 {
        assert(s.remove(i) =~= rest);
        if let Some(b) = f(s.last()) {
            assert(whole =~= rest.filter_map(f).push(b));
        }
    } else {
        lemma_filter_map_remove(rest, f, i);
        assert(s.remove(i).drop_last() =~= rest.remove(i));
        if let Some(b) = f(s.last()) {
            assert(whole =~= rest.filter_map(f).push(b));
            assert(s.remove(i).filter_map(f) =~= rest.remove(i).filter_map(f).push(b));
        }
        assert(s.filter_map(f).to_multiset() =~= match f(s[i]) {
            Some(b) => s.remove(i).filter_map(f).to_multiset().insert(b),
            None => s.remove(i).filter_map(f).to_multiset(),
        });
    }
}

proof fn lemma_filter_map_multiset<A, B>(s: Seq<A>, t: Seq<A>, f: spec_fn(A) -> Option<B>)
    requires
        s.to_multiset() == t.to_multiset(),
    ensures
        s.filter_map(f).to_multiset() == t.filter_map(f).to_multiset(),
    decreases s.len(),
{
    assert(s.len() == s.to_multiset().len());
    assert(t.len() == t.to_multiset().len());
    if s.len() == 0 {
        assert(s =~= t);
    } else {
        let x = s.last();
        assert(s.contains(x));
        assert(t.to_multiset().count(x) > 0);
        let i = choose|i: int| 0 <= i < t.len() && t[i] == x;
        let last = s.len() - 1;
        assert(s.remove(last).to_multiset() == t.remove(i).to_multiset());
        lemma_filter_map_multiset(s.remove(last), t.remove(i), f);
        lemma_filter_map_remove(s, f, last);
        lemma_filter_map_remove(t, f, i);
    }
}

proof fn lemma_map_is_filter_map<A, B>(s: Seq<A>, f: spec_fn(A) -> B)
    ensures
        s.map_values(f) == s.filter_map(|a: A| Some(f(a))),
    decreases s.len(),
{
    if s.len() == 0 {
        assert(s.map_values(f) =~= s.filter_map(|a: A| Some(f(a))));
    } else {
        lemma_map_is_filter_map(s.drop_last(), f);
        assert(s.map_values(f) =~= s.drop_last().map_values(f) + seq![f(s.last())]);
    }
}

proof fn lemma_same_ids(s: Seq<MetadataView>, t: Seq<MetadataView>)
    requires
        s.to_multiset() == t.to_multiset(),
    ensures
        stream_ids(s).to_multiset() == stream_ids(t).to_multiset(),
{
    let id_of = |stream: MetadataView| stream.id;
    lemma_map_is_filter_map(s, id_of);
    lemma_map_is_filter_map(t, id_of);
    lemma_filter_map_multiset(s, t, |stream: MetadataView| Some(id_of(stream)));
}

/// Law: the list of streams does not depend on the order in which the directory is
/// walked.
pub proof fn list_ignores_walk_order(walk: Seq<DirEntryView>, other: Seq<DirEntryView>)
    requires
        walk.to_multiset() == other.to_multiset(),
    ensures
        listed_ids(walk) == listed_ids(other),
{
    let order = text_order();
    lemma_filter_map_multiset(walk, other, |entry: DirEntryView| entry.stream());
    lemma_same_ids(found_streams(walk), found_streams(other));
    text_order_is_total();
    stream_ids(found_streams(walk)).lemma_sort_by_ensures(order);
    stream_ids(found_streams(other)).lemma_sort_by_ensures(order);
    lemma_sorted_unique(listed_ids(walk), listed_ids(other), order);
}

/// Law: the list of streams is in order, and shows every identifier as often as the
/// listing has it.
pub proof fn list_is_sorted_and_complete(entries: Seq<DirEntryView>)
    ensures
        sorted_by(listed_ids(entries), text_order()),
        listed_ids(entries).to_multiset() == stream_ids(found_streams(entries)).to_multiset(),
        listed_ids(entries).len() == found_streams(entries).len(),
{
    text_order_is_total();
    stream_ids(found_streams(entries)).lemma_sort_by_ensures(text_order());
    assert(listed_ids(entries).len() == listed_ids(entries).to_multiset().len());
}

proof fn lemma_table(streams: Seq<MetadataView>)
    ensures
        forall|id: Seq<char>| #[trigger]
            streams_by_id(streams).contains_key(id) <==> stream_ids(streams).contains(id),
        forall|id: Seq<char>| #[trigger]
            streams_by_id(streams).contains_key(id) ==> streams_by_id(streams)[id].id == id
                && streams.contains(streams_by_id(streams)[id]),
    decreases streams.len(),
{
    if streams.len() > 0 {
        let rest = streams.drop_last();
        lemma_table(rest);
        assert(stream_ids(streams) =~= stream_ids(rest).push(streams.last().id));
        assert forall|id: Seq<char>| #[trigger]
            streams_by_id(streams).contains_key(id) <==> stream_ids(streams).contains(id) by {
            assert(streams_by_id(rest).contains_key(id) <==> stream_ids(rest).contains(id));
            if stream_ids(rest).contains(id) {
                let i = stream_ids(rest).index_of(id);
                assert(stream_ids(streams)[i] == id);
            }
            if id == streams.last().id {
                assert(stream_ids(streams)[streams.len() - 1] == id);
            }
            if stream_ids(streams).contains(id) {
                let i = stream_ids(streams).index_of(id);
                if i < rest.len() {
                    assert(stream_ids(rest)[i] == id);
                }
            }
        }
        assert forall|id: Seq<char>| #[trigger] streams_by_id(streams).contains_key(id) implies
            streams_by_id(streams)[id].id == id && streams.contains(
            streams_by_id(streams)[id],
        ) by {
            if id == streams.last().id {
                assert(streams[streams.len() - 1] == streams.last());
            } else {
                let found = streams_by_id(rest)[id];
                let i = rest.index_of(found);
                assert(streams[i] == found);
            }
        }
    }
}

/// Law: exactly the listed streams have metadata, each under its own identifier, and the
/// metadata is that of an entry of the listing.
pub proof fn listed_streams_have_metadata(entries: Seq<DirEntryView>)
    ensures
        forall|id: Seq<char>| #[trigger]
            streams_by_id(found_streams(entries)).contains_key(id) <==> listed_ids(
                entries,
            ).contains(id),
        forall|id: Seq<char>| #[trigger]
            streams_by_id(found_streams(entries)).contains_key(id) ==> {
                let stream = streams_by_id(found_streams(entries))[id];
                stream.id == id && exists|entry: DirEntryView| #[trigger]
                    entries.contains(entry) && entry.stream() == Some(stream)
            },
{
    let found = found_streams(entries);
    lemma_table(found);
    list_is_sorted_and_complete(entries);
    assert forall|id: Seq<char>| #[trigger] streams_by_id(found).contains_key(id) <==> listed_ids(
        entries,
    ).contains(id) by {
        assert(stream_ids(found).contains(id) <==> stream_ids(found).to_multiset().count(id) > 0);
        assert(listed_ids(entries).contains(id) <==> listed_ids(entries).to_multiset().count(id)
            > 0);
    }
    assert forall|id: Seq<char>| #[trigger] streams_by_id(found).contains_key(id) implies ({
        let stream = streams_by_id(found)[id];
        stream.id == id && exists|entry: DirEntryView| #[trigger]
            entries.contains(entry) && entry.stream() == Some(stream)
    }) by {
        entries.lemma_filter_map_contains(
            |entry: DirEntryView| entry.stream(),
            streams_by_id(found)[id],
        );
    }
}

proof fn lemma_filter_map_keeps<A, B>(s: Seq<A>, f: spec_fn(A) -> Option<B>, i: int)
    requires
        0 <= i < s.len(),
        f(s[i]) is Some,
    ensures
        s.filter_map(f).contains(f(s[i])->0),
    decreases s.len(),
{
    let rest = s.drop_last();
    let kept = f(s[i])->0;
    if i == s.len() - 1 {
        assert(s.filter_map(f).last() == kept);
    } else {
        lemma_filter_map_keeps(rest, f, i);
        let k = rest.filter_map(f).index_of(kept);
        assert(s.filter_map(f)[k] == kept);
    }
}

/// Law: every stream that an entry of the listing describes is in the list.
pub proof fn described_streams_are_listed(entries: Seq<DirEntryView>, i: int)
    requires
        0 <= i < entries.len(),
        entries[i].stream() is Some,
    ensures
        listed_ids(entries).contains((entries[i].stream()->0).id),
{
    let found = found_streams(entries);
    let stream = entries[i].stream()->0;
    lemma_filter_map_keeps(entries, |entry: DirEntryView| entry.stream(), i);
    let k = found.index_of(stream);
    assert(stream_ids(found)[k] == stream.id);
    list_is_sorted_and_complete(entries);
    assert(stream_ids(found).to_multiset().count(stream.id) > 0);
    assert(listed_ids(entries).to_multiset().count(stream.id) > 0);
}

proof fn lemma_distinct_table(streams: Seq<MetadataView>, i: int)
    requires
        stream_ids(streams).no_duplicates(),
        0 <= i < streams.len(),
    ensures
        streams_by_id(streams)[streams[i].id] == streams[i],
    decreases streams.len(),
{
    let rest = streams.drop_last();
    assert(stream_ids(streams).drop_last() =~= stream_ids(rest));
    if i < streams.len() - 1 {
        assert(stream_ids(streams)[i] != stream_ids(streams)[streams.len() - 1]);
        lemma_distinct_table(rest, i);
    }
}

/// Law: where no two streams share an identifier, the metadata does not depend on the
/// order in which the directory is walked either.
pub proof fn metadata_ignores_walk_order(walk: Seq<DirEntryView>, other: Seq<DirEntryView>)
    requires
        walk.to_multiset() == other.to_multiset(),
        stream_ids(found_streams(walk)).no_duplicates(),
    ensures
        streams_by_id(found_streams(walk)) == streams_by_id(found_streams(other)),
{
    let s = found_streams(walk);
    let t = found_streams(other);
    lemma_filter_map_multiset(walk, other, |entry: DirEntryView| entry.stream());
    lemma_same_ids(s, t);
    stream_ids(s).lemma_multiset_has_no_duplicates();
    stream_ids(t).lemma_multiset_has_no_duplicates_conv();
    lemma_table(s);
    lemma_table(t);
    assert forall|id: Seq<char>| #[trigger]
        streams_by_id(s).contains_key(id) <==> streams_by_id(t).contains_key(id) by {
        assert(stream_ids(s).contains(id) <==> stream_ids(s).to_multiset().count(id) > 0);
        assert(stream_ids(t).contains(id) <==> stream_ids(t).to_multiset().count(id) > 0);
    }
    assert forall|id: Seq<char>| #[trigger] streams_by_id(s).contains_key(id) implies streams_by_id(
        s,
    )[id] == streams_by_id(t)[id] by {
        let stream = streams_by_id(s)[id];
        assert(s.to_multiset().count(stream) > 0);
        assert(t.contains(stream));
        lemma_distinct_table(t, t.index_of(stream));
    }
    assert(streams_by_id(s) =~= streams_by_id(t));
}

} // verus!
