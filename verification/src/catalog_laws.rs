//! Laws of what a directory listing shows, stated over the texts of the `stream.meta` files.

use crate::listing::{
    collect_streams, entry_views, found_streams, json_string, json_u64, listed_ids,
    metadata_from_members, parse_metadata, stream_ids, streams_by_id, table_view, text_le,
    text_order, DirEntry, DirEntryView, MetadataView, StreamMetadata,
};
use crate::listing_laws::list_is_sorted_and_complete;
use crate::text::texts;
use vstd::hash_map::StringHashMap;
use vstd::prelude::*;

verus! {

broadcast use {
    vstd::seq_lib::group_to_multiset_ensures,
    vstd::multiset::group_multiset_axioms,
};

/// Whether an entry is a stream's directory with the given identifier.
pub open spec fn describes(entry: DirEntryView, id: Seq<char>) -> bool {
    &&& entry.is_dir
    &&& entry.has_text_name
    &&& entry.meta matches Some(text) && json_string(text, "id"@) == Some(id)
}

/// How many entries describe a stream with the given identifier.
pub open spec fn times_described(entries: Seq<DirEntryView>, id: Seq<char>) -> nat
    decreases entries.len(),
{
    if entries.len() == 0 {
        0
    } else {
        times_described(entries.drop_last(), id) + if describes(entries.last(), id) {
            1nat
        } else {
            0
        }
    }
}

/// Whether metadata is what the text of a `stream.meta` file says of a stream: a date that
/// it does not give is `unknown`, a size that it does not give is zero.
pub open spec fn says(text: Seq<char>, id: Seq<char>, metadata: MetadataView) -> bool {
    &&& metadata.id == id
    &&& json_string(text, "created_at"@) matches Some(date) ==> metadata.created_at == date
    &&& json_string(text, "created_at"@) is None ==> metadata.created_at == "unknown"@
    &&& json_u64(text, "total_size"@) matches Some(size) ==> metadata.total_size == size
    &&& json_u64(text, "total_size"@) is None ==> metadata.total_size == 0
}

/// Whether an entry is the last that describes a stream with the given identifier.
pub open spec fn last_describes(entries: Seq<DirEntryView>, i: int, id: Seq<char>) -> bool {
    &&& 0 <= i < entries.len()
    &&& describes(entries[i], id)
    &&& forall|j: int| #![trigger entries[j]] i < j < entries.len() ==> !describes(entries[j], id)
}

/// Whether a list of streams and their metadata are those of a listing: every stream is in
/// the list as often as it is described, the list is in order, exactly the streams described
/// have metadata, and it is what the last entry says of them.
pub open spec fn lists(
    streams: Seq<Seq<char>>,
    metadata: Map<Seq<char>, MetadataView>,
    entries: Seq<DirEntryView>,
) -> bool {
    &&& forall|id: Seq<char>| #[trigger]
        streams.to_multiset().count(id) == times_described(entries, id)
    &&& forall|i: int, j: int|
        #![trigger streams[i], streams[j]]
        0 <= i < j < streams.len() ==> text_le(streams[i], streams[j])
    &&& forall|id: Seq<char>| #[trigger]
        metadata.contains_key(id) <==> times_described(entries, id) > 0
    &&& forall|i: int, id: Seq<char>| #[trigger]
        last_describes(entries, i, id) ==> metadata.contains_key(id) && says(
            entries[i].meta->0,
            id,
            metadata[id],
        )
}

proof fn lemma_stream(entry: DirEntryView, id: Seq<char>)
    ensures
        describes(entry, id) <==> (entry.stream() matches Some(stream) && stream.id == id),
        describes(entry, id) ==> says(entry.meta->0, id, entry.stream()->0),
{
}

proof fn lemma_times(entries: Seq<DirEntryView>, id: Seq<char>)
    ensures
        stream_ids(found_streams(entries)).to_multiset().count(id) == times_described(entries, id),
        streams_by_id(found_streams(entries)).contains_key(id) <==> times_described(entries, id)
            > 0,
    decreases entries.len(),
{
    if entries.len() == 0 {
        assert(stream_ids(found_streams(entries)) =~= Seq::empty());
    } else {
        let rest = entries.drop_last();
        let found = found_streams(rest);
        lemma_times(rest, id);
        lemma_stream(entries.last(), id);
        match entries.last().stream() {
            Some(stream) => {
                assert(found_streams(entries) =~= found.push(stream));
                assert(found_streams(entries).drop_last() =~= found);
                assert(stream_ids(found_streams(entries)) =~= stream_ids(found).push(stream.id));
            },
            None => {
                assert(found_streams(entries) =~= found);
            },
        }
    }
}

proof fn lemma_last(entries: Seq<DirEntryView>, i: int, id: Seq<char>)
    requires
        last_describes(entries, i, id),
    ensures
        streams_by_id(found_streams(entries)).contains_key(id),
        says(entries[i].meta->0, id, streams_by_id(found_streams(entries))[id]),
    decreases entries.len(),
{
    let rest = entries.drop_last();
    let found = found_streams(rest);
    lemma_stream(entries.last(), id);
    if let Some(stream) = entries.last().stream() {
        assert(found_streams(entries) =~= found.push(stream));
        assert(found_streams(entries).drop_last() =~= found);
    } else {
        assert(found_streams(entries) =~= found);
    }
    if i < entries.len() - 1 {
        assert(!describes(entries[entries.len() - 1], id));
        assert(rest[i] == entries[i]);
        assert forall|j: int| #![trigger rest[j]] i < j < rest.len() implies !describes(
            rest[j],
            id,
        ) by {
            assert(rest[j] == entries[j]);
        }
        lemma_last(rest, i, id);
    }
}

/// Law: a listing shows every stream that is described, in order, with its metadata.
pub proof fn listing_shows_what_is_described(entries: Seq<DirEntryView>)
    ensures
        lists(listed_ids(entries), streams_by_id(found_streams(entries)), entries),
{
    list_is_sorted_and_complete(entries);
    let streams = listed_ids(entries);
    assert forall|id: Seq<char>| #[trigger]
        streams.to_multiset().count(id) == times_described(entries, id) by {
        lemma_times(entries, id);
    }
    assert forall|i: int, j: int|
        #![trigger streams[i], streams[j]]
        0 <= i < j < streams.len() implies text_le(streams[i], streams[j]) by {
        assert(text_order()(streams[i], streams[j]));
    }
    assert forall|id: Seq<char>| #[trigger]
        streams_by_id(found_streams(entries)).contains_key(id) <==> times_described(entries, id)
            > 0 by {
        lemma_times(entries, id);
    }
    assert forall|i: int, id: Seq<char>| #[trigger] last_describes(entries, i, id) implies
        streams_by_id(found_streams(entries)).contains_key(id) && says(
        entries[i].meta->0,
        id,
        streams_by_id(found_streams(entries))[id],
    ) by {
        lemma_last(entries, i, id);
    }
}

proof fn lemma_times_positive(entries: Seq<DirEntryView>, i: int, id: Seq<char>)
    requires
        0 <= i < entries.len(),
        describes(entries[i], id),
    ensures
        times_described(entries, id) > 0,
    decreases entries.len(),
{
    if i < entries.len() - 1 {
        assert(entries.drop_last()[i] == entries[i]);
        lemma_times_positive(entries.drop_last(), i, id);
    }
}

/// Law: every stream directory with an identifier is listed, whatever else its `stream.meta`
/// says; where no other entry has that identifier, its metadata is what the text says.
pub proof fn described_stream_is_listed(
    streams: Seq<Seq<char>>,
    metadata: Map<Seq<char>, MetadataView>,
    entries: Seq<DirEntryView>,
    i: int,
    text: Seq<char>,
    id: Seq<char>,
)
    requires
        lists(streams, metadata, entries),
        0 <= i < entries.len(),
        entries[i].is_dir,
        entries[i].has_text_name,
        entries[i].meta == Some(text),
        json_string(text, "id"@) == Some(id),
    ensures
        streams.contains(id),
        metadata.contains_key(id),
        (forall|j: int|
            #![trigger entries[j]]
            0 <= j < entries.len() && j != i ==> !describes(entries[j], id)) ==> says(
            text,
            id,
            metadata[id],
        ),
{
    lemma_times_positive(entries, i, id);
    assert(streams.to_multiset().count(id) > 0);
    if forall|j: int|
        #![trigger entries[j]]
        0 <= j < entries.len() && j != i ==> !describes(entries[j], id) {
        assert(last_describes(entries, i, id));
    }
}

proof fn lemma_described_somewhere(entries: Seq<DirEntryView>, id: Seq<char>)
    requires
        times_described(entries, id) > 0,
    ensures
        exists|i: int| 0 <= i < entries.len() && #[trigger] describes(entries[i], id),
    decreases entries.len(),
{
    let rest = entries.drop_last();
    if describes(entries.last(), id) {
        assert(describes(entries[entries.len() - 1], id));
    } else {
        lemma_described_somewhere(rest, id);
        let i = choose|i: int| 0 <= i < rest.len() && #[trigger] describes(rest[i], id);
        assert(describes(entries[i], id));
    }
}

/// Law: nothing is listed but what an entry describes.
pub proof fn listed_stream_is_described(
    streams: Seq<Seq<char>>,
    metadata: Map<Seq<char>, MetadataView>,
    entries: Seq<DirEntryView>,
    id: Seq<char>,
)
    requires
        lists(streams, metadata, entries),
        streams.contains(id) || metadata.contains_key(id),
    ensures
        exists|i: int| 0 <= i < entries.len() && #[trigger] describes(entries[i], id),
{
    if streams.contains(id) {
        assert(streams.to_multiset().count(id) > 0);
    }
    lemma_described_somewhere(entries, id);
}

/// Law: a stream's metadata is put together from its identifier, and what else is known;
/// only an identifier is needed.
pub proof fn members_make_metadata(
    id: Option<String>,
    created_at: Option<String>,
    total_size: Option<u64>,
    metadata: Option<StreamMetadata>,
)
    requires
        call_ensures(metadata_from_members, (id, created_at, total_size), metadata),
    ensures
        metadata is Some <==> id is Some,
        metadata matches Some(stream) ==> {
            &&& stream.id@ == (id->0)@
            &&& created_at matches Some(date) ==> stream.created_at@ == date@
            &&& created_at is None ==> stream.created_at@ == "unknown"@
            &&& total_size matches Some(size) ==> stream.total_size == size
            &&& total_size is None ==> stream.total_size == 0
        },
{
}

/// Law: a text describes a stream exactly when it has an identifier, and the metadata is
/// what the text says.
pub proof fn texts_describe_streams(text: &str, metadata: Option<StreamMetadata>)
    requires
        call_ensures(parse_metadata, (text,), metadata),
    ensures
        metadata is Some <==> json_string(text@, "id"@) is Some,
        metadata matches Some(stream) ==> {
            &&& json_string(text@, "id"@) == Some(stream.id@)
            &&& says(
                text@,
                stream.id@,
                MetadataView {
                    id: stream.id@,
                    created_at: stream.created_at@,
                    total_size: stream.total_size,
                },
            )
        },
{
}

/// Law: a directory with a text name, and nothing else, can be a stream's.
pub proof fn directories_are_candidates(entry: &DirEntry, candidate: bool)
    requires
        call_ensures(DirEntry::is_candidate, (entry,), candidate),
    ensures
        candidate <==> entry.is_dir && entry.has_text_name,
{
}

/// Law: entries are modelled by what they hold.
pub proof fn entries_are_modelled(entries: Seq<DirEntry>, i: int)
    requires
        0 <= i < entries.len(),
    ensures
        entry_views(entries).len() == entries.len(),
        entry_views(entries)[i].is_dir == entries[i].is_dir,
        entry_views(entries)[i].has_text_name == entries[i].has_text_name,
        entries[i].meta matches Some(text) ==> entry_views(entries)[i].meta == Some(text@),
        entries[i].meta is None ==> entry_views(entries)[i].meta is None,
{
}

/// Law: tables of metadata are modelled by what they hold.
pub proof fn tables_are_modelled(table: Map<Seq<char>, StreamMetadata>, id: Seq<char>)
    ensures
        table_view(table).contains_key(id) <==> table.contains_key(id),
        table.contains_key(id) ==> table_view(table)[id] == (MetadataView {
            id: table[id].id@,
            created_at: table[id].created_at@,
            total_size: table[id].total_size,
        }),
{
}

/// Law: collecting the streams of a listing gives what the listing describes.
pub proof fn collected_streams_are_listed(
    entries: &Vec<DirEntry>,
    collected: (Vec<String>, StringHashMap<StreamMetadata>),
)
    requires
        call_ensures(collect_streams, (entries,), collected),
    ensures
        lists(texts(collected.0@), table_view(collected.1@), entry_views(entries@)),
        texts(collected.0@).len() == collected.0@.len(),
        forall|i: int|
            #![trigger collected.0@[i]]
            0 <= i < collected.0@.len() ==> texts(collected.0@)[i] == collected.0@[i]@,
{
    listing_shows_what_is_described(entry_views(entries@));
}

/// Law: names are in order by the first character in which they differ; a name comes
/// before its extensions.
pub proof fn first_difference_decides(a: Seq<char>, b: Seq<char>, k: int)
    requires
        0 <= k <= a.len(),
        k <= b.len(),
        a.take(k) == b.take(k),
    ensures
        k == a.len() ==> text_le(a, b),
        k < a.len() && k == b.len() ==> !text_le(a, b),
        k < a.len() && k < b.len() && a[k] != b[k] ==> (text_le(a, b) <==> (a[k] as int) < (
        b[k] as int)),
    decreases k,
{
    if k > 0 {
        assert(a.take(k)[0] == a[0] && b.take(k)[0] == b[0]);
        assert(a.drop_first().take(k - 1) =~= a.take(k).drop_first());
        assert(b.drop_first().take(k - 1) =~= b.take(k).drop_first());
        first_difference_decides(a.drop_first(), b.drop_first(), k - 1);
    }
}

} // verus!
