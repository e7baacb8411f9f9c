//! What a directory listing says about the streams.

use crate::text::texts;
use serde_json::Value;
use vstd::hash_map::StringHashMap;
use vstd::prelude::*;
use vstd::relations::{sorted_by, total_ordering};
use vstd::seq_lib::*;
use vstd::string::*;

verus! {

broadcast use vstd::seq_lib::group_to_multiset_ensures;

/// What is known of one stream.
#[derive(Debug)]
pub struct StreamMetadata {
    pub id: String,
    pub created_at: String,
    pub total_size: u64,
}

/// The model of a [`StreamMetadata`].
pub struct MetadataView {
    pub id: Seq<char>,
    pub created_at: Seq<char>,
    pub total_size: u64,
}

impl View for StreamMetadata {
    type V = MetadataView;

    open spec fn view(&self) -> MetadataView {
        MetadataView {
            id: self.id@,
            created_at: self.created_at@,
            total_size: self.total_size,
        }
    }
}

/// What was found at one entry of the storage directory.
pub struct DirEntry {
    /// Whether the entry is a directory.
    pub is_dir: bool,
    /// Whether the entry's name is valid Unicode.
    pub has_text_name: bool,
    /// The content of the file `stream.meta` inside the entry, if it could be read.
    pub meta: Option<String>,
}

/// The model of a [`DirEntry`].
pub struct DirEntryView {
    pub is_dir: bool,
    pub has_text_name: bool,
    pub meta: Option<Seq<char>>,
}

impl View for DirEntry {
    type V = DirEntryView;

    open spec fn view(&self) -> DirEntryView {
        DirEntryView {
            is_dir: self.is_dir,
            has_text_name: self.has_text_name,
            meta: match self.meta {
                Some(content) => Some(content@),
                None => None,
            },
        }
    }
}

/// The models of a list of entries.
pub open spec fn entry_views(entries: Seq<DirEntry>) -> Seq<DirEntryView> {
    entries.map_values(|entry: DirEntry| entry@)
}

impl DirEntry {
    /// Whether the entry can be a stream's directory, so that its `stream.meta` counts.
    pub fn is_candidate(&self) -> (candidate: bool)
        ensures
            candidate == self@.is_candidate(),
    {
        self.is_dir && self.has_text_name
    }
}

impl DirEntryView {
    /// Whether the entry can be a stream's directory.
    pub open spec fn is_candidate(self) -> bool {
        self.is_dir && self.has_text_name
    }

    /// The stream that the entry describes, if it describes one.
    pub open spec fn stream(self) -> Option<MetadataView> {
        match self.meta {
            Some(text) if self.is_candidate() => described_metadata(text),
            _ => None,
        }
    }
}

/// The string that a JSON text has for the member `key` of its top-level object; `None`
/// where the text is not JSON, is no object, or has no string there.
pub uninterp spec fn json_string(text: Seq<char>, key: Seq<char>) -> Option<Seq<char>>;

/// The unsigned 64-bit number that a JSON text has for the member `key` of its top-level
/// object; `None` where the text is not JSON, is no object, or has no such number there.
pub uninterp spec fn json_u64(text: Seq<char>, key: Seq<char>) -> Option<u64>;

/// The view of an optional string.
pub open spec fn text_view(string: Option<String>) -> Option<Seq<char>> {
    match string {
        Some(string) => Some(string@),
        None => None,
    }
}

/// Calls `serde_json::from_str` once, indexes the value by each of three keys and takes two
/// members by `Value::as_str` and the third by `Value::as_u64`. Each result depends on the
/// text and its key alone.
#[verifier::external_body]
fn read_members(text: &str, first: &str, second: &str, number: &str) -> (found: (
    Option<String>,
    Option<String>,
    Option<u64>,
))
    ensures
        text_view(found.0) == json_string(text@, first@),
        text_view(found.1) == json_string(text@, second@),
        found.2 == json_u64(text@, number@),
{
    match serde_json::from_str::<Value>(text) {
        Ok(value) => (
            value[first].as_str().map(|string| string.to_string()),
            value[second].as_str().map(|string| string.to_string()),
            value[number].as_u64(),
        ),
        Err(_) => (None, None, None),
    }
}

/// The metadata of a stream with the given members: a stream without an identifier is
/// none, an unknown date reads `unknown`, an unknown size counts as zero.
pub open spec fn metadata_view(
    id: Option<Seq<char>>,
    created_at: Option<Seq<char>>,
    total_size: Option<u64>,
) -> Option<MetadataView> {
    match id {
        Some(id) => Some(
            MetadataView {
                id,
                created_at: match created_at {
                    Some(date) => date,
                    None => "unknown"@,
                },
                total_size: match total_size {
                    Some(size) => size,
                    None => 0,
                },
            },
        ),
        None => None,
    }
}

/// The view of optional metadata.
pub open spec fn optional_metadata_view(metadata: Option<StreamMetadata>) -> Option<MetadataView> {
    match metadata {
        Some(metadata) => Some(metadata@),
        None => None,
    }
}

/// Puts a stream's metadata together from the members of its description.
pub fn metadata_from_members(
    id: Option<String>,
    created_at: Option<String>,
    total_size: Option<u64>,
) -> (metadata: Option<StreamMetadata>)
    ensures
        optional_metadata_view(metadata) == metadata_view(
            text_view(id),
            text_view(created_at),
            total_size,
        ),
{
    match id {
        Some(id) => {
            let created_at = match created_at {
                Some(date) => date,
                None => "unknown".to_owned(),
            };
            let total_size: u64 = match total_size {
                Some(size) => size,
                None => 0,
            };
            Some(StreamMetadata { id, created_at, total_size })
        },
        None => None,
    }
}

/// The metadata that the text of a `stream.meta` file describes, if it describes any.
pub open spec fn described_metadata(text: Seq<char>) -> Option<MetadataView> {
    metadata_view(
        json_string(text, "id"@),
        json_string(text, "created_at"@),
        json_u64(text, "total_size"@),
    )
}

/// Reads the text of a `stream.meta` file.
pub fn parse_metadata(text: &str) -> (metadata: Option<StreamMetadata>)
    ensures
        optional_metadata_view(metadata) == described_metadata(text@),
{
    let (id, created_at, total_size) = read_members(text, "id", "created_at", "total_size");
    metadata_from_members(id, created_at, total_size)
}

/// Whether `a` comes before `b` or equals it, character by character in the order of
/// their code points, a text before its extensions.
pub open spec fn text_le(a: Seq<char>, b: Seq<char>) -> bool
    decreases a.len(),
{
    if a.len() == 0 {
        true
    } else if b.len() == 0 {
        false
    } else if a.first() != b.first() {
        (a.first() as int) < (b.first() as int)
    } else {
        text_le(a.drop_first(), b.drop_first())
    }
}

/// The order [`text_le`] as a relation.
pub open spec fn text_order() -> spec_fn(Seq<char>, Seq<char>) -> bool {
    |a: Seq<char>, b: Seq<char>| text_le(a, b)
}

proof fn lemma_text_le_reflexive(a: Seq<char>)
    ensures
        text_le(a, a),
    decreases a.len(),
{
    if a.len() > 0 {
        lemma_text_le_reflexive(a.drop_first());
    }
}

proof fn lemma_text_le_antisymmetric(a: Seq<char>, b: Seq<char>)
    requires
        text_le(a, b),
        text_le(b, a),
    ensures
        a == b,
    decreases a.len(),
{
    if a.len() > 0 && b.len() > 0 {
        lemma_text_le_antisymmetric(a.drop_first(), b.drop_first());
        assert(a =~= seq![a.first()] + a.drop_first());
        assert(b =~= seq![b.first()] + b.drop_first());
    } else {
        assert(a =~= b);
    }
}

proof fn lemma_text_le_transitive(a: Seq<char>, b: Seq<char>, c: Seq<char>)
    requires
        text_le(a, b),
        text_le(b, c),
    ensures
        text_le(a, c),
    decreases a.len(),
{
    if a.len() > 0 && b.len() > 0 && c.len() > 0 && a.first() == b.first() && b.first()
        == c.first() {
        lemma_text_le_transitive(a.drop_first(), b.drop_first(), c.drop_first());
    }
}

proof fn lemma_text_le_connected(a: Seq<char>, b: Seq<char>)
    ensures
        text_le(a, b) || text_le(b, a),
    decreases a.len(),
{
    if a.len() > 0 && b.len() > 0 && a.first() == b.first() {
        lemma_text_le_connected(a.drop_first(), b.drop_first());
    }
}

/// Law: the order of stream names is total, so that sorting has one result.
pub proof fn text_order_is_total()
    ensures
        total_ordering(text_order()),
{
    let le = text_order();
    assert forall|a: Seq<char>| #[trigger] le(a, a) by {
        lemma_text_le_reflexive(a);
    }
    assert forall|a: Seq<char>, b: Seq<char>| #[trigger] le(a, b) && #[trigger] le(b, a) implies a
        == b by {
        lemma_text_le_antisymmetric(a, b);
    }
    assert forall|a: Seq<char>, b: Seq<char>, c: Seq<char>| #[trigger]
        le(a, b) && #[trigger] le(b, c) implies le(a, c) by {
        lemma_text_le_transitive(a, b, c);
    }
    assert forall|a: Seq<char>, b: Seq<char>| #[trigger] le(a, b) || #[trigger] le(b, a) by {
        lemma_text_le_connected(a, b);
    }
}

/// Calls `sort` on a vector of strings: the same strings, each as often as before, in
/// the order of their code points.
#[verifier::external_body]
fn sort_strings(strings: &mut Vec<String>)
    ensures
        texts(final(strings)@).to_multiset() == texts(old(strings)@).to_multiset(),
        sorted_by(texts(final(strings)@), text_order()),
{
    strings.sort();
}

/// The streams that a listing describes, in the order of the listing.
pub open spec fn found_streams(entries: Seq<DirEntryView>) -> Seq<MetadataView> {
    entries.filter_map(|entry: DirEntryView| entry.stream())
}

/// The identifiers of streams.
pub open spec fn stream_ids(streams: Seq<MetadataView>) -> Seq<Seq<char>> {
    streams.map_values(|stream: MetadataView| stream.id)
}

/// The identifiers that a listing shows: in order, and each as often as it occurs.
pub open spec fn listed_ids(entries: Seq<DirEntryView>) -> Seq<Seq<char>> {
    stream_ids(found_streams(entries)).sort_by(text_order())
}

/// The streams by identifier; of several with one identifier the last counts.
pub open spec fn streams_by_id(streams: Seq<MetadataView>) -> Map<Seq<char>, MetadataView>
    decreases streams.len(),
{
    if streams.len() == 0 {
        Map::empty()
    } else {
        streams_by_id(streams.drop_last()).insert(streams.last().id, streams.last())
    }
}

/// The view of a table of metadata.
pub open spec fn table_view(table: Map<Seq<char>, StreamMetadata>) -> Map<
    Seq<char>,
    MetadataView,
> {
    table.map_values(|metadata: StreamMetadata| metadata@)
}

/// Works through a directory listing: the sorted identifiers of the streams in it, and
/// their metadata by identifier.
pub fn collect_streams(entries: &Vec<DirEntry>) -> (collected: (
    Vec<String>,
    StringHashMap<StreamMetadata>,
))
    ensures
        texts(collected.0@) == listed_ids(entry_views(entries@)),
        table_view(collected.1@) == streams_by_id(found_streams(entry_views(entries@))),
{
    let mut streams: Vec<String> = Vec::new();
    let mut metadata: StringHashMap<StreamMetadata> = StringHashMap::new();
    let ghost views = entry_views(entries@);
    let ghost stream_of = |entry: DirEntryView| entry.stream();
    assert(texts(streams@) =~= stream_ids(found_streams(views.take(0))));
    assert(table_view(metadata@) =~= streams_by_id(found_streams(views.take(0))));
    let mut i: usize = 0;
    while i < entries.len()
        invariant
            i <= entries.len(),
            views == entry_views(entries@),
            stream_of == (|entry: DirEntryView| entry.stream()),
            texts(streams@) == stream_ids(found_streams(views.take(i as int))),
            table_view(metadata@) == streams_by_id(found_streams(views.take(i as int))),
        decreases entries.len() - i,
    {
        let entry = &entries[i];
        let ghost before = found_streams(views.take(i as int));
        proof {
            views.lemma_filter_map_take_succ(stream_of, i as int);
        }
        if entry.is_candidate() {
            if let Some(text) = &entry.meta {
                if let Some(stream) = parse_metadata(text.as_str()) {
                    let ghost found = stream@;
                    let ghost names = streams@;
                    let ghost table = metadata@;
                    streams.push(stream.id.clone());
                    metadata.insert(stream.id.clone(), stream);
                    proof {
                        let after = found_streams(views.take(i + 1));
                        assert(after =~= before.push(found));
                        assert(after.drop_last() =~= before);
                        assert(texts(streams@) =~= texts(names).push(found.id));
                        assert(stream_ids(after) =~= stream_ids(before).push(found.id));
                        assert(table_view(metadata@) =~= table_view(table).insert(found.id, found));
                    }
                }
            }
        }
        i += 1;
    }
    assert(views.take(i as int) =~= views);
    let ghost unsorted = texts(streams@);
    sort_strings(&mut streams);
    proof {
        text_order_is_total();
        unsorted.lemma_sort_by_ensures(text_order());
        lemma_sorted_unique(texts(streams@), unsorted.sort_by(text_order()), text_order());
    }
    (streams, metadata)
}

} // verus!
