use bindata_cli::listing::{collect_streams, metadata_from_members, parse_metadata, DirEntry};

fn stream_dir(meta: &str) -> DirEntry {
    DirEntry { is_dir: true, has_text_name: true, meta: Some(meta.to_string()) }
}

#[test]
fn metadata_is_read_from_json() {
    let text = "{\"id\": \"logs\", \"created_at\": \"2024-01-02\", \"total_size\": 42}";
    let metadata = parse_metadata(text).unwrap();
    assert_eq!(metadata.id, "logs");
    assert_eq!(metadata.created_at, "2024-01-02");
    assert_eq!(metadata.total_size, 42);
}

#[test]
fn missing_members_have_defaults() {
    let metadata = parse_metadata("{\"id\": \"logs\"}").unwrap();
    assert_eq!(metadata.created_at, "unknown");
    assert_eq!(metadata.total_size, 0);
}

#[test]
fn members_of_the_wrong_kind_count_as_missing() {
    let text = "{\"id\": \"a\", \"created_at\": 7, \"total_size\": \"9\"}";
    let metadata = parse_metadata(text).unwrap();
    assert_eq!(metadata.created_at, "unknown");
    assert_eq!(metadata.total_size, 0);
    let negative = parse_metadata("{\"id\": \"a\", \"total_size\": -1}").unwrap();
    assert_eq!(negative.total_size, 0);
    let largest = parse_metadata("{\"id\": \"a\", \"total_size\": 18446744073709551615}").unwrap();
    assert_eq!(largest.total_size, u64::MAX);
}

#[test]
fn texts_without_an_identifier_describe_nothing() {
    assert!(parse_metadata("").is_none());
    assert!(parse_metadata("{").is_none());
    assert!(parse_metadata("[1, 2]").is_none());
    assert!(parse_metadata("\"id\"").is_none());
    assert!(parse_metadata("{\"id\": 5}").is_none());
    assert!(parse_metadata("{\"name\": \"logs\"}").is_none());
}

#[test]
fn members_are_put_together() {
    let metadata = metadata_from_members(Some("a".to_string()), None, Some(3)).unwrap();
    assert_eq!(metadata.id, "a");
    assert_eq!(metadata.created_at, "unknown");
    assert_eq!(metadata.total_size, 3);
    assert!(metadata_from_members(None, Some("now".to_string()), Some(3)).is_none());
}

#[test]
fn streams_are_listed_in_order() {
    let entries = vec![
        stream_dir("{\"id\": \"b\"}"),
        stream_dir("{\"id\": \"\u{e9}\"}"),
        stream_dir("{\"id\": \"ab\"}"),
        stream_dir("{\"id\": \"Z\"}"),
        stream_dir("{\"id\": \"a\"}"),
    ];
    let (streams, metadata) = collect_streams(&entries);
    assert_eq!(streams, vec!["Z", "a", "ab", "b", "\u{e9}"]);
    assert_eq!(metadata.len(), 5);
    assert_eq!(metadata.get("ab").unwrap().id, "ab");
}

#[test]
fn only_readable_stream_directories_count() {
    let meta = Some("{\"id\": \"x\"}".to_string());
    let file = DirEntry { is_dir: false, has_text_name: true, meta: meta.clone() };
    let oddly_named = DirEntry { is_dir: true, has_text_name: false, meta };
    let without_meta = DirEntry { is_dir: true, has_text_name: true, meta: None };
    assert!(!file.is_candidate());
    assert!(!oddly_named.is_candidate());
    assert!(without_meta.is_candidate());
    let entries = vec![file, oddly_named, without_meta, stream_dir("not json")];
    let (streams, metadata) = collect_streams(&entries);
    assert!(streams.is_empty());
    assert!(metadata.is_empty());
}

#[test]
fn repeated_identifiers_are_listed_twice_and_the_last_counts() {
    let entries = vec![
        stream_dir("{\"id\": \"a\", \"total_size\": 1}"),
        stream_dir("{\"id\": \"a\", \"total_size\": 2}"),
    ];
    let (streams, metadata) = collect_streams(&entries);
    assert_eq!(streams, vec!["a", "a"]);
    assert_eq!(metadata.len(), 1);
    assert_eq!(metadata.get("a").unwrap().total_size, 2);
}

#[test]
fn walk_order_does_not_matter() {
    let forward = vec![stream_dir("{\"id\": \"a\"}"), stream_dir("{\"id\": \"b\"}")];
    let backward = vec![stream_dir("{\"id\": \"b\"}"), stream_dir("{\"id\": \"a\"}")];
    let (first, first_metadata) = collect_streams(&forward);
    let (second, second_metadata) = collect_streams(&backward);
    assert_eq!(first, second);
    assert_eq!(first_metadata.get("b").unwrap().id, second_metadata.get("b").unwrap().id);
}
