use bindata_cli::command::{print_data, read_outcome, report_created, report_written, ReadOutcome};
use bindata_cli::payload::{payload, payload_bytes, payload_text, text_payload};
use bindata_cli::settings::{storage_dir, storage_settings};
use bindata_cli::step::{describe_read, upload_path_of};
use bindata_cli::text::{decimal, hex, join, repeated};

#[test]
fn numbers_are_written_in_decimal() {
    assert_eq!(decimal(0), "0");
    assert_eq!(decimal(9), "9");
    assert_eq!(decimal(10), "10");
    assert_eq!(decimal(1050), "1050");
    assert_eq!(decimal(u64::MAX), "18446744073709551615");
}

#[test]
fn bytes_are_written_in_hexadecimal() {
    assert_eq!(hex(&vec![]), "");
    assert_eq!(hex(&vec![0, 1, 0x9a, 0xff]), "00019aff");
}

#[test]
fn texts_are_joined_and_repeated() {
    assert_eq!(join("a", "bc"), "abc");
    assert_eq!(repeated('=', 3), "===");
    assert_eq!(repeated('=', 0), "");
}

#[test]
fn payloads_keep_their_bytes() {
    let data = payload(vec![1, 2, 255]);
    assert_eq!(data.len(), 3);
    assert_eq!(data.to_vec(), vec![1, 2, 255]);
    assert_eq!(payload_bytes(&data), vec![1, 2, 255]);
}

#[test]
fn texts_travel_as_utf8() {
    let data = text_payload("h\u{e9}");
    assert_eq!(payload_bytes(&data), vec![0x68, 0xc3, 0xa9]);
    assert_eq!(payload_text(&data), Some("h\u{e9}".to_string()));
    assert_eq!(payload_text(&payload(vec![0xc3])), None);
}

#[test]
fn read_data_is_described() {
    assert_eq!(describe_read(&text_payload("hello")), "Read: hello");
    assert_eq!(describe_read(&payload(vec![])), "Read: ");
    assert_eq!(describe_read(&payload(vec![0xff; 12])), "Read 12 bytes of binary data");
}

#[test]
fn upload_paths_are_found() {
    assert_eq!(upload_path_of("file:/tmp/a b"), "/tmp/a b");
    assert_eq!(upload_path_of("file: \t/tmp/a \u{3000}"), "/tmp/a");
    assert_eq!(upload_path_of("file:file:x"), "x");
    assert_eq!(upload_path_of("file: file:x"), "file:x");
    assert_eq!(upload_path_of("file:"), "");
    assert_eq!(upload_path_of("file:\u{a0}\u{85}"), "");
}

#[test]
fn commands_report() {
    assert_eq!(report_created("s"), "Created stream: s");
    assert_eq!(
        report_written(&payload(vec![7; 20]), "s", 1024),
        "Wrote 20 bytes to stream s at position 1024"
    );
}

#[test]
fn read_data_goes_to_the_file_or_the_screen() {
    let data = text_payload("hi");
    match read_outcome(true, &data, 5, 100) {
        ReadOutcome::Save { line } => {
            assert_eq!(line, "Read 100 bytes from position 5 and wrote to file")
        }
        ReadOutcome::Show { .. } => panic!("a file was named"),
    }
    match read_outcome(false, &data, 5, 100) {
        ReadOutcome::Save { .. } => panic!("no file was named"),
        ReadOutcome::Show { text } => assert_eq!(text, "hi"),
    }
}

#[test]
fn printed_data_is_text_or_hexadecimal() {
    assert_eq!(print_data(&text_payload("caf\u{e9}")), "caf\u{e9}");
    assert_eq!(print_data(&payload(vec![0xff, 0xad, 0x00])), "ffad00");
}

#[test]
fn storage_is_set_up() {
    let settings = storage_settings();
    assert_eq!(settings.memory_threshold, 1024 * 1024);
    assert_eq!(settings.max_chunk_size, 64 * 1024);
    assert_eq!(settings.cache_size, 100);
    assert_eq!(settings.segment_cleanup_seconds, 3600);
    assert!(settings.granular_read_tracking);
    assert_eq!(storage_dir(), "./storage");
}
