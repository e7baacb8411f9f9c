//! What the single commands report.

use crate::payload::{contents, payload_bytes, payload_text, payload_text_view};
use crate::text::{decimal, decimal_text, hex, hex_text, join};
use bytes::Bytes;
use vstd::prelude::*;
use vstd::string::*;

verus! {

/// The report of a created stream.
pub open spec fn created_line(stream_id: Seq<char>) -> Seq<char> {
    "Created stream: "@ + stream_id
}

/// The report of written data.
pub open spec fn written_line(length: nat, stream_id: Seq<char>, position: nat) -> Seq<char> {
    "Wrote "@ + decimal_text(length) + " bytes to stream "@ + stream_id + " at position "@
        + decimal_text(position)
}

/// The report of data that went to a file. It names the length that was asked for.
pub open spec fn saved_line(position: nat, length: nat) -> Seq<char> {
    "Read "@ + decimal_text(length) + " bytes from position "@ + decimal_text(position)
        + " and wrote to file"@
}

/// Data as it is printed: as text where it is text, else in hexadecimal.
pub open spec fn printed(data: Seq<u8>) -> Seq<char> {
    match payload_text_view(data) {
        Some(text) => text,
        None => hex_text(data),
    }
}

/// Reports a created stream.
pub fn report_created(stream_id: &str) -> (line: String)
    ensures
        line@ == created_line(stream_id@),
{
    join("Created stream: ", stream_id)
}

/// Reports data written to a stream.
pub fn report_written(data: &Bytes, stream_id: &str, position: u64) -> (line: String)
    ensures
        line@ == written_line(contents(*data).len(), stream_id@, position as nat),
{
    let length = decimal(data.len() as u64);
    let place = decimal(position);
    let mut line = join("Wrote ", length.as_str());
    line.append(" bytes to stream ");
    line.append(stream_id);
    line.append(" at position ");
    line.append(place.as_str());
    line
}

/// Prints data as text, or in hexadecimal where it is no text.
pub fn print_data(data: &Bytes) -> (text: String)
    ensures
        text@ == printed(contents(*data)),
{
    match payload_text(data) {
        Some(text) => text,
        None => hex(&payload_bytes(data)),
    }
}

/// What becomes of data read from a stream.
pub enum ReadOutcome {
    /// The data goes to the file, then the line is printed.
    Save { line: String },
    /// The data itself is printed.
    Show { text: String },
}

/// The model of a [`ReadOutcome`].
#[verifier::ext_equal]
pub enum ReadOutcomeView {
    Save { line: Seq<char> },
    Show { text: Seq<char> },
}

impl View for ReadOutcome {
    type V = ReadOutcomeView;

    open spec fn view(&self) -> ReadOutcomeView {
        match *self {
            ReadOutcome::Save { line } => ReadOutcomeView::Save { line: line@ },
            ReadOutcome::Show { text } => ReadOutcomeView::Show { text: text@ },
        }
    }
}

/// Decides what becomes of data read from a stream, given whether a file was named.
pub fn read_outcome(to_file: bool, data: &Bytes, position: usize, length: usize) -> (outcome:
    ReadOutcome)
    ensures
        outcome@ == (if to_file {
            ReadOutcomeView::Save { line: saved_line(position as nat, length as nat) }
        } else {
            ReadOutcomeView::Show { text: printed(contents(*data)) }
        }),
{
    if to_file {
        let asked = decimal(length as u64);
        let place = decimal(position as u64);
        let mut line = join("Read ", asked.as_str());
        line.append(" bytes from position ");
        line.append(place.as_str());
        line.append(" and wrote to file");
        ReadOutcome::Save { line }
    } else {
        ReadOutcome::Show { text: print_data(data) }
    }
}

} // verus!
