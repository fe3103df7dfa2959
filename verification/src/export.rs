//! Exporting time entries as CSV, through the `csv` crate's writer.

use vstd::prelude::*;
use crate::clock::{format_stamp, formatted_stamp, pattern_text, StampFormat};
use crate::cli::{text_of, texts_of};
use crate::models::TimeEntry;

verus! {

/// A `csv::Writer` over a byte buffer. (The crate's generic
/// `Writer<W: io::Write>` cannot be declared as an outside type here, so the
/// writer is held in a private field that the proofs do not look into.)
/// Only `csv_writer` and a successful `csv_write` make one, so every value
/// of this type is a writer all of whose writes succeeded: a writer whose
/// write failed is handed back to nobody.
#[verifier::external_body]
pub struct CsvSink {
    writer: csv::Writer<Vec<u8>>,
}

/// The records a CSV writer has written so far, each as the texts of its
/// fields.
pub uninterp spec fn csv_records(w: CsvSink) -> Seq<Seq<Seq<char>>>;

/// The bytes that `csv::Writer`, with its default settings, writes for
/// `records`.
pub uninterp spec fn csv_encoded(records: Seq<Seq<Seq<char>>>) -> Seq<u8>;

/// `csv::Writer::from_writer` over an empty byte buffer: a writer that has
/// written no record yet.
#[verifier::external_body]
fn csv_writer() -> (w: CsvSink)
    ensures
        csv_records(w) == Seq::<Seq<Seq<char>>>::empty(),
{
    CsvSink { writer: csv::Writer::from_writer(Vec::new()) }
}

/// `csv::Writer::write_record`, taking the writer and handing it back on
/// success, with the record added after the ones written before. Over a byte
/// buffer nothing can fail to be written, so the one failure left is the
/// writer's check that every record has as many fields as the first (it is
/// not `flexible` by default); since the writer given here has had no failed
/// write, that check is all that decides. On failure the crate leaves part
/// of the record in the buffer, so the writer is dropped and `None` comes
/// back.
#[verifier::external_body]
fn csv_write(w: CsvSink, fields: &Vec<String>) -> (r: Option<CsvSink>)
    ensures
        r matches Some(v) ==> csv_records(v) == csv_records(w).push(fields.deep_view()),
        (csv_records(w).len() == 0 || csv_records(w)[0].len() == fields@.len()) ==> r is Some,
{
    let mut w = w;
    match w.writer.write_record(fields) {
        Ok(()) => Some(w),
        Err(_) => None,
    }
}

/// `csv::Writer::into_inner`: flushes the writer and hands back the bytes
/// written, which are the encoding of the records written (every write of
/// this writer succeeded, so the buffer holds whole records only). Flushing
/// into a byte buffer cannot fail.
#[verifier::external_body]
fn csv_bytes(w: CsvSink) -> (r: Option<Vec<u8>>)
    ensures
        r is Some,
        r matches Some(b) ==> b@ == csv_encoded(csv_records(w)),
{
    match w.writer.into_inner() {
        Ok(b) => Some(b),
        Err(_) => None,
    }
}

/// The name the book gives project `pid`, if it has one (the first one).
pub open spec fn book_name(names: Seq<(i64, String)>, pid: i64) -> Option<Seq<char>>
    decreases names.len(),
{
    if names.len() == 0 {
        None
    } else if names[0].0 == pid {
        Some(names[0].1@)
    } else {
        book_name(names.drop_first(), pid)
    }
}

/// The name the book gives project `pid`, if it has one.
pub fn find_name(names: &Vec<(i64, String)>, pid: i64) -> (r: Option<String>)
    ensures
        match r {
            Some(n) => book_name(names@, pid) == Some(n@),
            None => book_name(names@, pid) is None,
        },
{
    let mut i: usize = 0;
    proof {
        assert(names@.skip(0) =~= names@);
    }
    while i < names.len()
        invariant
            0 <= i <= names@.len(),
            book_name(names@, pid) == book_name(names@.skip(i as int), pid),
        decreases names@.len() - i,
    {
        proof {
            assert(names@.skip(i as int).drop_first() =~= names@.skip(i + 1));
        }
        if names[i].0 == pid {
            return Some(names[i].1.clone());
        }
        i = i + 1;
    }
    None
}

/// The header record of an entry export.
pub open spec fn export_header() -> Seq<Seq<char>> {
    seq![
        "Date"@,
        "Start"@,
        "End"@,
        "Duration (h)"@,
        "Project"@,
        "Description"@,
        "Billable"@,
    ]
}

/// The record of entry `e`: its date, start and end (empty while it runs),
/// the hours written for it, its project's name (`Unknown` when the book
/// has none), its description, and `Yes` or `No` for billable.
pub open spec fn entry_record(e: TimeEntry, names: Seq<(i64, String)>, hours: Seq<char>) -> Seq<Seq<char>> {
    seq![
        formatted_stamp(e.start_time, pattern_text(StampFormat::Date)),
        formatted_stamp(e.start_time, pattern_text(StampFormat::Clock)),
        match e.end_time {
            Some(t) => formatted_stamp(t, pattern_text(StampFormat::Clock)),
            None => Seq::empty(),
        },
        hours,
        match book_name(names, e.project_id) {
            Some(n) => n,
            None => "Unknown"@,
        },
        e.description@,
        if e.billable {
            "Yes"@
        } else {
            "No"@
        },
    ]
}

/// The hours text given for entry `i`, or nothing.
pub open spec fn hours_at(hours: Seq<Seq<char>>, i: int) -> Seq<char> {
    if 0 <= i < hours.len() {
        hours[i]
    } else {
        Seq::empty()
    }
}

/// The records of an export: the header, then one record per entry.
pub open spec fn export_records(entries: Seq<TimeEntry>, names: Seq<(i64, String)>, hours: Seq<Seq<char>>) -> Seq<Seq<Seq<char>>> {
    seq![export_header()] + Seq::new(
        entries.len(),
        |i: int| entry_record(entries[i], names, hours_at(hours, i)),
    )
}

/// The fields of the header record.
fn header_fields() -> (v: Vec<String>)
    ensures
        v.deep_view() == export_header(),
{
    let mut v: Vec<String> = Vec::new();
    v.push(text_of("Date"));
    v.push(text_of("Start"));
    v.push(text_of("End"));
    v.push(text_of("Duration (h)"));
    v.push(text_of("Project"));
    v.push(text_of("Description"));
    v.push(text_of("Billable"));
    assert(v.deep_view() =~= export_header());
    v
}

/// The fields of the record of entry `e`.
fn entry_fields(e: &TimeEntry, names: &Vec<(i64, String)>, hours: &str) -> (v: Vec<String>)
    ensures
        v.deep_view() == entry_record(*e, names@, hours@),
{
    let mut v: Vec<String> = Vec::new();
    v.push(format_stamp(e.start_time, StampFormat::Date));
    v.push(format_stamp(e.start_time, StampFormat::Clock));
    v.push(
        match e.end_time {
            Some(t) => format_stamp(t, StampFormat::Clock),
            None => String::new(),
        },
    );
    v.push(text_of(hours));
    v.push(
        match find_name(names, e.project_id) {
            Some(n) => n,
            None => text_of("Unknown"),
        },
    );
    v.push(e.description.clone());
    v.push(
        if e.billable {
            text_of("Yes")
        } else {
            text_of("No")
        },
    );
    assert(v.deep_view() =~= entry_record(*e, names@, hours@));
    v
}

/// Writes the entries as CSV: a header, then one record per entry, each
/// naming the entry's project from `project_names`. `hours[i]` is the
/// duration column of entry `i`, written in hours by the caller (empty for
/// an entry that has no duration). Gives back the bytes the `csv` writer
/// produced; as every record has seven fields, the writer does not fail.
pub fn export_entries_csv_to_writer(
    entries: &Vec<TimeEntry>,
    project_names: &Vec<(i64, String)>,
    hours: &Vec<String>,
) -> (r: Option<Vec<u8>>)
    ensures
        r is Some,
        r matches Some(b) ==> b@ == csv_encoded(
            export_records(entries@, project_names@, texts_of(hours@)),
        ),
{
    let header = header_fields();
    let mut w = match csv_write(csv_writer(), &header) {
        Some(v) => v,
        None => return None,
    };
    let ghost want = export_records(entries@, project_names@, texts_of(hours@));
    let mut i: usize = 0;
    while i < entries.len()
        invariant
            0 <= i <= entries@.len(),
            want == export_records(entries@, project_names@, texts_of(hours@)),
            csv_records(w) == want.take(i + 1),
            want[0].len() == 7,
        decreases entries@.len() - i,
    {
        let h = if i < hours.len() {
            hours[i].as_str()
        } else {
            ""
        };
        proof {
            if i < hours@.len() {
                assert(h@ == hours_at(texts_of(hours@), i as int));
            } else {
                reveal_strlit("");
                assert(h@ =~= Seq::<char>::empty());
            }
        }
        let fields = entry_fields(&entries[i], project_names, h);
        proof {
            assert(fields@.len() == fields.deep_view().len());
            assert(csv_records(w)[0] == want[0]);
        }
        w = match csv_write(w, &fields) {
            Some(v) => v,
            None => return None,
        };
        proof {
            assert(want.take(i + 2) =~= want.take(i + 1).push(fields.deep_view()));
        }
        i = i + 1;
    }
    proof {
        assert(want.take(entries@.len() + 1 as int) =~= want);
    }
    csv_bytes(w)
}

} // verus!
