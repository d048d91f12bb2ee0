//! CSV exports of the car list and of the location audit.
use vstd::prelude::*;
use vstd::string::*;
use crate::text::{bool_text, bool_to_text, i64_text, signed_decimal};
use crate::time::{
    datetime_pattern, displayed_stamp, formatted_utc, stamp_text, wib_datetime_text, Stamp,
    WIB_OFFSET,
};

verus! {

broadcast use vstd::string::group_string_axioms;

/// A `csv::Writer` over a growing byte vector, with the crate's default
/// settings. Verus sees nothing inside it: what it has accepted is
/// `csv_records`.
#[verifier::external_body]
pub struct CsvSink {
    inner: csv::Writer<Vec<u8>>,
}

/// The records a CSV sink has accepted, in order, each a row of fields;
/// `None` once a write has failed.
pub uninterp spec fn csv_records(w: CsvSink) -> Option<Seq<Seq<Seq<char>>>>;

/// The bytes the `csv` crate's default writer produces for a table.
pub uninterp spec fn csv_document(records: Seq<Seq<Seq<char>>>) -> Seq<u8>;

/// The view of a row of fields.
pub open spec fn row_view(row: Seq<String>) -> Seq<Seq<char>> {
    row.map_values(|f: String| f@)
}

/// A fresh `csv::Writer` over an empty byte vector, with the default
/// settings; it has accepted no record.
#[verifier::external_body]
fn csv_writer() -> (w: CsvSink)
    ensures
        csv_records(w) == Some(Seq::<Seq<Seq<char>>>::empty()),
{
    CsvSink { inner: csv::Writer::from_writer(Vec::new()) }
}

/// `csv::Writer::write_record`: on success the row is accepted after the
/// earlier ones; on failure the writer is spoiled and the error's text given.
/// The default writer is not flexible: a row whose number of fields differs
/// from the first record's is refused (`UnequalLengths`). Its only other
/// failures are those of the underlying writer, and writing into a
/// `Vec<u8>` appends to it, growing it as needed; so a row as long as the
/// first one (or the first row itself) is accepted by a writer not spoiled.
#[verifier::external_body]
fn csv_write_record(w: &mut CsvSink, row: &Vec<String>) -> (r: Result<(), String>)
    ensures
        (csv_records(*old(w)) matches Some(rs) && rs.len() > 0 && rs[0].len() != row@.len())
            ==> r is Err,
        (csv_records(*old(w)) matches Some(rs) && (rs.len() == 0 || rs[0].len() == row@.len()))
            ==> r is Ok,
        match r {
            Ok(()) => csv_records(*final(w)) == match csv_records(*old(w)) {
                Some(rs) => Some(rs.push(row_view(row@))),
                None => None::<Seq<Seq<Seq<char>>>>,
            },
            Err(_) => csv_records(*final(w)) is None,
        },
{
    match w.inner.write_record(row) {
        Ok(()) => Ok(()),
        Err(e) => Err(e.to_string()),
    }
}

/// `csv::Writer::into_inner`: flushes and gives back the bytes, which are the
/// document of the accepted records; on failure the error's text is given.
/// Flushing fails only when the underlying writer does, and flushing into a
/// `Vec<u8>` appends to it: a writer not spoiled gives its bytes back.
#[verifier::external_body]
fn csv_finish(w: CsvSink) -> (r: Result<Vec<u8>, String>)
    ensures
        csv_records(w) is Some ==> r is Ok,
        r matches Ok(b) ==> (csv_records(w) matches Some(rs) ==> b@ == csv_document(rs)),
{
    match w.inner.into_inner() {
        Ok(b) => Ok(b),
        Err(e) => Err(e.error().to_string()),
    }
}

/// Whether every row has as many fields as the first.
pub open spec fn rows_even(rows: Seq<Vec<String>>) -> bool {
    forall|i: int| 0 <= i < rows.len() ==> (#[trigger] rows[i])@.len() == rows[0]@.len()
}

/// Writes a table as CSV; an error carries the text `CSV error: ` and the
/// failure's text. A table is written exactly when its rows are all as
/// long as the first.
pub fn write_csv(rows: &Vec<Vec<String>>) -> (r: Result<Vec<u8>, String>)
    ensures
        r is Ok <==> rows_even(rows@),
        r matches Ok(b) ==> b@ == csv_document(rows@.map_values(|row: Vec<String>| row_view(row@))),
{
    let ghost table = rows@.map_values(|row: Vec<String>| row_view(row@));
    let mut w = csv_writer();
    let mut i: usize = 0;
    while i < rows.len()
        invariant
            i <= rows.len(),
            table == rows@.map_values(|row: Vec<String>| row_view(row@)),
            csv_records(w) == Some(table.subrange(0, i as int)),
            forall|j: int| 0 <= j < i ==> (#[trigger] rows@[j])@.len() == rows@[0]@.len(),
        decreases rows.len() - i,
    {
        proof {
            if i > 0 {
                assert(table.subrange(0, i as int)[0] == row_view(rows@[0]@));
            }
        }
        match csv_write_record(&mut w, &rows[i]) {
            Ok(()) => {},
            Err(e) => {
                assert(!rows_even(rows@)) by {
                    if rows_even(rows@) {
                        assert(rows@[i as int]@.len() == rows@[0]@.len());
                    }
                }
                return Err(String::from_str("CSV error: ").concat(e.as_str()));
            },
        }
        proof {
            if i > 0 {
                assert(table.subrange(0, i as int)[0] == row_view(rows@[0]@));
            }
        }
        assert(table.subrange(0, i as int).push(row_view(rows@[i as int]@)) =~= table.subrange(
            0,
            i + 1,
        ));
        i = i + 1;
    }
    assert(table.subrange(0, rows@.len() as int) =~= table);
    assert(rows_even(rows@));
    match csv_finish(w) {
        Ok(b) => Ok(b),
        Err(e) => Err(String::from_str("CSV error: ").concat(e.as_str())),
    }
}

/// A car as the export reads it.
pub struct CarExportDetails {
    pub car_id: i32,
    pub name: String,
    pub police_number: String,
    pub active: bool,
    pub car_type_id: i32,
    pub car_type_name: String,
    pub tracker_id: Option<i32>,
    pub tracker_name: Option<String>,
    pub created_at: Stamp,
    pub updated_at: Stamp,
    pub deleted_at: Option<Stamp>,
}

/// An optional number as a field: empty when absent.
pub open spec fn opt_number_field(n: Option<i32>) -> Seq<char> {
    match n {
        Some(v) => signed_decimal(v as int),
        None => Seq::empty(),
    }
}

/// An optional text as a field: empty when absent.
pub open spec fn opt_text_field(t: Option<String>) -> Seq<char> {
    match t {
        Some(v) => v@,
        None => Seq::empty(),
    }
}

/// A moment as a field, when chrono can display it.
pub open spec fn stamp_field(s: Stamp) -> Option<Seq<char>> {
    displayed_stamp(s.secs as int, s.nanos as int)
}

/// An optional moment as a field: empty when absent.
pub open spec fn opt_stamp_field(s: Option<Stamp>) -> Option<Seq<char>> {
    match s {
        Some(v) => stamp_field(v),
        None => Some(Seq::empty()),
    }
}

/// The header of the car export.
pub open spec fn car_export_header() -> Seq<Seq<char>> {
    seq![
        "Car ID"@,
        "Name"@,
        "Police Number"@,
        "Active"@,
        "Car Type ID"@,
        "Car Type Name"@,
        "Tracker ID"@,
        "Tracker Name"@,
        "Created At"@,
        "Updated At"@,
        "Deleted At"@,
    ]
}

/// The row of one car in the export, when its moments can be displayed.
pub open spec fn car_export_row(c: CarExportDetails) -> Option<Seq<Seq<char>>> {
    match (stamp_field(c.created_at), stamp_field(c.updated_at), opt_stamp_field(c.deleted_at)) {
        (Some(cr), Some(up), Some(de)) => Some(
            seq![
                signed_decimal(c.car_id as int),
                c.name@,
                c.police_number@,
                bool_text(c.active),
                signed_decimal(c.car_type_id as int),
                c.car_type_name@,
                opt_number_field(c.tracker_id),
                opt_text_field(c.tracker_name),
                cr,
                up,
                de,
            ],
        ),
        _ => None,
    }
}

/// Whether every car's moments can be displayed.
pub open spec fn car_rows_readable(cars: Seq<CarExportDetails>) -> bool {
    forall|i: int| 0 <= i < cars.len() ==> (#[trigger] car_export_row(cars[i])) is Some
}

/// The table of the car export: the header, then a row per car in order.
pub open spec fn car_export_table(cars: Seq<CarExportDetails>) -> Seq<Seq<Seq<char>>> {
    seq![car_export_header()] + cars.map_values(|c: CarExportDetails| car_export_row(c)->0)
}

/// An optional number as a field.
fn opt_number_text(n: Option<i32>) -> (s: String)
    ensures
        s@ == opt_number_field(n),
{
    match n {
        Some(v) => i64_text(v as i64),
        None => String::new(),
    }
}

/// An optional text as a field.
fn opt_text(t: &Option<String>) -> (s: String)
    ensures
        s@ == opt_text_field(*t),
{
    match t {
        Some(v) => v.clone(),
        None => String::new(),
    }
}

/// An optional moment as a field.
fn opt_stamp_text(s: Option<Stamp>) -> (r: Option<String>)
    ensures
        match r {
            Some(t) => opt_stamp_field(s) == Some(t@),
            None => opt_stamp_field(s) is None,
        },
{
    match s {
        Some(v) => stamp_text(v),
        None => Some(String::new()),
    }
}

/// A row of text literals.
fn literal_row(fields: &[&str]) -> (row: Vec<String>)
    ensures
        row_view(row@) == fields@.map_values(|f: &str| f@),
{
    let mut row: Vec<String> = Vec::new();
    let mut i: usize = 0;
    while i < fields.len()
        invariant
            i <= fields@.len(),
            row_view(row@) == fields@.subrange(0, i as int).map_values(|f: &str| f@),
        decreases fields@.len() - i,
    {
        let ghost before = row@;
        let field = fields[i].to_owned();
        row.push(field);
        proof {
            before.lemma_push_map_commute(|f: String| f@, field);
            assert(fields@.subrange(0, i + 1) =~= fields@.subrange(0, i as int).push(fields@[i as int]));
            fields@.subrange(0, i as int).lemma_push_map_commute(|f: &str| f@, fields@[i as int]);
        }
        i = i + 1;
    }
    assert(fields@.subrange(0, fields@.len() as int) =~= fields@);
    row
}

/// The row of one car in the export.
fn car_row(c: &CarExportDetails) -> (row: Option<Vec<String>>)
    ensures
        match row {
            Some(r) => car_export_row(*c) == Some(row_view(r@)),
            None => car_export_row(*c) is None,
        },
{
    let created = match stamp_text(c.created_at) {
        Some(s) => s,
        None => return None,
    };
    let updated = match stamp_text(c.updated_at) {
        Some(s) => s,
        None => return None,
    };
    let deleted = match opt_stamp_text(c.deleted_at) {
        Some(s) => s,
        None => return None,
    };
    let mut row: Vec<String> = Vec::new();
    row.push(i64_text(c.car_id as i64));
    row.push(c.name.clone());
    row.push(c.police_number.clone());
    row.push(bool_to_text(c.active));
    row.push(i64_text(c.car_type_id as i64));
    row.push(c.car_type_name.clone());
    row.push(opt_number_text(c.tracker_id));
    row.push(opt_text(&c.tracker_name));
    row.push(created);
    row.push(updated);
    row.push(deleted);
    assert(row_view(row@) =~= car_export_row(*c)->0);
    Some(row)
}

/// The car list as a CSV document: a header, then one row per car, with
/// absent values as empty fields. A moment beyond chrono's calendar is an
/// error.
pub fn export_cars(cars: &Vec<CarExportDetails>) -> (r: Result<Vec<u8>, String>)
    ensures
        !car_rows_readable(cars@) ==> r is Err,
        car_rows_readable(cars@) ==> r is Ok,
        r matches Ok(b) ==> car_rows_readable(cars@) && b@ == csv_document(
            car_export_table(cars@),
        ),
{
    let mut rows: Vec<Vec<String>> = Vec::new();
    let header = literal_row(
        &[
            "Car ID",
            "Name",
            "Police Number",
            "Active",
            "Car Type ID",
            "Car Type Name",
            "Tracker ID",
            "Tracker Name",
            "Created At",
            "Updated At",
            "Deleted At",
        ],
    );
    assert(row_view(header@) =~= car_export_header());
    assert(header@.len() == row_view(header@).len());
    rows.push(header);
    let mut i: usize = 0;
    while i < cars.len()
        invariant
            i <= cars.len(),
            car_rows_readable(cars@.subrange(0, i as int)),
            forall|j: int| 0 <= j < rows@.len() ==> (#[trigger] rows@[j])@.len() == 11,
            rows@.map_values(|row: Vec<String>| row_view(row@)) == car_export_table(
                cars@.subrange(0, i as int),
            ),
        decreases cars.len() - i,
    {
        let row = match car_row(&cars[i]) {
            Some(r) => r,
            None => {
                assert(!car_rows_readable(cars@)) by {
                    assert(car_export_row(cars@[i as int]) is None);
                }
                return Err(String::from_str("time out of range"));
            },
        };
        assert(row@.len() == row_view(row@).len());
        let ghost before = rows@;
        rows.push(row);
        proof {
            before.lemma_push_map_commute(|row: Vec<String>| row_view(row@), row);
            assert(cars@.subrange(0, i + 1) =~= cars@.subrange(0, i as int).push(cars@[i as int]));
            cars@.subrange(0, i as int).lemma_push_map_commute(
                |c: CarExportDetails| car_export_row(c)->0,
                cars@[i as int],
            );
        }
        assert(car_rows_readable(cars@.subrange(0, i + 1))) by {
            assert forall|k: int| 0 <= k < i + 1 implies (#[trigger] car_export_row(
                cars@.subrange(0, i + 1)[k],
            )) is Some by {
                if k < i {
                    assert(cars@.subrange(0, i + 1)[k] == cars@.subrange(0, i as int)[k]);
                }
            }
        }
        assert(rows@.map_values(|row: Vec<String>| row_view(row@)) =~= car_export_table(
            cars@.subrange(0, i + 1),
        ));
        i = i + 1;
    }
    assert(cars@.subrange(0, cars@.len() as int) =~= cars@);
    assert(rows_even(rows@));
    write_csv(&rows)
}

/// An audit record as the export reads it: coordinates already rendered as
/// text, times as Unix seconds.
pub struct AuditRecord {
    pub audit_id: i64,
    pub car_id: Option<i32>,
    pub tracker_id: i32,
    pub latitude: String,
    pub longitude: String,
    pub recorded_at: i64,
    pub created_at: i64,
}

/// The header of the audit export.
pub open spec fn audit_export_header() -> Seq<Seq<char>> {
    seq![
        "Audit ID"@,
        "Car ID"@,
        "Tracker ID"@,
        "Latitude"@,
        "Longitude"@,
        "Recorded At (WIB)"@,
        "Created At (WIB)"@,
    ]
}

/// The WIB reading of a UTC second, as the exports print it.
pub open spec fn wib_field(secs: int) -> Option<Seq<char>> {
    if secs <= i64::MAX - WIB_OFFSET {
        formatted_utc(secs + WIB_OFFSET, datetime_pattern())
    } else {
        None
    }
}

/// The row of one audit record, when both of its times can be read.
pub open spec fn audit_export_row(a: AuditRecord) -> Option<Seq<Seq<char>>> {
    match (wib_field(a.recorded_at as int), wib_field(a.created_at as int)) {
        (Some(rec), Some(cre)) => Some(
            seq![
                signed_decimal(a.audit_id as int),
                opt_number_field(a.car_id),
                signed_decimal(a.tracker_id as int),
                a.latitude@,
                a.longitude@,
                rec,
                cre,
            ],
        ),
        _ => None,
    }
}

/// Whether every audit record's times can be read.
pub open spec fn audit_rows_readable(records: Seq<AuditRecord>) -> bool {
    forall|i: int| 0 <= i < records.len() ==> (#[trigger] audit_export_row(records[i])) is Some
}

/// The table of the audit export: the header, then a row per record.
pub open spec fn audit_export_table(records: Seq<AuditRecord>) -> Seq<Seq<Seq<char>>> {
    seq![audit_export_header()] + records.map_values(|a: AuditRecord| audit_export_row(a)->0)
}

/// The row of one audit record.
fn audit_row(a: &AuditRecord) -> (row: Option<Vec<String>>)
    ensures
        match row {
            Some(r) => audit_export_row(*a) == Some(row_view(r@)),
            None => audit_export_row(*a) is None,
        },
{
    let recorded = match wib_datetime_text(a.recorded_at) {
        Some(s) => s,
        None => return None,
    };
    let created = match wib_datetime_text(a.created_at) {
        Some(s) => s,
        None => return None,
    };
    let mut row: Vec<String> = Vec::new();
    row.push(i64_text(a.audit_id));
    row.push(opt_number_text(a.car_id));
    row.push(i64_text(a.tracker_id as i64));
    row.push(a.latitude.clone());
    row.push(a.longitude.clone());
    row.push(recorded);
    row.push(created);
    assert(row_view(row@) =~= audit_export_row(*a)->0);
    Some(row)
}

/// The audit records as a CSV document: a header, then one row per record
/// with its times in WIB. A time beyond chrono's calendar is an error.
pub fn export_audit_csv(records: &Vec<AuditRecord>) -> (r: Result<Vec<u8>, String>)
    ensures
        !audit_rows_readable(records@) ==> r is Err,
        audit_rows_readable(records@) ==> r is Ok,
        r matches Ok(b) ==> audit_rows_readable(records@) && b@ == csv_document(
            audit_export_table(records@),
        ),
{
    let mut rows: Vec<Vec<String>> = Vec::new();
    let header = literal_row(
        &[
            "Audit ID",
            "Car ID",
            "Tracker ID",
            "Latitude",
            "Longitude",
            "Recorded At (WIB)",
            "Created At (WIB)",
        ],
    );
    assert(row_view(header@) =~= audit_export_header());
    assert(header@.len() == row_view(header@).len());
    rows.push(header);
    let mut i: usize = 0;
    while i < records.len()
        invariant
            i <= records.len(),
            audit_rows_readable(records@.subrange(0, i as int)),
            forall|j: int| 0 <= j < rows@.len() ==> (#[trigger] rows@[j])@.len() == 7,
            rows@.map_values(|row: Vec<String>| row_view(row@)) == audit_export_table(
                records@.subrange(0, i as int),
            ),
        decreases records.len() - i,
    {
        let row = match audit_row(&records[i]) {
            Some(r) => r,
            None => {
                assert(!audit_rows_readable(records@)) by {
                    assert(audit_export_row(records@[i as int]) is None);
                }
                return Err(String::from_str("time out of range"));
            },
        };
        assert(row@.len() == row_view(row@).len());
        let ghost before = rows@;
        rows.push(row);
        proof {
            before.lemma_push_map_commute(|row: Vec<String>| row_view(row@), row);
            assert(records@.subrange(0, i + 1) =~= records@.subrange(0, i as int).push(records@[i as int]));
            records@.subrange(0, i as int).lemma_push_map_commute(
                |a: AuditRecord| audit_export_row(a)->0,
                records@[i as int],
            );
        }
        assert(audit_rows_readable(records@.subrange(0, i + 1))) by {
            assert forall|k: int| 0 <= k < i + 1 implies (#[trigger] audit_export_row(
                records@.subrange(0, i + 1)[k],
            )) is Some by {
                if k < i {
                    assert(records@.subrange(0, i + 1)[k] == records@.subrange(0, i as int)[k]);
                }
            }
        }
        assert(rows@.map_values(|row: Vec<String>| row_view(row@)) =~= audit_export_table(
            records@.subrange(0, i + 1),
        ));
        i = i + 1;
    }
    assert(records@.subrange(0, records@.len() as int) =~= records@);
    assert(rows_even(rows@));
    write_csv(&rows)
}

} // verus!
