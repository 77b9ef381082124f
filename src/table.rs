//! Whole tables: the csv reader splits bytes into a header and records, and
//! each record that decodes becomes a typed row, in order.

use vstd::prelude::*;
use crate::rows::{
    decode_memory_map_row, decode_pinout_row, memory_map_decodes, memory_map_model,
    pinout_decodes, pinout_model, MemoryMapRow, MemoryMapRowModel, PinoutRow, PinoutRowModel,
};

verus! {

/// The header cells and the records (`None` for one that the reader
/// rejected) that csv reads from bytes.
pub uninterp spec fn csv_table_of(bytes: Seq<u8>) -> (Seq<Seq<char>>, Seq<Option<Seq<Seq<char>>>>);

/// Relies on `csv::Reader` with its default settings (comma separated, the
/// first record is the header, every record must be as long as the header):
/// the header's cells, then each later record's cells, or `None` where the
/// reader returned an error for that record (one that is not UTF-8, say).
/// The result depends on the bytes alone.
#[verifier::external_body]
fn read_table(bytes: &[u8]) -> (r: (Vec<String>, Vec<Option<Vec<String>>>))
    ensures
        (r.0.deep_view(), r.1.deep_view()) == csv_table_of(bytes@),
{
    let mut rdr = csv::Reader::from_reader(bytes);
    let header: Vec<String> = match rdr.headers() {
        Ok(h) => h.iter().map(String::from).collect(),
        Err(_) => Vec::new(),
    };
    let records = rdr.records().map(|r| r.ok().map(|rec| rec.iter().map(String::from).collect())).collect();
    (header, records)
}

/// The rows of `v`, as values.
pub open spec fn pinout_rows_view(v: Seq<PinoutRow>) -> Seq<PinoutRowModel> {
    v.map_values(|r: PinoutRow| r@)
}

/// The rows of `v`, as values.
pub open spec fn memory_map_rows_view(v: Seq<MemoryMapRow>) -> Seq<MemoryMapRowModel> {
    v.map_values(|r: MemoryMapRow| r@)
}

/// The pinout rows that `records` give, in order: a rejected record, or one
/// that does not decode, gives none.
pub open spec fn decoded_pinout(header: Seq<Seq<char>>, records: Seq<Option<Seq<Seq<char>>>>) -> Seq<PinoutRowModel>
    decreases records.len(),
{
    if records.len() == 0 {
        seq![]
    } else {
        let rest = decoded_pinout(header, records.drop_last());
        match records.last() {
            Some(f) => if pinout_decodes(header, f) {
                rest.push(pinout_model(header, f))
            } else {
                rest
            },
            None => rest,
        }
    }
}

/// The memory-map rows that `records` give, in order: a rejected record, or
/// one that does not decode, gives none.
pub open spec fn decoded_memory_map(header: Seq<Seq<char>>, records: Seq<Option<Seq<Seq<char>>>>) -> Seq<MemoryMapRowModel>
    decreases records.len(),
{
    if records.len() == 0 {
        seq![]
    } else {
        let rest = decoded_memory_map(header, records.drop_last());
        match records.last() {
            Some(f) => if memory_map_decodes(header, f) {
                rest.push(memory_map_model(header, f))
            } else {
                rest
            },
            None => rest,
        }
    }
}

/// Decodes each record of the pinout table; those that do not decode are
/// left out.
pub fn decode_pinout(header: &Vec<String>, records: &Vec<Option<Vec<String>>>) -> (r: Vec<PinoutRow>)
    ensures
        pinout_rows_view(r@) == decoded_pinout(header.deep_view(), records.deep_view()),
{
    let ghost recs = records.deep_view();
    let mut out: Vec<PinoutRow> = Vec::new();
    let mut i: usize = 0;
    while i < records.len()
        invariant
            i <= records@.len(),
            recs == records.deep_view(),
            pinout_rows_view(out@) == decoded_pinout(header.deep_view(), recs.take(i as int)),
        decreases records@.len() - i,
    {
        assert(recs.take(i + 1).drop_last() =~= recs.take(i as int));
        assert(recs.take(i + 1).last() == records@[i as int].deep_view());
        match &records[i] {
            Some(fields) => {
                match decode_pinout_row(header, fields) {
                    Some(row) => {
                        out.push(row);
                    },
                    None => {},
                }
            },
            None => {},
        }
        assert(pinout_rows_view(out@) =~= decoded_pinout(header.deep_view(), recs.take(i + 1)));
        i = i + 1;
    }
    assert(recs.take(i as int) =~= recs);
    out
}

/// Decodes each record of the memory-map table; those that do not decode
/// are left out.
pub fn decode_memory_map(header: &Vec<String>, records: &Vec<Option<Vec<String>>>) -> (r: Vec<MemoryMapRow>)
    ensures
        memory_map_rows_view(r@) == decoded_memory_map(header.deep_view(), records.deep_view()),
{
    let ghost recs = records.deep_view();
    let mut out: Vec<MemoryMapRow> = Vec::new();
    let mut i: usize = 0;
    while i < records.len()
        invariant
            i <= records@.len(),
            recs == records.deep_view(),
            memory_map_rows_view(out@) == decoded_memory_map(header.deep_view(), recs.take(i as int)),
        decreases records@.len() - i,
    {
        assert(recs.take(i + 1).drop_last() =~= recs.take(i as int));
        assert(recs.take(i + 1).last() == records@[i as int].deep_view());
        match &records[i] {
            Some(fields) => {
                match decode_memory_map_row(header, fields) {
                    Some(row) => {
                        out.push(row);
                    },
                    None => {},
                }
            },
            None => {},
        }
        assert(memory_map_rows_view(out@) =~= decoded_memory_map(header.deep_view(), recs.take(i + 1)));
        i = i + 1;
    }
    assert(recs.take(i as int) =~= recs);
    out
}

/// The rows of a pinout table written as csv bytes.
pub fn read_pinout(bytes: &[u8]) -> (r: Vec<PinoutRow>)
    ensures
        pinout_rows_view(r@) == decoded_pinout(csv_table_of(bytes@).0, csv_table_of(bytes@).1),
{
    let (header, records) = read_table(bytes);
    decode_pinout(&header, &records)
}

/// The rows of a memory-map table written as csv bytes.
pub fn read_memory_map(bytes: &[u8]) -> (r: Vec<MemoryMapRow>)
    ensures
        memory_map_rows_view(r@) == decoded_memory_map(csv_table_of(bytes@).0, csv_table_of(bytes@).1),
{
    let (header, records) = read_table(bytes);
    decode_memory_map(&header, &records)
}

} // verus!
