//! Building the document from decoded rows: a pin for each pinout row with
//! both an ALT0 signal and a supply domain, a peripheral for each memory-map
//! row whose instance name is not empty once in upper case.

use vstd::prelude::*;
use crate::model::{
    chip_list, family_comment, peripherals_view, pins_view, schema_ref, Metadata, MetadataModel,
    PeripheralModel, Peripheral, Pin, PinModel,
};
use crate::rows::{MemoryMapRow, MemoryMapRowModel, PinoutRow, PinoutRowModel};
use crate::table::{
    csv_table_of, decoded_memory_map, decoded_pinout, memory_map_rows_view, pinout_rows_view,
    read_memory_map, read_pinout,
};

verus! {

/// The upper-case form of a text, as `str::to_uppercase` gives it.
pub uninterp spec fn upper_of(s: Seq<char>) -> Seq<char>;

/// Relies on `str::to_uppercase`: the upper-case form of the text, which
/// depends on its characters alone; an empty text stays empty.
#[verifier::external_body]
fn to_upper(s: &str) -> (r: String)
    ensures
        r@ == upper_of(s@),
        s@.len() == 0 ==> r@.len() == 0,
{
    s.to_uppercase()
}

/// The pin that a pinout row gives, if it has both an ALT0 signal and a
/// supply domain.
pub open spec fn pin_of(row: PinoutRowModel) -> Option<PinModel> {
    match (row.alt0, row.supply) {
        (Some(name), Some(supply)) => Some(PinModel { name, supply }),
        _ => None,
    }
}

/// The pins that `rows` give, in the rows' order.
pub open spec fn pins_of(rows: Seq<PinoutRowModel>) -> Seq<PinModel>
    decreases rows.len(),
{
    if rows.len() == 0 {
        seq![]
    } else {
        let rest = pins_of(rows.drop_last());
        match pin_of(rows.last()) {
            Some(p) => rest.push(p),
            None => rest,
        }
    }
}

/// The peripheral named by an upper-case instance name: none for an empty
/// name.
pub open spec fn peripheral_named(upper: Seq<char>) -> Option<PeripheralModel> {
    if upper.len() == 0 {
        None
    } else {
        Some(PeripheralModel { name: upper, signals: seq![] })
    }
}

/// The peripherals named by `names`, in order, empty names left out.
pub open spec fn peripherals_named(names: Seq<Seq<char>>) -> Seq<PeripheralModel>
    decreases names.len(),
{
    if names.len() == 0 {
        seq![]
    } else {
        let rest = peripherals_named(names.drop_last());
        match peripheral_named(names.last()) {
            Some(p) => rest.push(p),
            None => rest,
        }
    }
}

/// The upper-case instance names of `rows`.
pub open spec fn instance_names(rows: Seq<MemoryMapRowModel>) -> Seq<Seq<char>> {
    rows.map_values(|r: MemoryMapRowModel| upper_of(r.instance))
}

/// Each row whose instance name is empty has an empty upper-case name too.
pub open spec fn empty_names_stay_empty(rows: Seq<MemoryMapRowModel>) -> bool {
    forall|i: int|
        0 <= i < rows.len() && (#[trigger] rows[i]).instance.len() == 0 ==> upper_of(
            rows[i].instance,
        ).len() == 0
}

/// The peripherals that `rows` give, in the rows' order.
pub open spec fn peripherals_of(rows: Seq<MemoryMapRowModel>) -> Seq<PeripheralModel> {
    peripherals_named(instance_names(rows))
}

/// The document built from decoded pinout and memory-map rows.
pub open spec fn metadata_of(pinout: Seq<PinoutRowModel>, memory_map: Seq<MemoryMapRowModel>) -> MetadataModel {
    MetadataModel {
        schema: schema_ref(),
        comment: family_comment(),
        chips: chip_list(),
        pins: pins_of(pinout),
        peripherals: peripherals_of(memory_map),
    }
}

/// The pin of a pinout row: its ALT0 signal with its supply domain, or
/// `None` when either is absent.
pub fn pin_from_row(row: &PinoutRow) -> (r: Option<Pin>)
    ensures
        match pin_of(row@) {
            Some(p) => r matches Some(q) && q@ == p,
            None => r is None,
        },
{
    match (&row.alt0, &row.supply) {
        (Some(name), Some(supply)) => Some(Pin::new(name.clone(), supply.clone())),
        _ => None,
    }
}

/// The pins of the pinout rows, in order.
pub fn collect_pins(rows: &Vec<PinoutRow>) -> (r: Vec<Pin>)
    ensures
        pins_view(r@) == pins_of(pinout_rows_view(rows@)),
{
    let ghost rs = pinout_rows_view(rows@);
    let mut out: Vec<Pin> = Vec::new();
    let mut i: usize = 0;
    while i < rows.len()
        invariant
            i <= rows@.len(),
            rs == pinout_rows_view(rows@),
            pins_view(out@) == pins_of(rs.take(i as int)),
        decreases rows@.len() - i,
    {
        assert(rs.take(i + 1).drop_last() =~= rs.take(i as int));
        assert(rs.take(i + 1).last() == rows@[i as int]@);
        match pin_from_row(&rows[i]) {
            Some(p) => {
                out.push(p);
            },
            None => {},
        }
        assert(pins_view(out@) =~= pins_of(rs.take(i + 1)));
        i = i + 1;
    }
    assert(rs.take(i as int) =~= rs);
    out
}

/// The peripheral named by an upper-case instance name, with no signals;
/// `None` for an empty name.
pub fn peripheral_from_name(upper: String) -> (r: Option<Peripheral>)
    ensures
        match peripheral_named(upper@) {
            Some(p) => r matches Some(q) && q@ == p,
            None => r is None,
        },
{
    if upper.as_str().is_empty() {
        None
    } else {
        let p = Peripheral::new(upper);
        assert(p@.signals =~= seq![]);
        Some(p)
    }
}

/// The peripherals named by upper-case instance names, in order, empty
/// names left out.
pub fn peripherals_from_names(names: Vec<String>) -> (r: Vec<Peripheral>)
    ensures
        peripherals_view(r@) == peripherals_named(names.deep_view()),
{
    let ghost ns = names.deep_view();
    let mut out: Vec<Peripheral> = Vec::new();
    let mut i: usize = 0;
    while i < names.len()
        invariant
            i <= names@.len(),
            ns == names.deep_view(),
            peripherals_view(out@) == peripherals_named(ns.take(i as int)),
        decreases names@.len() - i,
    {
        assert(ns.take(i + 1).drop_last() =~= ns.take(i as int));
        assert(ns.take(i + 1).last() == names@[i as int]@);
        match peripheral_from_name(names[i].clone()) {
            Some(p) => {
                out.push(p);
            },
            None => {},
        }
        assert(peripherals_view(out@) =~= peripherals_named(ns.take(i + 1)));
        i = i + 1;
    }
    assert(ns.take(i as int) =~= ns);
    out
}

/// The peripherals of the memory-map rows, in order: each instance name in
/// upper case, empty ones left out, repeats kept.
pub fn collect_peripherals(rows: &Vec<MemoryMapRow>) -> (r: Vec<Peripheral>)
    ensures
        peripherals_view(r@) == peripherals_of(memory_map_rows_view(rows@)),
        empty_names_stay_empty(memory_map_rows_view(rows@)),
{
    let ghost rs = memory_map_rows_view(rows@);
    let mut names: Vec<String> = Vec::new();
    let mut i: usize = 0;
    while i < rows.len()
        invariant
            i <= rows@.len(),
            rs == memory_map_rows_view(rows@),
            names.deep_view() == instance_names(rs.take(i as int)),
            forall|k: int|
                0 <= k < i && (#[trigger] rs[k]).instance.len() == 0 ==> upper_of(rs[k].instance).len()
                    == 0,
        decreases rows@.len() - i,
    {
        let upper = to_upper(rows[i].instance.as_str());
        assert(rs[i as int].instance == rows@[i as int].instance@);
        let ghost prev = names.deep_view();
        names.push(upper);
        assert(names.deep_view() =~= prev.push(upper_of(rs[i as int].instance)));
        assert(instance_names(rs.take(i + 1)) =~= instance_names(rs.take(i as int)).push(
            upper_of(rs[i as int].instance),
        ));
        assert(names.deep_view() =~= instance_names(rs.take(i + 1)));
        i = i + 1;
    }
    assert(rs.take(i as int) =~= rs);
    peripherals_from_names(names)
}

/// The document for decoded pinout and memory-map rows: the fixed header
/// and chip list, the pins of the pinout rows and the peripherals of the
/// memory-map rows.
pub fn assemble(pinout: &Vec<PinoutRow>, memory_map: &Vec<MemoryMapRow>) -> (r: Metadata)
    ensures
        r@ == metadata_of(pinout_rows_view(pinout@), memory_map_rows_view(memory_map@)),
        empty_names_stay_empty(memory_map_rows_view(memory_map@)),
{
    let mut data = Metadata::default();
    data.peripherals = collect_peripherals(memory_map);
    data.pins = collect_pins(pinout);
    data
}

/// The document for a pinout table and a memory-map table, each written as
/// csv bytes. Records that do not decode are left out; the chip list is the
/// fixed one whatever the tables hold.
pub fn extract(pinout_csv: &[u8], memory_map_csv: &[u8]) -> (r: Metadata)
    ensures
        r@ == metadata_of(
            decoded_pinout(csv_table_of(pinout_csv@).0, csv_table_of(pinout_csv@).1),
            decoded_memory_map(csv_table_of(memory_map_csv@).0, csv_table_of(memory_map_csv@).1),
        ),
        r@.chips == chip_list(),
        empty_names_stay_empty(
            decoded_memory_map(csv_table_of(memory_map_csv@).0, csv_table_of(memory_map_csv@).1),
        ),
{
    let pinout = read_pinout(pinout_csv);
    let memory_map = read_memory_map(memory_map_csv);
    assemble(&pinout, &memory_map)
}

} // verus!
