//! What holds of the extraction for all inputs: rows are handled one by one,
//! in order, and a row that gives nothing leaves the others untouched.

use vstd::prelude::*;
use crate::assemble::{
    instance_names, peripheral_named, peripherals_named, peripherals_of, pin_of, pins_of, upper_of,
};
use crate::model::{PeripheralModel, PinModel};
use crate::rows::{memory_map_decodes, pinout_decodes, MemoryMapRowModel, PinoutRowModel};
use crate::table::{decoded_memory_map, decoded_pinout};

verus! {

/// The pins of two runs of rows, one after the other, are the pins of the
/// first run followed by those of the second.
pub proof fn law_pins_of_concat(a: Seq<PinoutRowModel>, b: Seq<PinoutRowModel>)
    ensures
        pins_of(a + b) == pins_of(a) + pins_of(b),
    decreases b.len(),
{
    if b.len() == 0 {
        assert(a + b =~= a);
        assert(pins_of(a) + pins_of(b) =~= pins_of(a));
    } else {
        law_pins_of_concat(a, b.drop_last());
        assert((a + b).drop_last() =~= a + b.drop_last());
        assert((a + b).last() == b.last());
        match pin_of(b.last()) {
            Some(p) => {
                assert(pins_of(a) + pins_of(b) =~= (pins_of(a) + pins_of(b.drop_last())).push(p));
            },
            None => {},
        }
    }
}

/// A pinout row with both an ALT0 signal and a supply domain gives exactly
/// one pin, with that name and that supply, between the pins of the rows
/// before it and those of the rows after it.
pub proof fn law_complete_row_gives_its_pin(
    before: Seq<PinoutRowModel>,
    row: PinoutRowModel,
    after: Seq<PinoutRowModel>,
)
    requires
        row.alt0 is Some,
        row.supply is Some,
    ensures
        pins_of(before + seq![row] + after) == pins_of(before) + seq![
            PinModel { name: row.alt0->Some_0, supply: row.supply->Some_0 },
        ] + pins_of(after),
{
    law_pins_of_concat(before, seq![row]);
    law_pins_of_concat(before + seq![row], after);
    assert(seq![row].drop_last() =~= Seq::<PinoutRowModel>::empty());
    assert(pins_of(Seq::<PinoutRowModel>::empty()) == Seq::<PinModel>::empty());
    assert(seq![row].last() == row);
    assert(pins_of(seq![row]) =~= seq![PinModel { name: row.alt0->Some_0, supply: row.supply->Some_0 }]);
}

/// A pinout row without an ALT0 signal or without a supply domain gives no
/// pin: the pins are those of the other rows, in order.
pub proof fn law_incomplete_row_gives_no_pin(
    before: Seq<PinoutRowModel>,
    row: PinoutRowModel,
    after: Seq<PinoutRowModel>,
)
    requires
        row.alt0 is None || row.supply is None,
    ensures
        pins_of(before + seq![row] + after) == pins_of(before) + pins_of(after),
{
    law_pins_of_concat(before, seq![row]);
    law_pins_of_concat(before + seq![row], after);
    assert(seq![row].drop_last() =~= Seq::<PinoutRowModel>::empty());
    assert(pins_of(Seq::<PinoutRowModel>::empty()) == Seq::<PinModel>::empty());
    assert(seq![row].last() == row);
    assert(pins_of(seq![row]) =~= Seq::<PinModel>::empty());
    assert(pins_of(before) + Seq::<PinModel>::empty() =~= pins_of(before));
}

proof fn lemma_peripherals_named_concat(a: Seq<Seq<char>>, b: Seq<Seq<char>>)
    ensures
        peripherals_named(a + b) == peripherals_named(a) + peripherals_named(b),
    decreases b.len(),
{
    if b.len() == 0 {
        assert(a + b =~= a);
        assert(peripherals_named(a) + peripherals_named(b) =~= peripherals_named(a));
    } else {
        lemma_peripherals_named_concat(a, b.drop_last());
        assert((a + b).drop_last() =~= a + b.drop_last());
        assert((a + b).last() == b.last());
        match peripheral_named(b.last()) {
            Some(p) => {
                assert(peripherals_named(a) + peripherals_named(b) =~= (peripherals_named(a)
                    + peripherals_named(b.drop_last())).push(p));
            },
            None => {},
        }
    }
}

/// The peripherals of two runs of memory-map rows, one after the other, are
/// the peripherals of the first run followed by those of the second.
pub proof fn law_peripherals_of_concat(a: Seq<MemoryMapRowModel>, b: Seq<MemoryMapRowModel>)
    ensures
        peripherals_of(a + b) == peripherals_of(a) + peripherals_of(b),
{
    assert(instance_names(a + b) =~= instance_names(a) + instance_names(b));
    lemma_peripherals_named_concat(instance_names(a), instance_names(b));
}

/// A memory-map row whose instance name is empty once in upper case gives no
/// peripheral: the peripherals are those of the other rows, in order.
pub proof fn law_empty_name_gives_no_peripheral(
    before: Seq<MemoryMapRowModel>,
    row: MemoryMapRowModel,
    after: Seq<MemoryMapRowModel>,
)
    requires
        upper_of(row.instance).len() == 0,
    ensures
        peripherals_of(before + seq![row] + after) == peripherals_of(before) + peripherals_of(after),
{
    law_peripherals_of_concat(before, seq![row]);
    law_peripherals_of_concat(before + seq![row], after);
    let names = instance_names(seq![row]);
    assert(names.drop_last() =~= Seq::<Seq<char>>::empty());
    assert(peripherals_named(Seq::<Seq<char>>::empty()) == Seq::<PeripheralModel>::empty());
    assert(names.last() == upper_of(row.instance));
    assert(peripherals_of(seq![row]) =~= Seq::<PeripheralModel>::empty());
    assert(peripherals_of(before) + Seq::<PeripheralModel>::empty() =~= peripherals_of(before));
}

/// The rows of two runs of records, one after the other, are the rows of
/// the first run followed by those of the second, in both tables.
pub proof fn law_decoded_concat(
    header: Seq<Seq<char>>,
    a: Seq<Option<Seq<Seq<char>>>>,
    b: Seq<Option<Seq<Seq<char>>>>,
)
    ensures
        decoded_pinout(header, a + b) == decoded_pinout(header, a) + decoded_pinout(header, b),
        decoded_memory_map(header, a + b) == decoded_memory_map(header, a) + decoded_memory_map(header, b),
    decreases b.len(),
{
    if b.len() == 0 {
        assert(a + b =~= a);
        assert(decoded_pinout(header, a) + decoded_pinout(header, b) =~= decoded_pinout(header, a));
        assert(decoded_memory_map(header, a) + decoded_memory_map(header, b) =~= decoded_memory_map(
            header,
            a,
        ));
    } else {
        law_decoded_concat(header, a, b.drop_last());
        assert((a + b).drop_last() =~= a + b.drop_last());
        assert((a + b).last() == b.last());
        let pa = decoded_pinout(header, a);
        let pb = decoded_pinout(header, b.drop_last());
        let ma = decoded_memory_map(header, a);
        let mb = decoded_memory_map(header, b.drop_last());
        match b.last() {
            Some(f) => {
                if pinout_decodes(header, f) {
                    assert(pa + pb.push(crate::rows::pinout_model(header, f)) =~= (pa + pb).push(
                        crate::rows::pinout_model(header, f),
                    ));
                }
                if memory_map_decodes(header, f) {
                    assert(ma + mb.push(crate::rows::memory_map_model(header, f)) =~= (ma + mb).push(
                        crate::rows::memory_map_model(header, f),
                    ));
                }
            },
            None => {},
        }
    }
}

/// A record that the reader rejected, or that does not have one cell per
/// header column, gives no row, and the records after it are decoded as
/// if it were not there.
pub proof fn law_malformed_record_is_dropped(
    header: Seq<Seq<char>>,
    before: Seq<Option<Seq<Seq<char>>>>,
    bad: Option<Seq<Seq<char>>>,
    after: Seq<Option<Seq<Seq<char>>>>,
)
    requires
        bad matches Some(f) ==> f.len() != header.len(),
    ensures
        decoded_pinout(header, before + seq![bad] + after) == decoded_pinout(header, before)
            + decoded_pinout(header, after),
        decoded_memory_map(header, before + seq![bad] + after) == decoded_memory_map(header, before)
            + decoded_memory_map(header, after),
{
    law_decoded_concat(header, before, seq![bad]);
    law_decoded_concat(header, before + seq![bad], after);
    let one = seq![bad];
    assert(one.drop_last() =~= Seq::<Option<Seq<Seq<char>>>>::empty());
    assert(one.last() == bad);
    assert(decoded_pinout(header, Seq::<Option<Seq<Seq<char>>>>::empty()) =~= Seq::<PinoutRowModel>::empty());
    assert(decoded_memory_map(header, Seq::<Option<Seq<Seq<char>>>>::empty()) =~= Seq::<MemoryMapRowModel>::empty());
    assert(decoded_pinout(header, one) =~= Seq::<PinoutRowModel>::empty());
    assert(decoded_memory_map(header, one) =~= Seq::<MemoryMapRowModel>::empty());
    assert(decoded_pinout(header, before) + Seq::<PinoutRowModel>::empty() =~= decoded_pinout(header, before));
    assert(decoded_memory_map(header, before) + Seq::<MemoryMapRowModel>::empty() =~= decoded_memory_map(
        header,
        before,
    ));
}

} // verus!
