//! Typed rows of the two vendor tables, decoded from a header and a record
//! of text cells. Columns are found by their exact header text.

use vstd::prelude::*;
use vstd::string::StringExecFns;
use crate::number::{from_hex, hex_spec, parse_spec, parse_unsigned, NumError};

verus! {

// Header text of the pinout table's columns, byte for byte as the vendor
// writes it (line breaks and stray spaces included).
pub const LQFP144_PIN_NUMBER: &'static str = "MCXA26x/A25x/A18x/A17x\nLQFP144";
pub const LQFP144_PIN_NAME: &'static str = "MCXA26x/A25x/A18x/A17x\n LQFP144 Pin Name";
pub const WFBGA169_PIN_COORD: &'static str = "MCXA26x/A25x/A18x/A17x\nWFBGA169";
pub const WFBGA169_PIN_NAME: &'static str = "MCXA26x/A25x/A18x/A17x\nWFBGA169 Pin Name";
pub const LQFP100_PIN_NUMBER: &'static str = " MCXA26x/A25x/A18x/A17x\nLQFP100";
pub const LQFP100_PIN_NAME: &'static str = " MCXA26x/A25x/A18x/A17x \nLQFP100 Pin Name";
pub const LQFP64_PIN_NUMBER: &'static str = " MCXA26x/A25x/A18x/A17x\nLQFP64";
pub const LQFP64_PIN_NAME: &'static str = " MCXA26x/A25x/A18x/A17x\nLQFP64 Pin Name";
pub const IO_SUPPLY: &'static str = "I/O Supply";
pub const DEFAULT: &'static str = "Default";
pub const ISP: &'static str = "ISP";
pub const ANALOG: &'static str = "ANALOG";
pub const ALT0: &'static str = "ALT0";
pub const ALT1: &'static str = "ALT1";
pub const ALT2: &'static str = "ALT2";
pub const ALT3: &'static str = "ALT3";
pub const ALT4: &'static str = "ALT4";
pub const ALT5: &'static str = "ALT5";
pub const ALT6: &'static str = "ALT6";
pub const ALT7: &'static str = "ALT7";
pub const ALT8: &'static str = "ALT8";
pub const ALT9: &'static str = "ALT9";
pub const ALT10: &'static str = "ALT10";
pub const ALT11: &'static str = "ALT11";
pub const ALT12: &'static str = "ALT12";
pub const VDD_SYS: &'static str = "VDD_SYS";
pub const PAD_TYPE: &'static str = "Pad type";

// Header text of the memory-map table's columns.
pub const PERIPHERAL_DESCRIPTION: &'static str = "Peripheral description";
pub const MODULE_NICKNAME: &'static str = "module_nickname";
pub const PERIPHERAL_INSTANCE: &'static str = "Peripheral instance";
pub const SIZE_KB: &'static str = "Size (KB)";
pub const START_ADDRESS: &'static str = "Start address (hex)";
pub const END_ADDRESS: &'static str = "End address (hex)";

/// Index of the first column of `header` named `name`.
pub open spec fn column_of(header: Seq<Seq<char>>, name: Seq<char>) -> Option<nat>
    decreases header.len(),
{
    if header.len() == 0 {
        None
    } else if header[0] == name {
        Some(0)
    } else {
        match column_of(header.drop_first(), name) {
            Some(i) => Some(i + 1),
            None => None,
        }
    }
}

/// How many columns of `header` are named `name`.
pub open spec fn column_count(header: Seq<Seq<char>>, name: Seq<char>) -> nat
    decreases header.len(),
{
    if header.len() == 0 {
        0
    } else {
        column_count(header.drop_last(), name) + if header.last() == name {
            1nat
        } else {
            0nat
        }
    }
}

/// Whether no pinout column is named twice in `header`.
pub open spec fn pinout_columns_unique(header: Seq<Seq<char>>) -> bool {
    &&& column_count(header, LQFP144_PIN_NUMBER@) <= 1
    &&& column_count(header, LQFP144_PIN_NAME@) <= 1
    &&& column_count(header, WFBGA169_PIN_COORD@) <= 1
    &&& column_count(header, WFBGA169_PIN_NAME@) <= 1
    &&& column_count(header, LQFP100_PIN_NUMBER@) <= 1
    &&& column_count(header, LQFP100_PIN_NAME@) <= 1
    &&& column_count(header, LQFP64_PIN_NUMBER@) <= 1
    &&& column_count(header, LQFP64_PIN_NAME@) <= 1
    &&& column_count(header, IO_SUPPLY@) <= 1
    &&& column_count(header, DEFAULT@) <= 1
    &&& column_count(header, ISP@) <= 1
    &&& column_count(header, ANALOG@) <= 1
    &&& column_count(header, ALT0@) <= 1
    &&& column_count(header, ALT1@) <= 1
    &&& column_count(header, ALT2@) <= 1
    &&& column_count(header, ALT3@) <= 1
    &&& column_count(header, ALT4@) <= 1
    &&& column_count(header, ALT5@) <= 1
    &&& column_count(header, ALT6@) <= 1
    &&& column_count(header, ALT7@) <= 1
    &&& column_count(header, ALT8@) <= 1
    &&& column_count(header, ALT9@) <= 1
    &&& column_count(header, ALT10@) <= 1
    &&& column_count(header, ALT11@) <= 1
    &&& column_count(header, ALT12@) <= 1
    &&& column_count(header, VDD_SYS@) <= 1
    &&& column_count(header, PAD_TYPE@) <= 1
}

/// Whether no memory-map column is named twice in `header`.
pub open spec fn memory_map_columns_unique(header: Seq<Seq<char>>) -> bool {
    &&& column_count(header, PERIPHERAL_DESCRIPTION@) <= 1
    &&& column_count(header, MODULE_NICKNAME@) <= 1
    &&& column_count(header, PERIPHERAL_INSTANCE@) <= 1
    &&& column_count(header, SIZE_KB@) <= 1
    &&& column_count(header, START_ADDRESS@) <= 1
    &&& column_count(header, END_ADDRESS@) <= 1
}

/// An optional text cell: absent when the column is missing or the cell is
/// empty.
pub open spec fn text_cell(header: Seq<Seq<char>>, fields: Seq<Seq<char>>, name: Seq<char>) -> Option<Seq<char>> {
    match column_of(header, name) {
        None => None,
        Some(i) => if fields[i as int].len() == 0 {
            None
        } else {
            Some(fields[i as int])
        },
    }
}

/// A required text cell: `None` when the column is missing; an empty cell
/// is an empty text.
pub open spec fn required_text_cell(header: Seq<Seq<char>>, fields: Seq<Seq<char>>, name: Seq<char>) -> Option<Seq<char>> {
    match column_of(header, name) {
        None => None,
        Some(i) => Some(fields[i as int]),
    }
}

/// How an integer cell reads: hexadecimal after a `0x` prefix, else decimal.
pub open spec fn int_spec(s: Seq<char>) -> Result<u32, NumError> {
    if s.len() >= 2 && s[0] == '0' && s[1] == 'x' {
        parse_spec(s.subrange(2, s.len() as int), 16)
    } else {
        parse_spec(s, 10)
    }
}

/// An optional integer cell: `Ok(None)` when the column is missing or the
/// cell is empty, an error when the text is not a number.
pub open spec fn number_cell(header: Seq<Seq<char>>, fields: Seq<Seq<char>>, name: Seq<char>) -> Result<Option<u32>, NumError> {
    match column_of(header, name) {
        None => Ok(None),
        Some(i) => if fields[i as int].len() == 0 {
            Ok(None)
        } else {
            match int_spec(fields[i as int]) {
                Ok(v) => Ok(Some(v)),
                Err(e) => Err(e),
            }
        },
    }
}

/// A required integer cell; `None` when the column is missing or the text
/// is not a number.
pub open spec fn required_number_cell(header: Seq<Seq<char>>, fields: Seq<Seq<char>>, name: Seq<char>) -> Option<u32> {
    match column_of(header, name) {
        None => None,
        Some(i) => match int_spec(fields[i as int]) {
            Ok(v) => Some(v),
            Err(_) => None,
        },
    }
}

/// A required hexadecimal address cell; `None` when the column is missing or
/// the text is not an address.
pub open spec fn required_hex_cell(header: Seq<Seq<char>>, fields: Seq<Seq<char>>, name: Seq<char>) -> Option<u32> {
    match column_of(header, name) {
        None => None,
        Some(i) => match hex_spec(fields[i as int]) {
            Ok(v) => Some(v),
            Err(_) => None,
        },
    }
}

/// One row of the pinout table. Only `supply` and `alt0` feed the document
/// today; the other columns are kept for later use.
#[derive(Debug, PartialEq, Eq)]
pub struct PinoutRow {
    pub lqfp144_pin_number: Option<u32>,
    pub lqfp144_pin_name: Option<String>,
    pub wfbga169_pin_coord: Option<String>,
    pub wfbga169_pin_name: Option<String>,
    pub lqfp100_pin_number: Option<u32>,
    pub lqfp100_pin_name: Option<String>,
    pub lqfp64_pin_number: Option<u32>,
    pub lqfp64_pin_name: Option<String>,
    pub supply: Option<String>,
    pub default: Option<String>,
    pub isp: Option<String>,
    pub analog: Option<String>,
    pub alt0: Option<String>,
    pub alt1: Option<String>,
    pub alt2: Option<String>,
    pub alt3: Option<String>,
    pub alt4: Option<String>,
    pub alt5: Option<String>,
    pub alt6: Option<String>,
    pub alt7: Option<String>,
    pub alt8: Option<String>,
    pub alt9: Option<String>,
    pub alt10: Option<String>,
    pub alt11: Option<String>,
    pub alt12: Option<String>,
    pub vdd_sys: Option<String>,
    pub pad_type: Option<String>,
}

/// The mathematical value of a [`PinoutRow`].
pub struct PinoutRowModel {
    pub lqfp144_pin_number: Option<u32>,
    pub lqfp144_pin_name: Option<Seq<char>>,
    pub wfbga169_pin_coord: Option<Seq<char>>,
    pub wfbga169_pin_name: Option<Seq<char>>,
    pub lqfp100_pin_number: Option<u32>,
    pub lqfp100_pin_name: Option<Seq<char>>,
    pub lqfp64_pin_number: Option<u32>,
    pub lqfp64_pin_name: Option<Seq<char>>,
    pub supply: Option<Seq<char>>,
    pub default: Option<Seq<char>>,
    pub isp: Option<Seq<char>>,
    pub analog: Option<Seq<char>>,
    pub alt0: Option<Seq<char>>,
    pub alt1: Option<Seq<char>>,
    pub alt2: Option<Seq<char>>,
    pub alt3: Option<Seq<char>>,
    pub alt4: Option<Seq<char>>,
    pub alt5: Option<Seq<char>>,
    pub alt6: Option<Seq<char>>,
    pub alt7: Option<Seq<char>>,
    pub alt8: Option<Seq<char>>,
    pub alt9: Option<Seq<char>>,
    pub alt10: Option<Seq<char>>,
    pub alt11: Option<Seq<char>>,
    pub alt12: Option<Seq<char>>,
    pub vdd_sys: Option<Seq<char>>,
    pub pad_type: Option<Seq<char>>,
}

impl View for PinoutRow {
    type V = PinoutRowModel;

    open spec fn view(&self) -> PinoutRowModel {
        PinoutRowModel {
            lqfp144_pin_number: self.lqfp144_pin_number,
            lqfp144_pin_name: self.lqfp144_pin_name.deep_view(),
            wfbga169_pin_coord: self.wfbga169_pin_coord.deep_view(),
            wfbga169_pin_name: self.wfbga169_pin_name.deep_view(),
            lqfp100_pin_number: self.lqfp100_pin_number,
            lqfp100_pin_name: self.lqfp100_pin_name.deep_view(),
            lqfp64_pin_number: self.lqfp64_pin_number,
            lqfp64_pin_name: self.lqfp64_pin_name.deep_view(),
            supply: self.supply.deep_view(),
            default: self.default.deep_view(),
            isp: self.isp.deep_view(),
            analog: self.analog.deep_view(),
            alt0: self.alt0.deep_view(),
            alt1: self.alt1.deep_view(),
            alt2: self.alt2.deep_view(),
            alt3: self.alt3.deep_view(),
            alt4: self.alt4.deep_view(),
            alt5: self.alt5.deep_view(),
            alt6: self.alt6.deep_view(),
            alt7: self.alt7.deep_view(),
            alt8: self.alt8.deep_view(),
            alt9: self.alt9.deep_view(),
            alt10: self.alt10.deep_view(),
            alt11: self.alt11.deep_view(),
            alt12: self.alt12.deep_view(),
            vdd_sys: self.vdd_sys.deep_view(),
            pad_type: self.pad_type.deep_view(),
        }
    }
}

/// Whether a pinout record decodes: it has one cell per header column, no
/// column of the row is named twice in the header, and every integer cell
/// present reads as a number.
pub open spec fn pinout_decodes(header: Seq<Seq<char>>, fields: Seq<Seq<char>>) -> bool {
    &&& fields.len() == header.len()
    &&& pinout_columns_unique(header)
    &&& number_cell(header, fields, LQFP144_PIN_NUMBER@) is Ok
    &&& number_cell(header, fields, LQFP100_PIN_NUMBER@) is Ok
    &&& number_cell(header, fields, LQFP64_PIN_NUMBER@) is Ok
}

/// The row that a decodable pinout record gives.
pub open spec fn pinout_model(header: Seq<Seq<char>>, fields: Seq<Seq<char>>) -> PinoutRowModel {
    PinoutRowModel {
        lqfp144_pin_number: number_cell(header, fields, LQFP144_PIN_NUMBER@)->Ok_0,
        lqfp144_pin_name: text_cell(header, fields, LQFP144_PIN_NAME@),
        wfbga169_pin_coord: text_cell(header, fields, WFBGA169_PIN_COORD@),
        wfbga169_pin_name: text_cell(header, fields, WFBGA169_PIN_NAME@),
        lqfp100_pin_number: number_cell(header, fields, LQFP100_PIN_NUMBER@)->Ok_0,
        lqfp100_pin_name: text_cell(header, fields, LQFP100_PIN_NAME@),
        lqfp64_pin_number: number_cell(header, fields, LQFP64_PIN_NUMBER@)->Ok_0,
        lqfp64_pin_name: text_cell(header, fields, LQFP64_PIN_NAME@),
        supply: text_cell(header, fields, IO_SUPPLY@),
        default: text_cell(header, fields, DEFAULT@),
        isp: text_cell(header, fields, ISP@),
        analog: text_cell(header, fields, ANALOG@),
        alt0: text_cell(header, fields, ALT0@),
        alt1: text_cell(header, fields, ALT1@),
        alt2: text_cell(header, fields, ALT2@),
        alt3: text_cell(header, fields, ALT3@),
        alt4: text_cell(header, fields, ALT4@),
        alt5: text_cell(header, fields, ALT5@),
        alt6: text_cell(header, fields, ALT6@),
        alt7: text_cell(header, fields, ALT7@),
        alt8: text_cell(header, fields, ALT8@),
        alt9: text_cell(header, fields, ALT9@),
        alt10: text_cell(header, fields, ALT10@),
        alt11: text_cell(header, fields, ALT11@),
        alt12: text_cell(header, fields, ALT12@),
        vdd_sys: text_cell(header, fields, VDD_SYS@),
        pad_type: text_cell(header, fields, PAD_TYPE@),
    }
}

/// One row of the memory-map table. Only `instance` feeds the document
/// today.
#[derive(Debug, PartialEq, Eq)]
pub struct MemoryMapRow {
    pub desc: String,
    pub nickname: String,
    pub instance: String,
    pub size: u32,
    pub start: u32,
    pub end: u32,
}

/// The mathematical value of a [`MemoryMapRow`].
pub struct MemoryMapRowModel {
    pub desc: Seq<char>,
    pub nickname: Seq<char>,
    pub instance: Seq<char>,
    pub size: u32,
    pub start: u32,
    pub end: u32,
}

impl View for MemoryMapRow {
    type V = MemoryMapRowModel;

    open spec fn view(&self) -> MemoryMapRowModel {
        MemoryMapRowModel {
            desc: self.desc@,
            nickname: self.nickname@,
            instance: self.instance@,
            size: self.size,
            start: self.start,
            end: self.end,
        }
    }
}

/// Whether a memory-map record decodes: one cell per header column, every
/// column present and named once, the size a number and both addresses
/// hexadecimal.
pub open spec fn memory_map_decodes(header: Seq<Seq<char>>, fields: Seq<Seq<char>>) -> bool {
    &&& fields.len() == header.len()
    &&& memory_map_columns_unique(header)
    &&& required_text_cell(header, fields, PERIPHERAL_DESCRIPTION@) is Some
    &&& required_text_cell(header, fields, MODULE_NICKNAME@) is Some
    &&& required_text_cell(header, fields, PERIPHERAL_INSTANCE@) is Some
    &&& required_number_cell(header, fields, SIZE_KB@) is Some
    &&& required_hex_cell(header, fields, START_ADDRESS@) is Some
    &&& required_hex_cell(header, fields, END_ADDRESS@) is Some
}

/// The row that a decodable memory-map record gives.
pub open spec fn memory_map_model(header: Seq<Seq<char>>, fields: Seq<Seq<char>>) -> MemoryMapRowModel {
    MemoryMapRowModel {
        desc: required_text_cell(header, fields, PERIPHERAL_DESCRIPTION@)->Some_0,
        nickname: required_text_cell(header, fields, MODULE_NICKNAME@)->Some_0,
        instance: required_text_cell(header, fields, PERIPHERAL_INSTANCE@)->Some_0,
        size: required_number_cell(header, fields, SIZE_KB@)->Some_0,
        start: required_hex_cell(header, fields, START_ADDRESS@)->Some_0,
        end: required_hex_cell(header, fields, END_ADDRESS@)->Some_0,
    }
}

proof fn lemma_column_of(header: Seq<Seq<char>>, name: Seq<char>)
    ensures
        match column_of(header, name) {
            Some(i) => i < header.len() && header[i as int] == name && forall|j: int|
                0 <= j < i ==> header[j] != name,
            None => forall|j: int| 0 <= j < header.len() ==> header[j] != name,
        },
    decreases header.len(),
{
    if header.len() > 0 {
        let tail = header.drop_first();
        lemma_column_of(tail, name);
        assert forall|j: int| 0 < j < header.len() implies header[j] == tail[j - 1] by {}
    }
}

/// Index of the first column of `header` named `name`.
pub fn find_column(header: &Vec<String>, name: &str) -> (r: Option<usize>)
    ensures
        r matches Some(i) ==> i < header@.len() && column_of(header.deep_view(), name@) == Some(
            i as nat,
        ),
        r is None ==> column_of(header.deep_view(), name@) is None,
{
    let ghost h = header.deep_view();
    proof {
        lemma_column_of(h, name@);
    }
    let key = String::from_str(name);
    let mut i: usize = 0;
    while i < header.len()
        invariant
            i <= header@.len(),
            h == header.deep_view(),
            key@ == name@,
            forall|j: int| 0 <= j < i ==> h[j] != name@,
            match column_of(h, name@) {
                Some(k) => k < h.len() && h[k as int] == name@ && forall|j: int| 0 <= j < k ==> h[j] != name@,
                None => forall|j: int| 0 <= j < h.len() ==> h[j] != name@,
            },
        decreases header@.len() - i,
    {
        assert(h[i as int] == header@[i as int]@);
        if header[i].eq(&key) {
            return Some(i);
        }
        i = i + 1;
    }
    None
}

/// Whether at most one column of `header` is named `name`.
pub fn column_is_unique(header: &Vec<String>, name: &str) -> (r: bool)
    ensures
        r == (column_count(header.deep_view(), name@) <= 1),
{
    let ghost h = header.deep_view();
    let key = String::from_str(name);
    let mut count: usize = 0;
    let mut i: usize = 0;
    while i < header.len()
        invariant
            i <= header@.len(),
            h == header.deep_view(),
            key@ == name@,
            count == column_count(h.take(i as int), name@),
            count <= i,
        decreases header@.len() - i,
    {
        assert(h.take(i + 1).drop_last() =~= h.take(i as int));
        assert(h.take(i + 1).last() == header@[i as int]@);
        if header[i].eq(&key) {
            count = count + 1;
        }
        i = i + 1;
    }
    assert(h.take(i as int) =~= h);
    count <= 1
}

fn check_pinout_columns(header: &Vec<String>) -> (r: bool)
    ensures
        r == pinout_columns_unique(header.deep_view()),
{
    column_is_unique(header, LQFP144_PIN_NUMBER)
        && column_is_unique(header, LQFP144_PIN_NAME)
        && column_is_unique(header, WFBGA169_PIN_COORD)
        && column_is_unique(header, WFBGA169_PIN_NAME)
        && column_is_unique(header, LQFP100_PIN_NUMBER)
        && column_is_unique(header, LQFP100_PIN_NAME)
        && column_is_unique(header, LQFP64_PIN_NUMBER)
        && column_is_unique(header, LQFP64_PIN_NAME)
        && column_is_unique(header, IO_SUPPLY)
        && column_is_unique(header, DEFAULT)
        && column_is_unique(header, ISP)
        && column_is_unique(header, ANALOG)
        && column_is_unique(header, ALT0)
        && column_is_unique(header, ALT1)
        && column_is_unique(header, ALT2)
        && column_is_unique(header, ALT3)
        && column_is_unique(header, ALT4)
        && column_is_unique(header, ALT5)
        && column_is_unique(header, ALT6)
        && column_is_unique(header, ALT7)
        && column_is_unique(header, ALT8)
        && column_is_unique(header, ALT9)
        && column_is_unique(header, ALT10)
        && column_is_unique(header, ALT11)
        && column_is_unique(header, ALT12)
        && column_is_unique(header, VDD_SYS)
        && column_is_unique(header, PAD_TYPE)
}

fn check_memory_map_columns(header: &Vec<String>) -> (r: bool)
    ensures
        r == memory_map_columns_unique(header.deep_view()),
{
    column_is_unique(header, PERIPHERAL_DESCRIPTION)
        && column_is_unique(header, MODULE_NICKNAME)
        && column_is_unique(header, PERIPHERAL_INSTANCE)
        && column_is_unique(header, SIZE_KB)
        && column_is_unique(header, START_ADDRESS)
        && column_is_unique(header, END_ADDRESS)
}

fn text_at(header: &Vec<String>, fields: &Vec<String>, name: &str) -> (r: Option<String>)
    requires
        fields@.len() == header@.len(),
    ensures
        r.deep_view() == text_cell(header.deep_view(), fields.deep_view(), name@),
{
    match find_column(header, name) {
        None => None,
        Some(i) => {
            assert(fields.deep_view()[i as int] == fields@[i as int]@);
            if fields[i].as_str().is_empty() {
                None
            } else {
                Some(fields[i].clone())
            }
        },
    }
}

fn required_text_at(header: &Vec<String>, fields: &Vec<String>, name: &str) -> (r: Option<String>)
    requires
        fields@.len() == header@.len(),
    ensures
        r.deep_view() == required_text_cell(header.deep_view(), fields.deep_view(), name@),
{
    match find_column(header, name) {
        None => None,
        Some(i) => {
            assert(fields.deep_view()[i as int] == fields@[i as int]@);
            Some(fields[i].clone())
        },
    }
}

/// Reads an integer cell: hexadecimal after a `0x` prefix, else decimal.
pub fn read_int(s: &str) -> (r: Result<u32, NumError>)
    ensures
        r == int_spec(s@),
{
    let n = s.unicode_len();
    if n >= 2 && s.get_char(0) == '0' && s.get_char(1) == 'x' {
        parse_unsigned(s.substring_char(2, n), 16)
    } else {
        parse_unsigned(s, 10)
    }
}

fn number_at(header: &Vec<String>, fields: &Vec<String>, name: &str) -> (r: Result<Option<u32>, NumError>)
    requires
        fields@.len() == header@.len(),
    ensures
        r == number_cell(header.deep_view(), fields.deep_view(), name@),
{
    match find_column(header, name) {
        None => Ok(None),
        Some(i) => {
            assert(fields.deep_view()[i as int] == fields@[i as int]@);
            if fields[i].as_str().is_empty() {
                Ok(None)
            } else {
                match read_int(fields[i].as_str()) {
                    Ok(v) => Ok(Some(v)),
                    Err(e) => Err(e),
                }
            }
        },
    }
}

fn required_number_at(header: &Vec<String>, fields: &Vec<String>, name: &str) -> (r: Option<u32>)
    requires
        fields@.len() == header@.len(),
    ensures
        r == required_number_cell(header.deep_view(), fields.deep_view(), name@),
{
    match find_column(header, name) {
        None => None,
        Some(i) => {
            assert(fields.deep_view()[i as int] == fields@[i as int]@);
            match read_int(fields[i].as_str()) {
                Ok(v) => Some(v),
                Err(_) => None,
            }
        },
    }
}

fn required_hex_at(header: &Vec<String>, fields: &Vec<String>, name: &str) -> (r: Option<u32>)
    requires
        fields@.len() == header@.len(),
    ensures
        r == required_hex_cell(header.deep_view(), fields.deep_view(), name@),
{
    match find_column(header, name) {
        None => None,
        Some(i) => {
            assert(fields.deep_view()[i as int] == fields@[i as int]@);
            match from_hex(fields[i].as_str()) {
                Ok(v) => Some(v),
                Err(_) => None,
            }
        },
    }
}

/// Decodes one record of the pinout table against its header. `None` when
/// the record does not have one cell per column, a column of the row is
/// named twice in the header, or an integer cell is not a number.
pub fn decode_pinout_row(header: &Vec<String>, fields: &Vec<String>) -> (r: Option<PinoutRow>)
    ensures
        r is Some <==> pinout_decodes(header.deep_view(), fields.deep_view()),
        r matches Some(row) ==> row@ == pinout_model(header.deep_view(), fields.deep_view()),
{
    if fields.len() != header.len() || !check_pinout_columns(header) {
        return None;
    }
    let lqfp144_pin_number = match number_at(header, fields, LQFP144_PIN_NUMBER) {
        Ok(v) => v,
        Err(_) => return None,
    };
    let lqfp144_pin_name = text_at(header, fields, LQFP144_PIN_NAME);
    let wfbga169_pin_coord = text_at(header, fields, WFBGA169_PIN_COORD);
    let wfbga169_pin_name = text_at(header, fields, WFBGA169_PIN_NAME);
    let lqfp100_pin_number = match number_at(header, fields, LQFP100_PIN_NUMBER) {
        Ok(v) => v,
        Err(_) => return None,
    };
    let lqfp100_pin_name = text_at(header, fields, LQFP100_PIN_NAME);
    let lqfp64_pin_number = match number_at(header, fields, LQFP64_PIN_NUMBER) {
        Ok(v) => v,
        Err(_) => return None,
    };
    let lqfp64_pin_name = text_at(header, fields, LQFP64_PIN_NAME);
    let supply = text_at(header, fields, IO_SUPPLY);
    let default = text_at(header, fields, DEFAULT);
    let isp = text_at(header, fields, ISP);
    let analog = text_at(header, fields, ANALOG);
    let alt0 = text_at(header, fields, ALT0);
    let alt1 = text_at(header, fields, ALT1);
    let alt2 = text_at(header, fields, ALT2);
    let alt3 = text_at(header, fields, ALT3);
    let alt4 = text_at(header, fields, ALT4);
    let alt5 = text_at(header, fields, ALT5);
    let alt6 = text_at(header, fields, ALT6);
    let alt7 = text_at(header, fields, ALT7);
    let alt8 = text_at(header, fields, ALT8);
    let alt9 = text_at(header, fields, ALT9);
    let alt10 = text_at(header, fields, ALT10);
    let alt11 = text_at(header, fields, ALT11);
    let alt12 = text_at(header, fields, ALT12);
    let vdd_sys = text_at(header, fields, VDD_SYS);
    let pad_type = text_at(header, fields, PAD_TYPE);
    Some(PinoutRow {
        lqfp144_pin_number,
        lqfp144_pin_name,
        wfbga169_pin_coord,
        wfbga169_pin_name,
        lqfp100_pin_number,
        lqfp100_pin_name,
        lqfp64_pin_number,
        lqfp64_pin_name,
        supply,
        default,
        isp,
        analog,
        alt0,
        alt1,
        alt2,
        alt3,
        alt4,
        alt5,
        alt6,
        alt7,
        alt8,
        alt9,
        alt10,
        alt11,
        alt12,
        vdd_sys,
        pad_type,
    })
}

/// Decodes one record of the memory-map table against its header. `None`
/// when the record does not have one cell per column, a column is missing
/// or named twice, the size is not a number or an address is not
/// hexadecimal.
pub fn decode_memory_map_row(header: &Vec<String>, fields: &Vec<String>) -> (r: Option<MemoryMapRow>)
    ensures
        r is Some <==> memory_map_decodes(header.deep_view(), fields.deep_view()),
        r matches Some(row) ==> row@ == memory_map_model(header.deep_view(), fields.deep_view()),
{
    if fields.len() != header.len() || !check_memory_map_columns(header) {
        return None;
    }
    let desc = match required_text_at(header, fields, PERIPHERAL_DESCRIPTION) {
        Some(v) => v,
        None => return None,
    };
    let nickname = match required_text_at(header, fields, MODULE_NICKNAME) {
        Some(v) => v,
        None => return None,
    };
    let instance = match required_text_at(header, fields, PERIPHERAL_INSTANCE) {
        Some(v) => v,
        None => return None,
    };
    let size = match required_number_at(header, fields, SIZE_KB) {
        Some(v) => v,
        None => return None,
    };
    let start = match required_hex_at(header, fields, START_ADDRESS) {
        Some(v) => v,
        None => return None,
    };
    let end = match required_hex_at(header, fields, END_ADDRESS) {
        Some(v) => v,
        None => return None,
    };
    Some(MemoryMapRow {
        desc,
        nickname,
        instance,
        size,
        start,
        end,
    })
}

} // verus!
