use mcxa_meta::assemble::{
    assemble, collect_peripherals, collect_pins, extract, peripheral_from_name,
    peripherals_from_names, pin_from_row,
};
use mcxa_meta::model::{chips, Metadata, Peripheral, Pin};
use mcxa_meta::number::{from_hex, parse_digits, parse_unsigned, trim, NumError};
use mcxa_meta::rows::{
    column_is_unique, decode_memory_map_row, decode_pinout_row, find_column, read_int, MemoryMapRow, PinoutRow,
    ALT0, IO_SUPPLY, LQFP144_PIN_NUMBER, LQFP64_PIN_NAME,
};
use mcxa_meta::table::{decode_memory_map, decode_pinout, read_memory_map, read_pinout};

fn strings(v: &[&str]) -> Vec<String> {
    v.iter().map(|s| s.to_string()).collect()
}

fn empty_pinout_row() -> PinoutRow {
    PinoutRow {
        lqfp144_pin_number: None,
        lqfp144_pin_name: None,
        wfbga169_pin_coord: None,
        wfbga169_pin_name: None,
        lqfp100_pin_number: None,
        lqfp100_pin_name: None,
        lqfp64_pin_number: None,
        lqfp64_pin_name: None,
        supply: None,
        default: None,
        isp: None,
        analog: None,
        alt0: None,
        alt1: None,
        alt2: None,
        alt3: None,
        alt4: None,
        alt5: None,
        alt6: None,
        alt7: None,
        alt8: None,
        alt9: None,
        alt10: None,
        alt11: None,
        alt12: None,
        vdd_sys: None,
        pad_type: None,
    }
}

fn pinout_row(alt0: Option<&str>, supply: Option<&str>) -> PinoutRow {
    let mut r = empty_pinout_row();
    r.alt0 = alt0.map(|s| s.to_string());
    r.supply = supply.map(|s| s.to_string());
    r
}

fn memory_map_row(instance: &str) -> MemoryMapRow {
    MemoryMapRow {
        desc: "General-purpose I/O".to_string(),
        nickname: "gpio".to_string(),
        instance: instance.to_string(),
        size: 4,
        start: 0x4000_0000,
        end: 0x4000_0fff,
    }
}

const MEMORY_MAP_HEADER: &str = "Peripheral description,module_nickname,Peripheral instance,Size (KB),Start address (hex),End address (hex)\n";

#[test]
fn hex_forms_all_read_as_4096() {
    assert_eq!(from_hex("0x1000"), Ok(4096));
    assert_eq!(from_hex("0X1000"), Ok(4096));
    assert_eq!(from_hex("1000"), Ok(4096));
    assert_eq!(from_hex(" 0x1000 "), Ok(4096));
}

#[test]
fn hex_with_non_digits_fails() {
    assert_eq!(from_hex("0xZZZZ"), Err(NumError::InvalidDigit));
    assert_eq!(from_hex("0x10 00"), Err(NumError::InvalidDigit));
}

#[test]
fn hex_rejects_a_sign() {
    assert_eq!(from_hex("+1000"), Err(NumError::InvalidDigit));
    assert_eq!(from_hex("0x+1000"), Err(NumError::InvalidDigit));
    assert_eq!(from_hex(" +1 "), Err(NumError::InvalidDigit));
    assert_eq!(from_hex("-1"), Err(NumError::InvalidDigit));
    assert_eq!(parse_digits("+1", 16), Err(NumError::InvalidDigit));
    assert_eq!(parse_digits("ff", 16), Ok(255));
}

#[test]
fn hex_edges() {
    assert_eq!(from_hex("0xFFFFFFFF"), Ok(u32::MAX));
    assert_eq!(from_hex("0x100000000"), Err(NumError::PosOverflow));
    assert_eq!(from_hex(""), Err(NumError::Empty));
    assert_eq!(from_hex("  0x  "), Err(NumError::Empty));
    assert_eq!(from_hex("\t0xab\n"), Ok(0xab));
    assert_eq!(from_hex("0x0x1"), Err(NumError::InvalidDigit));
}

#[test]
fn unsigned_parse_follows_sign_rules() {
    assert_eq!(parse_unsigned("+5", 10), Ok(5));
    assert_eq!(parse_unsigned("+", 10), Err(NumError::InvalidDigit));
    assert_eq!(parse_unsigned("-5", 10), Err(NumError::InvalidDigit));
    assert_eq!(parse_unsigned("4294967295", 10), Ok(u32::MAX));
    assert_eq!(parse_unsigned("4294967296", 10), Err(NumError::PosOverflow));
    assert_eq!(parse_unsigned("99999999999x", 10), Err(NumError::PosOverflow));
    assert_eq!(parse_unsigned("zz", 36), Ok(35 * 36 + 35));
}

#[test]
fn trim_removes_white_space_at_both_ends() {
    assert_eq!(trim(" \t a b \n"), "a b");
    assert_eq!(trim("   "), "");
    assert_eq!(trim("\u{3000}x\u{a0}"), "x");
}

#[test]
fn integer_cells_read_hex_only_after_lowercase_prefix() {
    assert_eq!(read_int("12"), Ok(12));
    assert_eq!(read_int("0x10"), Ok(16));
    assert_eq!(read_int("0X10"), Err(NumError::InvalidDigit));
    assert_eq!(read_int(" 12"), Err(NumError::InvalidDigit));
}

#[test]
fn column_lookup_takes_first_exact_match() {
    let header = strings(&["ALT0 ", "ALT0", "ALT0"]);
    assert_eq!(find_column(&header, "ALT0"), Some(1));
    assert_eq!(find_column(&header, "alt0"), None);
}

#[test]
fn pinout_row_decodes_cells_by_header() {
    let header = strings(&[LQFP144_PIN_NUMBER, IO_SUPPLY, ALT0, LQFP64_PIN_NAME, "Other"]);
    let fields = strings(&["17", "VDD_P1", "P1_4", "", "x"]);
    let row = decode_pinout_row(&header, &fields).unwrap();
    assert_eq!(row.lqfp144_pin_number, Some(17));
    assert_eq!(row.supply, Some("VDD_P1".to_string()));
    assert_eq!(row.alt0, Some("P1_4".to_string()));
    assert_eq!(row.lqfp64_pin_name, None);
    assert_eq!(row.alt1, None);
}

#[test]
fn pinout_row_with_bad_number_or_arity_is_rejected() {
    let header = strings(&[LQFP144_PIN_NUMBER, ALT0]);
    assert_eq!(decode_pinout_row(&header, &strings(&["seventeen", "P1_4"])), None);
    assert_eq!(decode_pinout_row(&header, &strings(&["17"])), None);
    assert!(decode_pinout_row(&header, &strings(&["", "P1_4"])).is_some());
}

#[test]
fn memory_map_row_decodes_and_rejects() {
    let header = strings(&[
        "Peripheral description",
        "module_nickname",
        "Peripheral instance",
        "Size (KB)",
        "Start address (hex)",
        "End address (hex)",
    ]);
    let row = decode_memory_map_row(
        &header,
        &strings(&["GPIO", "gpio", "gpio0", "4", "0x4010_2000", "0x40102FFF"]),
    );
    assert_eq!(row, None);
    let row = decode_memory_map_row(
        &header,
        &strings(&["GPIO", "gpio", "gpio0", "4", " 0x40102000", "40102FFF"]),
    )
    .unwrap();
    assert_eq!(row.instance, "gpio0");
    assert_eq!(row.size, 4);
    assert_eq!(row.start, 0x4010_2000);
    assert_eq!(row.end, 0x4010_2fff);
    assert_eq!(
        decode_memory_map_row(&header[..5].to_vec(), &strings(&["a", "b", "c", "4", "0x0"])),
        None
    );
}

#[test]
fn table_decoding_skips_rejected_records() {
    let header = strings(&[IO_SUPPLY, ALT0]);
    let records = vec![
        Some(strings(&["VDD", "P0_0"])),
        None,
        Some(strings(&["VDD"])),
        Some(strings(&["", "P0_2"])),
    ];
    let rows = decode_pinout(&header, &records);
    assert_eq!(rows.len(), 2);
    assert_eq!(rows[0].alt0, Some("P0_0".to_string()));
    assert_eq!(rows[1].supply, None);
    assert_eq!(decode_memory_map(&header, &records).len(), 0);
}

#[test]
fn pin_needs_both_signal_and_supply() {
    assert_eq!(
        pin_from_row(&pinout_row(Some("P0_0"), Some("VDD_P0"))),
        Some(Pin::new("P0_0".to_string(), "VDD_P0".to_string()))
    );
    assert_eq!(pin_from_row(&pinout_row(None, Some("VDD_P0"))), None);
    assert_eq!(pin_from_row(&pinout_row(Some("P0_0"), None)), None);
    assert_eq!(pin_from_row(&pinout_row(None, None)), None);
}

#[test]
fn pins_keep_row_order_and_repeats() {
    let rows = vec![
        pinout_row(Some("P0_1"), Some("VDD_P0")),
        pinout_row(None, Some("VDD_P0")),
        pinout_row(Some("P0_0"), Some("VDD_P0")),
        pinout_row(Some("P0_1"), Some("VDD_P0")),
    ];
    let pins = collect_pins(&rows);
    let names: Vec<&str> = pins.iter().map(|p| p.name.as_str()).collect();
    assert_eq!(names, vec!["P0_1", "P0_0", "P0_1"]);
}

#[test]
fn gpio0_becomes_upper_case_peripheral_and_empty_gives_none() {
    let ps = collect_peripherals(&vec![memory_map_row("gpio0"), memory_map_row(""), memory_map_row("lpuart1")]);
    assert_eq!(ps.len(), 2);
    assert_eq!(ps[0].name, "GPIO0");
    assert!(ps[0].signals.is_empty());
    assert_eq!(ps[1].name, "LPUART1");
}

#[test]
fn peripheral_from_name_drops_only_empty_names() {
    assert_eq!(peripheral_from_name("GPIO0".to_string()), Some(Peripheral::new("GPIO0".to_string())));
    assert_eq!(peripheral_from_name(String::new()), None);
    let ps = peripherals_from_names(strings(&["A", "", "A"]));
    assert_eq!(ps.len(), 2);
    assert_eq!(ps[1].name, "A");
}

#[test]
fn default_document_has_fixed_header_and_chips() {
    let d = Metadata::default();
    assert_eq!(d.schema, "./schema.json");
    assert_eq!(d.comment, "MCXA1xx/MCXA2xx metadata");
    assert_eq!(d.chips.len(), 32);
    assert_eq!(d.chips[0], "MCXA175VLQ");
    assert_eq!(d.chips[31], "MCXA266VLQ");
    assert_eq!(d.chips, chips());
    assert!(d.pins.is_empty());
    assert!(d.peripherals.is_empty());
}

#[test]
fn constructors_keep_their_arguments() {
    let pin = Pin::new("P1_0".to_string(), "VDD_P1".to_string());
    assert_eq!(pin.name, "P1_0");
    assert_eq!(pin.supply, "VDD_P1");
    let m = Metadata::new("c".to_string(), vec!["X".to_string()], vec![pin], vec![]);
    assert_eq!(m.schema, "./schema.json");
    assert_eq!(m.comment, "c");
    assert_eq!(m.chips, vec!["X".to_string()]);
    assert_eq!(m.pins.len(), 1);
}

#[test]
fn assemble_builds_both_lists() {
    let m = assemble(
        &vec![pinout_row(Some("P0_0"), Some("VDD_P0"))],
        &vec![memory_map_row("adc0")],
    );
    assert_eq!(m.pins, vec![Pin::new("P0_0".to_string(), "VDD_P0".to_string())]);
    assert_eq!(m.peripherals, vec![Peripheral::new("ADC0".to_string())]);
    assert_eq!(m.chips, chips());
}

#[test]
fn three_row_pinout_with_middle_row_missing_alt0() {
    let pinout = "I/O Supply,ALT0\nVDD_P0,P0_0\nVDD_P0,\nVDD_P1,P1_0\n";
    let m = extract(pinout.as_bytes(), MEMORY_MAP_HEADER.as_bytes());
    assert_eq!(
        m.pins,
        vec![
            Pin::new("P0_0".to_string(), "VDD_P0".to_string()),
            Pin::new("P1_0".to_string(), "VDD_P1".to_string()),
        ]
    );
    assert!(m.peripherals.is_empty());
}

#[test]
fn short_record_is_dropped_and_later_rows_kept() {
    let pinout = "I/O Supply,ALT0,ALT1\nVDD_P0,P0_0,x\nVDD_P0\nVDD_P1,P1_0,y\n";
    let rows = read_pinout(pinout.as_bytes());
    assert_eq!(rows.len(), 2);
    assert_eq!(rows[1].alt0, Some("P1_0".to_string()));
    let map = format!("{}GPIO,gpio,gpio0,4,0x40102000,0x40102FFF\nbroken,row\nADC,adc,adc0,4,0x400AF000,0x400AFFFF\n", MEMORY_MAP_HEADER);
    let m = extract(pinout.as_bytes(), map.as_bytes());
    assert_eq!(m.pins.len(), 2);
    let names: Vec<&str> = m.peripherals.iter().map(|p| p.name.as_str()).collect();
    assert_eq!(names, vec!["GPIO0", "ADC0"]);
}

#[test]
fn vendor_headers_with_line_breaks_are_matched_exactly() {
    let pinout = "\"MCXA26x/A25x/A18x/A17x\nLQFP144\",\" MCXA26x/A25x/A18x/A17x\nLQFP64 Pin Name\",I/O Supply,ALT0\n12,P0_4,VDD_P0,P0_4\nnot a number,P0_5,VDD_P0,P0_5\n";
    let rows = read_pinout(pinout.as_bytes());
    assert_eq!(rows.len(), 1);
    assert_eq!(rows[0].lqfp144_pin_number, Some(12));
    assert_eq!(rows[0].lqfp64_pin_name, Some("P0_4".to_string()));
}

#[test]
fn memory_map_rows_with_bad_addresses_are_dropped() {
    let map = format!("{}GPIO,gpio,gpio0,4,0xZZZZ,0x40102FFF\nADC,adc,adc0,4,0x400AF000,0x400AFFFF\n", MEMORY_MAP_HEADER);
    let rows = read_memory_map(map.as_bytes());
    assert_eq!(rows.len(), 1);
    assert_eq!(rows[0].start, 0x400a_f000);
}

#[test]
fn chips_do_not_depend_on_the_tables() {
    let empty = extract(b"I/O Supply,ALT0\n", MEMORY_MAP_HEADER.as_bytes());
    let none = extract(b"", b"");
    let full = extract(b"I/O Supply,ALT0\nVDD,P0_0\n", b"x,y\n1,2\n");
    assert_eq!(empty.chips, chips());
    assert_eq!(none.chips, chips());
    assert_eq!(full.chips, chips());
    assert_eq!(none.chips.len(), 32);
    assert!(empty.pins.is_empty() && none.pins.is_empty());
}

#[test]
fn repeated_column_name_rejects_every_record() {
    let header = strings(&[IO_SUPPLY, ALT0, ALT0]);
    assert!(!column_is_unique(&header, ALT0));
    assert!(column_is_unique(&header, IO_SUPPLY));
    assert!(column_is_unique(&header, "ALT1"));
    assert_eq!(decode_pinout_row(&header, &strings(&["VDD", "P0_0", "P0_0"])), None);
    let header = strings(&[IO_SUPPLY, ALT0, "Notes", "Notes"]);
    assert!(decode_pinout_row(&header, &strings(&["VDD", "P0_0", "a", "b"])).is_some());
    let m = extract(b"I/O Supply,ALT0,ALT0\nVDD,P0_0,P0_1\n", MEMORY_MAP_HEADER.as_bytes());
    assert!(m.pins.is_empty());
}

#[test]
fn record_that_is_not_utf8_is_dropped_alone() {
    let mut pinout = b"I/O Supply,ALT0\nVDD_P0,P0_0\nVDD_P0,P0_\xff\n".to_vec();
    pinout.extend_from_slice(b"VDD_P1,P1_0\n");
    let m = extract(&pinout, MEMORY_MAP_HEADER.as_bytes());
    let names: Vec<&str> = m.pins.iter().map(|p| p.name.as_str()).collect();
    assert_eq!(names, vec!["P0_0", "P1_0"]);
}
