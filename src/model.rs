//! The output document: pins with their supply domain, peripheral
//! instances, and the fixed header and chip list.

use vstd::prelude::*;
use vstd::string::StringExecFns;

verus! {

/// A pin, named by its primary (ALT0) signal, with its I/O supply domain.
#[derive(Debug, PartialEq, Eq)]
pub struct Pin {
    pub name: String,
    pub supply: String,
}

/// The mathematical value of a [`Pin`].
pub struct PinModel {
    pub name: Seq<char>,
    pub supply: Seq<char>,
}

impl View for Pin {
    type V = PinModel;

    open spec fn view(&self) -> PinModel {
        PinModel { name: self.name@, supply: self.supply@ }
    }
}

/// The pins of `v`, as values.
pub open spec fn pins_view(v: Seq<Pin>) -> Seq<PinModel> {
    v.map_values(|p: Pin| p@)
}

/// A signal of a peripheral and the pins that can carry it. Nothing fills
/// these yet: the shape is kept for the document's consumers.
#[derive(Debug, PartialEq, Eq)]
pub struct Signal {
    pub name: String,
    pub pins: Vec<Pin>,
}

/// The mathematical value of a [`Signal`].
pub struct SignalModel {
    pub name: Seq<char>,
    pub pins: Seq<PinModel>,
}

impl View for Signal {
    type V = SignalModel;

    open spec fn view(&self) -> SignalModel {
        SignalModel { name: self.name@, pins: pins_view(self.pins@) }
    }
}

/// A peripheral instance of the chip, named in upper case.
#[derive(Debug, PartialEq, Eq)]
pub struct Peripheral {
    pub name: String,
    pub signals: Vec<Signal>,
}

/// The mathematical value of a [`Peripheral`].
pub struct PeripheralModel {
    pub name: Seq<char>,
    pub signals: Seq<SignalModel>,
}

impl View for Peripheral {
    type V = PeripheralModel;

    open spec fn view(&self) -> PeripheralModel {
        PeripheralModel { name: self.name@, signals: self.signals@.map_values(|s: Signal| s@) }
    }
}

/// The peripherals of `v`, as values.
pub open spec fn peripherals_view(v: Seq<Peripheral>) -> Seq<PeripheralModel> {
    v.map_values(|p: Peripheral| p@)
}

/// The document that describes a chip family.
#[derive(Debug, PartialEq, Eq)]
pub struct Metadata {
    pub schema: String,
    pub comment: String,
    pub chips: Vec<String>,
    pub pins: Vec<Pin>,
    pub peripherals: Vec<Peripheral>,
}

/// The mathematical value of a [`Metadata`] document.
pub struct MetadataModel {
    pub schema: Seq<char>,
    pub comment: Seq<char>,
    pub chips: Seq<Seq<char>>,
    pub pins: Seq<PinModel>,
    pub peripherals: Seq<PeripheralModel>,
}

impl View for Metadata {
    type V = MetadataModel;

    open spec fn view(&self) -> MetadataModel {
        MetadataModel {
            schema: self.schema@,
            comment: self.comment@,
            chips: self.chips.deep_view(),
            pins: pins_view(self.pins@),
            peripherals: peripherals_view(self.peripherals@),
        }
    }
}

/// Where the document's schema is found.
pub open spec fn schema_ref() -> Seq<char> {
    "./schema.json"@
}

/// The document's description of itself.
pub open spec fn family_comment() -> Seq<char> {
    "MCXA1xx/MCXA2xx metadata"@
}

/// The part numbers of the chip family, kept by hand.
pub open spec fn chip_list() -> Seq<Seq<char>> {
    seq![
        "MCXA175VLQ"@,
        "MCXA175VLL"@,
        "MCXA175VLH"@,
        "MCXA175VPN"@,
        "MCXA176VLQ"@,
        "MCXA176VLL"@,
        "MCXA176VLH"@,
        "MCXA176VPN"@,
        "MCXA185VLQ"@,
        "MCXA185VLL"@,
        "MCXA185VLH"@,
        "MCXA185VPN"@,
        "MCXA186VLQ"@,
        "MCXA186VLL"@,
        "MCXA186VLH"@,
        "MCXA186VPN"@,
        "MCXA255VPN"@,
        "MCXA255VLH"@,
        "MCXA255VLL"@,
        "MCXA255VLQ"@,
        "MCXA256VPN"@,
        "MCXA256VLH"@,
        "MCXA256VLL"@,
        "MCXA256VLQ"@,
        "MCXA265VPN"@,
        "MCXA265VLH"@,
        "MCXA265VLL"@,
        "MCXA265VLQ"@,
        "MCXA266VPN"@,
        "MCXA266VLH"@,
        "MCXA266VLL"@,
        "MCXA266VLQ"@,
    ]
}

impl Pin {
    pub fn new(name: String, supply: String) -> (r: Pin)
        ensures
            r.name == name,
            r.supply == supply,
    {
        Pin { name, supply }
    }
}

impl Peripheral {
    /// A peripheral with no signals yet.
    pub fn new(name: String) -> (r: Peripheral)
        ensures
            r.name == name,
            r.signals@.len() == 0,
    {
        Peripheral { name, signals: Vec::new() }
    }
}

impl Metadata {
    /// A document with the fixed schema reference and the given content.
    pub fn new(comment: String, chips: Vec<String>, pins: Vec<Pin>, peripherals: Vec<Peripheral>) -> (r: Metadata)
        ensures
            r.schema@ == schema_ref(),
            r.comment == comment,
            r.chips == chips,
            r.pins == pins,
            r.peripherals == peripherals,
    {
        Metadata { schema: String::from_str("./schema.json"), comment, chips, pins, peripherals }
    }
}

/// The part numbers of the chip family.
pub fn chips() -> (r: Vec<String>)
    ensures
        r.deep_view() == chip_list(),
{
    let r = vec![
        String::from_str("MCXA175VLQ"),
        String::from_str("MCXA175VLL"),
        String::from_str("MCXA175VLH"),
        String::from_str("MCXA175VPN"),
        String::from_str("MCXA176VLQ"),
        String::from_str("MCXA176VLL"),
        String::from_str("MCXA176VLH"),
        String::from_str("MCXA176VPN"),
        String::from_str("MCXA185VLQ"),
        String::from_str("MCXA185VLL"),
        String::from_str("MCXA185VLH"),
        String::from_str("MCXA185VPN"),
        String::from_str("MCXA186VLQ"),
        String::from_str("MCXA186VLL"),
        String::from_str("MCXA186VLH"),
        String::from_str("MCXA186VPN"),
        String::from_str("MCXA255VPN"),
        String::from_str("MCXA255VLH"),
        String::from_str("MCXA255VLL"),
        String::from_str("MCXA255VLQ"),
        String::from_str("MCXA256VPN"),
        String::from_str("MCXA256VLH"),
        String::from_str("MCXA256VLL"),
        String::from_str("MCXA256VLQ"),
        String::from_str("MCXA265VPN"),
        String::from_str("MCXA265VLH"),
        String::from_str("MCXA265VLL"),
        String::from_str("MCXA265VLQ"),
        String::from_str("MCXA266VPN"),
        String::from_str("MCXA266VLH"),
        String::from_str("MCXA266VLL"),
        String::from_str("MCXA266VLQ"),
    ];
    assert(r.deep_view() =~= chip_list());
    r
}

impl Default for Metadata {
    /// The document before any table is read: fixed header and chip list,
    /// no pins, no peripherals.
    fn default() -> (r: Metadata)
        ensures
            r@.schema == schema_ref(),
            r@.comment == family_comment(),
            r@.chips == chip_list(),
            r@.pins.len() == 0,
            r@.peripherals.len() == 0,
    {
        Metadata::new(String::from_str("MCXA1xx/MCXA2xx metadata"), chips(), Vec::new(), Vec::new())
    }
}

} // verus!
