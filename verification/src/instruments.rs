//! The master files of instruments: from the text that the server sends to
//! one record for each line.

use csv::ReaderBuilder;
use vstd::prelude::*;

verus! {

/// The records of a CSV text behind its header line, each as the list of its
/// fields, as a reader with the default settings yields them; `None` where
/// that reader reports an error.
pub uninterp spec fn csv_rows(content: Seq<char>) -> Option<Seq<Seq<Seq<char>>>>;

/// Trusted: `csv::ReaderBuilder::new`, `ReaderBuilder::from_reader` and
/// `Reader::records`.
///
/// A reader with the default settings over the bytes of a text yields the
/// records behind the header line, or an error at the first record that it
/// cannot read. Which records, with which fields, depends on the text alone;
/// the contract names them and claims nothing more.
#[verifier::external_body]
fn csv_records(content: &str) -> (rows: Option<Vec<Vec<String>>>)
    ensures
        rows.deep_view() == csv_rows(content@),
{
    let mut reader = ReaderBuilder::new().from_reader(content.as_bytes());
    reader.records().map(
        |record| record.ok().map(|fields| fields.iter().map(String::from).collect()),
    ).collect()
}

/// Number of columns that a line of the instrument master file must have.
pub const INSTRUMENT_COLUMNS: usize = 12;

/// Number of columns that a line of the mutual-fund master file must have.
pub const MF_INSTRUMENT_COLUMNS: usize = 16;

/// One line of the instrument master file.
#[derive(Clone, Debug, PartialEq, Eq)]
pub struct Instrument {
    pub instrument_token: String,
    pub exchange_token: String,
    pub tradingsymbol: String,
    pub name: String,
    pub last_price: String,
    pub expiry: String,
    pub strike: String,
    pub tick_size: String,
    pub lot_size: String,
    pub instrument_type: String,
    pub segment: String,
    pub exchange: String,
}

/// One line of the mutual-fund master file.
#[derive(Clone, Debug, PartialEq, Eq)]
pub struct MFInstrument {
    pub tradingsymbol: String,
    pub amc: String,
    pub name: String,
    pub purchase_allowed: String,
    pub redemption_allowed: String,
    pub minimum_purchase_amount: String,
    pub purchase_amount_multiplier: String,
    pub minimum_additional_purchase_amount: String,
    pub minimum_redemption_quantity: String,
    pub redemption_quantity_multiplier: String,
    pub dividend_type: String,
    pub scheme_type: String,
    pub plan: String,
    pub settlement_type: String,
    pub last_price: String,
    pub last_price_date: String,
}

/// Whether `instrument` holds the first twelve fields of `row`, each under
/// the name of its column.
pub open spec fn is_instrument_of(instrument: Instrument, row: Seq<Seq<char>>) -> bool {
    &&& instrument.instrument_token@ == row[0]
    &&& instrument.exchange_token@ == row[1]
    &&& instrument.tradingsymbol@ == row[2]
    &&& instrument.name@ == row[3]
    &&& instrument.last_price@ == row[4]
    &&& instrument.expiry@ == row[5]
    &&& instrument.strike@ == row[6]
    &&& instrument.tick_size@ == row[7]
    &&& instrument.lot_size@ == row[8]
    &&& instrument.instrument_type@ == row[9]
    &&& instrument.segment@ == row[10]
    &&& instrument.exchange@ == row[11]
}

/// Whether `instrument` holds the first sixteen fields of `row`, each under
/// the name of its column.
pub open spec fn is_mf_instrument_of(instrument: MFInstrument, row: Seq<Seq<char>>) -> bool {
    &&& instrument.tradingsymbol@ == row[0]
    &&& instrument.amc@ == row[1]
    &&& instrument.name@ == row[2]
    &&& instrument.purchase_allowed@ == row[3]
    &&& instrument.redemption_allowed@ == row[4]
    &&& instrument.minimum_purchase_amount@ == row[5]
    &&& instrument.purchase_amount_multiplier@ == row[6]
    &&& instrument.minimum_additional_purchase_amount@ == row[7]
    &&& instrument.minimum_redemption_quantity@ == row[8]
    &&& instrument.redemption_quantity_multiplier@ == row[9]
    &&& instrument.dividend_type@ == row[10]
    &&& instrument.scheme_type@ == row[11]
    &&& instrument.plan@ == row[12]
    &&& instrument.settlement_type@ == row[13]
    &&& instrument.last_price@ == row[14]
    &&& instrument.last_price_date@ == row[15]
}

/// Whether every row has at least `columns` fields.
pub open spec fn wide_enough(rows: Seq<Seq<Seq<char>>>, columns: nat) -> bool {
    forall|i: int| 0 <= i < rows.len() ==> (#[trigger] rows[i]).len() >= columns
}

/// Whether `list` holds the instrument of each row, in order.
pub open spec fn lists_instruments(list: Seq<Instrument>, rows: Seq<Seq<Seq<char>>>) -> bool {
    &&& list.len() == rows.len()
    &&& forall|i: int| 0 <= i < list.len() ==> is_instrument_of(#[trigger] list[i], rows[i])
}

/// Whether `list` holds the mutual-fund instrument of each row, in order.
pub open spec fn lists_mf_instruments(list: Seq<MFInstrument>, rows: Seq<Seq<Seq<char>>>) -> bool {
    &&& list.len() == rows.len()
    &&& forall|i: int| 0 <= i < list.len() ==> is_mf_instrument_of(#[trigger] list[i], rows[i])
}

/// The instrument that a row of the master file holds.
pub fn instrument_of(row: &Vec<String>) -> (instrument: Instrument)
    requires
        row@.len() >= INSTRUMENT_COLUMNS,
    ensures
        is_instrument_of(instrument, row.deep_view()),
{
    Instrument {
        instrument_token: row[0].clone(),
        exchange_token: row[1].clone(),
        tradingsymbol: row[2].clone(),
        name: row[3].clone(),
        last_price: row[4].clone(),
        expiry: row[5].clone(),
        strike: row[6].clone(),
        tick_size: row[7].clone(),
        lot_size: row[8].clone(),
        instrument_type: row[9].clone(),
        segment: row[10].clone(),
        exchange: row[11].clone(),
    }
}

/// The mutual-fund instrument that a row of the master file holds.
pub fn mf_instrument_of(row: &Vec<String>) -> (instrument: MFInstrument)
    requires
        row@.len() >= MF_INSTRUMENT_COLUMNS,
    ensures
        is_mf_instrument_of(instrument, row.deep_view()),
{
    MFInstrument {
        tradingsymbol: row[0].clone(),
        amc: row[1].clone(),
        name: row[2].clone(),
        purchase_allowed: row[3].clone(),
        redemption_allowed: row[4].clone(),
        minimum_purchase_amount: row[5].clone(),
        purchase_amount_multiplier: row[6].clone(),
        minimum_additional_purchase_amount: row[7].clone(),
        minimum_redemption_quantity: row[8].clone(),
        redemption_quantity_multiplier: row[9].clone(),
        dividend_type: row[10].clone(),
        scheme_type: row[11].clone(),
        plan: row[12].clone(),
        settlement_type: row[13].clone(),
        last_price: row[14].clone(),
        last_price_date: row[15].clone(),
    }
}

/// The instruments of the rows of a master file, if every row has all twelve
/// columns.
pub fn instruments_of(rows: &Vec<Vec<String>>) -> (instruments: Option<Vec<Instrument>>)
    ensures
        instruments is Some <==> wide_enough(rows.deep_view(), INSTRUMENT_COLUMNS as nat),
        instruments matches Some(list) ==> lists_instruments(list@, rows.deep_view()),
{
    let mut list: Vec<Instrument> = Vec::new();
    let mut index: usize = 0;
    while index < rows.len()
        invariant
            index <= rows.len(),
            list@.len() == index,
            forall|i: int| 0 <= i < index ==> (#[trigger] rows.deep_view()[i]).len()
                >= INSTRUMENT_COLUMNS,
            forall|i: int|
                0 <= i < index ==> is_instrument_of(#[trigger] list@[i], rows.deep_view()[i]),
        decreases rows.len() - index,
    {
        let row = &rows[index];
        assert(rows.deep_view()[index as int] == row.deep_view());
        if row.len() < INSTRUMENT_COLUMNS {
            return None;
        }
        list.push(instrument_of(row));
        index = index + 1;
    }
    Some(list)
}

/// The mutual-fund instruments of the rows of a master file, if every row
/// has all sixteen columns.
pub fn mf_instruments_of(rows: &Vec<Vec<String>>) -> (instruments: Option<Vec<MFInstrument>>)
    ensures
        instruments is Some <==> wide_enough(rows.deep_view(), MF_INSTRUMENT_COLUMNS as nat),
        instruments matches Some(list) ==> lists_mf_instruments(list@, rows.deep_view()),
{
    let mut list: Vec<MFInstrument> = Vec::new();
    let mut index: usize = 0;
    while index < rows.len()
        invariant
            index <= rows.len(),
            list@.len() == index,
            forall|i: int| 0 <= i < index ==> (#[trigger] rows.deep_view()[i]).len()
                >= MF_INSTRUMENT_COLUMNS,
            forall|i: int|
                0 <= i < index ==> is_mf_instrument_of(#[trigger] list@[i], rows.deep_view()[i]),
        decreases rows.len() - index,
    {
        let row = &rows[index];
        assert(rows.deep_view()[index as int] == row.deep_view());
        if row.len() < MF_INSTRUMENT_COLUMNS {
            return None;
        }
        list.push(mf_instrument_of(row));
        index = index + 1;
    }
    Some(list)
}

/// Reads the instrument master file.
///
/// The first line is the header. Every other line gives one instrument.
/// There is no result where the text cannot be read as CSV, or where a line
/// has fewer than twelve columns.
pub fn parse_instruments(content: &str) -> (instruments: Option<Vec<Instrument>>)
    ensures
        instruments is Some <==> (csv_rows(content@) matches Some(rows) && wide_enough(
            rows,
            INSTRUMENT_COLUMNS as nat,
        )),
        instruments matches Some(list) ==> lists_instruments(list@, csv_rows(content@)->0),
{
    match csv_records(content) {
        Some(rows) => instruments_of(&rows),
        None => None,
    }
}

/// Reads the mutual-fund master file.
///
/// The first line is the header. Every other line gives one instrument.
/// There is no result where the text cannot be read as CSV, or where a line
/// has fewer than sixteen columns.
pub fn parse_mf_instruments(content: &str) -> (instruments: Option<Vec<MFInstrument>>)
    ensures
        instruments is Some <==> (csv_rows(content@) matches Some(rows) && wide_enough(
            rows,
            MF_INSTRUMENT_COLUMNS as nat,
        )),
        instruments matches Some(list) ==> lists_mf_instruments(list@, csv_rows(content@)->0),
{
    match csv_records(content) {
        Some(rows) => mf_instruments_of(&rows),
        None => None,
    }
}

} // verus!
