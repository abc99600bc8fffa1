//! Decisions the record handlers and the market-data ingestion make around
//! their stores: which record a lookup by id gives, whether a save updates
//! or upserts, which id an insert reports, which kline stream a datafeed
//! follows, and the text that is published for a market-data message.

use vstd::prelude::*;
use vstd::utf8::{decode_utf8, valid_utf8};
use vstd::string::StringExecFns;

verus! {

/// The record a lookup by id gives: the first one selected, if any.
pub fn first_record<T>(selected: Vec<T>) -> (r: Option<T>)
    ensures
        selected@.len() == 0 <==> r is None,
        r matches Some(x) ==> x == selected@[0],
{
    let mut v = selected;
    if v.len() > 0 {
        Some(v.remove(0))
    } else {
        None
    }
}

/// How a save request is stored.
#[derive(Clone, Copy, Debug, PartialEq, Eq, Structural)]
pub enum SaveAction {
    /// The request names a record: it is updated.
    Update,
    /// The request names none: it is inserted, or merged with an equal one.
    Upsert,
}

/// How a save request with the given id is stored.
pub fn save_action(id: Option<i64>) -> (a: SaveAction)
    ensures
        id is Some <==> a == SaveAction::Update,
{
    if id.is_some() { SaveAction::Update } else { SaveAction::Upsert }
}

/// The id an insert reports: the one the record was given, else the row id
/// the database assigned.
pub fn inserted_id(given: Option<i64>, last_rowid: i64) -> (id: i64)
    ensures
        id == (match given { Some(g) => g, None => last_rowid }),
{
    match given {
        Some(g) => g,
        None => last_rowid,
    }
}

/// The id an update targets: the record's, or 0 when it has none.
pub fn update_target(id: Option<i64>) -> (t: i64)
    ensures
        t == (match id { Some(i) => i, None => 0 }),
{
    match id {
        Some(i) => i,
        None => 0,
    }
}

/// A Binance datafeed.
pub struct SigbotBinanceDatafeedClient;

impl SigbotBinanceDatafeedClient {
    /// The kline stream a datafeed follows: its configured symbol and
    /// interval, BTCUSDC and 1m where missing.
    pub fn kline_params(symbol: Option<String>, interval: Option<String>) -> (r: (String, String))
        ensures
            r.0@ == (match symbol { Some(s) => s@, None => "BTCUSDC"@ }),
            r.1@ == (match interval { Some(i) => i@, None => "1m"@ }),
    {
        let s = match symbol {
            Some(s) => s,
            None => String::from_str("BTCUSDC"),
        };
        let i = match interval {
            Some(i) => i,
            None => String::from_str("1m"),
        };
        (s, i)
    }
}

/// The text of bytes read as UTF-8, or none when they are not UTF-8.
pub open spec fn utf8_text(bytes: Seq<u8>) -> Option<Seq<char>> {
    if valid_utf8(bytes) { Some(decode_utf8(bytes)) } else { None }
}

/// Calls `String::from_utf8`, which accepts exactly the valid UTF-8 byte
/// sequences and gives the characters they encode.
#[verifier::external_body]
fn decode_utf8_text(bytes: &Vec<u8>) -> (r: Option<String>)
    ensures
        match r {
            Some(s) => valid_utf8(bytes@) && s@ == decode_utf8(bytes@),
            None => !valid_utf8(bytes@),
        },
{
    String::from_utf8(bytes.clone()).ok()
}

/// Passes market data from the datafeeds on to the messager.
pub struct SigbotDatafeedIngestor;

impl SigbotDatafeedIngestor {
    /// The text published for a market-data message: the message read as
    /// UTF-8, or empty text when it is not UTF-8.
    pub fn payload_text(data: &Vec<u8>) -> (s: String)
        ensures
            s@ == (match utf8_text(data@) { Some(t) => t, None => Seq::<char>::empty() }),
    {
        match decode_utf8_text(data) {
            Some(t) => t,
            None => String::new(),
        }
    }
}

} // verus!
