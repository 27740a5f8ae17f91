//! Reading the daily rows and the last price that Tushare answers with.

use vstd::prelude::*;
use crate::decimal::{parsed_decimal, Decimal};
use crate::error::Error;
use crate::types::Kline;

verus! {

/// The format of the trade date in a daily row.
pub const TRADE_DATE_FORMAT: &'static str = "%Y%m%d";

/// One daily row as it was sent: each field is there or missing.
#[derive(Debug)]
pub struct DailyRow {
    pub trade_date: Option<String>,
    pub open: Option<String>,
    pub high: Option<String>,
    pub low: Option<String>,
    pub close: Option<String>,
    pub vol: Option<String>,
}

/// The instant, in milliseconds since the Unix epoch, that `chrono` reads
/// from a text in a format; `None` where it reads none.
pub uninterp spec fn parsed_instant_millis(text: Seq<char>, format: Seq<char>) -> Option<i64>;

/// Calls `chrono::DateTime::parse_from_str` and then `timestamp_millis`, and
/// hands a failure on as the words `chrono` gives it. The contract names the
/// instant and says that the call fails exactly where none was read. Nothing
/// is claimed of the words.
#[verifier::external_body]
fn outside_parse_instant(text: &str, format: &str) -> (r: Result<i64, String>)
    ensures
        r matches Ok(t) ==> parsed_instant_millis(text@, format@) == Some(t),
        r is Err ==> parsed_instant_millis(text@, format@) is None,
{
    match chrono::DateTime::parse_from_str(text, format) {
        Ok(instant) => Ok(instant.timestamp_millis()),
        Err(e) => Err(e.to_string()),
    }
}

/// The text of a field, or `missing` where the field is not there.
pub open spec fn spec_text_or(field: Option<String>, missing: Seq<char>) -> Seq<char> {
    match field {
        Some(text) => text@,
        None => missing,
    }
}

/// The amount in a field: a missing field reads as `0`, and a text that is
/// no decimal counts as zero.
pub open spec fn spec_amount(field: Option<String>) -> Decimal {
    match parsed_decimal(spec_text_or(field, "0"@)) {
        Some(d) => d,
        None => Decimal::from_parts(0, 0),
    }
}

/// The candle of a row; `None` where the trade date cannot be read. A
/// missing date reads as the empty text.
pub open spec fn spec_kline_of(row: DailyRow) -> Option<Kline> {
    match parsed_instant_millis(spec_text_or(row.trade_date, ""@), TRADE_DATE_FORMAT@) {
        Some(timestamp) => Some(
            Kline {
                timestamp,
                open: spec_amount(row.open),
                high: spec_amount(row.high),
                low: spec_amount(row.low),
                close: spec_amount(row.close),
                volume: spec_amount(row.vol),
            },
        ),
        None => None,
    }
}

/// The candles of the rows, in their order; `None` where the date of any row
/// cannot be read.
pub open spec fn spec_klines_from(rows: Seq<DailyRow>) -> Option<Seq<Kline>>
    decreases rows.len(),
{
    if rows.len() == 0 {
        Some(Seq::empty())
    } else {
        match (spec_klines_from(rows.drop_last()), spec_kline_of(rows.last())) {
            (Some(before), Some(kline)) => Some(before.push(kline)),
            _ => None,
        }
    }
}

/// Once a row has failed, further rows do not mend it.
proof fn lemma_klines_stay_none(rows: Seq<DailyRow>, k: int)
    requires
        0 <= k <= rows.len(),
        spec_klines_from(rows.subrange(0, k)) is None,
    ensures
        spec_klines_from(rows) is None,
    decreases rows.len() - k,
{
    if k < rows.len() {
        assert(rows.subrange(0, k + 1).drop_last() =~= rows.subrange(0, k));
        lemma_klines_stay_none(rows, k + 1);
    } else {
        assert(rows.subrange(0, k) =~= rows);
    }
}

/// Reads the amount in a field.
pub fn amount(field: &Option<String>) -> (r: Decimal)
    ensures
        r == spec_amount(*field),
{
    let parsed = match field {
        Some(text) => Decimal::from_str(text.as_str()),
        None => Decimal::from_str("0"),
    };
    match parsed {
        Ok(d) => d,
        Err(_) => Decimal::zero(),
    }
}

/// Reads one row.
pub fn kline_from_row(row: &DailyRow) -> (r: Result<Kline, Error>)
    ensures
        match spec_kline_of(*row) {
            Some(kline) => r matches Ok(v) && v == kline,
            None => r matches Err(Error::ParseError(_)),
        },
{
    let date = match &row.trade_date {
        Some(text) => outside_parse_instant(text.as_str(), TRADE_DATE_FORMAT),
        None => outside_parse_instant("", TRADE_DATE_FORMAT),
    };
    match date {
        Ok(timestamp) => Ok(
            Kline {
                timestamp,
                open: amount(&row.open),
                high: amount(&row.high),
                low: amount(&row.low),
                close: amount(&row.close),
                volume: amount(&row.vol),
            },
        ),
        Err(words) => Err(Error::ParseError(words)),
    }
}

/// Reads the rows of an answer into candles; fails with `ParseError` at the
/// first row whose trade date cannot be read.
pub fn klines_from_rows(rows: &Vec<DailyRow>) -> (r: Result<Vec<Kline>, Error>)
    ensures
        match spec_klines_from(rows@) {
            Some(klines) => r matches Ok(v) && v@ == klines,
            None => r matches Err(Error::ParseError(_)),
        },
{
    let mut out: Vec<Kline> = Vec::new();
    let n: usize = rows.len();
    let mut i: usize = 0;
    assert(rows@.subrange(0, 0) =~= Seq::empty());
    while i < n
        invariant
            i <= n,
            n == rows@.len(),
            spec_klines_from(rows@.subrange(0, i as int)) == Some(out@),
        decreases n - i,
    {
        assert(rows@.subrange(0, i + 1).drop_last() =~= rows@.subrange(0, i as int));
        assert(rows@.subrange(0, i + 1).last() == rows@[i as int]);
        match kline_from_row(&rows[i]) {
            Ok(kline) => {
                out.push(kline);
            },
            Err(e) => {
                proof {
                    lemma_klines_stay_none(rows@, i + 1);
                }
                return Err(e);
            },
        }
        i = i + 1;
    }
    assert(rows@.subrange(0, n as int) =~= rows@);
    Ok(out)
}

/// Reads the last price from the field that should hold it: `ApiError` where
/// the field is missing, `ParseError` where it is no decimal.
pub fn ticker_from_field(field: Option<&str>) -> (r: Result<Decimal, Error>)
    ensures
        match field {
            None => r matches Err(Error::ApiError(m)) && m@ == "Missing price data"@,
            Some(text) => match parsed_decimal(text@) {
                Some(d) => r matches Ok(v) && v == d,
                None => r matches Err(Error::ParseError(_)),
            },
        },
{
    match field {
        None => Err(Error::ApiError("Missing price data".to_string())),
        Some(text) => Decimal::from_str(text),
    }
}

} // verus!
