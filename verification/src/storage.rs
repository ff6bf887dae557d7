//! Rows of sensor readings and the text that the SQLite table is written with.

use vstd::prelude::*;
use vstd::string::StringExecFns;
use crate::text::{decimal_i64, push_decimal, spec_decimal, spec_decimal_int};

verus! {

/// One row of readings, taken at `timestamp` (seconds since the UNIX epoch).
/// A reading is the IEEE-754 bit pattern of its `f64` value (`f64::to_bits`);
/// `None` where the sensor sent none.
#[derive(Debug, Clone, Copy, PartialEq, Eq, Structural)]
pub struct SensorsData {
    pub timestamp: i64,
    pub co2: Option<u64>,
    pub humidity: Option<u64>,
    pub pressure: Option<u64>,
    pub temperature: Option<u64>,
}

/// One row whose readings are written out as text, each as `f64::to_string`
/// writes it.
#[derive(Debug, Clone)]
pub struct SensorsText {
    pub timestamp: i64,
    pub co2: Option<String>,
    pub humidity: Option<String>,
    pub pressure: Option<String>,
    pub temperature: Option<String>,
}

/// The value of a `Result`, if there is one.
pub fn to_opt<T, E>(result: Result<T, E>) -> (r: Option<T>)
    ensures
        match result {
            Ok(v) => r == Some(v),
            Err(_) => r is None,
        },
{
    match result {
        Ok(value) => Some(value),
        Err(_) => None,
    }
}

/// The text of an optional value: the value's text, or `NULL`.
pub open spec fn spec_to_str(option: Option<String>) -> Seq<char> {
    match option {
        Some(value) => value@,
        None => "NULL"@,
    }
}

/// The text of an optional value (already written out): the text itself, or
/// `NULL` where there is none.
pub fn to_str(option: Option<String>) -> (r: String)
    ensures
        r@ == spec_to_str(option),
{
    match option {
        Some(value) => value,
        None => String::from_str("NULL"),
    }
}

/// The parameters with which a row is inserted, in the order of the columns
/// `timestamp, co2, humidity, pressure, temperature`.
pub open spec fn spec_insert_params(row: SensorsText) -> Seq<Seq<char>> {
    seq![
        spec_decimal_int(row.timestamp as int),
        spec_to_str(row.co2),
        spec_to_str(row.humidity),
        spec_to_str(row.pressure),
        spec_to_str(row.temperature),
    ]
}

/// The five parameters of the `INSERT` that stores `row`; a missing reading is
/// sent as the text `NULL`.
pub fn insert_params(row: &SensorsText) -> (r: Vec<String>)
    ensures
        r@.map_values(|s: String| s@) == spec_insert_params(*row),
{
    let mut params: Vec<String> = Vec::new();
    params.push(decimal_i64(row.timestamp));
    params.push(to_str(row.co2.clone()));
    params.push(to_str(row.humidity.clone()));
    params.push(to_str(row.pressure.clone()));
    params.push(to_str(row.temperature.clone()));
    assert(params@.map_values(|s: String| s@) =~= spec_insert_params(*row));
    params
}

/// How long rows are kept: thirty days, in seconds.
pub const KEEP_SECS: u64 = 60 * 60 * 24 * 30;

/// The statement that deletes the rows older than thirty days before `now_secs`.
pub open spec fn spec_erase_statement(now_secs: nat) -> Seq<char> {
    " DELETE FROM sensors WHERE timestamp < "@ + spec_decimal((now_secs - KEEP_SECS) as nat)
}

/// The `DELETE` statement that erases the rows taken more than thirty days
/// before `now_secs` (seconds since the UNIX epoch).
pub fn erase_statement(now_secs: u64) -> (r: String)
    requires
        now_secs >= KEEP_SECS,
    ensures
        r@ == spec_erase_statement(now_secs as nat),
{
    let mut statement = String::from_str(" DELETE FROM sensors WHERE timestamp < ");
    push_decimal(&mut statement, now_secs - KEEP_SECS);
    statement
}

} // verus!
