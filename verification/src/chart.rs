//! What a chart is drawn from: the series of timestamps and readings, the file
//! it is saved to, and the Base64 text of the PNG image.

use vstd::prelude::*;
use vstd::string::StringExecFns;
use crate::storage::SensorsData;

verus! {

/// A measured quantity.
#[derive(Debug, Clone, Copy, PartialEq, Eq, Structural)]
pub enum Quantity {
    Co2,
    Humidity,
    Pressure,
    Temperature,
}

/// The reading of `q` in `row`.
pub open spec fn reading_of(row: SensorsData, q: Quantity) -> Option<u64> {
    match q {
        Quantity::Co2 => row.co2,
        Quantity::Humidity => row.humidity,
        Quantity::Pressure => row.pressure,
        Quantity::Temperature => row.temperature,
    }
}

/// The value charted for a reading: the reading, or `0.0` (bit pattern `0`)
/// where there is none.
pub open spec fn charted_value(reading: Option<u64>) -> u64 {
    match reading {
        Some(v) => v,
        None => 0,
    }
}

/// The timestamps of the rows, in their order.
pub fn timestamps(values: &Vec<SensorsData>) -> (r: Vec<i64>)
    ensures
        r.len() == values.len(),
        forall|i: int| 0 <= i < values.len() ==> #[trigger] r[i] == values[i].timestamp,
{
    let mut times: Vec<i64> = Vec::new();
    for i in 0..values.len()
        invariant
            times.len() == i,
            forall|j: int| 0 <= j < i ==> #[trigger] times[j] == values[j].timestamp,
    {
        times.push(values[i].timestamp);
    }
    times
}

fn reading(row: &SensorsData, q: Quantity) -> (r: Option<u64>)
    ensures
        r == reading_of(*row, q),
{
    match q {
        Quantity::Co2 => row.co2,
        Quantity::Humidity => row.humidity,
        Quantity::Pressure => row.pressure,
        Quantity::Temperature => row.temperature,
    }
}

/// The values charted for `q`, row by row: the reading, or `0.0` where the row
/// has none.
pub fn series(values: &Vec<SensorsData>, q: Quantity) -> (r: Vec<u64>)
    ensures
        r.len() == values.len(),
        forall|i: int|
            0 <= i < values.len() ==> #[trigger] r[i] == charted_value(reading_of(values[i], q)),
{
    let mut ys: Vec<u64> = Vec::new();
    for i in 0..values.len()
        invariant
            ys.len() == i,
            forall|j: int|
                0 <= j < i ==> #[trigger] ys[j] == charted_value(reading_of(values[j], q)),
    {
        let v = match reading(&values[i], q) {
            Some(v) => v,
            None => 0u64,
        };
        ys.push(v);
    }
    ys
}

/// The file a chart titled `title` is saved to.
pub fn chart_file_name(title: &str) -> (r: String)
    ensures
        r@ == title@ + ".png"@,
{
    let mut name = String::from_str(title);
    name.append(".png");
    name
}

/// The standard Base64 text (with `=` padding) of `bytes`.
pub uninterp spec fn spec_base64(bytes: Seq<u8>) -> Seq<char>;

/// The length of the Base64 text of `n` bytes, as base64's `encoded_size`
/// computes it with padding.
pub open spec fn base64_len(n: nat) -> nat {
    (n / 3) * 4 + if n % 3 > 0 { 4nat } else { 0nat }
}

/// Calls `base64::encode` (standard alphabet, with padding), which panics where
/// the length of its output would overflow `usize`. The contract names the text
/// and states its length as `encoded_size` computes it; the output is a buffer
/// of that many ASCII bytes. It does not state the text.
#[verifier::external_body]
fn base64_encode(bytes: &[u8]) -> (r: String)
    requires
        base64_len(bytes@.len()) <= usize::MAX,
    ensures
        r@ == spec_base64(bytes@),
        r@.len() == base64_len(bytes@.len()),
{
    base64::encode(bytes)
}

/// The Base64 text of a PNG image, as the chart is handed on.
pub fn encode_png_base64(png: &Vec<u8>) -> (r: String)
    requires
        base64_len(png@.len()) <= usize::MAX,
    ensures
        r@ == spec_base64(png@),
        r@.len() == base64_len(png@.len()),
{
    base64_encode(png.as_slice())
}

} // verus!
