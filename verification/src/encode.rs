//! The metric encoder: one line-protocol record per physical quantity, and
//! the URL of the remote write endpoint.

use vstd::prelude::*;
use vstd::string::StringExecFns;
use crate::text::{fixed_to_string, i64_to_string, spec_decimal_signed, spec_fixed_text, FixedValue};

verus! {

/// The line-protocol record for one metric: the series name, the fixed
/// sensor tag, the exact decimal value, and the nanosecond timestamp.
pub open spec fn spec_encode(series: Seq<char>, value_ticks: int, timestamp: int) -> Seq<char> {
    series + ",sensor=hdc1000 value="@ + spec_fixed_text(value_ticks) + " "@
        + spec_decimal_signed(timestamp)
}

/// Encode one named metric value and its nanosecond timestamp as a
/// line-protocol record. Series names are fixed literals owned by this
/// system; nothing here escapes arbitrary user input.
pub fn encode(series: &str, value: FixedValue, timestamp: i64) -> (r: String)
    ensures
        r@ == spec_encode(series@, value.ticks as int, timestamp as int),
{
    let mut out = String::from_str(series);
    out.append(",sensor=hdc1000 value=");
    let value_text = fixed_to_string(value);
    out.append(value_text.as_str());
    out.append(" ");
    let timestamp_text = i64_to_string(timestamp);
    out.append(timestamp_text.as_str());
    out
}

/// The write endpoint for a database on a remote host.
pub open spec fn spec_write_url(endpoint: Seq<char>, database: Seq<char>) -> Seq<char> {
    "http://"@ + endpoint + "/write?db="@ + database
}

/// The URL that one metric record is posted to.
pub fn write_url(endpoint: &str, database: &str) -> (r: String)
    ensures
        r@ == spec_write_url(endpoint@, database@),
{
    let mut out = String::from_str("http://");
    out.append(endpoint);
    out.append("/write?db=");
    out.append(database);
    out
}

} // verus!
