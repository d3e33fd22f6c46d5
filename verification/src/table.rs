//! The tabular form of a bundled dataset: the rows an output sink writes.
//!
//! Building the rows — a header, then one row per sample with its
//! timestamp and the four display values — is computed and verified here;
//! the sinks only serialize the finished rows.

use vstd::prelude::*;

use crate::display::i64_to_dec_string;
use crate::display::spec_int_digits;
use crate::display::spec_measured_value;
use crate::history::HistoryDataSet;
use crate::types::DataType;

verus! {

/// The header row: a timestamp column, then one column per sample kind.
pub open spec fn spec_header_row(row: Seq<String>) -> bool {
    &&& row.len() == 5
    &&& row[0]@ == "timestamp"@
    &&& row[1]@ == DataType::Temperature.spec_label()
    &&& row[2]@ == DataType::Humidity.spec_label()
    &&& row[3]@ == DataType::Pressure.spec_label()
    &&& row[4]@ == DataType::CO2.spec_label()
}

/// The data row of sample `i`: its timestamp, then the four display
/// values.
pub open spec fn spec_data_row(ds: HistoryDataSet, row: Seq<String>, i: int) -> bool {
    &&& row.len() == 5
    &&& row[0]@ == spec_int_digits(ds.history_time.spec_timestamp(i))
    &&& row[1]@ == spec_measured_value(DataType::Temperature, ds.temperature.values@[i])
    &&& row[2]@ == spec_measured_value(DataType::Humidity, ds.humidity.values@[i])
    &&& row[3]@ == spec_measured_value(DataType::Pressure, ds.pressure.values@[i])
    &&& row[4]@ == spec_measured_value(DataType::CO2, ds.co2.values@[i])
}

/// Builds the table of a bundled dataset: the header row followed by one
/// row per sample, oldest first.
pub fn history_table(ds: &HistoryDataSet) -> (rows: Vec<Vec<String>>)
    requires
        ds.wf(),
    ensures
        rows@.len() == 1 + ds.history_time.num_samples,
        spec_header_row(rows@[0]@),
        forall|i: int|
            1 <= i < rows@.len() ==> spec_data_row(*ds, #[trigger] rows@[i]@, i - 1),
{
    let mut rows: Vec<Vec<String>> = Vec::new();
    let mut header: Vec<String> = Vec::new();
    header.push("timestamp".to_owned());
    header.push(DataType::Temperature.label().to_owned());
    header.push(DataType::Humidity.label().to_owned());
    header.push(DataType::Pressure.label().to_owned());
    header.push(DataType::CO2.label().to_owned());
    rows.push(header);
    let n = ds.history_time.num_samples;
    let mut i: usize = 0;
    while i < n
        invariant
            ds.wf(),
            n == ds.history_time.num_samples,
            i <= n,
            rows@.len() == 1 + i,
            spec_header_row(rows@[0]@),
            forall|j: int| 1 <= j < rows@.len() ==> spec_data_row(*ds, #[trigger] rows@[j]@, j - 1),
        decreases n - i,
    {
        let mut row: Vec<String> = Vec::new();
        let t = ds.history_time.timestamp_at(i);
        row.push(i64_to_dec_string(t));
        row.push(ds.temperature.value_string(i));
        row.push(ds.humidity.value_string(i));
        row.push(ds.pressure.value_string(i));
        row.push(ds.co2.value_string(i));
        rows.push(row);
        i = i + 1;
    }
    rows
}

} // verus!
