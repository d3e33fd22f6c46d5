//! Timestamp reconstruction for the sample history, and the cross-type
//! check that bundles the four per-kind fetches of one device.

use vstd::prelude::*;

use crate::types::invalid_response;
use crate::types::Aranet4Error;
use crate::types::SensorData;

verus! {

/// The metadata from which every sample's absolute timestamp is
/// reconstructed: the sample count, the device's sampling interval, the age
/// of the newest sample, and the wall-clock reference taken when the fetch
/// finished (as seconds of Unix time).
///
/// Sampling is assumed uniform: the newest sample is `since_update` seconds
/// old and each earlier sample one `update_interval` older.
#[derive(Debug, Clone, PartialEq, Eq)]
pub struct HistoryTime {
    pub num_samples: usize,
    /// Seconds between samples.
    pub update_interval: u16,
    /// Seconds since the newest sample was taken.
    pub since_update: u16,
    /// Unix-time seconds of the reference "now".
    pub now: i64,
}

impl HistoryTime {
    /// The machine bounds the timestamp arithmetic stays within: the count
    /// fits the device's 16-bit report, and the reference time is far
    /// enough from the representable minimum that subtracting the whole
    /// history's age cannot underflow.
    pub open spec fn wf(self) -> bool {
        &&& self.num_samples <= u16::MAX
        &&& self.now >= i64::MIN + 0x1_0000_0000
    }

    /// The absolute timestamp of sample `i`: the reference time minus the
    /// sample's age `(num_samples - 1 - i) * update_interval +
    /// since_update` seconds.
    pub open spec fn spec_timestamp(self, i: int) -> int {
        self.now - ((self.num_samples - 1 - i) * self.update_interval + self.since_update)
    }

    pub fn new(num_samples: u16, update_interval: u16, since_update: u16, now: i64) -> (ht:
        HistoryTime)
        requires
            now >= i64::MIN + 0x1_0000_0000,
        ensures
            ht.wf(),
            ht.num_samples == num_samples,
            ht.update_interval == update_interval,
            ht.since_update == since_update,
            ht.now == now,
    {
        HistoryTime { num_samples: num_samples as usize, update_interval, since_update, now }
    }

    /// The timestamp of sample `sample`, in seconds of Unix time.
    ///
    /// Defined for `sample < num_samples`; any other index fails.
    pub fn get_timestamp(&self, sample: usize) -> (r: Result<i64, Aranet4Error>)
        requires
            self.wf(),
        ensures
            match r {
                Ok(t) => sample < self.num_samples && t == self.spec_timestamp(sample as int),
                Err(e) => {
                    &&& sample >= self.num_samples
                    &&& e matches Aranet4Error::InvalidResponse(m)
                        && m@ == "sample index out of range"@
                },
            },
    {
        if sample >= self.num_samples {
            return Err(invalid_response("sample index out of range"));
        }
        Ok(self.timestamp_at(sample))
    }

    /// The timestamps of all samples, oldest first.
    pub fn to_vec(&self) -> (v: Vec<i64>)
        requires
            self.wf(),
        ensures
            v@.len() == self.num_samples,
            forall|i: int| 0 <= i < v@.len() ==> v@[i] == self.spec_timestamp(i),
    {
        let mut v: Vec<i64> = Vec::new();
        let mut i: usize = 0;
        while i < self.num_samples
            invariant
                self.wf(),
                i <= self.num_samples,
                v@.len() == i,
                forall|j: int| 0 <= j < i ==> v@[j] == self.spec_timestamp(j),
            decreases self.num_samples - i,
        {
            let t = self.timestamp_at(i);
            v.push(t);
            i = i + 1;
        }
        v
    }

    /// The timestamp of a valid sample index.
    pub(crate) fn timestamp_at(&self, sample: usize) -> (t: i64)
        requires
            self.wf(),
            sample < self.num_samples,
        ensures
            t == self.spec_timestamp(sample as int),
    {
        let steps: i64 = (self.num_samples - 1 - sample) as i64;
        assert(steps * (self.update_interval as i64) <= 65534 * 65535) by (nonlinear_arith)
            requires
                0 <= steps <= 65534,
                0 <= self.update_interval <= 65535,
        ;
        assert(steps * (self.update_interval as i64) >= 0) by (nonlinear_arith)
            requires
                steps >= 0,
                self.update_interval >= 0,
        ;
        let age: i64 = steps * (self.update_interval as i64) + (self.since_update as i64);
        self.now - age
    }
}

/// Law: the newest sample (index `num_samples - 1`) is timestamped exactly
/// `since_update` seconds before the reference time, and the oldest (index
/// 0) exactly `(num_samples - 1) * update_interval + since_update` seconds
/// before it.
pub proof fn lemma_timestamp_endpoints(ht: HistoryTime)
    requires
        ht.num_samples >= 1,
    ensures
        ht.spec_timestamp(ht.num_samples - 1) == ht.now - ht.since_update,
        ht.spec_timestamp(0) == ht.now - ((ht.num_samples - 1) * ht.update_interval
            + ht.since_update),
{
    assert((ht.num_samples - 1 - (ht.num_samples - 1)) * ht.update_interval == 0);
}

/// The four per-kind histories of one device together with the timestamp
/// metadata; the finished dataset handed to the output sinks.
#[derive(Debug, Clone, PartialEq, Eq)]
pub struct HistoryDataSet {
    pub history_time: HistoryTime,
    pub temperature: SensorData,
    pub humidity: SensorData,
    pub pressure: SensorData,
    pub co2: SensorData,
}

impl HistoryDataSet {
    /// The cross-type invariant of a bundled dataset: the four histories
    /// share one length, which is also the sample count of the timestamp
    /// metadata, and the timestamp arithmetic stays in bounds.
    pub open spec fn wf(self) -> bool {
        &&& self.history_time.wf()
        &&& self.history_time.num_samples == self.temperature.values@.len()
        &&& self.history_time.num_samples == self.humidity.values@.len()
        &&& self.history_time.num_samples == self.pressure.values@.len()
        &&& self.history_time.num_samples == self.co2.values@.len()
        &&& self.temperature.data_type is Temperature
        &&& self.humidity.data_type is Humidity
        &&& self.pressure.data_type is Pressure
        &&& self.co2.data_type is CO2
    }
}

/// Bundles the four fetched histories of one device, enforcing the
/// cross-type invariant that all four have equal length — they share the
/// device's single internal sample clock, so a mismatch is a hard error.
///
/// On success the timestamp metadata is built with `num_samples` equal to
/// the common length.
pub fn bundle_history(
    temperature: SensorData,
    humidity: SensorData,
    pressure: SensorData,
    co2: SensorData,
    update_interval: u16,
    since_update: u16,
    now: i64,
) -> (r: Result<HistoryDataSet, Aranet4Error>)
    requires
        temperature.data_type is Temperature,
        humidity.data_type is Humidity,
        pressure.data_type is Pressure,
        co2.data_type is CO2,
        temperature.values@.len() <= u16::MAX,
        now >= i64::MIN + 0x1_0000_0000,
    ensures
        match r {
            Ok(ds) => {
                &&& ds.wf()
                &&& temperature.values@.len() == humidity.values@.len()
                &&& temperature.values@.len() == pressure.values@.len()
                &&& temperature.values@.len() == co2.values@.len()
                &&& ds.temperature == temperature
                &&& ds.humidity == humidity
                &&& ds.pressure == pressure
                &&& ds.co2 == co2
                &&& ds.history_time.wf()
                &&& ds.history_time.num_samples == temperature.values@.len()
                &&& ds.history_time.update_interval == update_interval
                &&& ds.history_time.since_update == since_update
                &&& ds.history_time.now == now
            },
            Err(e) => {
                &&& !(temperature.values@.len() == humidity.values@.len()
                    && temperature.values@.len() == pressure.values@.len()
                    && temperature.values@.len() == co2.values@.len())
                &&& e matches Aranet4Error::InvalidResponse(m)
                    && m@ == "history length mismatch"@
            },
        },
{
    let n = temperature.values.len();
    if humidity.values.len() != n || pressure.values.len() != n || co2.values.len() != n {
        return Err(invalid_response("history length mismatch"));
    }
    let history_time = HistoryTime::new(n as u16, update_interval, since_update, now);
    Ok(HistoryDataSet { history_time, temperature, humidity, pressure, co2 })
}

} // verus!
