//! Rendering of sample values and records as text.
//!
//! Every display multiplier of the sensor is an exact decimal, so a value
//! is rendered by scaling it to an integer in units of `10^-precision` and
//! inserting the decimal point — no floating point is involved, and the
//! produced text is pinned down exactly by the contracts.

use vstd::prelude::*;

use unicode_segmentation::UnicodeSegmentation;

use crate::types::CurrentSensorMeasurement;
use crate::types::DataType;
use crate::types::HistoryResponseHeader;
use crate::types::SensorData;

verus! {

/// The character for one decimal digit.
pub open spec fn spec_digit_char(d: int) -> char {
    if d == 0 {
        '0'
    } else if d == 1 {
        '1'
    } else if d == 2 {
        '2'
    } else if d == 3 {
        '3'
    } else if d == 4 {
        '4'
    } else if d == 5 {
        '5'
    } else if d == 6 {
        '6'
    } else if d == 7 {
        '7'
    } else if d == 8 {
        '8'
    } else {
        '9'
    }
}

/// The decimal digits of `n`, most significant first, with no leading
/// zeros (a single `'0'` for zero).
pub open spec fn spec_dec_digits(n: nat) -> Seq<char>
    decreases n,
{
    if n < 10 {
        seq![spec_digit_char(n as int)]
    } else {
        spec_dec_digits(n / 10) + seq![spec_digit_char((n % 10) as int)]
    }
}

/// The low `width` decimal digits of `n`, most significant first,
/// left-padded with zeros.
pub open spec fn spec_padded_digits(n: nat, width: nat) -> Seq<char>
    decreases width,
{
    if width == 0 {
        Seq::empty()
    } else {
        spec_padded_digits(n / 10, (width - 1) as nat) + seq![spec_digit_char((n % 10) as int)]
    }
}

pub open spec fn spec_pow10(n: nat) -> nat
    decreases n,
{
    if n == 0 {
        1
    } else {
        10 * spec_pow10((n - 1) as nat)
    }
}

/// A scaled value rendered with `precision` decimal places: the whole part,
/// then a point and exactly `precision` fraction digits (none for precision
/// zero).  `scaled` is the value in units of `10^-precision`.
pub open spec fn spec_scaled_decimal(scaled: nat, precision: nat) -> Seq<char> {
    if precision == 0 {
        spec_dec_digits(scaled)
    } else {
        spec_dec_digits(scaled / spec_pow10(precision)) + "."@ + spec_padded_digits(
            scaled % spec_pow10(precision),
            precision,
        )
    }
}

/// A one-character string for the digit `d`.
fn digit_str(d: u32) -> (s: &'static str)
    requires
        d < 10,
    ensures
        s@ == seq![spec_digit_char(d as int)],
{
    proof {
        reveal_strlit("0");
        reveal_strlit("1");
        reveal_strlit("2");
        reveal_strlit("3");
        reveal_strlit("4");
        reveal_strlit("5");
        reveal_strlit("6");
        reveal_strlit("7");
        reveal_strlit("8");
        reveal_strlit("9");
    }
    match d {
        0 => "0",
        1 => "1",
        2 => "2",
        3 => "3",
        4 => "4",
        5 => "5",
        6 => "6",
        7 => "7",
        8 => "8",
        _ => "9",
    }
}

/// Renders `n` in decimal.
pub fn u64_to_dec_string(n: u64) -> (s: String)
    ensures
        s@ == spec_dec_digits(n as nat),
    decreases n,
{
    if n < 10 {
        digit_str(n as u32).to_owned()
    } else {
        let mut s = u64_to_dec_string(n / 10);
        s.append(digit_str((n % 10) as u32));
        s
    }
}

/// Renders `n` in decimal.
pub fn u32_to_dec_string(n: u32) -> (s: String)
    ensures
        s@ == spec_dec_digits(n as nat),
{
    u64_to_dec_string(n as u64)
}

/// `n` in decimal, with a leading minus sign when negative.
pub open spec fn spec_int_digits(n: int) -> Seq<char> {
    if n < 0 {
        "-"@ + spec_dec_digits((-n) as nat)
    } else {
        spec_dec_digits(n as nat)
    }
}

/// Renders a signed value (such as a Unix timestamp) in decimal.
pub fn i64_to_dec_string(n: i64) -> (s: String)
    ensures
        s@ == spec_int_digits(n as int),
{
    if n >= 0 {
        u64_to_dec_string(n as u64)
    } else {
        let magnitude: u64 = ((-(n + 1)) as u64) + 1;
        assert(magnitude == -(n as int));
        let mut s = "-".to_owned();
        let digits = u64_to_dec_string(magnitude);
        s.append(digits.as_str());
        s
    }
}

/// Renders the low `width` decimal digits of `n`, zero-padded.
pub fn padded_dec_string(n: u32, width: u32) -> (s: String)
    ensures
        s@ == spec_padded_digits(n as nat, width as nat),
    decreases width,
{
    if width == 0 {
        String::new()
    } else {
        let mut s = padded_dec_string(n / 10, width - 1);
        s.append(digit_str(n % 10));
        s
    }
}

/// `10^n`, for exponents small enough to fit comfortably in a `u32`.
pub fn pow10_u32(n: u32) -> (p: u32)
    requires
        n <= 4,
    ensures
        p == spec_pow10(n as nat),
        p >= 1,
{
    proof {
        reveal_with_fuel(spec_pow10, 5);
    }
    if n == 0 {
        1
    } else if n == 1 {
        10
    } else if n == 2 {
        100
    } else if n == 3 {
        1000
    } else {
        10000
    }
}

/// Renders a scaled value with `precision` decimal places.
pub fn format_scaled(scaled: u32, precision: u32) -> (s: String)
    requires
        precision <= 4,
    ensures
        s@ == spec_scaled_decimal(scaled as nat, precision as nat),
{
    if precision == 0 {
        u32_to_dec_string(scaled)
    } else {
        let pow = pow10_u32(precision);
        let mut s = u32_to_dec_string(scaled / pow);
        s.append(".");
        let frac = padded_dec_string(scaled % pow, precision);
        s.append(frac.as_str());
        s
    }
}

impl DataType {
    /// The display value of a raw sample, scaled to an integer in units of
    /// `10^-precision`: raw samples count twentieths of a degree for
    /// Temperature and whole display units elsewhere.
    pub open spec fn spec_display_scaled(self, raw: u16) -> int {
        match self {
            DataType::Temperature => raw * 5,
            _ => raw as int,
        }
    }

    pub fn display_scaled(self, raw: u16) -> (scaled: u32)
        ensures
            scaled == self.spec_display_scaled(raw),
    {
        match self {
            DataType::Temperature => 5 * (raw as u32),
            _ => raw as u32,
        }
    }
}

/// Law: the scaled display value is exactly the raw value times the display
/// multiplier, expressed in units of `10^-precision`:
/// `scaled * denom == raw * numer * 10^precision`.
pub proof fn lemma_display_scaled_is_multiplier(data_type: DataType, raw: u16)
    ensures
        data_type.spec_display_scaled(raw) * data_type.spec_multiplier_denom() == raw
            * data_type.spec_multiplier_numer() * spec_pow10(
            data_type.spec_display_precision() as nat,
        ),
{
    reveal_with_fuel(spec_pow10, 3);
    match data_type {
        DataType::Temperature => {
            assert((raw * 5) * 20 == raw * 1 * 100) by (nonlinear_arith);
        },
        DataType::Humidity => {
            assert((raw as int) * 1 == raw * 1 * 1) by (nonlinear_arith);
        },
        DataType::Pressure => {
            assert((raw as int) * 10 == raw * 1 * 10) by (nonlinear_arith);
        },
        DataType::CO2 => {
            assert((raw as int) * 1 == raw * 1 * 1) by (nonlinear_arith);
        },
    }
}

/// A run of `n` equals signs, the underline drawn beneath a heading.
pub open spec fn spec_eq_repeat(n: nat) -> Seq<char> {
    Seq::new(n, |i: int| '=')
}

/// Builds the underline of `n` equals signs.
pub fn eq_repeat(n: usize) -> (s: String)
    ensures
        s@ == spec_eq_repeat(n as nat),
{
    proof {
        reveal_strlit("=");
    }
    let mut s = String::new();
    let mut i: usize = 0;
    while i < n
        invariant
            i <= n,
            s@ =~= spec_eq_repeat(i as nat),
            "="@ =~= seq!['='],
        decreases n - i,
    {
        s.append("=");
        i = i + 1;
    }
    assert(s@ =~= spec_eq_repeat(n as nat));
    s
}

/// The number of extended grapheme clusters in a string — what a reader
/// perceives as its width in characters.
pub uninterp spec fn grapheme_count_of(s: Seq<char>) -> nat;

/// Relies on unicode_segmentation's `str::graphemes(true).count()`: the
/// number of extended grapheme clusters, a function of the characters
/// alone.  Clusters are non-empty and partition the text, so there are at
/// most as many as there are characters.
#[verifier::external_body]
pub(crate) fn grapheme_count(s: &str) -> (n: usize)
    ensures
        n == grapheme_count_of(s@),
        n <= s@.len(),
{
    s.graphemes(true).count()
}

/// The values of a history rendered as a comma-separated list.
pub open spec fn spec_value_list(data_type: DataType, values: Seq<u16>) -> Seq<char>
    decreases values.len(),
{
    if values.len() == 0 {
        Seq::empty()
    } else if values.len() == 1 {
        spec_scaled_decimal(
            data_type.spec_display_scaled(values[0]) as nat,
            data_type.spec_display_precision() as nat,
        )
    } else {
        spec_value_list(data_type, values.drop_last()) + ", "@ + spec_scaled_decimal(
            data_type.spec_display_scaled(values.last()) as nat,
            data_type.spec_display_precision() as nat,
        )
    }
}

/// A history rendered for people: the label, an underline as wide as the
/// label reads, and the bracketed list of display values.
pub open spec fn spec_sensor_display(sd: SensorData) -> Seq<char> {
    sd.data_type.spec_label() + "\n"@ + spec_eq_repeat(
        grapheme_count_of(sd.data_type.spec_label()),
    ) + "\n["@ + spec_value_list(sd.data_type, sd.values@) + "]"@
}

impl SensorData {
    /// One sample rendered as its display value, e.g. raw 400 of
    /// Temperature as `20.00`.
    pub fn value_string(&self, i: usize) -> (s: String)
        requires
            i < self.values@.len(),
        ensures
            s@ == spec_scaled_decimal(
                self.data_type.spec_display_scaled(self.values@[i as int]) as nat,
                self.data_type.spec_display_precision() as nat,
            ),
    {
        let scaled = self.data_type.display_scaled(self.values[i]);
        format_scaled(scaled, self.data_type.display_precision())
    }

    /// The whole history rendered for people.
    pub fn display_string(&self) -> (s: String)
        ensures
            s@ == spec_sensor_display(*self),
    {
        let label = self.data_type.label();
        let mut s = label.to_owned();
        s.append("\n");
        let count = grapheme_count(label);
        let eqs = eq_repeat(count);
        s.append(eqs.as_str());
        s.append("\n[");
        let mut list = String::new();
        let mut i: usize = 0;
        while i < self.values.len()
            invariant
                i <= self.values@.len(),
                list@ =~= spec_value_list(self.data_type, self.values@.subrange(0, i as int)),
            decreases self.values@.len() - i,
        {
            if i > 0 {
                list.append(", ");
            }
            let vs = self.value_string(i);
            list.append(vs.as_str());
            proof {
                let prefix = self.values@.subrange(0, i + 1);
                assert(prefix.drop_last() =~= self.values@.subrange(0, i as int));
                assert(prefix.last() == self.values@[i as int]);
            }
            i = i + 1;
        }
        assert(self.values@.subrange(0, self.values@.len() as int) =~= self.values@);
        s.append(list.as_str());
        s.append("]");
        assert(s@ =~= spec_sensor_display(*self));
        s
    }
}

/// One sample kind's reading of an instant measurement, rendered as its
/// display value.
pub open spec fn spec_measured_value(data_type: DataType, raw: u16) -> Seq<char> {
    spec_scaled_decimal(
        data_type.spec_display_scaled(raw) as nat,
        data_type.spec_display_precision() as nat,
    )
}

/// An instant measurement rendered for people, one line per field.
pub open spec fn spec_measurement_display(m: CurrentSensorMeasurement) -> Seq<char> {
    "CO₂: "@ + spec_measured_value(DataType::CO2, m.co2) + " ppm\nT: "@ + spec_measured_value(
        DataType::Temperature,
        m.temperature,
    ) + "°C\nP: "@ + spec_measured_value(DataType::Pressure, m.pressure) + " mbar\nHumidity: "@
        + spec_measured_value(DataType::Humidity, m.humidity as u16) + "%\nBattery: "@
        + spec_dec_digits(m.battery as nat) + "%\nStatus: "@ + spec_dec_digits(m.status as nat)
        + "\nInterval: "@ + spec_dec_digits(m.interval as nat) + " s\nAgo: "@ + spec_dec_digits(
        m.ago as nat,
    ) + " s\n"@
}

/// Renders one sample kind's reading of an instant measurement.
fn measured_value(data_type: DataType, raw: u16) -> (s: String)
    ensures
        s@ == spec_measured_value(data_type, raw),
{
    format_scaled(data_type.display_scaled(raw), data_type.display_precision())
}

impl CurrentSensorMeasurement {
    /// The measurement rendered for people, one line per field.
    pub fn display_string(&self) -> (s: String)
        ensures
            s@ == spec_measurement_display(*self),
    {
        let mut s = "CO₂: ".to_owned();
        let co2 = measured_value(DataType::CO2, self.co2);
        s.append(co2.as_str());
        s.append(" ppm\nT: ");
        let temperature = measured_value(DataType::Temperature, self.temperature);
        s.append(temperature.as_str());
        s.append("°C\nP: ");
        let pressure = measured_value(DataType::Pressure, self.pressure);
        s.append(pressure.as_str());
        s.append(" mbar\nHumidity: ");
        let humidity = measured_value(DataType::Humidity, self.humidity as u16);
        s.append(humidity.as_str());
        s.append("%\nBattery: ");
        let battery = u32_to_dec_string(self.battery as u32);
        s.append(battery.as_str());
        s.append("%\nStatus: ");
        let status = u32_to_dec_string(self.status as u32);
        s.append(status.as_str());
        s.append("\nInterval: ");
        let interval = u32_to_dec_string(self.interval as u32);
        s.append(interval.as_str());
        s.append(" s\nAgo: ");
        let ago = u32_to_dec_string(self.ago as u32);
        s.append(ago.as_str());
        s.append(" s\n");
        assert(s@ =~= spec_measurement_display(*self));
        s
    }
}

/// A frame header rendered for people, one line per field.
pub open spec fn spec_header_display(h: HistoryResponseHeader) -> Seq<char> {
    "history_type: "@ + spec_dec_digits(h.type_code as nat) + "\nstart_index: "@
        + spec_dec_digits(h.start_index as nat) + "\npacket_num_elem: "@ + spec_dec_digits(
        h.packet_num_elem as nat,
    )
}

impl HistoryResponseHeader {
    /// The header rendered for people, one line per field.
    pub fn display_string(&self) -> (s: String)
        ensures
            s@ == spec_header_display(*self),
    {
        let mut s = "history_type: ".to_owned();
        let type_code = u32_to_dec_string(self.type_code as u32);
        s.append(type_code.as_str());
        s.append("\nstart_index: ");
        let start_index = u32_to_dec_string(self.start_index as u32);
        s.append(start_index.as_str());
        s.append("\npacket_num_elem: ");
        let packet_num_elem = u32_to_dec_string(self.packet_num_elem as u32);
        s.append(packet_num_elem.as_str());
        assert(s@ =~= spec_header_display(*self));
        s
    }
}

} // verus!
