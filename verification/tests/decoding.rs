use arachiver::types::Aranet4Error;
use arachiver::types::CurrentSensorMeasurement;
use arachiver::types::DataType;
use arachiver::types::HistoryResponseHeader;
use arachiver::types::SensorData;

#[test]
fn current_measurement_decodes_known_buffer() {
    // co2 = [0x90, 0x01] -> 400, temperature 420, pressure 10002,
    // humidity 42, battery 95, status 1, interval 300, ago 24
    let bytes = [
        0x90u8, 0x01, 0xA4, 0x01, 0x12, 0x27, 42, 95, 1, 0x2C, 0x01, 0x18, 0x00,
    ];
    let m = CurrentSensorMeasurement::decode(&bytes).unwrap();
    assert_eq!(m.co2, 400);
    assert_eq!(m.temperature, 420);
    assert_eq!(m.pressure, 10002);
    assert_eq!(m.humidity, 42);
    assert_eq!(m.battery, 95);
    assert_eq!(m.status, 1);
    assert_eq!(m.interval, 300);
    assert_eq!(m.ago, 24);
}

#[test]
fn current_measurement_rejects_wrong_length() {
    let bytes = [0u8; 12];
    let e = CurrentSensorMeasurement::decode(&bytes).unwrap_err();
    assert_eq!(
        e,
        Aranet4Error::InvalidResponse("unexpected current measurement length".to_string())
    );
    let bytes = [0u8; 14];
    assert!(CurrentSensorMeasurement::decode(&bytes).is_err());
}

#[test]
fn header_decodes_first_four_bytes() {
    let bytes = [3u8, 0x10, 0x01, 7, 0xFF, 0xFF];
    let h = HistoryResponseHeader::decode(&bytes).unwrap();
    assert_eq!(h.type_code, 3);
    assert_eq!(h.start_index, 272);
    assert_eq!(h.packet_num_elem, 7);
}

#[test]
fn header_rejects_short_buffer() {
    let bytes = [3u8, 0x10, 0x01];
    let e = HistoryResponseHeader::decode(&bytes).unwrap_err();
    assert_eq!(
        e,
        Aranet4Error::InvalidResponse("truncated frame header".to_string())
    );
}

#[test]
fn two_byte_kind_rejects_odd_length() {
    let bytes = [0x90u8, 0x01, 0xA4];
    let e = SensorData::decode(DataType::Temperature, &bytes).unwrap_err();
    assert_eq!(
        e,
        Aranet4Error::InvalidResponse("odd byte count".to_string())
    );
    assert!(SensorData::decode(DataType::Pressure, &bytes).is_err());
    assert!(SensorData::decode(DataType::CO2, &bytes).is_err());
}

#[test]
fn one_byte_kind_accepts_any_length() {
    for len in 0..7usize {
        let bytes = vec![7u8; len];
        let sd = SensorData::decode(DataType::Humidity, &bytes).unwrap();
        assert_eq!(sd.values.len(), len);
        assert!(sd.values.iter().all(|v| *v == 7));
    }
}

#[test]
fn two_byte_kind_decodes_little_endian_pairs() {
    let bytes = [0x90u8, 0x01, 0xA4, 0x01];
    let sd = SensorData::decode(DataType::CO2, &bytes).unwrap();
    assert_eq!(sd.data_type, DataType::CO2);
    assert_eq!(sd.values, vec![400, 420]);
}

#[test]
fn values_widen_to_i32() {
    let bytes = [0x90u8, 0x01, 0xA4, 0x01];
    let sd = SensorData::decode(DataType::CO2, &bytes).unwrap();
    assert_eq!(sd.values_i32(), vec![400i32, 420]);
}

#[test]
fn data_type_metadata_table() {
    assert_eq!(DataType::Temperature.wire_code(), 1);
    assert_eq!(DataType::Humidity.wire_code(), 2);
    assert_eq!(DataType::Pressure.wire_code(), 3);
    assert_eq!(DataType::CO2.wire_code(), 4);
    assert_eq!(DataType::Temperature.elem_width(), 2);
    assert_eq!(DataType::Humidity.elem_width(), 1);
    assert_eq!(DataType::Pressure.elem_width(), 2);
    assert_eq!(DataType::CO2.elem_width(), 2);
    assert_eq!(DataType::Temperature.label(), "Temperature (°C)");
    assert_eq!(DataType::Humidity.label(), "Humidity (%)");
    assert_eq!(DataType::Pressure.label(), "Pressure (mbar)");
    assert_eq!(DataType::CO2.label(), "CO₂ (ppm)");
    assert_eq!(DataType::Temperature.display_precision(), 2);
    assert_eq!(DataType::Humidity.display_precision(), 0);
    assert_eq!(DataType::Pressure.display_precision(), 1);
    assert_eq!(DataType::CO2.display_precision(), 0);
}

#[test]
fn multipliers_are_the_exact_rationals() {
    // The display multipliers of the device: 0.05, 1.0, 0.1, 1.0.
    let cases = [
        (DataType::Temperature, 0.05f32),
        (DataType::Humidity, 1.0),
        (DataType::Pressure, 0.1),
        (DataType::CO2, 1.0),
    ];
    for (dt, expected) in cases {
        let m = dt.multiplier_numer() as f32 / dt.multiplier_denom() as f32;
        assert_eq!(m, expected);
    }
}

#[test]
fn header_display_lists_every_field() {
    let h = HistoryResponseHeader {
        type_code: 1,
        start_index: 272,
        packet_num_elem: 7,
    };
    assert_eq!(
        h.display_string(),
        "history_type: 1\nstart_index: 272\npacket_num_elem: 7"
    );
}
