use arachiver::history::bundle_history;
use arachiver::history::HistoryTime;
use arachiver::types::Aranet4Error;
use arachiver::types::DataType;
use arachiver::types::SensorData;

fn sensor(data_type: DataType, values: Vec<u16>) -> SensorData {
    SensorData { data_type, values }
}

#[test]
fn timestamp_of_newest_sample_is_now_minus_since_update() {
    let ht = HistoryTime::new(10, 300, 24, 1_700_000_000);
    assert_eq!(ht.get_timestamp(9).unwrap(), 1_700_000_000 - 24);
}

#[test]
fn timestamp_of_oldest_sample_spans_whole_history() {
    let ht = HistoryTime::new(10, 300, 24, 1_700_000_000);
    assert_eq!(ht.get_timestamp(0).unwrap(), 1_700_000_000 - (9 * 300 + 24));
}

#[test]
fn timestamp_out_of_range_always_fails() {
    let ht = HistoryTime::new(10, 300, 24, 1_700_000_000);
    for i in 10..30usize {
        let e = ht.get_timestamp(i).unwrap_err();
        assert_eq!(
            e,
            Aranet4Error::InvalidResponse("sample index out of range".to_string())
        );
    }
    let empty = HistoryTime::new(0, 300, 24, 1_700_000_000);
    assert!(empty.get_timestamp(0).is_err());
}

#[test]
fn timestamps_to_vec_steps_by_interval() {
    let ht = HistoryTime::new(3, 300, 24, 1_700_000_000);
    let v = ht.to_vec();
    assert_eq!(
        v,
        vec![
            1_700_000_000 - (2 * 300 + 24),
            1_700_000_000 - (300 + 24),
            1_700_000_000 - 24,
        ]
    );
}

#[test]
fn equal_lengths_bundle_into_dataset() {
    let ds = bundle_history(
        sensor(DataType::Temperature, vec![400, 420]),
        sensor(DataType::Humidity, vec![55, 56]),
        sensor(DataType::Pressure, vec![10132, 10133]),
        sensor(DataType::CO2, vec![600, 650]),
        300,
        24,
        1_700_000_000,
    )
    .unwrap();
    assert_eq!(ds.history_time.num_samples, 2);
    assert_eq!(ds.history_time.update_interval, 300);
    assert_eq!(ds.history_time.since_update, 24);
    assert_eq!(ds.history_time.now, 1_700_000_000);
    assert_eq!(ds.temperature.values, vec![400, 420]);
    assert_eq!(ds.co2.values, vec![600, 650]);
}

// Fetching all four kinds with differing lengths fails the full fetch.
#[test]
fn differing_lengths_fail_bundle() {
    let e = bundle_history(
        sensor(DataType::Temperature, vec![400; 10]),
        sensor(DataType::Humidity, vec![55; 9]),
        sensor(DataType::Pressure, vec![10132; 10]),
        sensor(DataType::CO2, vec![600; 10]),
        300,
        24,
        1_700_000_000,
    )
    .unwrap_err();
    assert_eq!(
        e,
        Aranet4Error::InvalidResponse("history length mismatch".to_string())
    );
}

#[test]
fn error_classes_are_distinguishable() {
    let transport = Aranet4Error::Btleplug("adapter lost".to_string());
    let protocol = Aranet4Error::InvalidResponse("odd byte count".to_string());
    let missing = Aranet4Error::CharacteristicNotFound;
    assert!(matches!(transport, Aranet4Error::Btleplug(_)));
    assert!(matches!(protocol, Aranet4Error::InvalidResponse(_)));
    assert!(matches!(missing, Aranet4Error::CharacteristicNotFound));
    assert_ne!(transport, protocol);
}
