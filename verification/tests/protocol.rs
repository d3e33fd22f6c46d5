use arachiver::fetch::FetchState;
use arachiver::fetch::HistoryRequestProtocol;
use arachiver::protocol::build_history_command;
use arachiver::protocol::bytes_to_single_u16;
use arachiver::protocol::get_characteristic;
use arachiver::protocol::ARANET4_COMMAND_UUID;
use arachiver::protocol::ARANET4_NOTIFY_HISTORY_UUID;
use arachiver::protocol::ARANET4_TOTAL_READINGS_UUID;
use arachiver::reassembly::NotificationReassembler;
use arachiver::types::Aranet4Error;
use arachiver::types::DataType;

#[test]
fn u16_read_requires_exactly_two_bytes() {
    assert_eq!(bytes_to_single_u16(&[0x2C, 0x01]).unwrap(), 300);
    assert!(bytes_to_single_u16(&[0x2C]).is_err());
    assert!(bytes_to_single_u16(&[0x2C, 0x01, 0x00]).is_err());
    assert!(bytes_to_single_u16(&[]).is_err());
}

#[test]
fn characteristic_lookup_finds_first_match() {
    let uuids = vec![
        ARANET4_TOTAL_READINGS_UUID,
        ARANET4_NOTIFY_HISTORY_UUID,
        ARANET4_COMMAND_UUID,
    ];
    assert_eq!(get_characteristic(&uuids, ARANET4_NOTIFY_HISTORY_UUID).unwrap(), 1);
    assert_eq!(get_characteristic(&uuids, ARANET4_COMMAND_UUID).unwrap(), 2);
}

#[test]
fn characteristic_lookup_fails_when_absent() {
    let uuids = vec![ARANET4_TOTAL_READINGS_UUID];
    let e = get_characteristic(&uuids, ARANET4_NOTIFY_HISTORY_UUID).unwrap_err();
    assert_eq!(e, Aranet4Error::CharacteristicNotFound);
}

#[test]
fn history_command_layout() {
    // total 0x0214 = 532, split little-endian into the last two bytes
    let cmd = build_history_command(DataType::Pressure, 532);
    assert_eq!(cmd, vec![0x82, 3, 0x00, 0x00, 0x01, 0x00, 0x14, 0x02]);
}

// Frames whose packet_num_elem values sum to total_readings, all sharing
// the requested type code, reassemble into exactly total_readings samples.
#[test]
fn frames_summing_to_total_reassemble_completely() {
    let mut r = NotificationReassembler::new(DataType::CO2, 3);
    // frame 1: two samples (400, 420); frame 2: one sample (500)
    let frame1 = [4u8, 0, 0, 2, 0x90, 0x01, 0xA4, 0x01];
    let frame2 = [4u8, 2, 0, 1, 0xF4, 0x01];
    assert_eq!(r.push(ARANET4_NOTIFY_HISTORY_UUID, &frame1).unwrap(), false);
    assert_eq!(r.push(ARANET4_NOTIFY_HISTORY_UUID, &frame2).unwrap(), true);
    let bytes = r.into_bytes().unwrap();
    let sd = arachiver::types::SensorData::decode(DataType::CO2, &bytes).unwrap();
    assert_eq!(sd.values, vec![400, 420, 500]);
}

#[test]
fn mismatched_type_code_aborts_fetch() {
    let mut r = NotificationReassembler::new(DataType::CO2, 3);
    // header says Temperature (code 1) although CO2 (code 4) was requested
    let frame = [1u8, 0, 0, 2, 0x90, 0x01, 0xA4, 0x01];
    let e = r.push(ARANET4_NOTIFY_HISTORY_UUID, &frame).unwrap_err();
    assert_eq!(
        e,
        Aranet4Error::InvalidResponse("history type mismatch".to_string())
    );
}

#[test]
fn unexpected_characteristic_aborts_fetch() {
    let mut r = NotificationReassembler::new(DataType::CO2, 3);
    let frame = [4u8, 0, 0, 2, 0x90, 0x01, 0xA4, 0x01];
    let e = r.push(ARANET4_COMMAND_UUID, &frame).unwrap_err();
    assert_eq!(
        e,
        Aranet4Error::InvalidResponse("unexpected notification characteristic".to_string())
    );
}

#[test]
fn truncated_frames_abort_fetch() {
    let mut r = NotificationReassembler::new(DataType::CO2, 3);
    let e = r.push(ARANET4_NOTIFY_HISTORY_UUID, &[4u8, 0, 0]).unwrap_err();
    assert_eq!(
        e,
        Aranet4Error::InvalidResponse("truncated frame header".to_string())
    );
    // header announces 2 samples (4 payload bytes) but only 2 arrive
    let e = r
        .push(ARANET4_NOTIFY_HISTORY_UUID, &[4u8, 0, 0, 2, 0x90, 0x01])
        .unwrap_err();
    assert_eq!(
        e,
        Aranet4Error::InvalidResponse("truncated frame payload".to_string())
    );
}

#[test]
fn short_accumulation_fails_at_close() {
    let mut r = NotificationReassembler::new(DataType::CO2, 3);
    let frame = [4u8, 0, 0, 2, 0x90, 0x01, 0xA4, 0x01];
    assert_eq!(r.push(ARANET4_NOTIFY_HISTORY_UUID, &frame).unwrap(), false);
    let e = r.into_bytes().unwrap_err();
    assert_eq!(
        e,
        Aranet4Error::InvalidResponse("unexpected number of bytes".to_string())
    );
}

#[test]
fn overshoot_fails_at_close() {
    // total 1 sample expected, but a frame carries two
    let mut r = NotificationReassembler::new(DataType::CO2, 1);
    let frame = [4u8, 0, 0, 2, 0x90, 0x01, 0xA4, 0x01];
    assert_eq!(r.push(ARANET4_NOTIFY_HISTORY_UUID, &frame).unwrap(), true);
    let e = r.into_bytes().unwrap_err();
    assert_eq!(
        e,
        Aranet4Error::InvalidResponse("unexpected number of bytes".to_string())
    );
}

#[test]
fn fetch_machine_walks_happy_path() {
    let mut p = HistoryRequestProtocol::new(DataType::Temperature);
    assert_eq!(p.state, FetchState::Idle);
    let total = p.on_total_readings(&[2, 0]).unwrap();
    assert_eq!(total, 2);
    assert_eq!(p.state, FetchState::CountRead);
    let cmd = p.request_command(true).unwrap();
    assert_eq!(cmd, vec![0x82, 1, 0x00, 0x00, 0x01, 0x00, 2, 0]);
    assert_eq!(p.state, FetchState::CommandSent);
    p.on_subscribed();
    assert_eq!(p.state, FetchState::Subscribed);
    let done = p
        .on_notification(ARANET4_NOTIFY_HISTORY_UUID, &[1u8, 0, 0, 2, 0x90, 0x01, 0xA4, 0x01])
        .unwrap();
    assert!(done);
    assert_eq!(p.state, FetchState::Complete);
    let sd = p.take_history().unwrap();
    assert_eq!(sd.data_type, DataType::Temperature);
    assert_eq!(sd.values, vec![400, 420]);
}

#[test]
fn fetch_machine_collects_across_frames() {
    let mut p = HistoryRequestProtocol::new(DataType::Humidity);
    p.on_total_readings(&[3, 0]).unwrap();
    p.request_command(true).unwrap();
    p.on_subscribed();
    let done = p
        .on_notification(ARANET4_NOTIFY_HISTORY_UUID, &[2u8, 0, 0, 2, 55, 56])
        .unwrap();
    assert!(!done);
    assert_eq!(p.state, FetchState::Collecting);
    let done = p
        .on_notification(ARANET4_NOTIFY_HISTORY_UUID, &[2u8, 2, 0, 1, 57])
        .unwrap();
    assert!(done);
    let sd = p.take_history().unwrap();
    assert_eq!(sd.values, vec![55, 56, 57]);
}

#[test]
fn fetch_machine_requires_notify_flag() {
    let mut p = HistoryRequestProtocol::new(DataType::CO2);
    p.on_total_readings(&[5, 0]).unwrap();
    let e = p.request_command(false).unwrap_err();
    assert_eq!(e, Aranet4Error::InvalidResponse("no NOTIFY flag".to_string()));
    assert_eq!(p.state, FetchState::Failed);
}

#[test]
fn fetch_machine_rejects_bad_count_read() {
    let mut p = HistoryRequestProtocol::new(DataType::CO2);
    let e = p.on_total_readings(&[5, 0, 0]).unwrap_err();
    assert_eq!(
        e,
        Aranet4Error::InvalidResponse("expected exactly 2 bytes".to_string())
    );
    assert_eq!(p.state, FetchState::Failed);
}

#[test]
fn fetch_machine_fails_on_mismatched_frame() {
    let mut p = HistoryRequestProtocol::new(DataType::CO2);
    p.on_total_readings(&[2, 0]).unwrap();
    p.request_command(true).unwrap();
    p.on_subscribed();
    let e = p
        .on_notification(ARANET4_NOTIFY_HISTORY_UUID, &[1u8, 0, 0, 2, 0x90, 0x01, 0xA4, 0x01])
        .unwrap_err();
    assert_eq!(
        e,
        Aranet4Error::InvalidResponse("history type mismatch".to_string())
    );
    assert_eq!(p.state, FetchState::Failed);
}

#[test]
fn early_stream_end_fails_take_history() {
    let mut p = HistoryRequestProtocol::new(DataType::CO2);
    p.on_total_readings(&[2, 0]).unwrap();
    p.request_command(true).unwrap();
    p.on_subscribed();
    let done = p
        .on_notification(ARANET4_NOTIFY_HISTORY_UUID, &[4u8, 0, 0, 1, 0x90, 0x01])
        .unwrap();
    assert!(!done);
    let e = p.take_history().unwrap_err();
    assert_eq!(
        e,
        Aranet4Error::InvalidResponse("unexpected number of bytes".to_string())
    );
}
