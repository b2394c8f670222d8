use chiaro::irsdk::client::{Client, ClientError, SourceError};
use chiaro::irsdk::frame::{F32Bits, F64Bits, TelemetryValue, VariableType};
use chiaro::irsdk::ibt::{
    decode_record, decode_value, nonnegative_len, parse_ibt_layout, positive_tick_rate, read_bytes, read_disk_header,
    read_f64, read_header, read_i32, read_i64, read_u32, read_variable_headers, record_data_offset,
    record_location, validate_range, validate_record_data, variable_type_from_code, IbtError, IbtLayout,
    DISK_HEADER_LEN, HEADER_LEN, VARIABLE_HEADER_LEN,
};

const VARIABLE_HEADER_OFFSET: usize = 144;
const VARIABLE_COUNT: usize = 3;

fn write_i32(bytes: &mut [u8], offset: usize, value: i32) {
    bytes[offset..offset + 4].copy_from_slice(&value.to_le_bytes());
}

fn write_i64(bytes: &mut [u8], offset: usize, value: i64) {
    bytes[offset..offset + 8].copy_from_slice(&value.to_le_bytes());
}

fn write_f64(bytes: &mut [u8], offset: usize, value: f64) {
    bytes[offset..offset + 8].copy_from_slice(&value.to_le_bytes());
}

fn copy_string(bytes: &mut [u8], offset: usize, len: usize, value: &str) {
    let value = value.as_bytes();
    let len = value.len().min(len);
    bytes[offset..offset + len].copy_from_slice(&value[..len]);
}

fn write_variable_header(bytes: &mut [u8], index: usize, variable_type: i32, value_offset: i32, count: i32, name: &str, unit: &str) {
    let offset = VARIABLE_HEADER_OFFSET + index * VARIABLE_HEADER_LEN;
    write_i32(bytes, offset, variable_type);
    write_i32(bytes, offset + 4, value_offset);
    write_i32(bytes, offset + 8, count);
    copy_string(bytes, offset + 16, 32, name);
    copy_string(bytes, offset + 48, 64, name);
    copy_string(bytes, offset + 112, 32, unit);
}

fn fixture() -> Vec<u8> {
    let mut bytes = vec![0; VARIABLE_HEADER_OFFSET + VARIABLE_COUNT * VARIABLE_HEADER_LEN];
    write_i32(&mut bytes, 0, 2);
    write_i32(&mut bytes, 4, 1);
    write_i32(&mut bytes, 8, 60);
    write_i32(&mut bytes, 12, 7);
    write_i32(&mut bytes, 24, VARIABLE_COUNT as i32);
    write_i32(&mut bytes, 28, VARIABLE_HEADER_OFFSET as i32);
    write_i32(&mut bytes, 32, 1);
    write_i32(&mut bytes, 36, 20);
    write_i32(&mut bytes, 52, 624);
    write_i64(&mut bytes, HEADER_LEN, 1_750_000_000);
    write_f64(&mut bytes, HEADER_LEN + 8, 10.0);
    write_f64(&mut bytes, HEADER_LEN + 16, 10.0 + 1.0 / 60.0);
    write_i32(&mut bytes, HEADER_LEN + 24, 1);
    write_i32(&mut bytes, HEADER_LEN + 28, 2);
    write_variable_header(&mut bytes, 0, 5, 0, 1, "SessionTime", "s");
    write_variable_header(&mut bytes, 1, 4, 8, 1, "RPM", "revs/min");
    write_variable_header(&mut bytes, 2, 2, 12, 2, "CarIdxLap", "");
    bytes
}

#[test]
fn reads_the_sdk_header_fields() {
    let bytes = fixture();
    let header = read_header(&bytes).expect("complete header");
    assert_eq!(header.version, 2);
    assert_eq!(header.status, 1);
    assert_eq!(header.tick_rate, 60);
    assert_eq!(header.session_info_update, 7);
    assert_eq!(header.num_variables, 3);
    assert_eq!(header.variable_header_offset, 144);
    assert_eq!(header.num_buffers, 1);
    assert_eq!(header.buffer_len, 20);
    assert_eq!(header.variable_buffers.len(), 4);
    assert_eq!(header.variable_buffers[0].buffer_offset, 624);
    assert_eq!(header.variable_buffers[1].buffer_offset, 0);
    assert!(read_header(&bytes[..HEADER_LEN - 1]).is_err());
}

#[test]
fn reads_the_disk_header_fields() {
    let bytes = fixture();
    let disk = read_disk_header(&bytes[HEADER_LEN..]).expect("complete disk header");
    assert_eq!(disk.start_date, 1_750_000_000);
    assert_eq!(disk.start_time, F64Bits(10.0f64.to_bits()));
    assert_eq!(disk.end_time, F64Bits((10.0 + 1.0 / 60.0f64).to_bits()));
    assert_eq!(disk.lap_count, 1);
    assert_eq!(disk.record_count, 2);
    assert!(read_disk_header(&bytes[HEADER_LEN..HEADER_LEN + DISK_HEADER_LEN - 1]).is_err());
}

#[test]
fn reads_variable_headers_one_after_another() {
    let bytes = fixture();
    let region = &bytes[VARIABLE_HEADER_OFFSET..];
    let headers = read_variable_headers(region, VARIABLE_COUNT).expect("three headers");
    assert_eq!(headers.len(), 3);
    assert_eq!(headers[0].variable_type, 5);
    assert_eq!(headers[1].offset, 8);
    assert_eq!(headers[2].count, 2);
    assert_eq!(&headers[1].name[..3], b"RPM");
    assert_eq!(headers[1].name[3], 0);
    assert_eq!(&headers[1].unit[..8], b"revs/min");
    assert!(read_variable_headers(region, VARIABLE_COUNT + 1).is_err());
}

#[test]
fn little_endian_numbers_are_decoded() {
    let bytes = [0xff, 0xff, 0xff, 0xff, 0x01, 0x00, 0x00, 0x80, 0x2a];
    assert_eq!(read_i32(&bytes, 0), Ok(-1));
    assert_eq!(read_u32(&bytes, 4), Ok(0x8000_0001));
    assert_eq!(read_i32(&bytes, 4), Ok(i32::MIN + 1));
    assert_eq!(read_i64(&bytes, 0), Ok(i64::MIN + 0x1_ffff_ffff));
    assert_eq!(read_bytes(&bytes, 8, 1), Ok(vec![0x2a]));
    assert_eq!(read_i32(&bytes, 6), Err(IbtError::OutOfBounds { offset: 6, width: 4 }));
    assert_eq!(read_f64(&bytes, 2), Err(IbtError::OutOfBounds { offset: 2, width: 8 }));
    assert_eq!(read_i32(&bytes, usize::MAX), Err(IbtError::OutOfBounds { offset: usize::MAX, width: 4 }));
}

#[test]
fn record_values_are_decoded_by_type_and_count() {
    let mut record = vec![0u8; 20];
    record[0..8].copy_from_slice(&10.0f64.to_le_bytes());
    record[8..12].copy_from_slice(&6_100.0f32.to_le_bytes());
    record[12..16].copy_from_slice(&3i32.to_le_bytes());
    record[16..20].copy_from_slice(&4i32.to_le_bytes());
    assert_eq!(
        decode_value(&record, 0, VariableType::Double, 1),
        Ok(TelemetryValue::Double(F64Bits(10.0f64.to_bits())))
    );
    match decode_value(&record, 8, VariableType::Float, 1) {
        Ok(TelemetryValue::Float(bits)) => assert_eq!(f32::from_bits(bits.0), 6_100.0),
        other => panic!("unexpected value: {other:?}"),
    }
    assert_eq!(decode_value(&record, 12, VariableType::Int, 2), Ok(TelemetryValue::Ints(vec![3, 4])));
    assert_eq!(decode_value(&record, 12, VariableType::Bool, 2), Ok(TelemetryValue::Bools(vec![true, false])));
    assert_eq!(decode_value(&record, 16, VariableType::Char, 1), Ok(TelemetryValue::Char(4)));
    assert!(decode_value(&record, 16, VariableType::Int, 2).is_err());
}

#[test]
fn variable_type_codes_are_checked() {
    assert_eq!(variable_type_from_code(4), Ok(VariableType::Float));
    assert_eq!(variable_type_from_code(99), Err(IbtError::UnknownVariableType { code: 99 }));
    assert_eq!(variable_type_from_code(-1), Err(IbtError::UnknownVariableType { code: -1 }));
}

#[test]
fn counts_offsets_and_tick_rates_are_validated() {
    assert_eq!(nonnegative_len(3, "lap count"), Ok(3));
    assert_eq!(
        nonnegative_len(-1, "lap count"),
        Err(IbtError::Negative { label: "lap count".to_owned() })
    );
    assert_eq!(positive_tick_rate(60), Ok(60));
    assert_eq!(positive_tick_rate(0), Err(IbtError::TickRateNotPositive));
    assert_eq!(record_data_offset(624), Ok(624));
    assert_eq!(record_data_offset(-4), Err(IbtError::NegativeRecordOffset));
    assert_eq!(validate_range(100, 100, "session info"), Ok(()));
    assert_eq!(
        validate_range(101, 100, "session info"),
        Err(IbtError::BeyondEnd { label: "session info".to_owned() })
    );
}

#[test]
fn record_data_and_indexes_are_checked() {
    assert_eq!(validate_record_data(624, 20, 2, 664), Ok(()));
    assert_eq!(validate_record_data(624, 20, 2, 663), Err(IbtError::RecordDataBeyondEnd));
    assert_eq!(validate_record_data(u64::MAX, 1, 1, u64::MAX), Err(IbtError::Overflow));
    assert_eq!(record_location(624, 20, 2, 1), Ok((644, 1)));
    assert_eq!(record_location(624, 20, 2, 2), Err(IbtError::RecordIndexOutOfRange { index: 2 }));
}

const SESSION_INFO: &[u8] = b"WeekendInfo:\n  TrackName: test\n";
const RECORD_LEN: usize = 20;
const RECORD_COUNT: usize = 2;

fn align(value: usize, alignment: usize) -> usize {
    value.div_ceil(alignment) * alignment
}

fn write_record(bytes: &mut [u8], session_time: f64, rpm: f32, laps: [i32; 2]) {
    bytes[0..8].copy_from_slice(&session_time.to_le_bytes());
    bytes[8..12].copy_from_slice(&rpm.to_le_bytes());
    bytes[12..16].copy_from_slice(&laps[0].to_le_bytes());
    bytes[16..20].copy_from_slice(&laps[1].to_le_bytes());
}

fn session_info_offset() -> usize {
    VARIABLE_HEADER_OFFSET + VARIABLE_COUNT * VARIABLE_HEADER_LEN
}

fn record_offset() -> usize {
    align(session_info_offset() + SESSION_INFO.len(), 16)
}

/// A whole recording: headers, session information and two records.
fn recording() -> Vec<u8> {
    let session_offset = session_info_offset();
    let records = record_offset();
    let mut bytes = vec![0; records + RECORD_LEN * RECORD_COUNT];
    write_i32(&mut bytes, 0, 2);
    write_i32(&mut bytes, 4, 1);
    write_i32(&mut bytes, 8, 60);
    write_i32(&mut bytes, 12, 7);
    write_i32(&mut bytes, 16, SESSION_INFO.len() as i32);
    write_i32(&mut bytes, 20, session_offset as i32);
    write_i32(&mut bytes, 24, VARIABLE_COUNT as i32);
    write_i32(&mut bytes, 28, VARIABLE_HEADER_OFFSET as i32);
    write_i32(&mut bytes, 32, 1);
    write_i32(&mut bytes, 36, RECORD_LEN as i32);
    write_i32(&mut bytes, 52, records as i32);
    write_i64(&mut bytes, HEADER_LEN, 1_750_000_000);
    write_f64(&mut bytes, HEADER_LEN + 8, 10.0);
    write_f64(&mut bytes, HEADER_LEN + 16, 10.0 + 1.0 / 60.0);
    write_i32(&mut bytes, HEADER_LEN + 24, 1);
    write_i32(&mut bytes, HEADER_LEN + 28, RECORD_COUNT as i32);
    write_variable_header(&mut bytes, 0, 5, 0, 1, "SessionTime", "s");
    write_variable_header(&mut bytes, 1, 4, 8, 1, "RPM", "revs/min");
    write_variable_header(&mut bytes, 2, 2, 12, 2, "CarIdxLap", "");
    bytes[session_offset..session_offset + SESSION_INFO.len()].copy_from_slice(SESSION_INFO);
    write_record(&mut bytes[records..records + RECORD_LEN], 10.0, 5_000.0, [2, 3]);
    write_record(
        &mut bytes[records + RECORD_LEN..records + RECORD_LEN * 2],
        10.0 + 1.0 / 60.0,
        6_100.0,
        [3, 4],
    );
    bytes
}

fn parse(bytes: &[u8]) -> Result<IbtLayout, IbtError> {
    parse_ibt_layout(bytes, bytes.len() as u64)
}

fn record<'a>(bytes: &'a [u8], layout: &IbtLayout, index: usize) -> (&'a [u8], i32) {
    let (offset, packet_id) =
        record_location(layout.record_offset, layout.record_len, layout.record_count, index).expect("record");
    let offset = offset as usize;
    (&bytes[offset..offset + layout.record_len], packet_id)
}

fn value(bytes: &[u8], layout: &IbtLayout, index: usize, name: &str) -> TelemetryValue {
    let (record, _) = record(bytes, layout, index);
    let header = layout
        .variables
        .iter()
        .find(|h| h.name.split(|b| *b == 0).next() == Some(name.as_bytes()))
        .expect("variable");
    let value_type = variable_type_from_code(header.variable_type).expect("known type");
    decode_value(record, header.offset as usize, value_type, header.count as usize).expect("value")
}

#[test]
fn reads_metadata_session_info_and_random_records() {
    let bytes = recording();
    let layout = parse(&bytes).expect("valid IBT fixture");
    assert_eq!(layout.tick_rate, 60);
    assert_eq!(layout.lap_count, 1);
    assert_eq!(layout.record_count, RECORD_COUNT);
    let duration = f64::from_bits(layout.end_time.0) - f64::from_bits(layout.start_time.0);
    assert!((duration - 1.0 / 60.0).abs() < 1e-12);
    assert_eq!(layout.variables.len(), VARIABLE_COUNT);
    assert_eq!(layout.session_info, SESSION_INFO.to_vec());
    assert!(String::from_utf8(layout.session_info.clone()).expect("text").contains("TrackName: test"));

    let (_, packet_id) = record(&bytes, &layout, 1);
    assert_eq!(packet_id, 1);
    assert_eq!(value(&bytes, &layout, 1, "RPM"), TelemetryValue::Float(F32Bits(6_100.0f32.to_bits())));
    assert_eq!(value(&bytes, &layout, 1, "CarIdxLap"), TelemetryValue::Ints(vec![3, 4]));
    assert_eq!(value(&bytes, &layout, 0, "SessionTime"), TelemetryValue::Double(F64Bits(10.0f64.to_bits())));
}

#[test]
fn iterates_over_all_frames_without_preloading_them() {
    let bytes = recording();
    let layout = parse(&bytes).expect("valid IBT fixture");
    let rpms = (0..layout.record_count)
        .map(|index| match value(&bytes, &layout, index, "RPM") {
            TelemetryValue::Float(rpm) => f32::from_bits(rpm.0),
            value => panic!("unexpected RPM value: {value:?}"),
        })
        .collect::<Vec<_>>();
    assert_eq!(rpms, [5_000.0, 6_100.0]);
}

#[test]
fn rejects_truncated_record_data() {
    let mut bytes = recording();
    bytes.pop();
    let error = parse(&bytes).expect_err("truncated IBT must fail");
    assert_eq!(error, IbtError::RecordDataBeyondEnd);
    assert!(error.message().contains("record data extends beyond"));
}

#[test]
fn rejects_unknown_variable_types() {
    let mut bytes = recording();
    write_i32(&mut bytes, VARIABLE_HEADER_OFFSET, 99);
    let error = parse(&bytes).expect_err("unknown type must fail");
    assert_eq!(error, IbtError::UnknownVariableType { code: 99 });
    assert!(error.message().contains("unknown iRacing variable type"));
}

#[test]
fn rejects_record_indexes_outside_the_file() {
    let bytes = recording();
    let layout = parse(&bytes).expect("valid IBT fixture");
    let error = record_location(layout.record_offset, layout.record_len, layout.record_count, RECORD_COUNT)
        .expect_err("index must fail");
    assert_eq!(error, IbtError::RecordIndexOutOfRange { index: RECORD_COUNT });
    assert_eq!(error.message(), "IBT record index 2 is out of range");
}

#[test]
fn parses_the_layout_of_a_recording() {
    let bytes = recording();
    let layout = parse(&bytes).expect("valid IBT fixture");
    assert_eq!(layout.start_date, 1_750_000_000);
    assert_eq!(layout.start_time, F64Bits(10.0f64.to_bits()));
    assert_eq!(layout.record_len, RECORD_LEN);
    assert_eq!(layout.record_offset, record_offset() as u64);
    assert_eq!(layout.session_info_update, 7);
    assert_eq!(layout.variables[1].offset, 8);
    assert_eq!(&layout.variables[1].name[..3], b"RPM");
    // Only the first bytes need be at hand, with the file's length beside them.
    let records = record_offset();
    assert_eq!(parse_ibt_layout(&bytes[..records], bytes.len() as u64), Ok(layout));
}

#[test]
fn session_information_ends_at_its_first_zero_byte() {
    let mut bytes = recording();
    let at = session_info_offset() + 12;
    bytes[at] = 0;
    let layout = parse(&bytes).expect("valid IBT fixture");
    assert_eq!(layout.session_info, b"WeekendInfo:".to_vec());
}

#[test]
fn each_check_of_the_layout_has_its_error() {
    let mut bytes = recording();
    write_i32(&mut bytes, 32, 2);
    assert_eq!(parse(&bytes), Err(IbtError::BufferCount { found: 2 }));
    assert_eq!(
        IbtError::BufferCount { found: 2 }.message(),
        "an IBT file must contain one telemetry buffer, found 2"
    );

    let mut bytes = recording();
    write_i32(&mut bytes, 8, 0);
    assert_eq!(parse(&bytes), Err(IbtError::TickRateNotPositive));

    let mut bytes = recording();
    write_f64(&mut bytes, HEADER_LEN + 16, f64::NAN);
    assert_eq!(parse(&bytes), Err(IbtError::NonFiniteTimes));
    let mut bytes = recording();
    write_f64(&mut bytes, HEADER_LEN + 8, f64::INFINITY);
    assert_eq!(parse(&bytes), Err(IbtError::NonFiniteTimes));

    let mut bytes = recording();
    write_f64(&mut bytes, HEADER_LEN + 16, 9.5);
    assert_eq!(parse(&bytes), Err(IbtError::EndBeforeStart));
    assert_eq!(IbtError::EndBeforeStart.message(), "IBT session end time precedes its start time");
    let mut bytes = recording();
    write_f64(&mut bytes, HEADER_LEN + 8, -0.0);
    write_f64(&mut bytes, HEADER_LEN + 16, 0.0);
    assert!(parse(&bytes).is_ok());
    let mut bytes = recording();
    write_f64(&mut bytes, HEADER_LEN + 8, -2.0);
    write_f64(&mut bytes, HEADER_LEN + 16, -1.0);
    assert!(parse(&bytes).is_ok());

    let mut bytes = recording();
    write_i32(&mut bytes, HEADER_LEN + 24, -1);
    assert_eq!(parse(&bytes), Err(IbtError::Negative { label: "lap count".to_owned() }));

    let mut bytes = recording();
    write_i32(&mut bytes, 52, -16);
    assert_eq!(parse(&bytes), Err(IbtError::NegativeRecordOffset));

    let mut bytes = recording();
    write_i32(&mut bytes, 52, (session_info_offset() + 4) as i32);
    assert_eq!(parse(&bytes), Err(IbtError::MetadataOverlap));
    assert_eq!(IbtError::MetadataOverlap.message(), "IBT record data overlaps file metadata");

    let mut bytes = recording();
    write_i32(&mut bytes, VARIABLE_HEADER_OFFSET + 2 * VARIABLE_HEADER_LEN + 8, 3);
    assert_eq!(parse(&bytes), Err(IbtError::VariableOutsideRecord { index: 2 }));
    assert_eq!(
        IbtError::VariableOutsideRecord { index: 2 }.message(),
        "IBT variable 2 lies outside the record"
    );

    let bytes = recording();
    assert_eq!(
        parse_ibt_layout(&bytes[..HEADER_LEN - 1], bytes.len() as u64),
        Err(IbtError::OutOfBounds { offset: 0, width: HEADER_LEN })
    );
}

#[test]
fn a_client_hands_on_each_update_once() {
    let mut client = Client::connect();
    assert_eq!(client.read_latest(Ok("first"), 10, true), Ok(Some("first")));
    assert_eq!(client.read_latest(Ok("again"), 10, true), Ok(None));
    assert_eq!(client.read_latest::<&str>(Err(SourceError::WouldBlock), 11, true), Ok(None));
    assert_eq!(client.read_latest(Ok("bad"), 11, false), Err(ClientError::NonFinite));
    assert_eq!(client.read_latest(Ok("second"), 11, true), Ok(Some("second")));
    assert_eq!(client.last_sample_packet_id, Some(11));
    assert_eq!(
        client.read_all::<&str>(Err(SourceError::Failed("gone".to_owned())), 3),
        Err(ClientError::Source("gone".to_owned()))
    );
    assert_eq!(client.read_all(Ok("frame"), 11), Ok(Some("frame")));
    assert_eq!(client.read_snapshot(Ok("snapshot"), 11, true), Ok(Some("snapshot")));
    assert!(client.session_info_changed(1));
    assert_eq!(client.read_session_info(Ok("info"), 1), Ok(Some("info")));
    assert!(!client.session_info_changed(1));
    assert_eq!(client.read_session_info(Ok("info"), 1), Ok(None));
}

#[test]
fn a_record_of_an_accepted_layout_decodes_whole() {
    let bytes = recording();
    let layout = parse(&bytes).expect("valid IBT fixture");
    let (record_bytes, _) = record(&bytes, &layout, 1);
    let values = decode_record(&layout.variables, record_bytes).expect("every variable");
    assert_eq!(
        values,
        vec![
            TelemetryValue::Double(F64Bits((10.0 + 1.0 / 60.0f64).to_bits())),
            TelemetryValue::Float(F32Bits(6_100.0f32.to_bits())),
            TelemetryValue::Ints(vec![3, 4]),
        ]
    );
    // A shorter record cannot hold the last variable.
    assert_eq!(
        decode_record(&layout.variables, &record_bytes[..19]),
        Err(IbtError::VariableOutsideRecord { index: 2 })
    );
    let mut variables = layout.variables.clone();
    variables[1].variable_type = 7;
    assert_eq!(decode_record(&variables, record_bytes), Err(IbtError::UnknownVariableType { code: 7 }));
}
