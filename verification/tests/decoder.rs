use vedirect2mqtt::decoder::{DecodeWarning, ReadError, SerialDecoder, BUFFER_SIZE};
use vedirect2mqtt::field::Field;
use vedirect2mqtt::message::{FieldError, Message};
use vedirect2mqtt::number::IntError;

/// Reads one frame from `input`, handing it to the decoder in buffers of at
/// most `chunk` bytes, as the program does with the serial line.
fn read_with_chunks(decoder: &mut SerialDecoder, input: &mut &[u8], chunk: usize) -> Result<Message, ReadError> {
    decoder.start_read();
    loop {
        if let Some(outcome) = decoder.resume_read() {
            return outcome;
        }
        let n = input.len().min(chunk).min(BUFFER_SIZE);
        if n == 0 {
            return Err(ReadError::Timeout);
        }
        decoder.fill(&input[..n]);
        *input = &input[n..];
    }
}

fn read(decoder: &mut SerialDecoder, input: &mut &[u8]) -> Result<Message, ReadError> {
    read_with_chunks(decoder, input, BUFFER_SIZE)
}

fn append_packet(stream: &mut Vec<u8>, data: &[u8]) {
    stream.extend(data);
    stream.push(compute_checksum(data));
}

fn compute_checksum(data: &[u8]) -> u8 {
    0u8.wrapping_sub(data.iter().fold(0u8, |acc, val| acc.wrapping_add(*val)))
}

#[test]
fn test_simple_read() {
    let mut stream = Vec::new();
    append_packet(&mut stream, b"\nPID\t42\nChecksum\t");

    let mut decoder = SerialDecoder::new();
    let actual = read(&mut decoder, &mut stream.as_slice()).unwrap();
    let expected = Message {
        product_id: Some("42".to_string()),
        ..Default::default()
    };
    assert_eq!(actual, expected);
}

#[test]
fn reads_a_full_frame_with_carriage_returns() {
    let mut stream = Vec::new();
    append_packet(
        &mut stream,
        b"\r\nPID\t0xA053\r\nFW\t159\r\nSER#\tHQ2132ABCDE\r\nV\t13520\r\nI\t-2150\r\nVPV\t18230\r\nPPV\t4\r\nCS\t5\r\nH19\t1234\r\nLOAD\tON\r\nChecksum\t",
    );
    let mut decoder = SerialDecoder::new();
    let m = read(&mut decoder, &mut stream.as_slice()).unwrap();
    assert_eq!(m.product_id.as_deref(), Some("0xA053"));
    assert_eq!(m.firmware_version_16bit.as_deref(), Some("159"));
    assert_eq!(m.serial_number.as_deref(), Some("HQ2132ABCDE"));
    assert_eq!(m.main_battery_voltage, Some(13520));
    assert_eq!(m.main_battery_current, Some(-2150));
    assert_eq!(m.panel_voltage, Some(18230));
    assert_eq!(m.panel_power, Some(4));
    assert_eq!(m.state_of_operation, Some(5));
    assert_eq!(m.yield_total.as_deref(), Some("1234"));
    assert_eq!(m.load_output_state.as_deref(), Some("ON"));
    assert_eq!(m.yield_today, None);
}

#[test]
fn wrong_checksum_is_refused() {
    let mut stream = b"\nPID\t42\nChecksum\t".to_vec();
    stream.push(compute_checksum(b"\nPID\t42\nChecksum\t").wrapping_add(1));
    let mut decoder = SerialDecoder::new();
    assert!(matches!(read(&mut decoder, &mut stream.as_slice()), Err(ReadError::ChecksumError)));
}

#[test]
fn frames_are_read_one_after_another() {
    let mut stream = Vec::new();
    append_packet(&mut stream, b"\nV\t12000\nChecksum\t");
    append_packet(&mut stream, b"\nV\t12100\nChecksum\t");
    let mut decoder = SerialDecoder::new();
    let mut input = stream.as_slice();
    assert_eq!(read(&mut decoder, &mut input).unwrap().main_battery_voltage, Some(12000));
    assert_eq!(read(&mut decoder, &mut input).unwrap().main_battery_voltage, Some(12100));
}

#[test]
fn frame_split_over_small_buffers() {
    let mut stream = Vec::new();
    append_packet(&mut stream, b"\nV\t12800\nI\t-300\nChecksum\t");
    for chunk in 1..8 {
        let mut decoder = SerialDecoder::new();
        let mut input = stream.as_slice();
        let m = read_with_chunks(&mut decoder, &mut input, chunk).unwrap();
        assert_eq!(m.main_battery_voltage, Some(12800));
        assert_eq!(m.main_battery_current, Some(-300));
    }
}

#[test]
fn hex_records_are_skipped() {
    let mut stream = Vec::new();
    let mut frame = b"\nPID\t42\n".to_vec();
    let checksum = compute_checksum(b"\nPID\t42\nChecksum\t");
    frame.extend(b":A0102000543\n");
    frame.extend(b"Checksum\t");
    frame.push(checksum);
    stream.extend(frame);
    let mut decoder = SerialDecoder::new();
    let m = read(&mut decoder, &mut stream.as_slice()).unwrap();
    assert_eq!(m.product_id.as_deref(), Some("42"));
}

#[test]
fn bytes_before_the_first_line_count_towards_the_checksum() {
    let data = b"xx\nPID\t42\nChecksum\t";
    let mut stream = Vec::new();
    append_packet(&mut stream, data);
    let mut decoder = SerialDecoder::new();
    assert_eq!(read(&mut decoder, &mut stream.as_slice()).unwrap().product_id.as_deref(), Some("42"));
}

#[test]
fn bad_field_values_are_left_out() {
    let mut stream = Vec::new();
    append_packet(&mut stream, b"\nV\tabc\nI\t12\nXYZ\t1\nH17\tnot-a-number\nH18\t2.5\nChecksum\t");
    let mut decoder = SerialDecoder::new();
    let m = read(&mut decoder, &mut stream.as_slice()).unwrap();
    assert_eq!(m.main_battery_voltage, None);
    assert_eq!(m.main_battery_current, Some(12));
    assert_eq!(m.energy_discharged_or_produced, None);
    assert_eq!(m.energy_charged_or_consumed.as_deref(), Some("2.5"));
}

#[test]
fn non_ascii_bytes_are_dropped_from_values() {
    let mut stream = Vec::new();
    append_packet(&mut stream, b"\nPID\t4\xff2\nChecksum\t");
    let mut decoder = SerialDecoder::new();
    assert_eq!(read(&mut decoder, &mut stream.as_slice()).unwrap().product_id.as_deref(), Some("42"));
}

#[test]
fn next_byte_walks_the_buffer_then_goes_back_to_its_start() {
    let mut decoder = SerialDecoder::new();
    assert_eq!(decoder.next_byte(), None);
    decoder.fill(b"ab");
    assert_eq!(decoder.next_byte(), Some(b'a'));
    assert_eq!(decoder.next_byte(), Some(b'b'));
    assert_eq!(decoder.next_byte(), None);
    // Without a new buffer, the position is back at the start of the old one.
    assert_eq!(decoder.next_byte(), Some(b'a'));
}

#[test]
fn feeding_a_frame_byte_by_byte() {
    let mut stream = Vec::new();
    append_packet(&mut stream, b"\nSOC\t876\nChecksum\t");
    let mut decoder = SerialDecoder::new();
    let (last, init) = stream.split_last().unwrap();
    for b in init {
        assert!(decoder.feed(*b).is_none());
    }
    let m = decoder.feed(*last).unwrap().unwrap();
    assert_eq!(m.state_of_charge, Some(876));
}

#[test]
fn chunks_come_back_once_each_and_in_order() {
    let chunks: [&[u8]; 3] = [b"ab", b"", b"cde"];
    let mut d = SerialDecoder::new();
    let mut given = Vec::new();
    for chunk in chunks {
        d.fill(chunk);
        loop {
            let r = d.next_byte();
            given.push(r);
            if r.is_none() {
                break;
            }
        }
    }
    assert_eq!(
        given,
        vec![Some(b'a'), Some(b'b'), None, None, Some(b'c'), Some(b'd'), Some(b'e'), None]
    );
}

#[test]
fn passed_over_bytes_and_lines_are_reported() {
    let mut stream = Vec::new();
    append_packet(&mut stream, b"\nV\tx1\nXYZ\t3\nP\xC3\t5\nH19\tnope\nSOC\t9\xC3\nChecksum\t");
    let mut d = SerialDecoder::new();
    let mut input: &[u8] = stream.as_slice();
    let m = read(&mut d, &mut input).unwrap();
    let warnings = d.take_warnings();
    let kinds: Vec<String> = warnings.iter().map(|w| format!("{:?}", w)).collect();
    assert_eq!(warnings.len(), 5, "{:?}", kinds);
    assert!(matches!(warnings[0], DecodeWarning::RejectedField(FieldError::InvalidInteger(IntError::InvalidDigit))));
    assert!(matches!(&warnings[1], DecodeWarning::RejectedField(FieldError::UnknownField(n)) if n == "XYZ"));
    assert!(matches!(warnings[2], DecodeWarning::NonAscii(0xC3)));
    assert!(matches!(warnings[3], DecodeWarning::RejectedField(FieldError::InvalidFloat)));
    assert!(matches!(warnings[4], DecodeWarning::NonAscii(0xC3)));
    assert_eq!(m.int_field(Field::InstantaneousPower), Some(5));
    assert_eq!(m.int_field(Field::StateOfCharge), Some(9));
    assert!(d.take_warnings().is_empty());
}

#[test]
fn hex_record_bytes_do_not_count_towards_the_checksum() {
    let body = b"\nPID\t42\n:A0102000543\nChecksum\t";
    let mut stream = body.to_vec();
    // A checksum byte that also cancels the hex record's bytes is refused.
    stream.push(compute_checksum(body));
    let mut decoder = SerialDecoder::new();
    assert!(matches!(read(&mut decoder, &mut stream.as_slice()), Err(ReadError::ChecksumError)));
}
