use pgpio16::format::DataFormat;
use pgpio16::interface::PGPIO16BitInterface;
use pgpio16::port::RecordingPort;
use pgpio16::signal::BusSignal;

const INIT_LEN: usize = 17;

fn fresh() -> PGPIO16BitInterface<RecordingPort> {
    PGPIO16BitInterface::new(RecordingPort::new_reliable(0x9325))
}

fn frame(value: u16) -> Vec<BusSignal> {
    vec![
        BusSignal::CsLow,
        BusSignal::WrLow,
        BusSignal::BusWrite(value),
        BusSignal::WrHigh,
        BusSignal::CsHigh,
    ]
}

fn written(port: &RecordingPort) -> Vec<u16> {
    port.signals[INIT_LEN..]
        .iter()
        .filter_map(|s| match s {
            BusSignal::BusWrite(v) => Some(*v),
            _ => None,
        })
        .collect()
}

#[test]
fn send_commands_single_byte() {
    let mut driver = fresh();
    let r = driver.send_commands(DataFormat::U8(vec![0x01]));
    assert!(r.is_ok());
    let port = driver.release();
    let mut expected = vec![BusSignal::DcLow];
    expected.extend(frame(0x0001));
    assert_eq!(&port.signals[INIT_LEN..], &expected[..]);
}

#[test]
fn send_data_two_words_big_endian() {
    let mut driver = fresh();
    let r = driver.send_data(DataFormat::U16BE(vec![0xAAAA, 0x5555]));
    assert!(r.is_ok());
    let port = driver.release();
    let mut expected = vec![BusSignal::DcHigh];
    expected.extend(frame(0xAAAA));
    expected.extend(frame(0x5555));
    assert_eq!(&port.signals[INIT_LEN..], &expected[..]);
}

#[test]
fn send_commands_empty_payload_sets_dc_only() {
    let mut driver = fresh();
    let r = driver.send_commands(DataFormat::U8(vec![]));
    assert!(r.is_ok());
    let port = driver.release();
    assert_eq!(&port.signals[INIT_LEN..], &[BusSignal::DcLow][..]);
}

#[test]
fn send_data_empty_payload_sets_dc_only() {
    let mut driver = fresh();
    let r = driver.send_data(DataFormat::U16(vec![]));
    assert!(r.is_ok());
    let port = driver.release();
    assert_eq!(&port.signals[INIT_LEN..], &[BusSignal::DcHigh][..]);
}

#[test]
fn bytes_are_zero_extended() {
    let mut driver = fresh();
    let r = driver.send_data(DataFormat::U8(vec![0xAB, 0x01, 0xFF]));
    assert!(r.is_ok());
    let port = driver.release();
    assert_eq!(written(&port), vec![0x00AB, 0x0001, 0x00FF]);
}

#[test]
fn byte_sequence_is_zero_extended() {
    let mut driver = fresh();
    let r = driver.send_commands(DataFormat::U8Iter(vec![0x80, 0x7F]));
    assert!(r.is_ok());
    let port = driver.release();
    assert_eq!(written(&port), vec![0x0080, 0x007F]);
}

#[test]
fn word_payloads_pass_through_verbatim() {
    let payloads = [
        DataFormat::U16(vec![0x1234, 0xFEDC]),
        DataFormat::U16BE(vec![0x1234, 0xFEDC]),
        DataFormat::U16LE(vec![0x1234, 0xFEDC]),
        DataFormat::U16BEIter(vec![0x1234, 0xFEDC]),
        DataFormat::U16LEIter(vec![0x1234, 0xFEDC]),
    ];
    for payload in payloads {
        let mut driver = fresh();
        let r = driver.send_data(payload);
        assert!(r.is_ok());
        let port = driver.release();
        assert_eq!(written(&port), vec![0x1234, 0xFEDC]);
    }
}

#[test]
fn drive_word_frames_one_word() {
    let mut driver = fresh();
    let r = driver.drive_word(0x1234);
    assert!(r.is_ok());
    let port = driver.release();
    assert_eq!(&port.signals[INIT_LEN..], &frame(0x1234)[..]);
}

#[test]
fn write_iter_frames_each_word_in_order() {
    let mut driver = fresh();
    let r = driver.write_iter(&[1, 2, 3]);
    assert!(r.is_ok());
    let port = driver.release();
    let mut expected = frame(1);
    expected.extend(frame(2));
    expected.extend(frame(3));
    assert_eq!(&port.signals[INIT_LEN..], &expected[..]);
}
