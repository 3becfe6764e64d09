use pgpio16::format::DataFormat;
use pgpio16::interface::PGPIO16BitInterface;
use pgpio16::port::RecordingPort;
use pgpio16::signal::{BusError, BusSignal};

const INIT_LEN: usize = 17;

// Per-line transition counts during the handshake: the data/command line
// moves twice (low then high), the write strobe three times, chip select
// four times, the read strobe three times. Fault scripts below are indexed
// per line from the start of the handshake.
fn script(indices: &[usize]) -> Vec<bool> {
    let mut s = vec![false; 16];
    for &i in indices {
        s[i] = true;
    }
    s
}

fn none() -> Vec<bool> {
    Vec::new()
}

#[test]
fn unsupported_format_rejected_without_writes() {
    let mut driver = PGPIO16BitInterface::new(RecordingPort::new_reliable(0x9325));
    let r = driver.write_data(DataFormat::Unsupported);
    assert_eq!(r, Err(BusError::UnsupportedFormat));
    let port = driver.release();
    assert_eq!(port.signals.len(), INIT_LEN);
}

#[test]
fn unsupported_format_after_dc_selection() {
    let mut driver = PGPIO16BitInterface::new(RecordingPort::new_reliable(0x9325));
    let r = driver.send_commands(DataFormat::Unsupported);
    assert_eq!(r, Err(BusError::UnsupportedFormat));
    let port = driver.release();
    assert_eq!(&port.signals[INIT_LEN..], &[BusSignal::DcLow][..]);
}

#[test]
fn dc_fault_aborts_before_any_word() {
    // The first data/command transition after the handshake's two.
    let port = RecordingPort::new(script(&[2]), none(), none(), none(), 0x9325);
    let mut driver = PGPIO16BitInterface::new(port);
    let r = driver.send_data(DataFormat::U8(vec![0x01, 0x02]));
    assert_eq!(r, Err(BusError::DCError));
    let port = driver.release();
    assert_eq!(&port.signals[INIT_LEN..], &[BusSignal::DcHigh][..]);
}

#[test]
fn wr_low_fault_aborts_before_next_word() {
    // The handshake strobes the write line three times; the first word's
    // frame adds two more, so the second word's low strobe is the sixth.
    let port = RecordingPort::new(none(), script(&[5]), none(), none(), 0x9325);
    let mut driver = PGPIO16BitInterface::new(port);
    let r = driver.send_data(DataFormat::U16(vec![0x0001, 0x0002, 0x0003]));
    assert_eq!(r, Err(BusError::BusWriteError));
    let port = driver.release();
    assert_eq!(port.signals.len(), INIT_LEN + 8);
    assert_eq!(*port.signals.last().unwrap(), BusSignal::WrLow);
    assert!(port.signals.contains(&BusSignal::BusWrite(0x0001)));
    assert!(!port.signals.contains(&BusSignal::BusWrite(0x0002)));
    assert!(!port.signals.contains(&BusSignal::BusWrite(0x0003)));
}

#[test]
fn wr_high_fault_aborts_after_the_write() {
    // The first word's sampling edge is the fifth write-strobe transition.
    let port = RecordingPort::new(none(), script(&[4]), none(), none(), 0x9325);
    let mut driver = PGPIO16BitInterface::new(port);
    let r = driver.send_data(DataFormat::U16(vec![0x0001, 0x0002]));
    assert_eq!(r, Err(BusError::BusWriteError));
    let port = driver.release();
    assert_eq!(
        &port.signals[INIT_LEN..],
        &[
            BusSignal::DcHigh,
            BusSignal::CsLow,
            BusSignal::WrLow,
            BusSignal::BusWrite(0x0001),
            BusSignal::WrHigh,
        ][..]
    );
}

#[test]
fn cs_faults_are_swallowed() {
    // Both chip-select transitions of the first word fail (the fifth and
    // sixth, after the handshake's four); the transmission still succeeds.
    let port = RecordingPort::new(none(), none(), script(&[4, 5]), none(), 0x9325);
    let mut driver = PGPIO16BitInterface::new(port);
    let r = driver.send_data(DataFormat::U16(vec![0x0001]));
    assert!(r.is_ok());
    let port = driver.release();
    assert_eq!(
        &port.signals[INIT_LEN..],
        &[
            BusSignal::DcHigh,
            BusSignal::CsLow,
            BusSignal::WrLow,
            BusSignal::BusWrite(0x0001),
            BusSignal::WrHigh,
            BusSignal::CsHigh,
        ][..]
    );
}

#[test]
fn driver_stays_usable_after_an_abort() {
    // The first word's low strobe (the fourth write-strobe transition)
    // fails; the next transmission over the same driver succeeds.
    let port = RecordingPort::new(none(), script(&[3]), none(), none(), 0x9325);
    let mut driver = PGPIO16BitInterface::new(port);
    let r = driver.send_data(DataFormat::U16(vec![0x0001]));
    assert_eq!(r, Err(BusError::BusWriteError));
    let r = driver.send_data(DataFormat::U16(vec![0x0002]));
    assert!(r.is_ok());
    let port = driver.release();
    let last: usize = port.signals.len() - 6;
    assert_eq!(
        &port.signals[last..],
        &[
            BusSignal::DcHigh,
            BusSignal::CsLow,
            BusSignal::WrLow,
            BusSignal::BusWrite(0x0002),
            BusSignal::WrHigh,
            BusSignal::CsHigh,
        ][..]
    );
}
