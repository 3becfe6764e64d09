use pgpio16::interface::PGPIO16BitInterface;
use pgpio16::port::RecordingPort;
use pgpio16::signal::BusSignal;

fn expected_init() -> Vec<BusSignal> {
    vec![
        BusSignal::ModeOutput,
        BusSignal::CsLow,
        BusSignal::DcLow,
        BusSignal::RdHigh,
        BusSignal::WrLow,
        BusSignal::BusWrite(0),
        BusSignal::WrHigh,
        BusSignal::CsHigh,
        BusSignal::ModeInput,
        BusSignal::CsLow,
        BusSignal::DcHigh,
        BusSignal::WrHigh,
        BusSignal::RdLow,
        BusSignal::BusRead,
        BusSignal::RdHigh,
        BusSignal::CsHigh,
        BusSignal::ModeOutput,
    ]
}

#[test]
fn init_handshake_signals() {
    let driver = PGPIO16BitInterface::new(RecordingPort::new_reliable(0x9325));
    let port = driver.release();
    assert_eq!(port.signals, expected_init());
}

#[test]
fn init_configures_output_twice_input_once() {
    let driver = PGPIO16BitInterface::new(RecordingPort::new_reliable(0x9325));
    let port = driver.release();
    let outputs: Vec<usize> = port
        .signals
        .iter()
        .enumerate()
        .filter(|(_, s)| **s == BusSignal::ModeOutput)
        .map(|(i, _)| i)
        .collect();
    let inputs: Vec<usize> = port
        .signals
        .iter()
        .enumerate()
        .filter(|(_, s)| **s == BusSignal::ModeInput)
        .map(|(i, _)| i)
        .collect();
    let probes: Vec<usize> = port
        .signals
        .iter()
        .enumerate()
        .filter(|(_, s)| **s == BusSignal::RdLow)
        .map(|(i, _)| i)
        .collect();
    assert_eq!(outputs, vec![0, port.signals.len() - 1]);
    assert_eq!(inputs.len(), 1);
    assert_eq!(probes.len(), 1);
    assert!(outputs[0] < inputs[0]);
    assert!(inputs[0] < probes[0]);
    assert!(probes[0] < outputs[1]);
}

#[test]
fn init_trace_ignores_sampled_id() {
    let a = PGPIO16BitInterface::new(RecordingPort::new_reliable(0x0000)).release();
    let b = PGPIO16BitInterface::new(RecordingPort::new_reliable(0xFFFF)).release();
    assert_eq!(a.signals, b.signals);
}

#[test]
fn init_swallows_line_faults() {
    let driver = PGPIO16BitInterface::new(RecordingPort::new(
        vec![true; 8],
        vec![true; 8],
        vec![true; 8],
        vec![true; 8],
        0x9325,
    ));
    let port = driver.release();
    assert_eq!(port.signals, expected_init());
}
