use drv8305::command::FramingError;
use drv8305::driver::{modify_reply, read_reply, read_request, write_reply, write_request, DriverError};
use drv8305::register::{CommOption, DecodeError, GateDriveControl, PwmMode, Register};
use drv8305::transaction::{BusAction, BusEvent, Transaction, FRAME_GAP_CYCLES, SETUP_DELAY_CYCLES};

#[derive(Debug, PartialEq)]
enum Call {
    Low,
    High,
    Delay(u32),
    Send(u16),
    Receive,
}

/// A bus that answers every receive with `reply`, failing where asked.
fn run(word: u16, send_fails: bool, reply: Result<u16, u8>) -> (Vec<Call>, Result<u16, u8>) {
    let mut calls = Vec::new();
    let (mut tx, mut action) = Transaction::<u8>::start(word);
    loop {
        let event = match action {
            BusAction::Select => {
                calls.push(Call::Low);
                BusEvent::Done
            }
            BusAction::Wait(c) => {
                calls.push(Call::Delay(c));
                BusEvent::Done
            }
            BusAction::Send(w) => {
                calls.push(Call::Send(w));
                BusEvent::Sent(if send_fails { Err(1) } else { Ok(()) })
            }
            BusAction::Receive => {
                calls.push(Call::Receive);
                BusEvent::Received(reply)
            }
            BusAction::Release => {
                calls.push(Call::High);
                BusEvent::Done
            }
            BusAction::Finish(r) => return (calls, r),
        };
        let (t, a) = tx.step(event);
        tx = t;
        action = a;
    }
}

#[test]
fn exchange_runs_in_protocol_order() {
    let (calls, r) = run(0xe000, false, Ok(0x1234));
    assert_eq!(
        calls,
        vec![
            Call::Low,
            Call::Delay(SETUP_DELAY_CYCLES),
            Call::Send(0xe000),
            Call::Receive,
            Call::High,
            Call::Delay(FRAME_GAP_CYCLES),
        ]
    );
    assert_eq!(r, Ok(0x1234));
}

#[test]
fn receive_failure_still_releases_chip_select_once() {
    let (calls, r) = run(0xe000, false, Err(7));
    assert_eq!(calls.iter().filter(|c| **c == Call::High).count(), 1);
    assert_eq!(calls.last(), Some(&Call::Delay(FRAME_GAP_CYCLES)));
    assert_eq!(r, Err(7));
}

#[test]
fn send_failure_releases_chip_select_without_receiving() {
    let (calls, r) = run(0xe000, true, Ok(0x1234));
    assert_eq!(calls.iter().filter(|c| **c == Call::High).count(), 1);
    assert!(!calls.contains(&Call::Receive));
    assert_eq!(r, Err(1));
}

#[test]
fn write_returns_previous_value() {
    let previous: u16 = 0x0085;
    let new_value = GateDriveControl::parse(previous)
        .unwrap()
        .with_comm_option(CommOption::Active)
        .with_pwm_mode(PwmMode::One);
    let word = write_request::<GateDriveControl, u8>(&new_value).unwrap();
    assert_eq!(word, (0x7 << 11) | (1 << 9) | (2 << 7) | 0x05);
    let (_, reply) = run(word, false, Ok(previous));
    assert!(matches!(write_reply(reply), Ok(0x0085)));
    let (_, reply) = run(word, false, Ok(previous));
    let decoded: GateDriveControl = match modify_reply(reply) {
        Ok(v) => v,
        Err(_) => panic!("reply should decode"),
    };
    assert_eq!(decoded.pwm_mode, PwmMode::Three);
    assert_eq!(decoded.comm_option, CommOption::Diode);
    assert_eq!(decoded.data(), previous);
}

#[test]
fn read_decodes_reply() {
    assert_eq!(read_request::<GateDriveControl>(), 0b1_0111_000_0000_0000);
    let (_, reply) = run(read_request::<GateDriveControl>(), false, Ok(0x02a5));
    let v: GateDriveControl = match read_reply(reply) {
        Ok(v) => v,
        Err(_) => panic!("reply should decode"),
    };
    assert_eq!(v.pwm_mode, PwmMode::Three);
}

#[test]
fn read_reports_each_failure_phase() {
    let r: Result<GateDriveControl, DriverError<u8>> = read_reply(Ok(0b11 << 7));
    assert!(matches!(r, Err(DriverError::Decode(DecodeError::InvalidFieldValue { field: 7, value: 3 }))));
    let r: Result<GateDriveControl, DriverError<u8>> = read_reply(Err(4));
    assert!(matches!(r, Err(DriverError::Transport(4))));
    assert!(matches!(write_reply::<u8>(Err(9)), Err(DriverError::Transport(9))));
}

#[test]
fn write_of_wide_snapshot_is_refused() {
    let v = GateDriveControl::parse(0x8000).unwrap();
    let r = write_request::<GateDriveControl, u8>(&v);
    assert!(matches!(r, Err(DriverError::Framing(FramingError::PayloadTooWide))));
}
