use picousb::exchange::{Action, CommandTokens, Event, Exchange, ExchangeError, ExchangePhase};
use picousb::wire::PicobootCmd;

fn ok_status(token: u8, cmd_id: u8) -> Event {
    Event::Status([token, 0, 0, 0, 0, 0, 0, 0, cmd_id, 0, 0, 0, 0, 0, 0, 0])
}

fn expect_write(a: Action) -> Vec<u8> {
    match a {
        Action::BulkWrite(v) => v,
        other => panic!("expected a bulk write, got {:?}", other),
    }
}

#[test]
fn tokens_start_at_one_and_increase() {
    let mut t = CommandTokens::new();
    assert_eq!(t.issue(), Some(1));
    assert_eq!(t.issue(), Some(2));
    assert_eq!(t.issue(), Some(3));
    assert_eq!(t.next, 4);
}

#[test]
fn exchanges_take_successive_tokens() {
    let mut t = CommandTokens::new();
    let (a, _) = Exchange::start(&mut t, PicobootCmd::exclusive_access(1), vec![]).unwrap();
    let (b, _) = Exchange::start(&mut t, PicobootCmd::flash_erase(0x1000_0000, 4096), vec![]).unwrap();
    assert_eq!(a.cmd.token, 1);
    assert_eq!(b.cmd.token, 2);
}

#[test]
fn write_exchange_runs_data_out_then_one_byte_ack_in() {
    let mut t = CommandTokens::new();
    let data = vec![0xAB; 256];
    let (mut x, a) = Exchange::start(&mut t, PicobootCmd::flash_write(0x1000_0000, 256), data.clone()).unwrap();
    let header = expect_write(a);
    assert_eq!(header.len(), 32);
    assert_eq!(&header[4..8], &[1, 0, 0, 0]);
    assert!(matches!(x.step(Event::Wrote(32)), Ok(Action::PollStatus)));
    let out = expect_write(x.step(ok_status(1, 0x05)).unwrap());
    assert_eq!(out, data);
    assert!(matches!(x.step(Event::Wrote(256)), Ok(Action::PollStatus)));
    assert!(matches!(x.step(ok_status(1, 0x05)), Ok(Action::BulkRead(1))));
    match x.step(Event::ReadBytes(vec![])) {
        Ok(Action::Finished(v)) => assert!(v.is_empty()),
        other => panic!("unexpected {:?}", other),
    }
    assert_eq!(x.phase, ExchangePhase::Done);
}

#[test]
fn read_exchange_returns_data_and_acks_with_zero_byte() {
    let mut t = CommandTokens::new();
    let (mut x, _) = Exchange::start(&mut t, PicobootCmd::flash_read(0x1000_0000, 4), vec![]).unwrap();
    assert!(matches!(x.step(Event::Wrote(32)), Ok(Action::PollStatus)));
    assert!(matches!(x.step(ok_status(1, 0x84)), Ok(Action::BulkRead(4))));
    assert!(matches!(x.step(Event::ReadBytes(vec![1, 2, 3, 4])), Ok(Action::PollStatus)));
    let ack = expect_write(x.step(ok_status(1, 0x84)).unwrap());
    assert_eq!(ack, vec![0u8]);
    match x.step(Event::Wrote(1)) {
        Ok(Action::Finished(v)) => assert_eq!(v, vec![1, 2, 3, 4]),
        other => panic!("unexpected {:?}", other),
    }
}

#[test]
fn command_without_data_goes_straight_to_ack() {
    let mut t = CommandTokens::new();
    let (mut x, _) = Exchange::start(&mut t, PicobootCmd::flash_erase(0x1000_0000, 4096), vec![]).unwrap();
    assert!(matches!(x.step(Event::Wrote(32)), Ok(Action::PollStatus)));
    assert!(matches!(x.step(ok_status(1, 0x03)), Ok(Action::BulkRead(1))));
    assert!(matches!(x.step(Event::ReadBytes(vec![0])), Ok(Action::Finished(_))));
}

#[test]
fn short_bulk_write_is_fatal() {
    let mut t = CommandTokens::new();
    let (mut x, _) = Exchange::start(&mut t, PicobootCmd::flash_erase(0x1000_0000, 4096), vec![]).unwrap();
    assert_eq!(
        x.step(Event::Wrote(31)).unwrap_err(),
        ExchangeError::WriteMismatch { expected: 32, actual: 31 }
    );
    assert_eq!(x.phase, ExchangePhase::Failed);
    assert_eq!(x.step(Event::Wrote(32)).unwrap_err(), ExchangeError::UnexpectedEvent);
}

#[test]
fn short_data_write_is_fatal() {
    let mut t = CommandTokens::new();
    let (mut x, _) = Exchange::start(&mut t, PicobootCmd::flash_write(0x1000_0000, 8), vec![0; 8]).unwrap();
    x.step(Event::Wrote(32)).unwrap();
    x.step(ok_status(1, 0x05)).unwrap();
    assert_eq!(
        x.step(Event::Wrote(5)).unwrap_err(),
        ExchangeError::WriteMismatch { expected: 8, actual: 5 }
    );
}

#[test]
fn short_read_is_fatal() {
    let mut t = CommandTokens::new();
    let (mut x, _) = Exchange::start(&mut t, PicobootCmd::flash_read(0x1000_0000, 4), vec![]).unwrap();
    x.step(Event::Wrote(32)).unwrap();
    x.step(ok_status(1, 0x84)).unwrap();
    assert_eq!(
        x.step(Event::ReadBytes(vec![1, 2])).unwrap_err(),
        ExchangeError::ReadMismatch { expected: 4, actual: 2 }
    );
}

#[test]
fn undefined_status_and_command_codes_are_fatal() {
    let mut t = CommandTokens::new();
    let (mut x, _) = Exchange::start(&mut t, PicobootCmd::flash_erase(0x1000_0000, 4096), vec![]).unwrap();
    x.step(Event::Wrote(32)).unwrap();
    let bad = Event::Status([1, 0, 0, 0, 18, 0, 0, 0, 0x03, 0, 0, 0, 0, 0, 0, 0]);
    assert_eq!(x.step(bad).unwrap_err(), ExchangeError::UnknownStatus(18));

    let (mut y, _) = Exchange::start(&mut t, PicobootCmd::flash_erase(0x1000_0000, 4096), vec![]).unwrap();
    y.step(Event::Wrote(32)).unwrap();
    assert_eq!(y.step(ok_status(2, 0x04)).unwrap_err(), ExchangeError::UnknownCommand(0x04));
}

#[test]
fn device_error_status_is_reported_not_acted_on() {
    let mut t = CommandTokens::new();
    let (mut x, _) = Exchange::start(&mut t, PicobootCmd::flash_erase(0x1000_0001, 4096), vec![]).unwrap();
    x.step(Event::Wrote(32)).unwrap();
    let alignment = Event::Status([1, 0, 0, 0, 5, 0, 0, 0, 0x03, 0, 0, 0, 0, 0, 0, 0]);
    assert!(matches!(x.step(alignment), Ok(Action::BulkRead(1))));
}

#[test]
fn write_buffer_must_match_transfer_length() {
    let mut t = CommandTokens::new();
    let r = Exchange::start(&mut t, PicobootCmd::flash_write(0x1000_0000, 256), vec![0; 255]);
    assert_eq!(r.err(), Some(ExchangeError::DataLengthMismatch));
    assert_eq!(t.next, 1);
}

#[test]
fn event_out_of_order_is_fatal() {
    let mut t = CommandTokens::new();
    let (mut x, _) = Exchange::start(&mut t, PicobootCmd::flash_erase(0x1000_0000, 4096), vec![]).unwrap();
    assert_eq!(x.step(ok_status(1, 0x03)).unwrap_err(), ExchangeError::UnexpectedEvent);
}
