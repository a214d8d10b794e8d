use rpoke::error::ScanError;
use rpoke::probe::probe_for;
use rpoke::result::ScanResult;
use rpoke::unit::{
    banner_text, record_open_port, record_unanswered_port, Phase, PortScan, ScanTarget,
    UnitAction, UnitEvent, RESPONSE_LIMIT,
};

fn unit_for(port: u16) -> PortScan {
    PortScan::new(ScanTarget { host: "192.0.2.7".to_string(), port }, 750)
}

fn expect_send(answer: Result<UnitAction, ScanError>) -> Vec<u8> {
    match answer {
        Ok(UnitAction::Send(payload)) => payload,
        other => panic!("expected a probe to send, got {:?}", other),
    }
}

fn expect_receive(answer: Result<UnitAction, ScanError>) -> usize {
    match answer {
        Ok(UnitAction::Receive(limit)) => limit,
        other => panic!("expected a read, got {:?}", other),
    }
}

fn expect_finish(answer: Result<UnitAction, ScanError>) -> Option<ScanResult> {
    match answer {
        Ok(UnitAction::Finish(result)) => result,
        other => panic!("expected the end of the unit, got {:?}", other),
    }
}

fn run_connected(port: u16, written: UnitEvent, read: UnitEvent) -> ScanResult {
    let unit = unit_for(port);
    let (unit, answer) = unit.advance(UnitEvent::Connected);
    assert_eq!(expect_send(answer), probe_for(port));
    let (unit, answer) = unit.advance(written);
    assert_eq!(expect_receive(answer), 1024);
    let (unit, answer) = unit.advance(read);
    assert_eq!(unit.phase(), Phase::Finished);
    expect_finish(answer).expect("a record for a port that connected")
}

#[test]
fn new_unit_is_about_to_connect() {
    let unit = unit_for(21);
    assert_eq!(unit.phase(), Phase::Connecting);
    assert_eq!(unit.host(), "192.0.2.7");
    assert_eq!(unit.port(), 21);
    assert_eq!(unit.timeout_ms(), 750);
    assert_eq!(unit.target().host, "192.0.2.7");
    assert_eq!(unit.target().port, 21);
}

#[test]
fn refused_connection_gives_no_result() {
    let (unit, answer) = unit_for(21).advance(UnitEvent::ConnectFailed);
    assert_eq!(unit.phase(), Phase::Finished);
    assert!(expect_finish(answer).is_none());
}

#[test]
fn connect_timeout_gives_no_result() {
    let (unit, answer) = unit_for(80).advance(UnitEvent::ConnectTimedOut);
    assert_eq!(unit.phase(), Phase::Finished);
    assert!(expect_finish(answer).is_none());
    assert_eq!(unit.port(), 80);
}

#[test]
fn connected_unit_sends_the_probe_then_reads_once() {
    let unit = unit_for(6379);
    let (unit, answer) = unit.advance(UnitEvent::Connected);
    assert_eq!(unit.phase(), Phase::Sending);
    assert_eq!(expect_send(answer), b"PING\r\n".to_vec());
    let (unit, answer) = unit.advance(UnitEvent::ProbeSent);
    assert_eq!(unit.phase(), Phase::Receiving);
    assert_eq!(expect_receive(answer), RESPONSE_LIMIT);
    let (unit, answer) = unit.advance(UnitEvent::Received(b"+PONG\r\n".to_vec()));
    assert_eq!(unit.phase(), Phase::Finished);
    let record = expect_finish(answer).expect("a record");
    assert_eq!(record.target(), "192.0.2.7");
    assert_eq!(record.port(), 6379);
    assert_eq!(record.status(), "open");
    assert_eq!(record.service(), Some("Redis"));
    assert_eq!(record.version(), None);
}

#[test]
fn unlisted_port_sends_nothing_and_is_unknown() {
    let record = run_connected(9999, UnitEvent::ProbeSent, UnitEvent::Received(Vec::new()));
    assert!(probe_for(9999).is_empty());
    assert_eq!(record.port(), 9999);
    assert_eq!(record.status(), "open");
    assert_eq!(record.service(), Some("Unknown"));
    assert_eq!(record.version(), None);
}

#[test]
fn failed_probe_write_is_tolerated() {
    let record = run_connected(
        21,
        UnitEvent::ProbeFailed,
        UnitEvent::Received(b"220 FTP Server ready 3.4.1\r\n".to_vec()),
    );
    assert_eq!(record.status(), "open");
    assert_eq!(record.service(), Some("FTP"));
    assert_eq!(record.version(), Some("220"));
}

#[test]
fn failed_read_counts_as_an_empty_response() {
    let record = run_connected(22, UnitEvent::ProbeSent, UnitEvent::ReceiveFailed);
    assert_eq!(record.port(), 22);
    assert_eq!(record.status(), "open");
    assert_eq!(record.service(), Some("Unknown"));
    assert_eq!(record.version(), None);
    let record = run_connected(53, UnitEvent::ProbeFailed, UnitEvent::ReceiveFailed);
    assert_eq!(record.service(), Some("Unknown"));
}

#[test]
fn mysql_handshake_through_the_unit() {
    let mut bytes = vec![0x0au8, 0x00, 0x00, 0x01];
    bytes.extend_from_slice(b"5.7.32");
    let record = run_connected(3306, UnitEvent::ProbeSent, UnitEvent::Received(bytes));
    assert_eq!(record.service(), Some("MySQL"));
    assert_eq!(record.version(), Some("5.7.32"));
}

#[test]
fn binary_answer_with_invalid_sequences_keeps_its_prefix() {
    let bytes = vec![0x03u8, 0x00, 0x00, 0x13, 0x0e, 0xd0, 0x00, 0x00, 0x12, 0x34, 0xff];
    let record = run_connected(3389, UnitEvent::ProbeSent, UnitEvent::Received(bytes));
    assert_eq!(record.service(), Some("RDP"));
    assert_eq!(record.version(), None);
}

#[test]
fn events_out_of_turn_are_refused() {
    let (unit, answer) = unit_for(21).advance(UnitEvent::ProbeSent);
    assert_eq!(unit.phase(), Phase::Connecting);
    assert!(matches!(answer, Err(ScanError::OutOfTurn)));
    let (unit, answer) = unit.advance(UnitEvent::Received(b"220 FTP".to_vec()));
    assert_eq!(unit.phase(), Phase::Connecting);
    assert!(matches!(answer, Err(ScanError::OutOfTurn)));
    let (unit, _) = unit.advance(UnitEvent::Connected);
    let (unit, answer) = unit.advance(UnitEvent::Connected);
    assert_eq!(unit.phase(), Phase::Sending);
    assert!(matches!(answer, Err(ScanError::OutOfTurn)));
    let (unit, answer) = unit.advance(UnitEvent::ReceiveFailed);
    assert_eq!(unit.phase(), Phase::Sending);
    assert!(matches!(answer, Err(ScanError::OutOfTurn)));
    let (unit, _) = unit.advance(UnitEvent::ProbeSent);
    let (unit, answer) = unit.advance(UnitEvent::ConnectTimedOut);
    assert_eq!(unit.phase(), Phase::Receiving);
    assert!(matches!(answer, Err(ScanError::OutOfTurn)));
    assert_eq!(unit.host(), "192.0.2.7");
    assert_eq!(unit.port(), 21);
}

#[test]
fn finished_unit_takes_no_event() {
    let (unit, _) = unit_for(21).advance(UnitEvent::ConnectFailed);
    let (unit, answer) = unit.advance(UnitEvent::Connected);
    assert_eq!(unit.phase(), Phase::Finished);
    assert!(matches!(answer, Err(ScanError::OutOfTurn)));
    let (unit, answer) = unit.advance(UnitEvent::ConnectFailed);
    assert_eq!(unit.phase(), Phase::Finished);
    assert!(matches!(answer, Err(ScanError::OutOfTurn)));
}

#[test]
fn banner_is_decoded_with_replacement_characters() {
    assert_eq!(banner_text(b"+PONG\r\n"), "+PONG\r\n");
    assert_eq!(banner_text(b""), "");
    assert_eq!(banner_text(&[0xff]), "\u{fffd}");
    assert_eq!(banner_text(&[b'a', 0xff, b'b']), "a\u{fffd}b");
    assert_eq!(banner_text(&[0xc3, 0xa9]), "é");
    assert_eq!(banner_text(&[0x00, 0x00, 0x85, 0xa6]), "\x00\x00\u{fffd}\u{fffd}");
}

#[test]
fn banner_is_cut_at_the_limit() {
    assert_eq!(RESPONSE_LIMIT, 1024);
    let exact = vec![b'a'; 1024];
    assert_eq!(banner_text(&exact).len(), 1024);
    let mut long = vec![b'a'; 1024];
    long.extend_from_slice(b"+PONG");
    let banner = banner_text(&long);
    assert_eq!(banner.len(), 1024);
    assert!(!banner.contains("+PONG"));
    let mut straddling = vec![b'a'; 1021];
    straddling.extend_from_slice(b"+PONG");
    let banner = banner_text(&straddling);
    assert_eq!(banner.len(), 1024);
    assert!(banner.ends_with("+PO"));
}

#[test]
fn what_lies_past_the_limit_is_not_classified() {
    let mut long = vec![b' '; 1024];
    long.extend_from_slice(b"+PONG");
    let record = record_open_port("198.51.100.1".to_string(), 6379, &long);
    assert_eq!(record.service(), Some("Unknown"));
    let mut within = vec![b' '; 1019];
    within.extend_from_slice(b"+PONG");
    let record = record_open_port("198.51.100.1".to_string(), 6379, &within);
    assert_eq!(record.service(), Some("Redis"));
    assert_eq!(record.target(), "198.51.100.1");
}

#[test]
fn record_of_an_open_port() {
    let record = record_open_port(
        "2001:db8::1".to_string(),
        8080,
        b"HTTP/1.1 200 OK\r\nServer: nginx/1.18.0\r\n\r\n",
    );
    assert_eq!(record.target(), "2001:db8::1");
    assert_eq!(record.port(), 8080);
    assert_eq!(record.status(), "open");
    assert_eq!(record.service(), Some("nginx"));
    assert_eq!(record.version(), Some("nginx/1.18.0"));
    let copy = record.clone();
    assert_eq!(copy.target(), record.target());
    assert_eq!(copy.port(), record.port());
    assert_eq!(copy.status(), record.status());
    assert_eq!(copy.service(), record.service());
    assert_eq!(copy.version(), record.version());
}

#[test]
fn record_of_a_port_that_did_not_answer() {
    for port in [21u16, 53, 1723, 3306, 6379, 9999] {
        let record = record_unanswered_port("192.0.2.7".to_string(), port);
        assert_eq!(record.target(), "192.0.2.7");
        assert_eq!(record.port(), port);
        assert_eq!(record.status(), "open");
        assert_eq!(record.service(), Some("Unknown"));
        assert_eq!(record.version(), None);
    }
}

#[test]
fn record_knows_its_address() {
    let record = ScanResult::open("10.0.0.1".to_string(), 22, "SSH".to_string(), None);
    assert!(record.is_for(&"10.0.0.1".to_string()));
    assert!(!record.is_for(&"10.0.0.10".to_string()));
    assert!(!record.is_for(&String::new()));
}

#[test]
fn scan_result_constructor() {
    let record = ScanResult::open("10.0.0.1".to_string(), 22, "SSH".to_string(), None);
    assert_eq!(record.target(), "10.0.0.1");
    assert_eq!(record.port(), 22);
    assert_eq!(record.status(), "open");
    assert_eq!(record.service(), Some("SSH"));
    assert_eq!(record.version(), None);
    let record = ScanResult::open(
        "10.0.0.1".to_string(),
        0,
        "FTP".to_string(),
        Some("3.4.1".to_string()),
    );
    assert_eq!(record.port(), 0);
    assert_eq!(record.version(), Some("3.4.1"));
}

#[test]
fn error_messages() {
    assert_eq!(ScanError::ZeroConcurrency.message(), "the concurrency cap must be at least 1");
    assert_eq!(ScanError::NotInFlight.message(), "no unit is in flight for this port");
    assert_eq!(ScanError::WrongPort.message(), "the result belongs to another port");
    assert_eq!(ScanError::WrongTarget.message(), "the result belongs to another target");
    assert_eq!(ScanError::OutOfTurn.message(), "the unit is not waiting for this event");
}
