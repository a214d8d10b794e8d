use rpoke::error::ScanError;
use rpoke::orchestrator::{count_ports, RangeScan, Schedule};
use rpoke::result::ScanResult;
use rpoke::unit::{Phase, PortScan};

fn scan_of(start: u16, end: u16, cap: usize) -> RangeScan {
    RangeScan::new("192.0.2.7".to_string(), start, end, cap, 750).expect("a cap above zero")
}

fn open(port: u16) -> Option<ScanResult> {
    Some(ScanResult::open("192.0.2.7".to_string(), port, "Unknown".to_string(), None))
}

fn launch(scan: RangeScan) -> (RangeScan, PortScan) {
    match scan.schedule() {
        (scan, Schedule::Launch(unit)) => (scan, unit),
        (_, other) => panic!("expected a unit, got {:?}", other),
    }
}

fn ports_of(results: &[ScanResult]) -> Vec<u16> {
    results.iter().map(|result| result.port()).collect()
}

/// Runs a whole scan in which the units complete oldest first and `is_open`
/// says which ports answer. Returns the scan, the number of units launched
/// and the largest number seen in flight.
fn run(start: u16, end: u16, cap: usize, is_open: fn(u16) -> bool) -> (RangeScan, u32, usize) {
    let mut scan = scan_of(start, end, cap);
    let mut waiting: Vec<u16> = Vec::new();
    let mut launched = 0u32;
    let mut peak = 0usize;
    loop {
        let (next, answer) = scan.schedule();
        scan = next;
        match answer {
            Schedule::Launch(unit) => {
                launched += 1;
                waiting.push(unit.port());
                assert_eq!(scan.in_flight(), waiting.len());
                assert!(scan.in_flight() <= cap);
                peak = peak.max(scan.in_flight());
            }
            Schedule::Wait => {
                let port = waiting.remove(0);
                let outcome = if is_open(port) { open(port) } else { None };
                let (next, verdict) = scan.complete(port, outcome);
                assert_eq!(verdict, Ok(()));
                scan = next;
            }
            Schedule::Done => break,
        }
    }
    assert!(waiting.is_empty());
    (scan, launched, peak)
}

#[test]
fn count_of_ports_in_a_range() {
    assert_eq!(count_ports(1, 1024), 1024);
    assert_eq!(count_ports(80, 80), 1);
    assert_eq!(count_ports(0, 0), 1);
    assert_eq!(count_ports(0, 65535), 65536);
    assert_eq!(count_ports(1, 65535), 65535);
    assert_eq!(count_ports(65535, 65535), 1);
    assert_eq!(count_ports(20, 25), 6);
    assert_eq!(count_ports(25, 20), 0);
    assert_eq!(count_ports(65535, 0), 0);
    assert_eq!(count_ports(2, 1), 0);
}

#[test]
fn zero_cap_is_refused() {
    let refused = RangeScan::new("192.0.2.7".to_string(), 1, 10, 0, 750);
    assert!(matches!(refused, Err(ScanError::ZeroConcurrency)));
    let refused = RangeScan::new("192.0.2.7".to_string(), 10, 1, 0, 0);
    assert!(matches!(refused, Err(ScanError::ZeroConcurrency)));
    assert!(RangeScan::new("192.0.2.7".to_string(), 1, 10, 1, 0).is_ok());
}

#[test]
fn new_scan_has_nothing_under_way() {
    let scan = scan_of(1, 1024, 100);
    assert_eq!(scan.total_ports(), 1024);
    assert_eq!(scan.attempted(), 0);
    assert_eq!(scan.in_flight(), 0);
    assert!(!scan.is_done());
    assert!(scan.results().is_empty());
}

#[test]
fn units_are_launched_in_ascending_order() {
    let scan = scan_of(20, 25, 10);
    let (scan, unit) = launch(scan);
    assert_eq!(unit.port(), 20);
    assert_eq!(unit.host(), "192.0.2.7");
    assert_eq!(unit.timeout_ms(), 750);
    assert_eq!(unit.phase(), Phase::Connecting);
    let (scan, unit) = launch(scan);
    assert_eq!(unit.port(), 21);
    let (scan, unit) = launch(scan);
    assert_eq!(unit.port(), 22);
    assert_eq!(scan.in_flight(), 3);
    assert_eq!(scan.attempted(), 0);
}

#[test]
fn every_port_of_the_range_gets_one_unit() {
    let (scan, launched, _) = run(20, 25, 2, |_| false);
    assert_eq!(launched, 6);
    assert_eq!(scan.total_ports(), 6);
    assert_eq!(scan.attempted(), 6);
    assert!(scan.is_done());
    assert!(scan.results().is_empty());

    let (scan, launched, _) = run(20, 25, 2, |_| true);
    assert_eq!(launched, 6);
    assert_eq!(scan.attempted(), 6);
    assert_eq!(ports_of(scan.results()), vec![20, 21, 22, 23, 24, 25]);

    let (scan, launched, _) = run(1, 1024, 1000, |port| port % 100 == 0);
    assert_eq!(launched, 1024);
    assert_eq!(scan.attempted(), 1024);
    assert_eq!(scan.results().len(), 10);
}

#[test]
fn whole_port_space() {
    let (scan, launched, peak) = run(0, 65535, 64, |port| port == 0 || port == 65535);
    assert_eq!(launched, 65536);
    assert_eq!(scan.total_ports(), 65536);
    assert_eq!(scan.attempted(), 65536);
    assert_eq!(peak, 64);
    assert_eq!(ports_of(scan.results()), vec![0, 65535]);
}

#[test]
fn cap_is_never_passed() {
    let (_, _, peak) = run(1, 50, 1, |_| true);
    assert_eq!(peak, 1);
    let (_, _, peak) = run(1, 50, 7, |_| true);
    assert_eq!(peak, 7);
    let (_, _, peak) = run(1, 5, 100, |_| true);
    assert_eq!(peak, 5);
}

#[test]
fn scan_waits_when_the_cap_is_reached() {
    let scan = scan_of(1, 10, 2);
    let (scan, first) = launch(scan);
    let (scan, second) = launch(scan);
    assert_eq!((first.port(), second.port()), (1, 2));
    let (scan, answer) = scan.schedule();
    assert!(matches!(answer, Schedule::Wait));
    assert_eq!(scan.in_flight(), 2);
    let (scan, answer) = scan.schedule();
    assert!(matches!(answer, Schedule::Wait));
    let (scan, verdict) = scan.complete(2, None);
    assert_eq!(verdict, Ok(()));
    assert_eq!(scan.in_flight(), 1);
    let (scan, third) = launch(scan);
    assert_eq!(third.port(), 3);
    assert_eq!(scan.in_flight(), 2);
}

#[test]
fn scan_waits_for_the_last_units() {
    let scan = scan_of(7, 8, 5);
    let (scan, _) = launch(scan);
    let (scan, _) = launch(scan);
    let (scan, answer) = scan.schedule();
    assert!(matches!(answer, Schedule::Wait));
    assert!(!scan.is_done());
    let (scan, _) = scan.complete(7, open(7));
    let (scan, answer) = scan.schedule();
    assert!(matches!(answer, Schedule::Wait));
    let (scan, _) = scan.complete(8, None);
    assert!(scan.is_done());
    let (scan, answer) = scan.schedule();
    assert!(matches!(answer, Schedule::Done));
    let (scan, answer) = scan.schedule();
    assert!(matches!(answer, Schedule::Done));
    assert_eq!(scan.attempted(), 2);
    assert_eq!(ports_of(&scan.into_results()), vec![7]);
}

#[test]
fn results_come_in_completion_order() {
    let scan = scan_of(10, 14, 5);
    let (scan, _) = launch(scan);
    let (scan, _) = launch(scan);
    let (scan, _) = launch(scan);
    let (scan, _) = launch(scan);
    let (scan, _) = launch(scan);
    let (scan, _) = scan.complete(13, open(13));
    let (scan, _) = scan.complete(10, open(10));
    let (scan, _) = scan.complete(12, None);
    let (scan, _) = scan.complete(14, open(14));
    let (scan, _) = scan.complete(11, open(11));
    assert!(scan.is_done());
    assert_eq!(scan.attempted(), 5);
    assert_eq!(ports_of(scan.results()), vec![13, 10, 14, 11]);
    for result in scan.results() {
        assert_eq!(result.status(), "open");
        assert!(10 <= result.port() && result.port() <= 14);
    }
}

#[test]
fn empty_range_is_done_at_once() {
    let scan = scan_of(100, 99, 10);
    assert_eq!(scan.total_ports(), 0);
    assert!(scan.is_done());
    let (scan, answer) = scan.schedule();
    assert!(matches!(answer, Schedule::Done));
    assert_eq!(scan.attempted(), 0);
    assert_eq!(scan.in_flight(), 0);
    assert!(scan.into_results().is_empty());

    let (scan, launched, peak) = run(65535, 0, 3, |_| true);
    assert_eq!(launched, 0);
    assert_eq!(peak, 0);
    assert!(scan.results().is_empty());
}

#[test]
fn completion_for_a_port_not_in_flight_is_refused() {
    let scan = scan_of(1, 10, 3);
    let (scan, verdict) = scan.complete(1, None);
    assert_eq!(verdict, Err(ScanError::NotInFlight));
    let (scan, _) = launch(scan);
    let (scan, verdict) = scan.complete(2, open(2));
    assert_eq!(verdict, Err(ScanError::NotInFlight));
    let (scan, verdict) = scan.complete(500, None);
    assert_eq!(verdict, Err(ScanError::NotInFlight));
    assert_eq!(scan.in_flight(), 1);
    assert_eq!(scan.attempted(), 0);
    assert!(scan.results().is_empty());
    let (scan, verdict) = scan.complete(1, open(1));
    assert_eq!(verdict, Ok(()));
    let (scan, verdict) = scan.complete(1, open(1));
    assert_eq!(verdict, Err(ScanError::NotInFlight));
    assert_eq!(ports_of(scan.results()), vec![1]);
    assert_eq!(scan.attempted(), 1);
}

#[test]
fn result_for_another_port_is_refused() {
    let scan = scan_of(1, 10, 3);
    let (scan, _) = launch(scan);
    let (scan, _) = launch(scan);
    let (scan, verdict) = scan.complete(1, open(2));
    assert_eq!(verdict, Err(ScanError::WrongPort));
    let (scan, verdict) = scan.complete(2, open(9));
    assert_eq!(verdict, Err(ScanError::WrongPort));
    assert_eq!(scan.in_flight(), 2);
    assert!(scan.results().is_empty());
    let (scan, verdict) = scan.complete(3, open(1));
    assert_eq!(verdict, Err(ScanError::NotInFlight));
    let (scan, verdict) = scan.complete(1, open(1));
    assert_eq!(verdict, Ok(()));
    assert_eq!(scan.in_flight(), 1);
    assert_eq!(ports_of(scan.results()), vec![1]);
}

#[test]
fn result_for_another_address_is_refused() {
    let elsewhere = |port: u16| {
        Some(ScanResult::open("192.168.0.9".to_string(), port, "Unknown".to_string(), None))
    };
    let scan = RangeScan::new("10.0.0.1".to_string(), 1, 10, 3, 750).expect("a cap above zero");
    let (scan, _) = launch(scan);
    let (scan, _) = launch(scan);
    let (scan, verdict) = scan.complete(1, elsewhere(1));
    assert_eq!(verdict, Err(ScanError::WrongTarget));
    assert_eq!(scan.in_flight(), 2);
    assert_eq!(scan.attempted(), 0);
    assert!(scan.results().is_empty());
    // The port is looked at before the address.
    let (scan, verdict) = scan.complete(1, elsewhere(2));
    assert_eq!(verdict, Err(ScanError::WrongPort));
    let (scan, verdict) = scan.complete(3, elsewhere(3));
    assert_eq!(verdict, Err(ScanError::NotInFlight));
    let here = Some(ScanResult::open("10.0.0.1".to_string(), 1, "Unknown".to_string(), None));
    let (scan, verdict) = scan.complete(1, here);
    assert_eq!(verdict, Ok(()));
    let (scan, verdict) = scan.complete(2, None);
    assert_eq!(verdict, Ok(()));
    assert_eq!(scan.attempted(), 2);
    for result in scan.results() {
        assert_eq!(result.target(), "10.0.0.1");
    }
    assert_eq!(ports_of(scan.results()), vec![1]);
}

#[test]
fn results_carry_the_address_of_the_scan() {
    let (scan, _, _) = run(20, 30, 4, |port| port % 2 == 0);
    assert_eq!(scan.results().len(), 6);
    for result in scan.results() {
        assert_eq!(result.target(), "192.0.2.7");
    }
}

#[test]
fn single_port_range() {
    let scan = scan_of(443, 443, 1000);
    assert_eq!(scan.total_ports(), 1);
    let (scan, unit) = launch(scan);
    assert_eq!(unit.port(), 443);
    let (scan, answer) = scan.schedule();
    assert!(matches!(answer, Schedule::Wait));
    let (scan, verdict) = scan.complete(443, open(443));
    assert_eq!(verdict, Ok(()));
    let (scan, answer) = scan.schedule();
    assert!(matches!(answer, Schedule::Done));
    assert_eq!(ports_of(&scan.into_results()), vec![443]);
}
