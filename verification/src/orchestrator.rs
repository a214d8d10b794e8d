//! The scan orchestrator: the units of a port range, started in ascending
//! order, never more of them in flight than the cap allows, and their results
//! collected in the order in which they complete.
//!
//! The orchestrator decides; the caller runs the units it hands out and
//! reports each one's completion.

pub mod laws;
pub mod model;

use crate::error::ScanError;
use crate::orchestrator::laws::{lemma_complete_keeps_wf, lemma_launch_keeps_wf};
use crate::orchestrator::model::{port_count, RangeView, ScheduleView};
use crate::result::{ScanRecord, ScanResult};
use crate::unit::{PortScan, ScanTarget};
use vstd::prelude::*;

verus! {

/// What the orchestrator answers when it is asked what to do next.
#[derive(Debug)]
pub enum Schedule {
    /// Start this unit.
    Launch(PortScan),
    /// As many units are in flight as may be, or every port has its unit:
    /// wait until one completes.
    Wait,
    /// Every port was attempted and every unit has completed.
    Done,
}

impl View for Schedule {
    type V = ScheduleView;

    open spec fn view(&self) -> ScheduleView {
        match self {
            Schedule::Launch(unit) => ScheduleView::Launch(unit@),
            Schedule::Wait => ScheduleView::Wait,
            Schedule::Done => ScheduleView::Done,
        }
    }
}

/// The records that `results` hold.
pub open spec fn records(results: Seq<ScanResult>) -> Seq<ScanRecord> {
    Seq::new(results.len(), |j: int| results[j]@)
}

/// The record that `outcome` holds, if it holds one.
pub open spec fn record_of(outcome: Option<ScanResult>) -> Option<ScanRecord> {
    match outcome {
        Some(result) => Some(result@),
        None => None,
    }
}

/// What the orchestrator answers to the report of a completion.
pub open spec fn verdict(refusal: Option<ScanError>) -> Result<(), ScanError> {
    match refusal {
        Some(error) => Err(error),
        None => Ok(()),
    }
}

/// The results that a well-formed scan holds are for ports in its range at
/// its own address, and each says that its port is open.
proof fn lemma_kept_results(scan: RangeView, results: Seq<ScanResult>)
    requires
        scan.wf(),
        records(results) == scan.results,
    ensures
        forall|j: int|
            0 <= j < results.len() ==> scan.start <= (#[trigger] results[j])@.port <= scan.end
                && results[j]@.status == "open"@ && results[j]@.target == scan.host,
{
    assert forall|j: int| 0 <= j < results.len() implies scan.start <= (
    #[trigger] results[j])@.port <= scan.end && results[j]@.status == "open"@
        && results[j]@.target == scan.host by {
        assert(scan.results[j] == results[j]@);
        assert(scan.issued(scan.results[j].port));
    }
}

/// The number of ports from `start` to `end`, both included.
pub fn count_ports(start: u16, end: u16) -> (count: u32)
    ensures
        count == port_count(start, end),
        start <= end ==> count == end - start + 1,
        start > end ==> count == 0,
{
    if start <= end {
        (end - start) as u32 + 1
    } else {
        0
    }
}

/// Where `port` stands in `ports`.
fn position(ports: &Vec<u16>, port: u16) -> (at: Option<usize>)
    ensures
        match at {
            Some(i) => i < ports.len() && ports@[i as int] == port,
            None => !ports@.contains(port),
        },
{
    let mut i: usize = 0;
    while i < ports.len()
        invariant
            i <= ports.len(),
            forall|k: int| 0 <= k < i ==> ports@[k] != port,
        decreases ports.len() - i,
    {
        if ports[i] == port {
            return Some(i);
        }
        i += 1;
    }
    None
}

/// The scan of a port range.
#[derive(Debug)]
pub struct RangeScan {
    host: String,
    start: u16,
    end: u16,
    cap: usize,
    timeout_ms: u64,
    launched: u32,
    in_flight: Vec<u16>,
    results: Vec<ScanResult>,
    absent: u32,
}

impl View for RangeScan {
    type V = RangeView;

    closed spec fn view(&self) -> RangeView {
        RangeView {
            host: self.host@,
            start: self.start,
            end: self.end,
            cap: self.cap as nat,
            timeout_ms: self.timeout_ms,
            launched: self.launched as nat,
            in_flight: self.in_flight@,
            results: records(self.results@),
            absent: self.absent as nat,
        }
    }
}

impl RangeScan {
    #[verifier::type_invariant]
    spec fn well_formed(&self) -> bool {
        self@.wf()
    }

    /// Sets up the scan of the ports from `start` to `end` of `host`, with at
    /// most `cap` units in flight at a time and `timeout_ms` milliseconds for
    /// each to connect. A cap of zero is refused.
    pub fn new(host: String, start: u16, end: u16, cap: usize, timeout_ms: u64) -> (scan: Result<
        RangeScan,
        ScanError,
    >)
        ensures
            cap == 0 ==> scan == Err::<RangeScan, ScanError>(ScanError::ZeroConcurrency),
            cap > 0 ==> scan is Ok && scan->Ok_0@ == RangeView::initial(
                host@,
                start,
                end,
                cap as nat,
                timeout_ms,
            ) && scan->Ok_0@.wf(),
    {
        if cap == 0 {
            return Err(ScanError::ZeroConcurrency);
        }
        let scan = RangeScan {
            host,
            start,
            end,
            cap,
            timeout_ms,
            launched: 0,
            in_flight: Vec::new(),
            results: Vec::new(),
            absent: 0,
        };
        assert(scan@ =~= RangeView::initial(host@, start, end, cap as nat, timeout_ms)) by {
            assert(records(scan.results@) =~= Seq::<ScanRecord>::empty());
        }
        Ok(scan)
    }

    /// The number of ports that the scan attempts: the size of the range,
    /// whatever comes of the attempts.
    pub fn total_ports(&self) -> (count: u32)
        ensures
            count == self@.total(),
            count == port_count(self@.start, self@.end),
    {
        count_ports(self.start, self.end)
    }

    /// The number of units that have completed.
    pub fn attempted(&self) -> (count: u32)
        ensures
            count == self@.attempted(),
            count <= self@.total(),
    {
        proof {
            use_type_invariant(self);
        }
        self.launched - self.in_flight.len() as u32
    }

    /// The number of units in flight. It never passes the cap.
    pub fn in_flight(&self) -> (count: usize)
        ensures
            count == self@.in_flight.len(),
            count <= self@.cap,
    {
        proof {
            use_type_invariant(self);
        }
        self.in_flight.len()
    }

    /// Whether every port was attempted and every unit has completed.
    pub fn is_done(&self) -> (done: bool)
        ensures
            done == self@.finished(),
            done ==> self@.attempted() == self@.total(),
    {
        proof {
            use_type_invariant(self);
        }
        self.launched == count_ports(self.start, self.end) && self.in_flight.len() == 0
    }

    /// The results so far, in the order in which their units completed. Each
    /// is for a port in the range at the address that is scanned, and says
    /// that the port is open.
    pub fn results(&self) -> (results: &Vec<ScanResult>)
        ensures
            records(results@) == self@.results,
            forall|j: int|
                0 <= j < results@.len() ==> self@.start <= (#[trigger] results@[j])@.port
                    <= self@.end && results@[j]@.status == "open"@ && results@[j]@.target
                    == self@.host,
    {
        proof {
            use_type_invariant(self);
            lemma_kept_results(self@, self.results@);
        }
        &self.results
    }

    /// Ends the scan and hands over its results, in the order in which their
    /// units completed. Each is for a port in the range at the address that
    /// is scanned, and says that the port is open.
    pub fn into_results(self) -> (results: Vec<ScanResult>)
        ensures
            records(results@) == self@.results,
            forall|j: int|
                0 <= j < results@.len() ==> self@.start <= (#[trigger] results@[j])@.port
                    <= self@.end && results@[j]@.status == "open"@ && results@[j]@.target
                    == self@.host,
    {
        proof {
            use_type_invariant(&self);
            lemma_kept_results(self@, self.results@);
        }
        self.results
    }

    /// Says what to do next. Where a port is left and the cap is not reached,
    /// the answer is the unit for the next port, which then counts as in
    /// flight. Else, where units are in flight, the answer is to wait for one
    /// of them. Else the scan is done.
    pub fn schedule(self) -> (next: (RangeScan, Schedule))
        ensures
            next.0@ == self@.schedule().0,
            next.1@ == self@.schedule().1,
            next.0@.wf(),
            next.0@.in_flight.len() <= next.0@.cap,
            next.1 is Done <==> self@.finished(),
            next.1 is Wait ==> self@.in_flight.len() > 0,
    {
        proof {
            use_type_invariant(&self);
        }
        let total = count_ports(self.start, self.end);
        if self.launched < total && self.in_flight.len() < self.cap {
            let ghost before = self@;
            let RangeScan {
                host,
                start,
                end,
                cap,
                timeout_ms,
                launched,
                mut in_flight,
                results,
                absent,
            } = self;
            let port: u16 = (start as u32 + launched) as u16;
            let unit = PortScan::new(ScanTarget { host: host.clone(), port }, timeout_ms);
            in_flight.push(port);
            proof {
                lemma_launch_keeps_wf(before);
            }
            let after = RangeScan {
                host,
                start,
                end,
                cap,
                timeout_ms,
                launched: launched + 1,
                in_flight,
                results,
                absent,
            };
            assert(after@ =~= before.launch());
            (after, Schedule::Launch(unit))
        } else if self.in_flight.len() > 0 {
            (self, Schedule::Wait)
        } else {
            (self, Schedule::Done)
        }
    }

    /// Takes the report that the unit for `port` has completed, with a result
    /// or without one. A result is kept behind those that came before; that
    /// there was none is counted. The report is refused, and changes nothing,
    /// where no unit is in flight for `port`, or where the result is for
    /// another port or another address.
    pub fn complete(self, port: u16, outcome: Option<ScanResult>) -> (next: (
        RangeScan,
        Result<(), ScanError>,
    ))
        ensures
            next.0@ == self@.complete(port, record_of(outcome)),
            next.1 == verdict(self@.refusal(port, record_of(outcome))),
            next.0@.wf(),
            next.0@.in_flight.len() <= next.0@.cap,
    {
        proof {
            use_type_invariant(&self);
        }
        let at = match position(&self.in_flight, port) {
            Some(at) => at,
            None => {
                return (self, Err(ScanError::NotInFlight));
            },
        };
        match &outcome {
            Some(result) => {
                if result.port() != port {
                    return (self, Err(ScanError::WrongPort));
                }
                if !result.is_for(&self.host) {
                    return (self, Err(ScanError::WrongTarget));
                }
            },
            None => {},
        }
        let ghost before = self@;
        let ghost handed = record_of(outcome);
        let RangeScan {
            host,
            start,
            end,
            cap,
            timeout_ms,
            launched,
            mut in_flight,
            mut results,
            mut absent,
        } = self;
        assert(before.in_flight.index_of(port) == at);
        in_flight.remove(at);
        let ghost earlier = results@;
        match outcome {
            Some(result) => {
                proof {
                    use_type_invariant(&result);
                }
                results.push(result);
                assert(records(results@) =~= records(earlier).push(result@));
            },
            None => {
                absent = absent + 1;
            },
        }
        proof {
            lemma_complete_keeps_wf(before, port, handed);
        }
        let after = RangeScan {
            host,
            start,
            end,
            cap,
            timeout_ms,
            launched,
            in_flight,
            results,
            absent,
        };
        assert(after@ =~= before.complete(port, handed));
        (after, Ok(()))
    }
}

} // verus!
