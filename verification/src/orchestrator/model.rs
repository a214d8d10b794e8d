//! A range scan as plain values, and what each move of the caller makes of
//! it.

use crate::error::ScanError;
use crate::result::ScanRecord;
use crate::unit::{Phase, UnitView};
use vstd::prelude::*;

verus! {

/// The number of ports from `start` to `end`, both included; none where
/// `end` lies before `start`.
pub open spec fn port_count(start: u16, end: u16) -> nat {
    if start <= end {
        (end - start + 1) as nat
    } else {
        0
    }
}

/// A range scan as plain values.
pub struct RangeView {
    pub host: Seq<char>,
    pub start: u16,
    pub end: u16,
    pub cap: nat,
    pub timeout_ms: u64,
    /// How many units were started. They are those for the first `launched`
    /// ports of the range.
    pub launched: nat,
    /// The ports whose units are under way, in the order in which they
    /// started.
    pub in_flight: Seq<u16>,
    /// The records of the open ports, in the order in which their units
    /// completed.
    pub results: Seq<ScanRecord>,
    /// How many units completed without a result.
    pub absent: nat,
}

/// What the orchestrator answers when it is asked what to do next, as plain
/// values.
pub enum ScheduleView {
    Launch(UnitView),
    Wait,
    Done,
}

/// What a caller does to a range scan.
pub enum Move {
    /// Asks for the next unit, and starts it where one is handed out.
    Launch,
    /// Reports that the unit for a port completed, with or without a result.
    Complete(u16, Option<ScanRecord>),
}

impl RangeView {
    /// The scan of a range before anything was started.
    pub open spec fn initial(host: Seq<char>, start: u16, end: u16, cap: nat, timeout_ms: u64)
        -> RangeView {
        RangeView {
            host,
            start,
            end,
            cap,
            timeout_ms,
            launched: 0,
            in_flight: Seq::empty(),
            results: Seq::empty(),
            absent: 0,
        }
    }

    /// The number of ports to attempt.
    pub open spec fn total(self) -> nat {
        port_count(self.start, self.end)
    }

    /// The number of units that completed.
    pub open spec fn attempted(self) -> nat {
        self.results.len() + self.absent
    }

    /// Whether a unit was started for `port`.
    pub open spec fn issued(self, port: u16) -> bool {
        self.start <= port && port < self.start + self.launched
    }

    /// What holds of a range scan at all times.
    pub open spec fn wf(self) -> bool {
        &&& self.cap >= 1
        &&& self.launched <= self.total()
        &&& self.in_flight.len() <= self.cap
        &&& self.in_flight.no_duplicates()
        &&& forall|i: int|
            0 <= i < self.in_flight.len() ==> self.issued(#[trigger] self.in_flight[i])
        &&& forall|j: int|
            0 <= j < self.results.len() ==> {
                &&& self.issued((#[trigger] self.results[j]).port)
                &&& self.results[j].status == "open"@
                &&& self.results[j].target == self.host
                &&& !self.in_flight.contains(self.results[j].port)
            }
        &&& forall|j: int, k: int|
            0 <= j < k < self.results.len() ==> (#[trigger] self.results[j]).port
                != (#[trigger] self.results[k]).port
        &&& self.in_flight.len() + self.results.len() + self.absent == self.launched
    }

    /// Whether another unit may start: a port is left, and the cap is not
    /// reached.
    pub open spec fn may_launch(self) -> bool {
        self.launched < self.total() && self.in_flight.len() < self.cap
    }

    /// The port of the unit that starts next.
    pub open spec fn next_port(self) -> u16 {
        (self.start + self.launched) as u16
    }

    /// The scan after the next unit has started.
    pub open spec fn launch(self) -> RangeView {
        RangeView {
            launched: self.launched + 1,
            in_flight: self.in_flight.push(self.next_port()),
            ..self
        }
    }

    /// The unit that starts next.
    pub open spec fn next_unit(self) -> UnitView {
        UnitView {
            host: self.host,
            port: self.next_port(),
            timeout_ms: self.timeout_ms,
            phase: Phase::Connecting,
        }
    }

    /// What to do next, and the scan once that is said: start the next unit
    /// where one may start; else wait for a unit to complete where one is
    /// under way; else the scan is done.
    pub open spec fn schedule(self) -> (RangeView, ScheduleView) {
        if self.may_launch() {
            (self.launch(), ScheduleView::Launch(self.next_unit()))
        } else if self.in_flight.len() > 0 {
            (self, ScheduleView::Wait)
        } else {
            (self, ScheduleView::Done)
        }
    }

    /// Whether every port was attempted and every unit has completed.
    pub open spec fn finished(self) -> bool {
        self.launched == self.total() && self.in_flight.len() == 0
    }

    /// Why the completion of the unit for `port` with `outcome` is refused,
    /// if it is.
    pub open spec fn refusal(self, port: u16, outcome: Option<ScanRecord>) -> Option<ScanError> {
        if !self.in_flight.contains(port) {
            Some(ScanError::NotInFlight)
        } else if outcome is Some && outcome->0.port != port {
            Some(ScanError::WrongPort)
        } else if outcome is Some && outcome->0.target != self.host {
            Some(ScanError::WrongTarget)
        } else {
            None
        }
    }

    /// The scan after the unit for `port` completed with `outcome`: a result
    /// that is present is kept, behind those that came before; one that is
    /// absent is counted. A completion that is refused changes nothing.
    pub open spec fn complete(self, port: u16, outcome: Option<ScanRecord>) -> RangeView {
        if self.refusal(port, outcome) is Some {
            self
        } else {
            RangeView {
                in_flight: self.in_flight.remove(self.in_flight.index_of(port)),
                results: match outcome {
                    Some(record) => self.results.push(record),
                    None => self.results,
                },
                absent: match outcome {
                    Some(_) => self.absent,
                    None => self.absent + 1,
                },
                ..self
            }
        }
    }

    /// The scan after one move of the caller.
    pub open spec fn after(self, step: Move) -> RangeView {
        match step {
            Move::Launch => self.schedule().0,
            Move::Complete(port, outcome) => self.complete(port, outcome),
        }
    }

    /// The scan after a series of moves.
    pub open spec fn run(self, moves: Seq<Move>) -> RangeView
        decreases moves.len(),
    {
        if moves.len() == 0 {
            self
        } else {
            self.run(moves.drop_last()).after(moves.last())
        }
    }
}

/// Whether every result that `moves` hands in says that its port is open, as
/// every [`ScanResult`] does.
pub open spec fn hands_in_open_ports(moves: Seq<Move>) -> bool {
    forall|i: int|
        0 <= i < moves.len() ==> (#[trigger] moves[i] matches Move::Complete(_, Some(record))
            ==> record.status == "open"@)
}

} // verus!
