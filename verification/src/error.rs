//! What the scanning engine refuses.

use vstd::prelude::*;

verus! {

/// The ways in which a request to the engine can be out of order.
#[derive(Clone, Copy, Debug, PartialEq, Eq, Structural)]
pub enum ScanError {
    /// A cap of zero would let no unit start.
    ZeroConcurrency,
    /// A completion was reported for a port that has no unit in flight.
    NotInFlight,
    /// The result handed in belongs to another port than the unit that
    /// completed.
    WrongPort,
    /// The result handed in is for another address than the one that the scan
    /// is of.
    WrongTarget,
    /// The event is not the one that the unit is waiting for.
    OutOfTurn,
}

impl ScanError {
    /// The text of the error's message.
    pub open spec fn text(self) -> Seq<char> {
        match self {
            ScanError::ZeroConcurrency => "the concurrency cap must be at least 1"@,
            ScanError::NotInFlight => "no unit is in flight for this port"@,
            ScanError::WrongPort => "the result belongs to another port"@,
            ScanError::WrongTarget => "the result belongs to another target"@,
            ScanError::OutOfTurn => "the unit is not waiting for this event"@,
        }
    }

    /// A message for the person who runs the scan.
    pub fn message(&self) -> (message: String)
        ensures
            message@ == self.text(),
    {
        match self {
            ScanError::ZeroConcurrency => "the concurrency cap must be at least 1".to_owned(),
            ScanError::NotInFlight => "no unit is in flight for this port".to_owned(),
            ScanError::WrongPort => "the result belongs to another port".to_owned(),
            ScanError::WrongTarget => "the result belongs to another target".to_owned(),
            ScanError::OutOfTurn => "the unit is not waiting for this event".to_owned(),
        }
    }
}

} // verus!
