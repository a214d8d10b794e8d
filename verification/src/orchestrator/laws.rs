//! What holds of a range scan whatever the caller does and in whatever order
//! the units complete.

use crate::orchestrator::model::{hands_in_open_ports, port_count, Move, RangeView, ScheduleView};
use crate::result::ScanRecord;
use vstd::prelude::*;

verus! {

/// A scan that has not started is well formed.
pub proof fn lemma_initial_wf(host: Seq<char>, start: u16, end: u16, cap: nat, timeout_ms: u64)
    requires
        cap >= 1,
    ensures
        RangeView::initial(host, start, end, cap, timeout_ms).wf(),
{
}

/// Starting a unit, where one may start, keeps the scan well formed, and the
/// unit is for a port in the range that had none before.
pub proof fn lemma_launch_keeps_wf(scan: RangeView)
    requires
        scan.wf(),
        scan.may_launch(),
    ensures
        scan.launch().wf(),
        scan.start <= scan.next_port() <= scan.end,
        !scan.issued(scan.next_port()),
{
}

/// The completion of a unit keeps the scan well formed.
pub proof fn lemma_complete_keeps_wf(scan: RangeView, port: u16, outcome: Option<ScanRecord>)
    requires
        scan.wf(),
        outcome matches Some(record) ==> record.status == "open"@,
    ensures
        scan.complete(port, outcome).wf(),
{
}

/// Whatever the caller does, the scan stays well formed.
pub proof fn lemma_run_keeps_wf(scan: RangeView, moves: Seq<Move>)
    requires
        scan.wf(),
        hands_in_open_ports(moves),
    ensures
        scan.run(moves).wf(),
    decreases moves.len(),
{
    if moves.len() > 0 {
        lemma_run_keeps_wf(scan, moves.drop_last());
        let reached = scan.run(moves.drop_last());
        match moves.last() {
            Move::Launch => {
                if reached.may_launch() {
                    lemma_launch_keeps_wf(reached);
                }
            },
            Move::Complete(port, outcome) => {
                lemma_complete_keeps_wf(reached, port, outcome);
            },
        }
    }
}

/// The cap is respected: whatever the caller does, and in whatever order the
/// units complete, no more units are in flight at any time than the cap
/// allows.
pub proof fn lemma_cap_is_respected(
    host: Seq<char>,
    start: u16,
    end: u16,
    cap: nat,
    timeout_ms: u64,
    moves: Seq<Move>,
)
    requires
        cap >= 1,
        hands_in_open_ports(moves),
    ensures
        RangeView::initial(host, start, end, cap, timeout_ms).run(moves).in_flight.len() <= cap,
{
    let scan = RangeView::initial(host, start, end, cap, timeout_ms);
    lemma_run_keeps_settings(scan, moves);
    lemma_run_keeps_wf(scan, moves);
}

/// No move changes what the scan was set up with.
pub proof fn lemma_run_keeps_settings(scan: RangeView, moves: Seq<Move>)
    ensures
        scan.run(moves).host == scan.host,
        scan.run(moves).start == scan.start,
        scan.run(moves).end == scan.end,
        scan.run(moves).cap == scan.cap,
        scan.run(moves).timeout_ms == scan.timeout_ms,
    decreases moves.len(),
{
    if moves.len() > 0 {
        lemma_run_keeps_settings(scan, moves.drop_last());
    }
}

/// Every result that the scan holds, at any time, is for a port in the range
/// at the address that is scanned, and says that the port is open.
pub proof fn lemma_results_are_open_ports_of_the_range(
    host: Seq<char>,
    start: u16,
    end: u16,
    cap: nat,
    timeout_ms: u64,
    moves: Seq<Move>,
    j: int,
)
    requires
        cap >= 1,
        hands_in_open_ports(moves),
        0 <= j < RangeView::initial(host, start, end, cap, timeout_ms).run(moves).results.len(),
    ensures
        start <= RangeView::initial(host, start, end, cap, timeout_ms).run(moves).results[j].port
            <= end,
        RangeView::initial(host, start, end, cap, timeout_ms).run(moves).results[j].status
            == "open"@,
        RangeView::initial(host, start, end, cap, timeout_ms).run(moves).results[j].target
            == host,
{
    let scan = RangeView::initial(host, start, end, cap, timeout_ms);
    lemma_run_keeps_settings(scan, moves);
    lemma_run_keeps_wf(scan, moves);
}

/// Once the scan is done, a unit was started for every port in the range and
/// for no other, each has completed, and the number of ports attempted is the
/// size of the range, however many of them were open.
pub proof fn lemma_every_port_is_attempted(
    host: Seq<char>,
    start: u16,
    end: u16,
    cap: nat,
    timeout_ms: u64,
    moves: Seq<Move>,
)
    requires
        cap >= 1,
        hands_in_open_ports(moves),
        RangeView::initial(host, start, end, cap, timeout_ms).run(moves).finished(),
    ensures
        ({
            let done = RangeView::initial(host, start, end, cap, timeout_ms).run(moves);
            &&& done.launched == port_count(start, end)
            &&& done.attempted() == port_count(start, end)
            &&& start <= end ==> done.launched == end - start + 1
            &&& forall|port: u16| done.issued(port) <==> start <= port <= end
        }),
{
    let scan = RangeView::initial(host, start, end, cap, timeout_ms);
    lemma_run_keeps_settings(scan, moves);
    lemma_run_keeps_wf(scan, moves);
}

/// A range whose end lies before its start holds no port: the scan is done
/// before it starts, nothing the caller does changes it, and it has no
/// results.
pub proof fn lemma_empty_range_gives_nothing(
    host: Seq<char>,
    start: u16,
    end: u16,
    cap: nat,
    timeout_ms: u64,
    moves: Seq<Move>,
)
    requires
        start > end,
    ensures
        RangeView::initial(host, start, end, cap, timeout_ms).run(moves) == RangeView::initial(
            host,
            start,
            end,
            cap,
            timeout_ms,
        ),
        RangeView::initial(host, start, end, cap, timeout_ms).finished(),
        RangeView::initial(host, start, end, cap, timeout_ms).schedule().1 == ScheduleView::Done,
        RangeView::initial(host, start, end, cap, timeout_ms).run(moves).results.len() == 0,
    decreases moves.len(),
{
    if moves.len() > 0 {
        lemma_empty_range_gives_nothing(host, start, end, cap, timeout_ms, moves.drop_last());
    }
}

} // verus!
