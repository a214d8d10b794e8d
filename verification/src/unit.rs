//! The port scan unit: one port, from the attempt to connect to the record
//! of what was found. The unit decides; the caller does the network's part
//! and reports back what happened.

use crate::error::ScanError;
use crate::fingerprint::{classification, classify};
use crate::probe::{probe_for, probe_payload};
use crate::result::{open_record, ScanRecord, ScanResult};
use crate::text::has_substring;
use vstd::prelude::*;
use vstd::slice::slice_subrange;
use vstd::utf8::{decode_utf8, valid_utf8};

verus! {

/// The most that is read of a response, in bytes.
pub const RESPONSE_LIMIT: usize = 1024;

/// The text that std makes of `bytes` when it decodes them as UTF-8 and puts
/// the replacement character in place of what is no valid sequence.
pub uninterp spec fn lossy_text(bytes: Seq<u8>) -> Seq<char>;

/// Decodes `bytes` with `String::from_utf8_lossy`.
///
/// Believed without proof: the text is a function of the bytes alone, and
/// bytes that are valid UTF-8 decode to the text they encode.
#[verifier::external_body]
fn decode_lossy(bytes: &[u8]) -> (text: String)
    ensures
        text@ == lossy_text(bytes@),
        valid_utf8(bytes@) ==> text@ == decode_utf8(bytes@),
{
    String::from_utf8_lossy(bytes).into_owned()
}

/// The part of `received` that counts as the response: its first
/// [`RESPONSE_LIMIT`] bytes.
pub open spec fn response_of(received: Seq<u8>) -> Seq<u8> {
    if received.len() <= RESPONSE_LIMIT {
        received
    } else {
        received.take(RESPONSE_LIMIT as int)
    }
}

/// The banner that is read out of what a port sent back.
pub open spec fn banner_of(received: Seq<u8>) -> Seq<char> {
    lossy_text(response_of(received))
}

/// The record for the port `port` of `host`, which connected and sent back
/// `received`.
pub open spec fn record_for(host: Seq<char>, port: u16, received: Seq<u8>) -> ScanRecord {
    open_record(host, port, classification(port, banner_of(received)))
}

/// The record for the port `port` of `host`, which connected and from which
/// nothing could be read: the response counts as empty.
pub open spec fn unanswered_record(host: Seq<char>, port: u16) -> ScanRecord {
    open_record(host, port, classification(port, Seq::empty()))
}

/// The record for the port `port` of `host`, which connected and sent back
/// `received`, where the response is valid UTF-8: the banner is the text
/// that the response encodes.
pub open spec fn text_record(host: Seq<char>, port: u16, received: Seq<u8>) -> ScanRecord {
    open_record(host, port, classification(port, decode_utf8(response_of(received))))
}

/// Reads the banner out of what a port sent back: the response, cut at the
/// limit, as text.
pub fn banner_text(received: &[u8]) -> (banner: String)
    ensures
        banner@ == banner_of(received@),
        valid_utf8(response_of(received@)) ==> banner@ == decode_utf8(response_of(received@)),
{
    if received.len() <= RESPONSE_LIMIT {
        decode_lossy(received)
    } else {
        decode_lossy(slice_subrange(received, 0, RESPONSE_LIMIT))
    }
}

/// Makes the record of an open port from what it sent back.
pub fn record_open_port(host: String, port: u16, received: &[u8]) -> (record: ScanResult)
    ensures
        record@ == record_for(host@, port, received@),
        record@.version matches Some(version) ==> has_substring(banner_of(received@), version),
        valid_utf8(response_of(received@)) ==> record@ == text_record(host@, port, received@),
{
    let banner = banner_text(received);
    let found = classify(port, banner.as_str());
    ScanResult::open(host, port, found.0, found.1)
}

/// Makes the record of an open port from which nothing could be read.
pub fn record_unanswered_port(host: String, port: u16) -> (record: ScanResult)
    ensures
        record@ == unanswered_record(host@, port),
{
    proof {
        reveal_strlit("");
        assert(""@ =~= Seq::<char>::empty());
    }
    let found = classify(port, "");
    ScanResult::open(host, port, found.0, found.1)
}

/// The address and port that one unit scans. The address is held as text.
#[derive(Debug)]
pub struct ScanTarget {
    pub host: String,
    pub port: u16,
}

/// Where a unit stands.
#[derive(Clone, Copy, Debug, PartialEq, Eq, Structural)]
pub enum Phase {
    /// The attempt to connect is under way.
    Connecting,
    /// The port is open and the probe is being written.
    Sending,
    /// The probe is out and the one read is under way.
    Receiving,
    /// The unit has given its result.
    Finished,
}

/// What the caller reports to a unit.
#[derive(Debug)]
pub enum UnitEvent {
    /// The connection stands.
    Connected,
    /// The connection was refused, or the host could not be reached.
    ConnectFailed,
    /// The time allowed for connecting ran out.
    ConnectTimedOut,
    /// The probe was written.
    ProbeSent,
    /// The probe could not be written.
    ProbeFailed,
    /// The read came back with these bytes.
    Received(Vec<u8>),
    /// The read failed.
    ReceiveFailed,
}

/// What a unit asks of the caller next.
#[derive(Debug)]
pub enum UnitAction {
    /// Write these bytes to the connection; an empty payload means that
    /// nothing is sent.
    Send(Vec<u8>),
    /// Read once from the connection, this many bytes at most.
    Receive(usize),
    /// The unit is done, with this result.
    Finish(Option<ScanResult>),
}

/// A [`UnitEvent`] as plain values.
pub enum EventView {
    Connected,
    ConnectFailed,
    ConnectTimedOut,
    ProbeSent,
    ProbeFailed,
    Received(Seq<u8>),
    ReceiveFailed,
}

/// A [`UnitAction`] as plain values.
pub enum ActionView {
    Send(Seq<u8>),
    Receive(usize),
    Finish(Option<ScanRecord>),
}

impl View for UnitEvent {
    type V = EventView;

    open spec fn view(&self) -> EventView {
        match self {
            UnitEvent::Connected => EventView::Connected,
            UnitEvent::ConnectFailed => EventView::ConnectFailed,
            UnitEvent::ConnectTimedOut => EventView::ConnectTimedOut,
            UnitEvent::ProbeSent => EventView::ProbeSent,
            UnitEvent::ProbeFailed => EventView::ProbeFailed,
            UnitEvent::Received(bytes) => EventView::Received(bytes@),
            UnitEvent::ReceiveFailed => EventView::ReceiveFailed,
        }
    }
}

impl View for UnitAction {
    type V = ActionView;

    open spec fn view(&self) -> ActionView {
        match self {
            UnitAction::Send(payload) => ActionView::Send(payload@),
            UnitAction::Receive(limit) => ActionView::Receive(*limit),
            UnitAction::Finish(Some(record)) => ActionView::Finish(Some(record@)),
            UnitAction::Finish(None) => ActionView::Finish(None),
        }
    }
}

/// A unit as plain values.
pub struct UnitView {
    pub host: Seq<char>,
    pub port: u16,
    pub timeout_ms: u64,
    pub phase: Phase,
}

impl UnitView {
    /// The unit in another phase.
    pub open spec fn at(self, phase: Phase) -> UnitView {
        UnitView { phase, ..self }
    }

    /// What the unit does on `event`: the unit afterwards, and what it asks
    /// for next. An event that the unit is not waiting for is an error and
    /// leaves the unit as it was.
    ///
    /// A port that does not connect in time, or not at all, gives no result.
    /// Once it has connected it gives one, whatever becomes of the probe and
    /// of the read: what could not be read counts as an empty response.
    pub open spec fn step(self, event: EventView) -> (UnitView, Result<ActionView, ScanError>) {
        match (self.phase, event) {
            (Phase::Connecting, EventView::Connected) => (
                self.at(Phase::Sending),
                Ok(ActionView::Send(probe_payload(self.port))),
            ),
            (Phase::Connecting, EventView::ConnectFailed) => (
                self.at(Phase::Finished),
                Ok(ActionView::Finish(None)),
            ),
            (Phase::Connecting, EventView::ConnectTimedOut) => (
                self.at(Phase::Finished),
                Ok(ActionView::Finish(None)),
            ),
            (Phase::Sending, EventView::ProbeSent) => (
                self.at(Phase::Receiving),
                Ok(ActionView::Receive(RESPONSE_LIMIT)),
            ),
            (Phase::Sending, EventView::ProbeFailed) => (
                self.at(Phase::Receiving),
                Ok(ActionView::Receive(RESPONSE_LIMIT)),
            ),
            (Phase::Receiving, EventView::Received(bytes)) => (
                self.at(Phase::Finished),
                Ok(ActionView::Finish(Some(record_for(self.host, self.port, bytes)))),
            ),
            (Phase::Receiving, EventView::ReceiveFailed) => (
                self.at(Phase::Finished),
                Ok(ActionView::Finish(Some(unanswered_record(self.host, self.port)))),
            ),
            _ => (self, Err(ScanError::OutOfTurn)),
        }
    }
}

/// A unit's answer as plain values.
pub open spec fn answer_view(answer: Result<UnitAction, ScanError>) -> Result<
    ActionView,
    ScanError,
> {
    match answer {
        Ok(action) => Ok(action@),
        Err(error) => Err(error),
    }
}

/// The scan of one port.
#[derive(Debug)]
pub struct PortScan {
    target: ScanTarget,
    timeout_ms: u64,
    phase: Phase,
}

impl View for PortScan {
    type V = UnitView;

    closed spec fn view(&self) -> UnitView {
        UnitView {
            host: self.target.host@,
            port: self.target.port,
            timeout_ms: self.timeout_ms,
            phase: self.phase,
        }
    }
}

impl PortScan {
    /// A unit for `target`, about to connect. The caller opens the
    /// connection, allows it `timeout_ms` milliseconds, and reports how it
    /// went.
    pub fn new(target: ScanTarget, timeout_ms: u64) -> (unit: PortScan)
        ensures
            unit@ == (UnitView {
                host: target.host@,
                port: target.port,
                timeout_ms,
                phase: Phase::Connecting,
            }),
    {
        PortScan { target, timeout_ms, phase: Phase::Connecting }
    }

    /// The address and port that the unit scans.
    pub fn target(&self) -> (target: &ScanTarget)
        ensures
            target.host@ == self@.host,
            target.port == self@.port,
    {
        &self.target
    }

    /// The address that the unit scans, as text.
    pub fn host(&self) -> (host: &str)
        ensures
            host@ == self@.host,
    {
        self.target.host.as_str()
    }

    /// The port that the unit scans.
    pub fn port(&self) -> (port: u16)
        ensures
            port == self@.port,
    {
        self.target.port
    }

    /// The time allowed for connecting, in milliseconds.
    pub fn timeout_ms(&self) -> (timeout_ms: u64)
        ensures
            timeout_ms == self@.timeout_ms,
    {
        self.timeout_ms
    }

    /// Where the unit stands.
    pub fn phase(&self) -> (phase: Phase)
        ensures
            phase == self@.phase,
    {
        self.phase
    }

    /// Takes the unit one step on: `event` is what the caller reports, the
    /// action is what the unit asks for next. An event that the unit is not
    /// waiting for is refused and leaves the unit as it was.
    pub fn advance(self, event: UnitEvent) -> (next: (PortScan, Result<UnitAction, ScanError>))
        ensures
            next.0@ == self@.step(event@).0,
            answer_view(next.1) == self@.step(event@).1,
            match event@ {
                EventView::Received(bytes) => self@.phase == Phase::Receiving && valid_utf8(
                    response_of(bytes),
                ) ==> answer_view(next.1) == Ok::<ActionView, ScanError>(
                    ActionView::Finish(Some(text_record(self@.host, self@.port, bytes))),
                ),
                _ => true,
            },
    {
        let PortScan { target, timeout_ms, phase } = self;
        match (phase, event) {
            (Phase::Connecting, UnitEvent::Connected) => {
                let payload = probe_for(target.port);
                (PortScan { target, timeout_ms, phase: Phase::Sending }, Ok(UnitAction::Send(payload)))
            },
            (Phase::Connecting, UnitEvent::ConnectFailed)
            | (Phase::Connecting, UnitEvent::ConnectTimedOut) => (
                PortScan { target, timeout_ms, phase: Phase::Finished },
                Ok(UnitAction::Finish(None)),
            ),
            (Phase::Sending, UnitEvent::ProbeSent) | (Phase::Sending, UnitEvent::ProbeFailed) => (
                PortScan { target, timeout_ms, phase: Phase::Receiving },
                Ok(UnitAction::Receive(RESPONSE_LIMIT)),
            ),
            (Phase::Receiving, UnitEvent::Received(bytes)) => {
                let record = record_open_port(target.host.clone(), target.port, bytes.as_slice());
                (
                    PortScan { target, timeout_ms, phase: Phase::Finished },
                    Ok(UnitAction::Finish(Some(record))),
                )
            },
            (Phase::Receiving, UnitEvent::ReceiveFailed) => {
                let record = record_unanswered_port(target.host.clone(), target.port);
                (
                    PortScan { target, timeout_ms, phase: Phase::Finished },
                    Ok(UnitAction::Finish(Some(record))),
                )
            },
            (phase, _) => (PortScan { target, timeout_ms, phase }, Err(ScanError::OutOfTurn)),
        }
    }
}

/// A port that does not connect, or not in time, gives no result.
pub proof fn lemma_no_connection_no_result(unit: UnitView, event: EventView)
    requires
        unit.phase == Phase::Connecting,
        event is ConnectFailed || event is ConnectTimedOut,
    ensures
        unit.step(event) == (unit.at(Phase::Finished), Ok::<ActionView, ScanError>(ActionView::Finish(None))),
{
}

/// A port that connects gives a result, whether or not the probe could be
/// written and the response read: the record is for the unit's own target
/// and says that the port is open.
pub proof fn lemma_connection_gives_result(unit: UnitView, written: EventView, read: EventView)
    requires
        unit.phase == Phase::Connecting,
        written is ProbeSent || written is ProbeFailed,
        read is Received || read is ReceiveFailed,
    ensures
        ({
            let sending = unit.step(EventView::Connected);
            let receiving = sending.0.step(written);
            let finished = receiving.0.step(read);
            &&& sending.1 == Ok::<ActionView, ScanError>(ActionView::Send(probe_payload(unit.port)))
            &&& receiving.1 == Ok::<ActionView, ScanError>(ActionView::Receive(RESPONSE_LIMIT))
            &&& finished.0 == unit.at(Phase::Finished)
            &&& finished.1 matches Ok(ActionView::Finish(Some(record)))
            &&& record.target == unit.host
            &&& record.port == unit.port
            &&& record.status == "open"@
            &&& record.service is Some
        }),
{
}

/// A unit that has given its result takes no further event.
pub proof fn lemma_finished_unit_is_final(unit: UnitView, event: EventView)
    requires
        unit.phase == Phase::Finished,
    ensures
        unit.step(event) == (unit, Err::<ActionView, ScanError>(ScanError::OutOfTurn)),
{
}

} // verus!
