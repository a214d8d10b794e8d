//! The record that a scan unit hands over for an open port.

use crate::fingerprint::Classification;
use vstd::prelude::*;

verus! {

/// What a [`ScanResult`] holds, as plain values.
pub struct ScanRecord {
    pub target: Seq<char>,
    pub port: u16,
    pub status: Seq<char>,
    pub service: Option<Seq<char>>,
    pub version: Option<Seq<char>>,
}

/// The record for an open port at `target` with the classification `found`.
pub open spec fn open_record(target: Seq<char>, port: u16, found: Classification) -> ScanRecord {
    ScanRecord { target, port, status: "open"@, service: Some(found.0), version: found.1 }
}

/// An open port and what was learned of the service behind it. A port that is
/// closed or cannot be reached has no record at all.
#[derive(Debug)]
pub struct ScanResult {
    target: String,
    port: u16,
    status: String,
    service: Option<String>,
    version: Option<String>,
}

impl View for ScanResult {
    type V = ScanRecord;

    closed spec fn view(&self) -> ScanRecord {
        ScanRecord {
            target: self.target@,
            port: self.port,
            status: self.status@,
            service: self.service.deep_view(),
            version: self.version.deep_view(),
        }
    }
}

impl Clone for ScanResult {
    fn clone(&self) -> (copy: ScanResult)
        ensures
            copy@ == self@,
    {
        proof {
            use_type_invariant(self);
        }
        ScanResult {
            target: self.target.clone(),
            port: self.port,
            status: self.status.clone(),
            service: self.service.clone(),
            version: self.version.clone(),
        }
    }
}

impl ScanResult {
    /// Every record says that its port is open.
    #[verifier::type_invariant]
    pub open spec fn is_open(&self) -> bool {
        self@.status == "open"@
    }

    /// The record for an open port.
    pub fn open(target: String, port: u16, service: String, version: Option<String>) -> (record:
        ScanResult)
        ensures
            record@ == open_record(target@, port, (service@, version.deep_view())),
    {
        ScanResult { target, port, status: "open".to_owned(), service: Some(service), version }
    }

    /// The address that was scanned, as text.
    pub fn target(&self) -> (target: &str)
        ensures
            target@ == self@.target,
    {
        self.target.as_str()
    }

    /// Whether the record is for the address `host`.
    pub fn is_for(&self, host: &String) -> (same: bool)
        ensures
            same == (self@.target == host@),
    {
        self.target == *host
    }

    /// The port that was found open.
    pub fn port(&self) -> (port: u16)
        ensures
            port == self@.port,
    {
        self.port
    }

    /// The port's status: always `"open"`.
    pub fn status(&self) -> (status: &str)
        ensures
            status@ == self@.status,
            status@ == "open"@,
    {
        proof {
            use_type_invariant(self);
        }
        self.status.as_str()
    }

    /// The service that was recognised.
    pub fn service(&self) -> (service: Option<&str>)
        ensures
            service.deep_view() == self@.service,
    {
        match &self.service {
            Some(name) => Some(name.as_str()),
            None => None,
        }
    }

    /// The version that the banner gave, if any.
    pub fn version(&self) -> (version: Option<&str>)
        ensures
            version.deep_view() == self@.version,
    {
        match &self.version {
            Some(number) => Some(number.as_str()),
            None => None,
        }
    }
}

} // verus!
