//! The probe catalog: the payload sent to a port right after it connects.

use vstd::prelude::*;
use vstd::string::*;

verus! {

/// The request line and host header sent to the web ports.
pub open spec fn http_request() -> Seq<u8> {
    "GET / HTTP/1.1\r\nHost: example.com\r\n\r\n".spec_bytes()
}

/// The payload for `port`; empty for a port the catalog does not list, which
/// means: connect only, send nothing.
pub open spec fn probe_payload(port: u16) -> Seq<u8> {
    if port == 21 || port == 110 || port == 465 || port == 995 {
        "QUIT\r\n".spec_bytes()
    } else if port == 22 {
        "SSH-2.0-OpenSSH_7.4p1 Debian-10+deb9u7\r\n".spec_bytes()
    } else if port == 25 {
        "HELO example.com\r\n".spec_bytes()
    } else if port == 53 {
        seq![0x00u8, 0x00, 0x10, 0x00, 0x00, 0x00, 0x00, 0x00, 0x00, 0x00, 0x00, 0x00]
    } else if port == 80 || port == 8080 || port == 443 || port == 8443 {
        http_request()
    } else if port == 143 || port == 993 {
        "a1 LOGOUT\r\n".spec_bytes()
    } else if port == 1723 {
        seq![0x00u8, 0x00, 0x00, 0x00, 0x00, 0x00, 0x00, 0x00]
    } else if port == 3306 {
        seq![
            0x0au8, 0x00, 0x00, 0x01, 0x85, 0xa6, 0x03, 0x00, 0x00, 0x00, 0x00, 0x01, 0x08, 0x00,
            0x00, 0x00, 0x00, 0x00, 0x00, 0x00, 0x00, 0x00, 0x00, 0x00, 0x00, 0x00, 0x00, 0x00,
            0x00, 0x00, 0x00, 0x00,
        ]
    } else if port == 3389 {
        seq![
            0x03u8, 0x00, 0x00, 0x13, 0x0e, 0xe0, 0x00, 0x00, 0x00, 0x00, 0x00, 0x01, 0x00, 0x08,
            0x00, 0x03, 0x00, 0x00, 0x00,
        ]
    } else if port == 5432 {
        seq![0x00u8, 0x00, 0x00, 0x08, 0x04, 0xd2, 0x16, 0x2f]
    } else if port == 5900 || port == 5901 {
        "RFB 003.008\n".spec_bytes()
    } else if port == 6379 {
        "PING\r\n".spec_bytes()
    } else {
        Seq::empty()
    }
}

/// Whether the catalog lists `port`.
pub open spec fn has_probe(port: u16) -> bool {
    port == 21 || port == 22 || port == 25 || port == 53 || port == 80 || port == 110 || port == 143
        || port == 443 || port == 465 || port == 993 || port == 995 || port == 1723 || port == 3306
        || port == 3389 || port == 5432 || port == 5900 || port == 5901 || port == 6379
        || port == 8080 || port == 8443
}

/// Looks `port` up in the catalog.
pub fn probe_for(port: u16) -> (payload: Vec<u8>)
    ensures
        payload@ == probe_payload(port),
        !has_probe(port) ==> payload@.len() == 0,
{
    match port {
        21 | 110 | 465 | 995 => "QUIT\r\n".as_bytes_vec(),
        22 => "SSH-2.0-OpenSSH_7.4p1 Debian-10+deb9u7\r\n".as_bytes_vec(),
        25 => "HELO example.com\r\n".as_bytes_vec(),
        53 => vec![0x00u8, 0x00, 0x10, 0x00, 0x00, 0x00, 0x00, 0x00, 0x00, 0x00, 0x00, 0x00],
        80 | 8080 | 443 | 8443 => "GET / HTTP/1.1\r\nHost: example.com\r\n\r\n".as_bytes_vec(),
        143 | 993 => "a1 LOGOUT\r\n".as_bytes_vec(),
        1723 => vec![0x00u8, 0x00, 0x00, 0x00, 0x00, 0x00, 0x00, 0x00],
        3306 => vec![
            0x0au8, 0x00, 0x00, 0x01, 0x85, 0xa6, 0x03, 0x00, 0x00, 0x00, 0x00, 0x01, 0x08, 0x00,
            0x00, 0x00, 0x00, 0x00, 0x00, 0x00, 0x00, 0x00, 0x00, 0x00, 0x00, 0x00, 0x00, 0x00,
            0x00, 0x00, 0x00, 0x00,
        ],
        3389 => vec![
            0x03u8, 0x00, 0x00, 0x13, 0x0e, 0xe0, 0x00, 0x00, 0x00, 0x00, 0x00, 0x01, 0x00, 0x08,
            0x00, 0x03, 0x00, 0x00, 0x00,
        ],
        5432 => vec![0x00u8, 0x00, 0x00, 0x08, 0x04, 0xd2, 0x16, 0x2f],
        5900 | 5901 => "RFB 003.008\n".as_bytes_vec(),
        6379 => "PING\r\n".as_bytes_vec(),
        _ => Vec::new(),
    }
}

} // verus!
