//! Service fingerprinting: from the banner a port sent back to the service
//! that runs there and, where the banner tells, its version.

use crate::probe::{has_probe, probe_payload};
use crate::text::{contains, has_prefix, has_substring, starts_with};
use crate::version::{
    extract_version, regex_first_match, APACHE_TOKEN, DOTTED_NUMBER, IMAP_TOKEN, NGINX_TOKEN,
    SSH_BANNER, THREE_PART_NUMBER, TWO_PART_NUMBER,
};
use vstd::prelude::*;

verus! {

/// A service that a matcher can recognise.
#[derive(Clone, Copy, Debug, PartialEq, Eq, Structural)]
pub enum Service {
    Ftp,
    Ssh,
    Smtp,
    Dns,
    Http,
    ApacheHttp,
    Nginx,
    Pop3,
    Imap,
    Https,
    ApacheHttps,
    NginxSsl,
    Smtps,
    Imaps,
    Pop3s,
    Pptp,
    MySql,
    Rdp,
    PostgreSql,
    Vnc,
    Redis,
    Unknown,
}

/// A service label with the version read from the banner, if any.
pub type Classification = (Seq<char>, Option<Seq<char>>);

impl Service {
    /// The label under which the service is reported.
    pub open spec fn label(self) -> Seq<char> {
        match self {
            Service::Ftp => "FTP"@,
            Service::Ssh => "SSH"@,
            Service::Smtp => "SMTP"@,
            Service::Dns => "DNS"@,
            Service::Http => "HTTP"@,
            Service::ApacheHttp => "Apache HTTP"@,
            Service::Nginx => "nginx"@,
            Service::Pop3 => "POP3"@,
            Service::Imap => "IMAP"@,
            Service::Https => "HTTPS"@,
            Service::ApacheHttps => "Apache HTTPS"@,
            Service::NginxSsl => "nginx(SSL)"@,
            Service::Smtps => "SMTPS"@,
            Service::Imaps => "IMAPS"@,
            Service::Pop3s => "POP3S"@,
            Service::Pptp => "PPTP"@,
            Service::MySql => "MySQL"@,
            Service::Rdp => "RDP"@,
            Service::PostgreSql => "PostgreSQL"@,
            Service::Vnc => "VNC"@,
            Service::Redis => "Redis"@,
            Service::Unknown => "Unknown"@,
        }
    }

    /// The pattern that finds the service's version in its banner; `None` for
    /// a service whose banner carries none.
    pub open spec fn pattern(self) -> Option<Seq<char>> {
        match self {
            Service::Ftp | Service::Smtp | Service::Pop3 | Service::Smtps | Service::Pop3s => Some(
                DOTTED_NUMBER@,
            ),
            Service::Ssh => Some(SSH_BANNER@),
            Service::ApacheHttp | Service::ApacheHttps => Some(APACHE_TOKEN@),
            Service::Nginx | Service::NginxSsl => Some(NGINX_TOKEN@),
            Service::Imap | Service::Imaps => Some(IMAP_TOKEN@),
            Service::MySql => Some(THREE_PART_NUMBER@),
            Service::PostgreSql | Service::Vnc => Some(TWO_PART_NUMBER@),
            Service::Dns
            | Service::Http
            | Service::Https
            | Service::Pptp
            | Service::Rdp
            | Service::Redis
            | Service::Unknown => None,
        }
    }

    /// What is reported for the service when the search for its version came
    /// back with `found`: a service without a version pattern reports none.
    pub open spec fn reported(self, found: Option<Seq<char>>) -> Classification {
        (
            self.label(),
            if self.pattern() is Some {
                found
            } else {
                None
            },
        )
    }

    /// The version that the service's pattern finds in `response`.
    pub open spec fn version_in(self, response: Seq<char>) -> Option<Seq<char>> {
        match self.pattern() {
            Some(pattern) => regex_first_match(pattern, response),
            None => None,
        }
    }

    /// The label under which the service is reported.
    pub fn name(self) -> (text: &'static str)
        ensures
            text@ == self.label(),
    {
        match self {
            Service::Ftp => "FTP",
            Service::Ssh => "SSH",
            Service::Smtp => "SMTP",
            Service::Dns => "DNS",
            Service::Http => "HTTP",
            Service::ApacheHttp => "Apache HTTP",
            Service::Nginx => "nginx",
            Service::Pop3 => "POP3",
            Service::Imap => "IMAP",
            Service::Https => "HTTPS",
            Service::ApacheHttps => "Apache HTTPS",
            Service::NginxSsl => "nginx(SSL)",
            Service::Smtps => "SMTPS",
            Service::Imaps => "IMAPS",
            Service::Pop3s => "POP3S",
            Service::Pptp => "PPTP",
            Service::MySql => "MySQL",
            Service::Rdp => "RDP",
            Service::PostgreSql => "PostgreSQL",
            Service::Vnc => "VNC",
            Service::Redis => "Redis",
            Service::Unknown => "Unknown",
        }
    }

    /// The pattern that finds the service's version, if its banner carries one.
    pub fn version_pattern(self) -> (pattern: Option<&'static str>)
        ensures
            pattern is Some == self.pattern() is Some,
            pattern matches Some(text) ==> self.pattern() == Some(text@),
    {
        match self {
            Service::Ftp | Service::Smtp | Service::Pop3 | Service::Smtps | Service::Pop3s => Some(
                DOTTED_NUMBER,
            ),
            Service::Ssh => Some(SSH_BANNER),
            Service::ApacheHttp | Service::ApacheHttps => Some(APACHE_TOKEN),
            Service::Nginx | Service::NginxSsl => Some(NGINX_TOKEN),
            Service::Imap | Service::Imaps => Some(IMAP_TOKEN),
            Service::MySql => Some(THREE_PART_NUMBER),
            Service::PostgreSql | Service::Vnc => Some(TWO_PART_NUMBER),
            _ => None,
        }
    }

    /// Reports the service with the version that was found for it. A service
    /// without a version pattern is reported without a version, whatever
    /// `found` holds.
    pub fn with_version(self, found: Option<String>) -> (report: (String, Option<String>))
        ensures
            report.deep_view() == self.reported(found.deep_view()),
            report.1 matches Some(version) ==> found == Some(version),
    {
        let version = match self.version_pattern() {
            Some(_) => found,
            None => None,
        };
        (self.name().to_owned(), version)
    }
}

/// The matchers of the registry, one for each protocol that is recognised,
/// and the fallback for every port without one.
#[derive(Clone, Copy, Debug, PartialEq, Eq, Structural)]
pub enum Matcher {
    Ftp,
    Ssh,
    Smtp,
    Dns,
    Http,
    Pop3,
    Imap,
    Https,
    Smtps,
    Imaps,
    Pop3s,
    Pptp,
    MySql,
    Rdp,
    Postgres,
    Vnc,
    Redis,
    Fallback,
}

/// The refinement of a web server's label by the product it names.
pub open spec fn web_product(response: Seq<char>, apache: Service, nginx: Service, plain: Service)
    -> Service {
    if has_substring(response, "Apache"@) {
        apache
    } else if has_substring(response, "nginx"@) {
        nginx
    } else {
        plain
    }
}

impl Matcher {
    /// Whether `response` carries the marks of the matcher's protocol.
    pub open spec fn accepts(self, response: Seq<char>) -> bool {
        match self {
            Matcher::Ftp => has_substring(response, "220"@) && has_substring(response, "FTP"@),
            Matcher::Ssh => has_substring(response, "SSH"@),
            Matcher::Smtp => has_substring(response, "220"@) && has_substring(response, "SMTP"@),
            Matcher::Dns => has_prefix(response, "\x00\x00"@),
            Matcher::Http => has_substring(response, "HTTP"@),
            Matcher::Pop3 => has_substring(response, "+OK"@) && has_substring(response, "POP3"@),
            Matcher::Imap => has_substring(response, "* OK"@) && has_substring(response, "IMAP"@),
            Matcher::Https => has_substring(response, "HTTP"@) && has_substring(response, "SSL"@),
            Matcher::Smtps => has_substring(response, "220"@) && has_substring(
                response,
                "SMTPS"@,
            ),
            Matcher::Imaps => has_substring(response, "* OK"@) && has_substring(response, "IMAP"@)
                && has_substring(response, "SSL"@),
            Matcher::Pop3s => has_substring(response, "+OK"@) && has_substring(response, "POP3"@)
                && has_substring(response, "SSL"@),
            Matcher::Pptp => has_prefix(response, "\x00\x00\x00\x00"@),
            Matcher::MySql => has_prefix(response, "\x0a\x00\x00\x01"@),
            Matcher::Rdp => has_prefix(response, "\x03\x00\x00\x13"@),
            Matcher::Postgres => has_prefix(response, "\x00\x00\x00\x08"@),
            Matcher::Vnc => has_prefix(response, "RFB "@),
            Matcher::Redis => has_substring(response, "+PONG"@),
            Matcher::Fallback => false,
        }
    }

    /// The service that the matcher reports for a response it accepts.
    pub open spec fn service_for(self, response: Seq<char>) -> Service {
        match self {
            Matcher::Ftp => Service::Ftp,
            Matcher::Ssh => Service::Ssh,
            Matcher::Smtp => Service::Smtp,
            Matcher::Dns => Service::Dns,
            Matcher::Http => web_product(
                response,
                Service::ApacheHttp,
                Service::Nginx,
                Service::Http,
            ),
            Matcher::Pop3 => Service::Pop3,
            Matcher::Imap => Service::Imap,
            Matcher::Https => web_product(
                response,
                Service::ApacheHttps,
                Service::NginxSsl,
                Service::Https,
            ),
            Matcher::Smtps => Service::Smtps,
            Matcher::Imaps => Service::Imaps,
            Matcher::Pop3s => Service::Pop3s,
            Matcher::Pptp => Service::Pptp,
            Matcher::MySql => Service::MySql,
            Matcher::Rdp => Service::Rdp,
            Matcher::Postgres => Service::PostgreSql,
            Matcher::Vnc => Service::Vnc,
            Matcher::Redis => Service::Redis,
            Matcher::Fallback => Service::Unknown,
        }
    }

    /// The service that the matcher recognises in `response`.
    pub open spec fn recognised(self, response: Seq<char>) -> Service {
        if self.accepts(response) {
            self.service_for(response)
        } else {
            Service::Unknown
        }
    }

    /// The matcher's classification of `response`: the service it recognises,
    /// with the version that the service's pattern finds.
    pub open spec fn detection(self, response: Seq<char>) -> Classification {
        let service = self.recognised(response);
        service.reported(service.version_in(response))
    }
}

/// The registry: the matcher for `port`.
pub open spec fn matcher_of(port: u16) -> Matcher {
    if port == 21 {
        Matcher::Ftp
    } else if port == 22 {
        Matcher::Ssh
    } else if port == 25 {
        Matcher::Smtp
    } else if port == 53 {
        Matcher::Dns
    } else if port == 80 || port == 8080 {
        Matcher::Http
    } else if port == 110 {
        Matcher::Pop3
    } else if port == 143 {
        Matcher::Imap
    } else if port == 443 || port == 8443 {
        Matcher::Https
    } else if port == 465 {
        Matcher::Smtps
    } else if port == 993 {
        Matcher::Imaps
    } else if port == 995 {
        Matcher::Pop3s
    } else if port == 1723 {
        Matcher::Pptp
    } else if port == 3306 {
        Matcher::MySql
    } else if port == 3389 {
        Matcher::Rdp
    } else if port == 5432 {
        Matcher::Postgres
    } else if port == 5900 || port == 5901 {
        Matcher::Vnc
    } else if port == 6379 {
        Matcher::Redis
    } else {
        Matcher::Fallback
    }
}

/// The classification of the banner `response` that came back from `port`.
pub open spec fn classification(port: u16, response: Seq<char>) -> Classification {
    matcher_of(port).detection(response)
}

/// What is reported where nothing was recognised.
pub fn unknown_service() -> (report: (String, Option<String>))
    ensures
        report.deep_view() == Service::Unknown.reported(None),
        report.0@ == "Unknown"@,
        report.1 is None,
{
    Service::Unknown.with_version(None)
}

/// File transfer: the greeting code and the protocol's name.
pub fn ftp_service_detection(response: &str) -> (found: (String, Option<String>))
    ensures
        found.deep_view() == Matcher::Ftp.detection(response@),
        found.1 matches Some(version) ==> has_substring(response@, version@),
{
    if contains(response, "220") && contains(response, "FTP") {
        Service::Ftp.with_version(extract_version(response, DOTTED_NUMBER))
    } else {
        unknown_service()
    }
}

/// Secure shell: the protocol's name, as its identification line gives it.
pub fn ssh_service_detection(response: &str) -> (found: (String, Option<String>))
    ensures
        found.deep_view() == Matcher::Ssh.detection(response@),
        found.1 matches Some(version) ==> has_substring(response@, version@),
{
    if contains(response, "SSH") {
        Service::Ssh.with_version(extract_version(response, SSH_BANNER))
    } else {
        unknown_service()
    }
}

/// Mail transfer: the greeting code and the protocol's name.
pub fn smtp_service_detection(response: &str) -> (found: (String, Option<String>))
    ensures
        found.deep_view() == Matcher::Smtp.detection(response@),
        found.1 matches Some(version) ==> has_substring(response@, version@),
{
    if contains(response, "220") && contains(response, "SMTP") {
        Service::Smtp.with_version(extract_version(response, DOTTED_NUMBER))
    } else {
        unknown_service()
    }
}

/// Name service: an answer that begins with two zero bytes.
pub fn dns_service_detection(response: &str) -> (found: (String, Option<String>))
    ensures
        found.deep_view() == Matcher::Dns.detection(response@),
        found.1 matches Some(version) ==> has_substring(response@, version@),
{
    if starts_with(response, "\x00\x00") {
        Service::Dns.with_version(None)
    } else {
        unknown_service()
    }
}

/// Web: the protocol's name, refined by the server product where the
/// response names one. Apache is looked for before nginx.
pub fn http_service_detection(response: &str) -> (found: (String, Option<String>))
    ensures
        found.deep_view() == Matcher::Http.detection(response@),
        found.1 matches Some(version) ==> has_substring(response@, version@),
{
    if contains(response, "HTTP") {
        if contains(response, "Apache") {
            Service::ApacheHttp.with_version(extract_version(response, APACHE_TOKEN))
        } else if contains(response, "nginx") {
            Service::Nginx.with_version(extract_version(response, NGINX_TOKEN))
        } else {
            Service::Http.with_version(None)
        }
    } else {
        unknown_service()
    }
}

/// Mail retrieval: the positive status and the protocol's name.
pub fn pop3_service_detection(response: &str) -> (found: (String, Option<String>))
    ensures
        found.deep_view() == Matcher::Pop3.detection(response@),
        found.1 matches Some(version) ==> has_substring(response@, version@),
{
    if contains(response, "+OK") && contains(response, "POP3") {
        Service::Pop3.with_version(extract_version(response, DOTTED_NUMBER))
    } else {
        unknown_service()
    }
}

/// Mail access: the untagged greeting and the protocol's name.
pub fn imap_service_detection(response: &str) -> (found: (String, Option<String>))
    ensures
        found.deep_view() == Matcher::Imap.detection(response@),
        found.1 matches Some(version) ==> has_substring(response@, version@),
{
    if contains(response, "* OK") && contains(response, "IMAP") {
        Service::Imap.with_version(extract_version(response, IMAP_TOKEN))
    } else {
        unknown_service()
    }
}

/// Web over a secure channel: the protocol's name and the channel's, both, so
/// that a plain web response is not taken for it; then refined as plain web
/// responses are.
pub fn https_service_detection(response: &str) -> (found: (String, Option<String>))
    ensures
        found.deep_view() == Matcher::Https.detection(response@),
        found.1 matches Some(version) ==> has_substring(response@, version@),
{
    if contains(response, "HTTP") && contains(response, "SSL") {
        if contains(response, "Apache") {
            Service::ApacheHttps.with_version(extract_version(response, APACHE_TOKEN))
        } else if contains(response, "nginx") {
            Service::NginxSsl.with_version(extract_version(response, NGINX_TOKEN))
        } else {
            Service::Https.with_version(None)
        }
    } else {
        unknown_service()
    }
}

/// Mail transfer over a secure channel.
pub fn smtps_service_detection(response: &str) -> (found: (String, Option<String>))
    ensures
        found.deep_view() == Matcher::Smtps.detection(response@),
        found.1 matches Some(version) ==> has_substring(response@, version@),
{
    if contains(response, "220") && contains(response, "SMTPS") {
        Service::Smtps.with_version(extract_version(response, DOTTED_NUMBER))
    } else {
        unknown_service()
    }
}

/// Mail access over a secure channel.
pub fn imaps_service_detection(response: &str) -> (found: (String, Option<String>))
    ensures
        found.deep_view() == Matcher::Imaps.detection(response@),
        found.1 matches Some(version) ==> has_substring(response@, version@),
{
    if contains(response, "* OK") && contains(response, "IMAP") && contains(response, "SSL") {
        Service::Imaps.with_version(extract_version(response, IMAP_TOKEN))
    } else {
        unknown_service()
    }
}

/// Mail retrieval over a secure channel.
pub fn pop3s_service_detection(response: &str) -> (found: (String, Option<String>))
    ensures
        found.deep_view() == Matcher::Pop3s.detection(response@),
        found.1 matches Some(version) ==> has_substring(response@, version@),
{
    if contains(response, "+OK") && contains(response, "POP3") && contains(response, "SSL") {
        Service::Pop3s.with_version(extract_version(response, DOTTED_NUMBER))
    } else {
        unknown_service()
    }
}

/// Tunnelling: an answer that begins with four zero bytes.
pub fn pptp_service_detection(response: &str) -> (found: (String, Option<String>))
    ensures
        found.deep_view() == Matcher::Pptp.detection(response@),
        found.1 matches Some(version) ==> has_substring(response@, version@),
{
    if starts_with(response, "\x00\x00\x00\x00") {
        Service::Pptp.with_version(None)
    } else {
        unknown_service()
    }
}

/// MySQL: the first bytes of the server's handshake packet.
pub fn mysql_service_detection(response: &str) -> (found: (String, Option<String>))
    ensures
        found.deep_view() == Matcher::MySql.detection(response@),
        found.1 matches Some(version) ==> has_substring(response@, version@),
{
    if starts_with(response, "\x0a\x00\x00\x01") {
        Service::MySql.with_version(extract_version(response, THREE_PART_NUMBER))
    } else {
        unknown_service()
    }
}

/// Remote desktop: the first bytes of the connection confirm.
pub fn rdp_service_detection(response: &str) -> (found: (String, Option<String>))
    ensures
        found.deep_view() == Matcher::Rdp.detection(response@),
        found.1 matches Some(version) ==> has_substring(response@, version@),
{
    if starts_with(response, "\x03\x00\x00\x13") {
        Service::Rdp.with_version(None)
    } else {
        unknown_service()
    }
}

/// PostgreSQL: the first bytes of the answer to the startup packet.
pub fn postgres_service_detection(response: &str) -> (found: (String, Option<String>))
    ensures
        found.deep_view() == Matcher::Postgres.detection(response@),
        found.1 matches Some(version) ==> has_substring(response@, version@),
{
    if starts_with(response, "\x00\x00\x00\x08") {
        Service::PostgreSql.with_version(extract_version(response, TWO_PART_NUMBER))
    } else {
        unknown_service()
    }
}

/// Remote framebuffer: the protocol version line.
pub fn vnc_service_detection(response: &str) -> (found: (String, Option<String>))
    ensures
        found.deep_view() == Matcher::Vnc.detection(response@),
        found.1 matches Some(version) ==> has_substring(response@, version@),
{
    if starts_with(response, "RFB ") {
        Service::Vnc.with_version(extract_version(response, TWO_PART_NUMBER))
    } else {
        unknown_service()
    }
}

/// Redis: the answer to a ping.
pub fn redis_service_detection(response: &str) -> (found: (String, Option<String>))
    ensures
        found.deep_view() == Matcher::Redis.detection(response@),
        found.1 matches Some(version) ==> has_substring(response@, version@),
{
    if contains(response, "+PONG") {
        Service::Redis.with_version(None)
    } else {
        unknown_service()
    }
}

/// Looks `port` up in the registry.
pub fn matcher_for(port: u16) -> (matcher: Matcher)
    ensures
        matcher == matcher_of(port),
{
    match port {
        21 => Matcher::Ftp,
        22 => Matcher::Ssh,
        25 => Matcher::Smtp,
        53 => Matcher::Dns,
        80 | 8080 => Matcher::Http,
        110 => Matcher::Pop3,
        143 => Matcher::Imap,
        443 | 8443 => Matcher::Https,
        465 => Matcher::Smtps,
        993 => Matcher::Imaps,
        995 => Matcher::Pop3s,
        1723 => Matcher::Pptp,
        3306 => Matcher::MySql,
        3389 => Matcher::Rdp,
        5432 => Matcher::Postgres,
        5900 | 5901 => Matcher::Vnc,
        6379 => Matcher::Redis,
        _ => Matcher::Fallback,
    }
}

impl Matcher {
    /// Runs the matcher on `response`.
    pub fn detect(self, response: &str) -> (found: (String, Option<String>))
        ensures
            found.deep_view() == self.detection(response@),
            found.1 matches Some(version) ==> has_substring(response@, version@),
    {
        match self {
            Matcher::Ftp => ftp_service_detection(response),
            Matcher::Ssh => ssh_service_detection(response),
            Matcher::Smtp => smtp_service_detection(response),
            Matcher::Dns => dns_service_detection(response),
            Matcher::Http => http_service_detection(response),
            Matcher::Pop3 => pop3_service_detection(response),
            Matcher::Imap => imap_service_detection(response),
            Matcher::Https => https_service_detection(response),
            Matcher::Smtps => smtps_service_detection(response),
            Matcher::Imaps => imaps_service_detection(response),
            Matcher::Pop3s => pop3s_service_detection(response),
            Matcher::Pptp => pptp_service_detection(response),
            Matcher::MySql => mysql_service_detection(response),
            Matcher::Rdp => rdp_service_detection(response),
            Matcher::Postgres => postgres_service_detection(response),
            Matcher::Vnc => vnc_service_detection(response),
            Matcher::Redis => redis_service_detection(response),
            Matcher::Fallback => unknown_service(),
        }
    }
}

/// Classifies the banner `response` that came back from `port`: the service
/// and, where the banner tells, its version. A port without a matcher is
/// classified as unknown, whatever came back.
pub fn classify(port: u16, response: &str) -> (found: (String, Option<String>))
    ensures
        found.deep_view() == classification(port, response@),
        found.1 matches Some(version) ==> has_substring(response@, version@),
        matcher_of(port) == Matcher::Fallback ==> found.0@ == "Unknown"@ && found.1 is None,
{
    matcher_for(port).detect(response)
}

/// The registry has a matcher for exactly the ports that the probe catalog
/// lists.
pub proof fn lemma_registry_covers_catalog(port: u16)
    ensures
        has_probe(port) <==> matcher_of(port) != Matcher::Fallback,
{
}

/// A port that the catalog does not list gets an empty probe, and whatever
/// comes back from it is classified as unknown, without a version.
pub proof fn lemma_unlisted_port_is_unknown(port: u16, response: Seq<char>)
    requires
        !has_probe(port),
    ensures
        probe_payload(port) == Seq::<u8>::empty(),
        classification(port, response) == (("Unknown"@, None::<Seq<char>>)),
{
}

/// A response that a matcher does not accept is classified as unknown,
/// without a version: the version is looked for only in what was recognised.
pub proof fn lemma_unmatched_is_unknown(matcher: Matcher, response: Seq<char>)
    requires
        !matcher.accepts(response),
    ensures
        matcher.detection(response) == (("Unknown"@, None::<Seq<char>>)),
{
}

/// No two services are reported under the same label.
pub proof fn lemma_labels_differ(a: Service, b: Service)
    requires
        a != b,
    ensures
        a.label() != b.label(),
{
    reveal_strlit("FTP");
    reveal_strlit("SSH");
    reveal_strlit("SMTP");
    reveal_strlit("DNS");
    reveal_strlit("HTTP");
    reveal_strlit("Apache HTTP");
    reveal_strlit("nginx");
    reveal_strlit("POP3");
    reveal_strlit("IMAP");
    reveal_strlit("HTTPS");
    reveal_strlit("Apache HTTPS");
    reveal_strlit("nginx(SSL)");
    reveal_strlit("SMTPS");
    reveal_strlit("IMAPS");
    reveal_strlit("POP3S");
    reveal_strlit("PPTP");
    reveal_strlit("MySQL");
    reveal_strlit("RDP");
    reveal_strlit("PostgreSQL");
    reveal_strlit("VNC");
    reveal_strlit("Redis");
    reveal_strlit("Unknown");
    assert(a.label().len() != b.label().len() || a.label()[0] != b.label()[0] || a.label()[1]
        != b.label()[1] || a.label()[2] != b.label()[2] || a.label()[3] != b.label()[3]);
}

/// A classification under the label for what is unknown carries no version.
pub proof fn lemma_unknown_has_no_version(port: u16, response: Seq<char>)
    requires
        classification(port, response).0 == "Unknown"@,
    ensures
        classification(port, response).1 is None,
{
    let service = matcher_of(port).recognised(response);
    if service != Service::Unknown {
        lemma_labels_differ(service, Service::Unknown);
    }
}

} // verus!
