//! Per-host traffic profiles and the merge policy that folds new analysis
//! fragments into them.
//!
//! Confidence and completeness scores are kept in hundredths (`0 ..= 100`
//! stands for `0.00 ..= 1.00`); timestamps are milliseconds.

use vstd::prelude::*;

verus! {

/// Weight that the presence of any TCP data adds to completeness, in hundredths.
pub const TCP_WEIGHT: u32 = 40;

/// Weight that the presence of HTTP data adds to completeness, in hundredths.
pub const HTTP_WEIGHT: u32 = 30;

/// Weight that the presence of TLS data adds to completeness, in hundredths.
pub const TLS_WEIGHT: u32 = 30;

/// Network endpoint (IP + port)
#[derive(Debug)]
pub struct NetworkEndpoint {
    pub ip: String,
    pub port: u16,
}

/// OS detection result; `quality` is a confidence in hundredths.
#[derive(Debug)]
pub struct OsDetection {
    pub os: String,
    pub quality: u32,
    pub distance: u8,
}

/// Detailed TCP characteristics
#[derive(Debug)]
pub struct TcpDetails {
    pub version: String,
    pub initial_ttl: String,
    pub options_length: u8,
    pub mss: Option<u16>,
    pub window_size: String,
    pub window_scale: Option<u8>,
    pub options_layout: String,
    pub quirks: String,
    pub payload_class: String,
}

/// Detailed HTTP characteristics
#[derive(Debug)]
pub struct HttpDetails {
    pub version: String,
    pub header_order: String,
    pub headers_absent: String,
    pub expected_software: String,
}

/// Detailed TLS characteristics
#[derive(Debug)]
pub struct TlsDetails {
    pub version: String,
    pub sni: Option<String>,
    pub alpn: Option<String>,
    pub cipher_suites: Vec<u16>,
    pub extensions: Vec<u16>,
    pub signature_algorithms: Vec<u16>,
    pub elliptic_curves: Vec<u16>,
}

/// SYN packet data (from the client side of a connection)
#[derive(Debug)]
pub struct SynPacketData {
    pub source: NetworkEndpoint,
    pub os_detected: Option<OsDetection>,
    pub signature: String,
    pub details: TcpDetails,
    pub timestamp: u64,
}

/// SYN-ACK packet data (from the server side of a connection)
#[derive(Debug)]
pub struct SynAckPacketData {
    pub source: NetworkEndpoint,
    pub destination: NetworkEndpoint,
    pub os_detected: Option<OsDetection>,
    pub signature: String,
    pub details: TcpDetails,
    pub timestamp: u64,
}

/// MTU detection data
#[derive(Debug)]
pub struct MtuData {
    pub source: NetworkEndpoint,
    pub mtu_value: u16,
    pub timestamp: u64,
}

/// Uptime detection data
#[derive(Debug)]
pub struct UptimeData {
    pub source: NetworkEndpoint,
    pub uptime_seconds: u64,
    pub timestamp: u64,
}

/// TLS client hello data
#[derive(Debug)]
pub struct TlsClientData {
    pub source: NetworkEndpoint,
    pub ja4: String,
    pub ja4_raw: String,
    pub details: TlsDetails,
    pub timestamp: u64,
}

/// HTTP request data (from the client); `quality` is a confidence in hundredths.
#[derive(Debug)]
pub struct HttpRequestData {
    pub user_agent: Option<String>,
    pub accept: Option<String>,
    pub accept_language: Option<String>,
    pub accept_encoding: Option<String>,
    pub connection: Option<String>,
    pub method: Option<String>,
    pub host: Option<String>,
    pub signature: String,
    pub quality: u32,
}

/// HTTP response data (from the server); `quality` is a confidence in hundredths.
#[derive(Debug)]
pub struct HttpResponseData {
    pub server: Option<String>,
    pub content_type: Option<String>,
    pub content_length: Option<String>,
    pub set_cookie: Option<String>,
    pub cache_control: Option<String>,
    pub status: Option<String>,
    pub signature: String,
    pub quality: u32,
}

/// Raw fingerprint data separated by source type
#[derive(Debug)]
pub struct RawFingerprintData {
    pub syn: Option<SynPacketData>,
    pub syn_ack: Option<SynAckPacketData>,
    pub mtu: Option<MtuData>,
    pub uptime: Option<UptimeData>,
    pub http_request: Option<HttpRequestData>,
    pub http_response: Option<HttpResponseData>,
    pub tls_client: Option<TlsClientData>,
    pub source_ip: Option<String>,
}

impl Default for RawFingerprintData {
    /// No observation in any slot.
    fn default() -> (r: Self)
        ensures
            r.syn is None,
            r.syn_ack is None,
            r.mtu is None,
            r.uptime is None,
            r.http_request is None,
            r.http_response is None,
            r.tls_client is None,
            r.source_ip is None,
    {
        RawFingerprintData {
            syn: None,
            syn_ack: None,
            mtu: None,
            uptime: None,
            http_request: None,
            http_response: None,
            tls_client: None,
            source_ip: None,
        }
    }
}

/// TCP connection analysis; `quality` is a confidence in hundredths.
#[derive(Debug)]
pub struct TcpAnalysis {
    pub os: String,
    pub quality: u32,
    pub distance: u8,
    pub signature: String,
    pub details: TcpDetails,
}

/// HTTP request/response analysis; `quality` is a confidence in hundredths.
#[derive(Debug)]
pub struct HttpAnalysis {
    pub browser: String,
    pub quality: u32,
    pub language: Option<String>,
    pub diagnosis: String,
    pub signature: String,
    pub details: HttpDetails,
    pub request: Option<HttpRequestData>,
    pub response: Option<HttpResponseData>,
}

/// TLS connection analysis
#[derive(Debug)]
pub struct TlsAnalysis {
    pub ja4: String,
    pub ja4_raw: String,
    pub ja4_original: String,
    pub ja4_original_raw: String,
    pub details: TlsDetails,
}

/// Profile metadata; `completeness` is in hundredths.
#[derive(Clone, Copy, Debug)]
pub struct ProfileMetadata {
    pub first_seen: u64,
    pub last_updated: u64,
    pub packet_count: u64,
    pub completeness: u32,
}

/// Complete traffic profile for a host, keyed by its IP address.
#[derive(Debug)]
pub struct TrafficProfile {
    pub ip: String,
    pub port: u16,
    pub timestamp: u64,
    pub raw_data: RawFingerprintData,
    pub tcp: Option<TcpAnalysis>,
    pub tcp_client: Option<TcpAnalysis>,
    pub tcp_server: Option<TcpAnalysis>,
    pub http: Option<HttpAnalysis>,
    pub tls: Option<TlsAnalysis>,
    pub metadata: ProfileMetadata,
}

/// True when the profile carries TCP data in any of its three TCP slots.
pub open spec fn has_tcp_data(p: TrafficProfile) -> bool {
    p.tcp is Some || p.tcp_client is Some || p.tcp_server is Some
}

/// The completeness score a profile ought to carry, from which categories
/// are present.
pub open spec fn completeness_of(p: TrafficProfile) -> u32 {
    ((if has_tcp_data(p) {
        TCP_WEIGHT as int
    } else {
        0
    }) + (if p.http is Some {
        HTTP_WEIGHT as int
    } else {
        0
    }) + (if p.tls is Some {
        TLS_WEIGHT as int
    } else {
        0
    })) as u32
}

/// A packet counter increment that sticks at the maximum instead of wrapping.
pub open spec fn inc_count(c: u64) -> u64 {
    if c == u64::MAX {
        c
    } else {
        (c + 1) as u64
    }
}

/// The metadata bookkeeping every mutation performs: stamp `last_updated`,
/// count the fragment, recompute completeness.
pub open spec fn touched(p: TrafficProfile, now: u64) -> TrafficProfile {
    TrafficProfile {
        metadata: ProfileMetadata {
            last_updated: now,
            packet_count: inc_count(p.metadata.packet_count),
            completeness: completeness_of(p),
            ..p.metadata
        },
        ..p
    }
}

/// Every mutation's bookkeeping leaves completeness freshly recomputed,
/// never stale: the touched profile carries exactly the weighted sum its
/// categories imply.
pub proof fn lemma_touched_completeness(p: TrafficProfile, now: u64)
    ensures
        touched(p, now).completeness_ok(),
{
}

impl TrafficProfile {
    /// True when the profile satisfies the completeness invariant.
    pub open spec fn completeness_ok(self) -> bool {
        self.metadata.completeness == completeness_of(self)
    }

    /// Create a new, empty traffic profile for a host.
    pub fn new(ip: String, port: u16, now: u64) -> (p: Self)
        ensures
            p.ip == ip,
            p.port == port,
            p.timestamp == now,
            !has_tcp_data(p) && p.http is None && p.tls is None,
            p.raw_data.syn is None,
            p.raw_data.syn_ack is None,
            p.raw_data.mtu is None,
            p.raw_data.uptime is None,
            p.raw_data.http_request is None,
            p.raw_data.http_response is None,
            p.raw_data.tls_client is None,
            p.raw_data.source_ip is None,
            p.metadata.first_seen == now,
            p.metadata.last_updated == now,
            p.metadata.packet_count == 0,
            p.metadata.completeness == 0,
            p.completeness_ok(),
    {
        TrafficProfile {
            ip,
            port,
            timestamp: now,
            raw_data: RawFingerprintData {
                syn: None,
                syn_ack: None,
                mtu: None,
                uptime: None,
                http_request: None,
                http_response: None,
                tls_client: None,
                source_ip: None,
            },
            tcp: None,
            tcp_client: None,
            tcp_server: None,
            http: None,
            tls: None,
            metadata: ProfileMetadata { first_seen: now, last_updated: now, packet_count: 0, completeness: 0 },
        }
    }

    /// Check if the profile has no analysis data in any category.
    pub fn is_empty(&self) -> (r: bool)
        ensures
            r == (!has_tcp_data(*self) && self.http is None && self.tls is None),
    {
        self.tcp.is_none() && self.tcp_client.is_none() && self.tcp_server.is_none() && self.http.is_none()
            && self.tls.is_none()
    }

    /// Stamp `last_updated`, count one applied fragment, and recompute the
    /// completeness score from the categories present.
    fn update_metadata(&mut self, now: u64)
        ensures
            *final(self) == touched(*old(self), now),
            final(self).completeness_ok(),
    {
        self.metadata.last_updated = now;
        if self.metadata.packet_count < u64::MAX {
            self.metadata.packet_count = self.metadata.packet_count + 1;
        }
        let mut score: u32 = 0;
        if self.tcp.is_some() || self.tcp_client.is_some() || self.tcp_server.is_some() {
            score += TCP_WEIGHT;
        }
        if self.http.is_some() {
            score += HTTP_WEIGHT;
        }
        if self.tls.is_some() {
            score += TLS_WEIGHT;
        }
        self.metadata.completeness = score;
    }

    /// Replace the legacy/shared TCP analysis (last write wins).
    pub fn update_tcp(&mut self, tcp: TcpAnalysis, now: u64)
        ensures
            *final(self) == touched(TrafficProfile { tcp: Some(tcp), ..*old(self) }, now),
            final(self).completeness_ok(),
    {
        self.tcp = Some(tcp);
        self.update_metadata(now);
    }

    /// Replace the client-side (SYN) TCP analysis (last write wins).
    pub fn update_tcp_client(&mut self, tcp: TcpAnalysis, now: u64)
        ensures
            *final(self) == touched(TrafficProfile { tcp_client: Some(tcp), ..*old(self) }, now),
            final(self).completeness_ok(),
    {
        self.tcp_client = Some(tcp);
        self.update_metadata(now);
    }

    /// Replace the server-side (SYN-ACK) TCP analysis (last write wins).
    pub fn update_tcp_server(&mut self, tcp: TcpAnalysis, now: u64)
        ensures
            *final(self) == touched(TrafficProfile { tcp_server: Some(tcp), ..*old(self) }, now),
            final(self).completeness_ok(),
    {
        self.tcp_server = Some(tcp);
        self.update_metadata(now);
    }

    /// Replace the TLS analysis (last write wins).
    pub fn update_tls(&mut self, tls: TlsAnalysis, now: u64)
        ensures
            *final(self) == touched(TrafficProfile { tls: Some(tls), ..*old(self) }, now),
            final(self).completeness_ok(),
    {
        self.tls = Some(tls);
        self.update_metadata(now);
    }

    /// Merge an HTTP analysis fragment: its request or response sub-record
    /// always replaces the stored one, while the scalar fields are replaced
    /// only when the fragment's confidence is strictly greater.
    pub fn update_http(&mut self, http: HttpAnalysis, now: u64)
        ensures
            *final(self) == touched(
                TrafficProfile { http: Some(merged_http(old(self).http, http)), ..*old(self) },
                now,
            ),
            final(self).completeness_ok(),
    {
        let prev = self.http.take();
        self.http = Some(merge_http_analysis(prev, http));
        self.update_metadata(now);
    }
}

/// Parts joined with a separator: empty for no parts, and otherwise the
/// parts in order with the separator between each adjacent pair.
pub open spec fn joined(parts: Seq<Seq<char>>, sep: Seq<char>) -> Seq<char>
    decreases parts.len(),
{
    if parts.len() == 0 {
        Seq::empty()
    } else if parts.len() == 1 {
        parts[0]
    } else {
        joined(parts.drop_last(), sep) + sep + parts.last()
    }
}

/// Joining two parts places the separator once between them.
pub proof fn lemma_joined_two(a: Seq<char>, b: Seq<char>, sep: Seq<char>)
    ensures
        joined(seq![a, b], sep) == a + sep + b,
{
    assert(seq![a, b].drop_last() =~= seq![a]);
    assert(seq![a, b].last() == b);
    assert(joined(seq![a], sep) == a);
}

/// Joining three parts places the separator once between each adjacent pair.
pub proof fn lemma_joined_three(a: Seq<char>, b: Seq<char>, c: Seq<char>, sep: Seq<char>)
    ensures
        joined(seq![a, b, c], sep) == a + sep + b + sep + c,
{
    assert(seq![a, b, c].drop_last() =~= seq![a, b]);
    assert(seq![a, b, c].last() == c);
    lemma_joined_two(a, b, sep);
}

/// The category names present in a profile, in the order `summary` reports them.
pub open spec fn summary_parts(p: TrafficProfile) -> Seq<Seq<char>> {
    (if p.tcp is Some {
        seq!["TCP"@]
    } else {
        Seq::empty()
    }) + (if p.tcp_client is Some {
        seq!["TCP-Client"@]
    } else {
        Seq::empty()
    }) + (if p.tcp_server is Some {
        seq!["TCP-Server"@]
    } else {
        Seq::empty()
    }) + (if p.http is Some {
        seq!["HTTP"@]
    } else {
        Seq::empty()
    }) + (if p.tls is Some {
        seq!["TLS"@]
    } else {
        Seq::empty()
    })
}

/// What `summary` returns: the present category names joined with `" + "`,
/// or `"No data"` when none is present.
pub open spec fn spec_summary(p: TrafficProfile) -> Seq<char> {
    if summary_parts(p).len() == 0 {
        "No data"@
    } else {
        joined(summary_parts(p), " + "@)
    }
}

impl TrafficProfile {
    /// Get a summary string of the categories with data, such as
    /// `"TCP + HTTP"`, or `"No data"` for an empty profile.
    pub fn summary(&self) -> (r: String)
        ensures
            r@ == spec_summary(*self),
    {
        let mut parts: Vec<&str> = Vec::new();
        let ghost mut gparts: Seq<Seq<char>> = Seq::empty();
        if self.tcp.is_some() {
            parts.push("TCP");
            proof {
                gparts = gparts.push("TCP"@);
            }
        }
        if self.tcp_client.is_some() {
            parts.push("TCP-Client");
            proof {
                gparts = gparts.push("TCP-Client"@);
            }
        }
        if self.tcp_server.is_some() {
            parts.push("TCP-Server");
            proof {
                gparts = gparts.push("TCP-Server"@);
            }
        }
        if self.http.is_some() {
            parts.push("HTTP");
            proof {
                gparts = gparts.push("HTTP"@);
            }
        }
        if self.tls.is_some() {
            parts.push("TLS");
            proof {
                gparts = gparts.push("TLS"@);
            }
        }
        proof {
            assert(gparts =~= summary_parts(*self));
            assert(parts@.len() == gparts.len());
        }
        if parts.len() == 0 {
            return "No data".to_owned();
        }
        let mut out = String::new();
        let mut i: usize = 0;
        while i < parts.len()
            invariant
                0 < parts@.len() == gparts.len(),
                i <= parts@.len(),
                forall|j: int| 0 <= j < parts@.len() ==> parts@[j]@ == gparts[j],
                out@ == joined(gparts.take(i as int), " + "@),
            decreases parts@.len() - i,
        {
            if i > 0 {
                out.append(" + ");
            }
            out.append(parts[i]);
            proof {
                let pre = gparts.take(i as int);
                let post = gparts.take(i + 1 as int);
                assert(post.drop_last() =~= pre);
                assert(post.last() == gparts[i as int]);
                if i == 0 {
                    assert(joined(post, " + "@) == gparts[0]);
                    assert(out@ =~= joined(post, " + "@));
                } else {
                    assert(joined(post, " + "@) == joined(pre, " + "@) + " + "@ + gparts[i as int]);
                    assert(out@ =~= joined(post, " + "@));
                }
            }
            i += 1;
        }
        proof {
            assert(gparts.take(gparts.len() as int) =~= gparts);
        }
        out
    }
}

/// How an incoming HTTP fragment folds into the stored analysis, if any.
pub open spec fn merged_http(prev: Option<HttpAnalysis>, new: HttpAnalysis) -> HttpAnalysis {
    match prev {
        None => new,
        Some(e) => HttpAnalysis {
            request: if new.request is Some {
                new.request
            } else {
                e.request
            },
            response: if new.response is Some {
                new.response
            } else {
                e.response
            },
            browser: if new.quality > e.quality {
                new.browser
            } else {
                e.browser
            },
            quality: if new.quality > e.quality {
                new.quality
            } else {
                e.quality
            },
            language: if new.quality > e.quality {
                new.language
            } else {
                e.language
            },
            diagnosis: if new.quality > e.quality {
                new.diagnosis
            } else {
                e.diagnosis
            },
            signature: if new.quality > e.quality {
                new.signature
            } else {
                e.signature
            },
            details: if new.quality > e.quality {
                new.details
            } else {
                e.details
            },
        },
    }
}

/// Equality of TLS details up to the abstract contents of the numeric lists.
pub open spec fn tls_details_eq(a: TlsDetails, b: TlsDetails) -> bool {
    a.version == b.version && a.sni == b.sni && a.alpn == b.alpn && a.cipher_suites@ == b.cipher_suites@
        && a.extensions@ == b.extensions@ && a.signature_algorithms@ == b.signature_algorithms@
        && a.elliptic_curves@ == b.elliptic_curves@
}

/// Equality of TLS analyses up to the abstract contents of the numeric lists.
pub open spec fn tls_analysis_eq(a: TlsAnalysis, b: TlsAnalysis) -> bool {
    a.ja4 == b.ja4 && a.ja4_raw == b.ja4_raw && a.ja4_original == b.ja4_original
        && a.ja4_original_raw == b.ja4_original_raw && tls_details_eq(a.details, b.details)
}

/// Equality of optional TLS analyses, pointwise.
pub open spec fn tls_opt_eq(a: Option<TlsAnalysis>, b: Option<TlsAnalysis>) -> bool {
    match (a, b) {
        (Option::None, Option::None) => true,
        (Option::Some(x), Option::Some(y)) => tls_analysis_eq(x, y),
        _ => false,
    }
}

/// Equality of TLS client records up to the abstract contents of the lists.
pub open spec fn tls_client_eq(a: TlsClientData, b: TlsClientData) -> bool {
    a.source == b.source && a.ja4 == b.ja4 && a.ja4_raw == b.ja4_raw && tls_details_eq(a.details, b.details)
        && a.timestamp == b.timestamp
}

/// Equality of optional TLS client records, pointwise.
pub open spec fn tls_client_opt_eq(a: Option<TlsClientData>, b: Option<TlsClientData>) -> bool {
    match (a, b) {
        (Option::None, Option::None) => true,
        (Option::Some(x), Option::Some(y)) => tls_client_eq(x, y),
        _ => false,
    }
}

/// Equality of raw fingerprint data up to the abstract contents of TLS lists.
pub open spec fn raw_data_eq(a: RawFingerprintData, b: RawFingerprintData) -> bool {
    a.syn == b.syn && a.syn_ack == b.syn_ack && a.mtu == b.mtu && a.uptime == b.uptime
        && a.http_request == b.http_request && a.http_response == b.http_response && tls_client_opt_eq(
        a.tls_client,
        b.tls_client,
    ) && a.source_ip == b.source_ip
}

/// Equality of whole profiles up to the abstract contents of TLS lists.
/// This is what a clone of a profile preserves.
pub open spec fn profile_eq(a: TrafficProfile, b: TrafficProfile) -> bool {
    a.ip == b.ip && a.port == b.port && a.timestamp == b.timestamp && raw_data_eq(a.raw_data, b.raw_data)
        && a.tcp == b.tcp && a.tcp_client == b.tcp_client && a.tcp_server == b.tcp_server && a.http == b.http
        && tls_opt_eq(a.tls, b.tls) && a.metadata == b.metadata
}

impl Clone for NetworkEndpoint {
    fn clone(&self) -> (r: Self)
        ensures
            r == *self,
    {
        NetworkEndpoint { ip: self.ip.clone(), port: self.port }
    }
}

impl Clone for OsDetection {
    fn clone(&self) -> (r: Self)
        ensures
            r == *self,
    {
        OsDetection { os: self.os.clone(), quality: self.quality, distance: self.distance }
    }
}

impl Clone for TcpDetails {
    fn clone(&self) -> (r: Self)
        ensures
            r == *self,
    {
        TcpDetails {
            version: self.version.clone(),
            initial_ttl: self.initial_ttl.clone(),
            options_length: self.options_length,
            mss: self.mss,
            window_size: self.window_size.clone(),
            window_scale: self.window_scale,
            options_layout: self.options_layout.clone(),
            quirks: self.quirks.clone(),
            payload_class: self.payload_class.clone(),
        }
    }
}

impl Clone for HttpDetails {
    fn clone(&self) -> (r: Self)
        ensures
            r == *self,
    {
        HttpDetails {
            version: self.version.clone(),
            header_order: self.header_order.clone(),
            headers_absent: self.headers_absent.clone(),
            expected_software: self.expected_software.clone(),
        }
    }
}

impl Clone for TlsDetails {
    fn clone(&self) -> (r: Self)
        ensures
            tls_details_eq(r, *self),
    {
        let r = TlsDetails {
            version: self.version.clone(),
            sni: self.sni.clone(),
            alpn: self.alpn.clone(),
            cipher_suites: self.cipher_suites.clone(),
            extensions: self.extensions.clone(),
            signature_algorithms: self.signature_algorithms.clone(),
            elliptic_curves: self.elliptic_curves.clone(),
        };
        proof {
            assert(r.cipher_suites@ =~= self.cipher_suites@);
            assert(r.extensions@ =~= self.extensions@);
            assert(r.signature_algorithms@ =~= self.signature_algorithms@);
            assert(r.elliptic_curves@ =~= self.elliptic_curves@);
        }
        r
    }
}

impl Clone for SynPacketData {
    fn clone(&self) -> (r: Self)
        ensures
            r == *self,
    {
        SynPacketData {
            source: self.source.clone(),
            os_detected: self.os_detected.clone(),
            signature: self.signature.clone(),
            details: self.details.clone(),
            timestamp: self.timestamp,
        }
    }
}

impl Clone for SynAckPacketData {
    fn clone(&self) -> (r: Self)
        ensures
            r == *self,
    {
        SynAckPacketData {
            source: self.source.clone(),
            destination: self.destination.clone(),
            os_detected: self.os_detected.clone(),
            signature: self.signature.clone(),
            details: self.details.clone(),
            timestamp: self.timestamp,
        }
    }
}

impl Clone for MtuData {
    fn clone(&self) -> (r: Self)
        ensures
            r == *self,
    {
        MtuData { source: self.source.clone(), mtu_value: self.mtu_value, timestamp: self.timestamp }
    }
}

impl Clone for UptimeData {
    fn clone(&self) -> (r: Self)
        ensures
            r == *self,
    {
        UptimeData { source: self.source.clone(), uptime_seconds: self.uptime_seconds, timestamp: self.timestamp }
    }
}

impl Clone for TlsClientData {
    fn clone(&self) -> (r: Self)
        ensures
            tls_client_eq(r, *self),
    {
        TlsClientData {
            source: self.source.clone(),
            ja4: self.ja4.clone(),
            ja4_raw: self.ja4_raw.clone(),
            details: self.details.clone(),
            timestamp: self.timestamp,
        }
    }
}

impl Clone for HttpRequestData {
    fn clone(&self) -> (r: Self)
        ensures
            r == *self,
    {
        HttpRequestData {
            user_agent: self.user_agent.clone(),
            accept: self.accept.clone(),
            accept_language: self.accept_language.clone(),
            accept_encoding: self.accept_encoding.clone(),
            connection: self.connection.clone(),
            method: self.method.clone(),
            host: self.host.clone(),
            signature: self.signature.clone(),
            quality: self.quality,
        }
    }
}

impl Clone for HttpResponseData {
    fn clone(&self) -> (r: Self)
        ensures
            r == *self,
    {
        HttpResponseData {
            server: self.server.clone(),
            content_type: self.content_type.clone(),
            content_length: self.content_length.clone(),
            set_cookie: self.set_cookie.clone(),
            cache_control: self.cache_control.clone(),
            status: self.status.clone(),
            signature: self.signature.clone(),
            quality: self.quality,
        }
    }
}

impl Clone for RawFingerprintData {
    fn clone(&self) -> (r: Self)
        ensures
            raw_data_eq(r, *self),
    {
        let tls_client = match &self.tls_client {
            Some(t) => Some(t.clone()),
            None => None,
        };
        RawFingerprintData {
            syn: self.syn.clone(),
            syn_ack: self.syn_ack.clone(),
            mtu: self.mtu.clone(),
            uptime: self.uptime.clone(),
            http_request: self.http_request.clone(),
            http_response: self.http_response.clone(),
            tls_client,
            source_ip: self.source_ip.clone(),
        }
    }
}

impl Clone for TcpAnalysis {
    fn clone(&self) -> (r: Self)
        ensures
            r == *self,
    {
        TcpAnalysis {
            os: self.os.clone(),
            quality: self.quality,
            distance: self.distance,
            signature: self.signature.clone(),
            details: self.details.clone(),
        }
    }
}

impl Clone for HttpAnalysis {
    fn clone(&self) -> (r: Self)
        ensures
            r == *self,
    {
        HttpAnalysis {
            browser: self.browser.clone(),
            quality: self.quality,
            language: self.language.clone(),
            diagnosis: self.diagnosis.clone(),
            signature: self.signature.clone(),
            details: self.details.clone(),
            request: self.request.clone(),
            response: self.response.clone(),
        }
    }
}

impl Clone for TlsAnalysis {
    fn clone(&self) -> (r: Self)
        ensures
            tls_analysis_eq(r, *self),
    {
        TlsAnalysis {
            ja4: self.ja4.clone(),
            ja4_raw: self.ja4_raw.clone(),
            ja4_original: self.ja4_original.clone(),
            ja4_original_raw: self.ja4_original_raw.clone(),
            details: self.details.clone(),
        }
    }
}

impl Clone for TrafficProfile {
    fn clone(&self) -> (r: Self)
        ensures
            profile_eq(r, *self),
    {
        let tls = match &self.tls {
            Some(t) => Some(t.clone()),
            None => None,
        };
        TrafficProfile {
            ip: self.ip.clone(),
            port: self.port,
            timestamp: self.timestamp,
            raw_data: self.raw_data.clone(),
            tcp: self.tcp.clone(),
            tcp_client: self.tcp_client.clone(),
            tcp_server: self.tcp_server.clone(),
            http: self.http.clone(),
            tls,
            metadata: self.metadata,
        }
    }
}

/// Fold an incoming HTTP fragment into the previously stored analysis.
pub(crate) fn merge_http_analysis(prev: Option<HttpAnalysis>, new: HttpAnalysis) -> (r: HttpAnalysis)
    ensures
        r == merged_http(prev, new),
{
    match prev {
        None => new,
        Some(e) => {
            let better = new.quality > e.quality;
            HttpAnalysis {
                request: if new.request.is_some() {
                    new.request
                } else {
                    e.request
                },
                response: if new.response.is_some() {
                    new.response
                } else {
                    e.response
                },
                browser: if better {
                    new.browser
                } else {
                    e.browser
                },
                quality: if better {
                    new.quality
                } else {
                    e.quality
                },
                language: if better {
                    new.language
                } else {
                    e.language
                },
                diagnosis: if better {
                    new.diagnosis
                } else {
                    e.diagnosis
                },
                signature: if better {
                    new.signature
                } else {
                    e.signature
                },
                details: if better {
                    new.details
                } else {
                    e.details
                },
            }
        },
    }
}

} // verus!
