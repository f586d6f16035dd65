//! The analyzer: turns one fingerprint event into a fresh single-event
//! profile, applying the per-category quality threshold and the fixed
//! IP-extraction priority order.

use vstd::prelude::*;
use crate::error::HuginnError;
use crate::events::{EventDispatcher, TrafficEvent};
use crate::fingerprint::{
    FingerprintEvent, HttpRequestEvent, HttpResponseEvent, LabelMatch, MtuEvent, SynAckEvent, SynEvent,
    TlsClientEvent, UptimeEvent, label_text, match_quality, primary_ip,
};
use crate::profile::{
    HttpAnalysis, HttpRequestData, HttpResponseData, MtuData, OsDetection, SynAckPacketData, SynPacketData,
    TcpAnalysis, TlsClientData, TrafficProfile, UptimeData, tls_details_eq,
};

verus! {

/// Configuration for the analyzer.  `min_quality` is the confidence
/// threshold in hundredths: fragments whose match confidence falls below it
/// are dropped for that category only.
pub struct AnalyzerConfig {
    /// Whether to enable TCP analysis
    pub enable_tcp: bool,
    /// Whether to enable HTTP analysis
    pub enable_http: bool,
    /// Whether to enable TLS analysis
    pub enable_tls: bool,
    /// Minimum confidence for results, in hundredths
    pub min_quality: u32,
}

impl Clone for AnalyzerConfig {
    fn clone(&self) -> (r: Self)
        ensures
            r == *self,
    {
        AnalyzerConfig {
            enable_tcp: self.enable_tcp,
            enable_http: self.enable_http,
            enable_tls: self.enable_tls,
            min_quality: self.min_quality,
        }
    }
}

impl Default for AnalyzerConfig {
    /// All categories enabled, no confidence floor.
    fn default() -> (r: Self)
        ensures
            r.enable_tcp && r.enable_http && r.enable_tls,
            r.min_quality == 0,
    {
        AnalyzerConfig { enable_tcp: true, enable_http: true, enable_tls: true, min_quality: 0 }
    }
}

/// An ASCII upper-case letter folded to lower case; everything else kept.
pub open spec fn ascii_lower_char(c: char) -> char {
    if 'A' <= c && c <= 'Z' {
        (((c as u8) + 32) as char)
    } else {
        c
    }
}

/// ASCII-lower-cased text.
pub open spec fn lower_seq(s: Seq<char>) -> Seq<char> {
    s.map_values(|c: char| ascii_lower_char(c))
}

/// The position of the first occurrence of `c` in `s`, if any.
pub open spec fn find_char(s: Seq<char>, c: char) -> Option<int>
    decreases s.len(),
{
    if s.len() == 0 {
        None
    } else if s[0] == c {
        Some(0)
    } else {
        match find_char(s.drop_first(), c) {
            Some(i) => Some(i + 1),
            None => None,
        }
    }
}

/// A found character stands inside the text, on an occurrence of itself.
pub proof fn lemma_find_char_in_range(s: Seq<char>, c: char)
    ensures
        find_char(s, c) matches Some(i) ==> 0 <= i < s.len() && s[i] == c,
    decreases s.len(),
{
    if s.len() > 0 && s[0] != c {
        lemma_find_char_in_range(s.drop_first(), c);
    }
}

/// The position of the first `'='` in `s`, if any.
pub open spec fn find_eq(s: Seq<char>) -> Option<int> {
    find_char(s, '=')
}

/// A bracketed value `[v]` stripped to `v`; anything else kept whole.
pub open spec fn strip_brackets(v: Seq<char>) -> Seq<char> {
    if v.len() >= 2 && v[0] == '[' && v.last() == ']' {
        v.subrange(1, v.len() - 1)
    } else {
        v
    }
}

/// What one `name=[value]` header contributes for a looked-up name: its
/// stripped value when the name matches case-insensitively, nothing when it
/// does not or when the header carries no `'='`.
pub open spec fn header_value_of(h: Seq<char>, name: Seq<char>) -> Option<Seq<char>> {
    match find_eq(h) {
        None => None,
        Some(i) => if lower_seq(h.take(i)) == lower_seq(name) {
            Some(strip_brackets(h.skip(i + 1)))
        } else {
            None
        },
    }
}

/// The first header in order that yields a value for the looked-up name.
pub open spec fn extract_from_horder(horder: Seq<String>, name: Seq<char>) -> Option<Seq<char>>
    decreases horder.len(),
{
    if horder.len() == 0 {
        None
    } else {
        match header_value_of(horder[0]@, name) {
            Some(v) => Some(v),
            None => extract_from_horder(horder.drop_first(), name),
        }
    }
}

/// Skipping headers that yield nothing does not change the extraction.
proof fn lemma_extract_skip(horder: Seq<String>, name: Seq<char>, k: int)
    requires
        0 <= k <= horder.len(),
        forall|j: int| 0 <= j < k ==> header_value_of(horder[j]@, name) is None,
    ensures
        extract_from_horder(horder, name) == extract_from_horder(horder.skip(k), name),
    decreases k,
{
    if k > 0 {
        assert(horder.drop_first() =~= horder.skip(1));
        lemma_extract_skip(horder.skip(1), name, k - 1);
        assert(horder.skip(1).skip(k - 1) =~= horder.skip(k));
    } else {
        assert(horder.skip(0) =~= horder);
    }
}

/// The position of the first occurrence of a character in a string.
pub fn find_char_str(h: &str, c: char) -> (r: Option<usize>)
    ensures
        r is Some <==> find_char(h@, c) is Some,
        r matches Some(i) ==> find_char(h@, c) == Some(i as int) && i < h@.len(),
    decreases h@.len(),
{
    let n = h.unicode_len();
    if n == 0 {
        None
    } else if h.get_char(0) == c {
        Some(0)
    } else {
        let rest = h.substring_char(1, n);
        proof {
            assert(rest@ =~= h@.drop_first());
        }
        match find_char_str(rest, c) {
            Some(i) => Some(i + 1),
            None => None,
        }
    }
}

/// ASCII lower-casing of one character.
pub fn lower_char(c: char) -> (r: char)
    ensures
        r == ascii_lower_char(c),
{
    if c >= 'A' && c <= 'Z' {
        ((c as u8) + 32) as char
    } else {
        c
    }
}

/// Whether the first `upto` characters of `h` spell `name`, ASCII
/// case-insensitively.
fn eq_ignore_case_prefix(h: &str, upto: usize, name: &str) -> (r: bool)
    requires
        upto <= h@.len(),
    ensures
        r == (lower_seq(h@.take(upto as int)) == lower_seq(name@)),
{
    let name_len = name.unicode_len();
    if name_len != upto {
        proof {
            assert(lower_seq(h@.take(upto as int)).len() == upto);
            assert(lower_seq(name@).len() == name@.len());
        }
        return false;
    }
    let mut j: usize = 0;
    while j < upto
        invariant
            upto <= h@.len(),
            name@.len() == upto,
            j <= upto,
            forall|t: int| 0 <= t < j ==> ascii_lower_char(h@[t]) == ascii_lower_char(name@[t]),
        decreases upto - j,
    {
        let hc = lower_char(h.get_char(j));
        let nc = lower_char(name.get_char(j));
        if hc != nc {
            proof {
                assert(lower_seq(h@.take(upto as int))[j as int] == ascii_lower_char(h@[j as int]));
                assert(lower_seq(name@)[j as int] == ascii_lower_char(name@[j as int]));
            }
            return false;
        }
        j += 1;
    }
    proof {
        assert(lower_seq(h@.take(upto as int)) =~= lower_seq(name@));
    }
    true
}

/// Look one header name up in the rendered header order, returning its
/// (bracket-stripped) value.
fn extract_header_value_from_horder(horder: &Vec<String>, header_name: &str) -> (r: Option<String>)
    ensures
        r is Some <==> extract_from_horder(horder@, header_name@) is Some,
        r matches Some(s) ==> extract_from_horder(horder@, header_name@) == Some(s@),
{
    let mut k: usize = 0;
    while k < horder.len()
        invariant
            k <= horder@.len(),
            forall|j: int| 0 <= j < k ==> header_value_of(#[trigger] horder@[j]@, header_name@) is None,
        decreases horder@.len() - k,
    {
        let h: &String = &horder[k];
        proof {
            lemma_extract_skip(horder@, header_name@, k as int);
            assert(horder@.skip(k as int)[0] == horder@[k as int]);
            assert(horder@.skip(k as int).drop_first() =~= horder@.skip(k as int + 1));
        }
        match find_char_str(h.as_str(), '=') {
            Some(i) => {
                proof {
                    lemma_find_char_in_range(h@, '=');
                }
                if eq_ignore_case_prefix(h.as_str(), i, header_name) {
                    let n = h.as_str().unicode_len();
                    let value = h.as_str().substring_char(i + 1, n);
                    proof {
                        assert(value@ =~= h@.skip(i + 1));
                    }
                    let vlen = n - (i + 1);
                    proof {
                        assert(value@.len() == vlen);
                    }
                    if vlen >= 2 && value.get_char(0) == '[' && value.get_char(vlen - 1) == ']' {
                        let stripped = value.substring_char(1, vlen - 1);
                        proof {
                            assert(stripped@ =~= strip_brackets(h@.skip(i + 1)));
                        }
                        return Some(stripped.to_owned());
                    } else {
                        proof {
                            assert(value@ =~= strip_brackets(h@.skip(i + 1)));
                        }
                        return Some(value.to_owned());
                    }
                }
            },
            None => {},
        }
        k += 1;
    }
    proof {
        lemma_extract_skip(horder@, header_name@, k as int);
        assert(horder@.skip(k as int) =~= Seq::<String>::empty());
    }
    None
}

/// The label text a match yields, or `"Unknown"` where nothing matched.
pub open spec fn os_text(m: Option<LabelMatch>) -> Seq<char> {
    match m {
        Option::Some(lm) => label_text(lm.label),
        Option::None => "Unknown"@,
    }
}

/// An optional built string carries exactly an optional spec text.
pub open spec fn opt_text_eq(a: Option<String>, b: Option<Seq<char>>) -> bool {
    match (a, b) {
        (Option::None, Option::None) => true,
        (Option::Some(s), Option::Some(t)) => s@ == t,
        _ => false,
    }
}

/// A TCP analysis derived from one observation: label or `"Unknown"`, the
/// match confidence, and the observation's distance, signature and details.
pub open spec fn tcp_analysis_matches(
    a: TcpAnalysis,
    m: Option<LabelMatch>,
    distance: u8,
    signature: String,
    details: crate::profile::TcpDetails,
) -> bool {
    a.os@ == os_text(m) && a.quality == match_quality(m) && a.distance == distance && a.signature == signature
        && a.details == details
}

/// The raw record kept for a SYN observation.
pub open spec fn syn_data_matches(d: SynPacketData, e: SynEvent, now: u64) -> bool {
    d.source == e.source && d.signature == e.signature && d.details == e.details && d.timestamp == now && (match e
        .os_matched {
        Option::None => d.os_detected is None,
        Option::Some(m) => d.os_detected matches Some(od) && od.os@ == label_text(m.label) && od.quality == m.quality
            && od.distance == e.distance,
    })
}

/// The raw record kept for a SYN-ACK observation.
pub open spec fn syn_ack_data_matches(d: SynAckPacketData, e: SynAckEvent, now: u64) -> bool {
    d.source == e.source && d.destination == e.destination && d.signature == e.signature && d.details == e.details
        && d.timestamp == now && (match e.os_matched {
        Option::None => d.os_detected is None,
        Option::Some(m) => d.os_detected matches Some(od) && od.os@ == label_text(m.label) && od.quality == m.quality
            && od.distance == e.distance,
    })
}

/// The request record built from an HTTP request observation's headers.
pub open spec fn request_data_matches(d: HttpRequestData, e: HttpRequestEvent) -> bool {
    opt_text_eq(d.user_agent, extract_from_horder(e.horder@, "user-agent"@)) && opt_text_eq(
        d.accept,
        extract_from_horder(e.horder@, "accept"@),
    ) && opt_text_eq(d.accept_language, extract_from_horder(e.horder@, "accept-language"@)) && opt_text_eq(
        d.accept_encoding,
        extract_from_horder(e.horder@, "accept-encoding"@),
    ) && opt_text_eq(d.connection, extract_from_horder(e.horder@, "connection"@)) && (d.method matches Some(m)
        && m@ == "GET"@) && opt_text_eq(d.host, extract_from_horder(e.horder@, "host"@)) && d.signature == e.signature
        && d.quality == match_quality(e.browser_matched)
}

/// The response record built from an HTTP response observation's headers.
pub open spec fn response_data_matches(d: HttpResponseData, e: HttpResponseEvent) -> bool {
    opt_text_eq(d.server, extract_from_horder(e.horder@, "server"@)) && opt_text_eq(
        d.content_type,
        extract_from_horder(e.horder@, "content-type"@),
    ) && opt_text_eq(d.content_length, extract_from_horder(e.horder@, "content-length"@)) && opt_text_eq(
        d.set_cookie,
        extract_from_horder(e.horder@, "set-cookie"@),
    ) && opt_text_eq(d.cache_control, extract_from_horder(e.horder@, "cache-control"@)) && (d.status matches Some(st)
        && st@ == "200"@) && d.signature == e.signature && d.quality == match_quality(e.web_server_matched)
}

/// The raw record kept for a TLS client observation.
pub open spec fn tls_client_data_matches(d: TlsClientData, e: TlsClientEvent, now: u64) -> bool {
    d.source == e.source && d.ja4 == e.ja4 && d.ja4_raw == e.ja4_raw && tls_details_eq(d.details, e.details)
        && d.timestamp == now
}

/// The raw record kept for an MTU observation.
pub open spec fn mtu_data_matches(d: MtuData, e: MtuEvent, now: u64) -> bool {
    d.source == e.source && d.mtu_value == e.mtu && d.timestamp == now
}

/// The raw record kept for an uptime observation: the engine's days, hours
/// and minutes reduced to seconds.
pub open spec fn uptime_data_matches(d: UptimeData, e: UptimeEvent, now: u64) -> bool {
    d.source == e.source && d.uptime_seconds == e.days as int * 86400 + e.hours as int * 3600 + e.min as int * 60
        && d.timestamp == now
}

/// The HTTP analysis built from a request observation alone.
pub open spec fn http_request_analysis_matches(a: HttpAnalysis, e: HttpRequestEvent) -> bool {
    a.browser@ == os_text(e.browser_matched) && a.quality == match_quality(e.browser_matched) && a.language == e.lang
        && a.diagnosis == e.diagnosis && a.signature == e.signature && a.details == e.details && (a.request
        matches Some(d) && request_data_matches(d, e)) && a.response is None
}

/// The HTTP analysis built from a response observation alone.
pub open spec fn http_response_analysis_matches(a: HttpAnalysis, e: HttpResponseEvent) -> bool {
    a.browser@ == os_text(e.web_server_matched) && a.quality == match_quality(e.web_server_matched) && a.language
        is None && a.diagnosis == e.diagnosis && a.signature == e.signature && a.details == e.details && (a.response
        matches Some(d) && response_data_matches(d, e)) && a.request is None
}

/// Whether the event's TCP client fragment clears the threshold.
pub open spec fn tcp_accepted(c: AnalyzerConfig, e: FingerprintEvent) -> bool {
    e.syn is Some && c.enable_tcp && match_quality(e.syn->0.os_matched) >= c.min_quality
}

/// Whether the event's TCP server fragment clears the threshold.
pub open spec fn tcp_server_accepted(c: AnalyzerConfig, e: FingerprintEvent) -> bool {
    e.syn_ack is Some && c.enable_tcp && match_quality(e.syn_ack->0.os_matched) >= c.min_quality
}

/// Whether the event's HTTP request fragment clears the threshold.
pub open spec fn http_request_accepted(c: AnalyzerConfig, e: FingerprintEvent) -> bool {
    e.http_request is Some && c.enable_http && match_quality(e.http_request->0.browser_matched) >= c.min_quality
}

/// Whether the event's HTTP response fragment clears the threshold.
pub open spec fn http_response_accepted(c: AnalyzerConfig, e: FingerprintEvent) -> bool {
    e.http_response is Some && c.enable_http && match_quality(e.http_response->0.web_server_matched) >= c.min_quality
}

/// Whether the event's TLS fragment is taken (TLS carries no confidence
/// threshold).
pub open spec fn tls_accepted(c: AnalyzerConfig, e: FingerprintEvent) -> bool {
    e.tls_client is Some && c.enable_tls
}

/// How many category fragments of the event are accepted.
pub open spec fn accepted_count(c: AnalyzerConfig, e: FingerprintEvent) -> int {
    (if tcp_accepted(c, e) {
        1int
    } else {
        0
    }) + (if tcp_server_accepted(c, e) {
        1int
    } else {
        0
    }) + (if http_request_accepted(c, e) {
        1int
    } else {
        0
    }) + (if http_response_accepted(c, e) {
        1int
    } else {
        0
    }) + (if tls_accepted(c, e) {
        1int
    } else {
        0
    })
}

/// Whether any category fragment of the event is accepted.
pub open spec fn any_accepted(c: AnalyzerConfig, e: FingerprintEvent) -> bool {
    tcp_accepted(c, e) || tcp_server_accepted(c, e) || http_request_accepted(c, e) || http_response_accepted(c, e)
        || tls_accepted(c, e)
}

/// Everything `analyze` promises of the single-event profile it returns.
pub open spec fn analyzed_matches(p: TrafficProfile, c: AnalyzerConfig, e: FingerprintEvent, now: u64) -> bool {
    &&& primary_ip(e) matches Some(ipt) && p.ip@ == ipt
    &&& p.port == 0
    &&& p.timestamp == now
    &&& (match e.syn {
        Option::Some(se) => p.raw_data.syn matches Some(d) && syn_data_matches(d, se, now),
        Option::None => p.raw_data.syn is None,
    })
    &&& (match e.syn_ack {
        Option::Some(se) => p.raw_data.syn_ack matches Some(d) && syn_ack_data_matches(d, se, now),
        Option::None => p.raw_data.syn_ack is None,
    })
    &&& (match e.http_request {
        Option::Some(he) => p.raw_data.http_request matches Some(d) && request_data_matches(d, he),
        Option::None => p.raw_data.http_request is None,
    })
    &&& (match e.http_response {
        Option::Some(he) => p.raw_data.http_response matches Some(d) && response_data_matches(d, he),
        Option::None => p.raw_data.http_response is None,
    })
    &&& (match e.tls_client {
        Option::Some(te) => p.raw_data.tls_client matches Some(d) && tls_client_data_matches(d, te, now),
        Option::None => p.raw_data.tls_client is None,
    })
    &&& (match e.mtu {
        Option::Some(me) => p.raw_data.mtu matches Some(d) && mtu_data_matches(d, me, now),
        Option::None => p.raw_data.mtu is None,
    })
    &&& (match e.uptime {
        Option::Some(ue) => p.raw_data.uptime matches Some(d) && uptime_data_matches(d, ue, now),
        Option::None => p.raw_data.uptime is None,
    })
    &&& p.raw_data.source_ip matches Some(s) && s@ == p.ip@
    &&& (if tcp_accepted(c, e) {
        p.tcp matches Some(a) && tcp_analysis_matches(
            a,
            e.syn->0.os_matched,
            e.syn->0.distance,
            e.syn->0.signature,
            e.syn->0.details,
        ) && p.tcp_client == p.tcp
    } else {
        p.tcp is None && p.tcp_client is None
    })
    &&& (if tcp_server_accepted(c, e) {
        p.tcp_server matches Some(a) && tcp_analysis_matches(
            a,
            e.syn_ack->0.os_matched,
            e.syn_ack->0.distance,
            e.syn_ack->0.signature,
            e.syn_ack->0.details,
        )
    } else {
        p.tcp_server is None
    })
    &&& (if http_request_accepted(c, e) && http_response_accepted(c, e) {
        p.http matches Some(a) && {
            let rq = e.http_request->0;
            let rs = e.http_response->0;
            &&& a.request matches Some(d) && request_data_matches(d, rq)
            &&& a.response matches Some(d2) && response_data_matches(d2, rs)
            &&& (if match_quality(rs.web_server_matched) > match_quality(rq.browser_matched) {
                a.browser@ == os_text(rs.web_server_matched) && a.quality == match_quality(rs.web_server_matched)
                    && a.language is None && a.diagnosis == rs.diagnosis && a.signature == rs.signature && a.details
                    == rs.details
            } else {
                a.browser@ == os_text(rq.browser_matched) && a.quality == match_quality(rq.browser_matched)
                    && a.language == rq.lang && a.diagnosis == rq.diagnosis && a.signature == rq.signature
                    && a.details == rq.details
            })
        }
    } else if http_request_accepted(c, e) {
        p.http matches Some(a) && http_request_analysis_matches(a, e.http_request->0)
    } else if http_response_accepted(c, e) {
        p.http matches Some(a) && http_response_analysis_matches(a, e.http_response->0)
    } else {
        p.http is None
    })
    &&& (if tls_accepted(c, e) {
        p.tls matches Some(a) && {
            let te = e.tls_client->0;
            a.ja4 == te.ja4 && a.ja4_raw == te.ja4_raw && a.ja4_original == te.ja4_original && a.ja4_original_raw
                == te.ja4_original_raw && tls_details_eq(a.details, te.details)
        }
    } else {
        p.tls is None
    })
    &&& p.metadata.first_seen == now
    &&& p.metadata.last_updated == now
    &&& p.metadata.packet_count == accepted_count(c, e)
    &&& p.completeness_ok()
}

/// Main analyzer that turns fingerprint events into single-event profiles.
pub struct HuginnAnalyzer {
    config: AnalyzerConfig,
    event_dispatcher: EventDispatcher,
}

impl HuginnAnalyzer {
    /// The analyzer's configuration.
    pub closed spec fn spec_config(&self) -> AnalyzerConfig {
        self.config
    }

    /// Create a new analyzer with the default configuration.
    pub fn new() -> (r: Self)
        ensures
            r.spec_config().enable_tcp && r.spec_config().enable_http && r.spec_config().enable_tls,
            r.spec_config().min_quality == 0,
    {
        HuginnAnalyzer { config: AnalyzerConfig::default(), event_dispatcher: EventDispatcher::new() }
    }

    /// Create a new analyzer with a custom configuration.
    pub fn with_config(config: AnalyzerConfig) -> (r: Self)
        ensures
            r.spec_config() == config,
    {
        HuginnAnalyzer { config, event_dispatcher: EventDispatcher::new() }
    }

    /// Get a mutable reference to the event dispatcher.
    pub fn event_dispatcher_mut(&mut self) -> (r: &mut EventDispatcher)
        ensures
            final(self).spec_config() == old(self).spec_config(),
    {
        &mut self.event_dispatcher
    }

    /// Pick the profile key for an event: the first present observation's
    /// client address, in the fixed priority order.
    fn extract_primary_ip(&self, result: &FingerprintEvent) -> (r: Option<String>)
        ensures
            r is Some <==> primary_ip(*result) is Some,
            r matches Some(ip) ==> primary_ip(*result) == Some(ip@),
    {
        if let Some(syn) = &result.syn {
            Some(syn.source.ip.clone())
        } else if let Some(syn_ack) = &result.syn_ack {
            Some(syn_ack.destination.ip.clone())
        } else if let Some(http_req) = &result.http_request {
            Some(http_req.source.ip.clone())
        } else if let Some(http_res) = &result.http_response {
            Some(http_res.destination.ip.clone())
        } else if let Some(tls_client) = &result.tls_client {
            Some(tls_client.source.ip.clone())
        } else if let Some(mtu) = &result.mtu {
            Some(mtu.source.ip.clone())
        } else if let Some(uptime) = &result.uptime {
            Some(uptime.source.ip.clone())
        } else {
            None
        }
    }

    /// Keep the raw record of a SYN observation.
    fn process_syn_packet(&self, syn: &SynEvent, now: u64) -> (r: SynPacketData)
        ensures
            syn_data_matches(r, *syn, now),
    {
        let os_detected = match &syn.os_matched {
            Some(m) => Some(
                OsDetection { os: m.label.label_string(), quality: m.quality, distance: syn.distance },
            ),
            None => None,
        };
        SynPacketData {
            source: syn.source.clone(),
            os_detected,
            signature: syn.signature.clone(),
            details: syn.details.clone(),
            timestamp: now,
        }
    }

    /// Keep the raw record of a SYN-ACK observation.
    fn process_syn_ack_packet(&self, syn_ack: &SynAckEvent, now: u64) -> (r: SynAckPacketData)
        ensures
            syn_ack_data_matches(r, *syn_ack, now),
    {
        let os_detected = match &syn_ack.os_matched {
            Some(m) => Some(
                OsDetection { os: m.label.label_string(), quality: m.quality, distance: syn_ack.distance },
            ),
            None => None,
        };
        SynAckPacketData {
            source: syn_ack.source.clone(),
            destination: syn_ack.destination.clone(),
            os_detected,
            signature: syn_ack.signature.clone(),
            details: syn_ack.details.clone(),
            timestamp: now,
        }
    }

    /// Keep the raw record of an HTTP request observation, with the common
    /// headers looked up in the rendered header order.
    fn process_http_request(&self, http_req: &HttpRequestEvent) -> (r: HttpRequestData)
        ensures
            request_data_matches(r, *http_req),
    {
        HttpRequestData {
            user_agent: extract_header_value_from_horder(&http_req.horder, "user-agent"),
            accept: extract_header_value_from_horder(&http_req.horder, "accept"),
            accept_language: extract_header_value_from_horder(&http_req.horder, "accept-language"),
            accept_encoding: extract_header_value_from_horder(&http_req.horder, "accept-encoding"),
            connection: extract_header_value_from_horder(&http_req.horder, "connection"),
            method: Some("GET".to_owned()),
            host: extract_header_value_from_horder(&http_req.horder, "host"),
            signature: http_req.signature.clone(),
            quality: match &http_req.browser_matched {
                Some(m) => m.quality,
                None => 0,
            },
        }
    }

    /// Keep the raw record of an HTTP response observation, with the common
    /// headers looked up in the rendered header order.
    fn process_http_response(&self, http_res: &HttpResponseEvent) -> (r: HttpResponseData)
        ensures
            response_data_matches(r, *http_res),
    {
        HttpResponseData {
            server: extract_header_value_from_horder(&http_res.horder, "server"),
            content_type: extract_header_value_from_horder(&http_res.horder, "content-type"),
            content_length: extract_header_value_from_horder(&http_res.horder, "content-length"),
            set_cookie: extract_header_value_from_horder(&http_res.horder, "set-cookie"),
            cache_control: extract_header_value_from_horder(&http_res.horder, "cache-control"),
            status: Some("200".to_owned()),
            signature: http_res.signature.clone(),
            quality: match &http_res.web_server_matched {
                Some(m) => m.quality,
                None => 0,
            },
        }
    }

    /// Keep the raw record of a TLS client observation.
    fn process_tls_client(&self, tls_client: &TlsClientEvent, now: u64) -> (r: TlsClientData)
        ensures
            tls_client_data_matches(r, *tls_client, now),
    {
        TlsClientData {
            source: tls_client.source.clone(),
            ja4: tls_client.ja4.clone(),
            ja4_raw: tls_client.ja4_raw.clone(),
            details: tls_client.details.clone(),
            timestamp: now,
        }
    }

    /// Keep the raw record of an MTU observation.
    fn process_mtu_data(&self, mtu: &MtuEvent, now: u64) -> (r: MtuData)
        ensures
            mtu_data_matches(r, *mtu, now),
    {
        MtuData { source: mtu.source.clone(), mtu_value: mtu.mtu, timestamp: now }
    }

    /// Keep the raw record of an uptime observation, reducing the engine's
    /// days, hours and minutes to seconds.
    fn process_uptime_data(&self, uptime: &UptimeEvent, now: u64) -> (r: UptimeData)
        ensures
            uptime_data_matches(r, *uptime, now),
    {
        let total_seconds = (uptime.days as u64) * 24 * 3600 + (uptime.hours as u64) * 3600 + (uptime.min as u64)
            * 60;
        UptimeData { source: uptime.source.clone(), uptime_seconds: total_seconds, timestamp: now }
    }

    /// Analyze a SYN observation into a TCP analysis, unless its confidence
    /// falls below the threshold.
    fn analyze_tcp_syn(&self, syn: &SynEvent) -> (r: Option<TcpAnalysis>)
        ensures
            r is Some <==> match_quality(syn.os_matched) >= self.spec_config().min_quality,
            r matches Some(a) ==> tcp_analysis_matches(a, syn.os_matched, syn.distance, syn.signature, syn.details),
    {
        let quality = match &syn.os_matched {
            Some(m) => m.quality,
            None => 0,
        };
        if quality < self.config.min_quality {
            return None;
        }
        let os = match &syn.os_matched {
            Some(m) => m.label.label_string(),
            None => "Unknown".to_owned(),
        };
        Some(
            TcpAnalysis {
                os,
                quality,
                distance: syn.distance,
                signature: syn.signature.clone(),
                details: syn.details.clone(),
            },
        )
    }

    /// Analyze a SYN-ACK observation into a TCP analysis, unless its
    /// confidence falls below the threshold.
    fn analyze_tcp_syn_ack(&self, syn_ack: &SynAckEvent) -> (r: Option<TcpAnalysis>)
        ensures
            r is Some <==> match_quality(syn_ack.os_matched) >= self.spec_config().min_quality,
            r matches Some(a) ==> tcp_analysis_matches(
                a,
                syn_ack.os_matched,
                syn_ack.distance,
                syn_ack.signature,
                syn_ack.details,
            ),
    {
        let quality = match &syn_ack.os_matched {
            Some(m) => m.quality,
            None => 0,
        };
        if quality < self.config.min_quality {
            return None;
        }
        let os = match &syn_ack.os_matched {
            Some(m) => m.label.label_string(),
            None => "Unknown".to_owned(),
        };
        Some(
            TcpAnalysis {
                os,
                quality,
                distance: syn_ack.distance,
                signature: syn_ack.signature.clone(),
                details: syn_ack.details.clone(),
            },
        )
    }

    /// Analyze an HTTP request observation, unless its confidence falls
    /// below the threshold.
    fn analyze_http_request(&self, http_req: &HttpRequestEvent) -> (r: Option<HttpAnalysis>)
        ensures
            r is Some <==> match_quality(http_req.browser_matched) >= self.spec_config().min_quality,
            r matches Some(a) ==> http_request_analysis_matches(a, *http_req),
    {
        let quality = match &http_req.browser_matched {
            Some(m) => m.quality,
            None => 0,
        };
        if quality < self.config.min_quality {
            return None;
        }
        let browser = match &http_req.browser_matched {
            Some(m) => m.label.label_string(),
            None => "Unknown".to_owned(),
        };
        let request_data = self.process_http_request(http_req);
        Some(
            HttpAnalysis {
                browser,
                quality,
                language: http_req.lang.clone(),
                diagnosis: http_req.diagnosis.clone(),
                signature: http_req.signature.clone(),
                details: http_req.details.clone(),
                request: Some(request_data),
                response: None,
            },
        )
    }

    /// Analyze an HTTP response observation, unless its confidence falls
    /// below the threshold.
    fn analyze_http_response(&self, http_res: &HttpResponseEvent) -> (r: Option<HttpAnalysis>)
        ensures
            r is Some <==> match_quality(http_res.web_server_matched) >= self.spec_config().min_quality,
            r matches Some(a) ==> http_response_analysis_matches(a, *http_res),
    {
        let quality = match &http_res.web_server_matched {
            Some(m) => m.quality,
            None => 0,
        };
        if quality < self.config.min_quality {
            return None;
        }
        let browser = match &http_res.web_server_matched {
            Some(m) => m.label.label_string(),
            None => "Unknown".to_owned(),
        };
        let response_data = self.process_http_response(http_res);
        Some(
            HttpAnalysis {
                browser,
                quality,
                language: None,
                diagnosis: http_res.diagnosis.clone(),
                signature: http_res.signature.clone(),
                details: http_res.details.clone(),
                request: None,
                response: Some(response_data),
            },
        )
    }

    /// Analyze a TLS client observation; TLS carries no confidence
    /// threshold.
    fn analyze_tls_client(&self, tls_client: &TlsClientEvent) -> (r: crate::profile::TlsAnalysis)
        ensures
            r.ja4 == tls_client.ja4,
            r.ja4_raw == tls_client.ja4_raw,
            r.ja4_original == tls_client.ja4_original,
            r.ja4_original_raw == tls_client.ja4_original_raw,
            tls_details_eq(r.details, tls_client.details),
    {
        crate::profile::TlsAnalysis {
            ja4: tls_client.ja4.clone(),
            ja4_raw: tls_client.ja4_raw.clone(),
            ja4_original: tls_client.ja4_original.clone(),
            ja4_original_raw: tls_client.ja4_original_raw.clone(),
            details: tls_client.details.clone(),
        }
    }

    /// Announce a TCP analysis to the event handlers.
    fn emit_tcp_event(&self, profile: &TrafficProfile, now: u64) {
        if let Some(tcp) = &profile.tcp {
            self.event_dispatcher.dispatch(
                &TrafficEvent::TcpAnalyzed {
                    ip: profile.ip.clone(),
                    port: profile.port,
                    os: tcp.os.clone(),
                    quality: tcp.quality,
                    timestamp: now,
                },
            );
        }
    }

    /// Announce an HTTP analysis to the event handlers.
    fn emit_http_event(&self, profile: &TrafficProfile, now: u64) {
        if let Some(http) = &profile.http {
            self.event_dispatcher.dispatch(
                &TrafficEvent::HttpAnalyzed {
                    ip: profile.ip.clone(),
                    port: profile.port,
                    browser: http.browser.clone(),
                    quality: http.quality,
                    timestamp: now,
                },
            );
        }
    }

    /// Announce a TLS analysis to the event handlers.
    fn emit_tls_event(&self, profile: &TrafficProfile, now: u64) {
        if let Some(tls) = &profile.tls {
            self.event_dispatcher.dispatch(
                &TrafficEvent::TlsAnalyzed {
                    ip: profile.ip.clone(),
                    port: profile.port,
                    ja4: tls.ja4.clone(),
                    timestamp: now,
                },
            );
        }
    }

    /// Analyze one fingerprint event into a fresh single-event profile.
    ///
    /// Returns `Ok(None)` when the event carries no extractable IP, or when
    /// no category fragment clears the configured threshold (an empty
    /// profile is never handed on); this call itself never fails.
    #[verifier::rlimit(100)]
    #[verifier::spinoff_prover]
    pub fn analyze(&self, result: FingerprintEvent, now: u64) -> (r: Result<
        Option<TrafficProfile>,
        HuginnError,
    >)
        ensures
            r matches Ok(opt) && (if primary_ip(result) is Some && any_accepted(self.spec_config(), result) {
                opt matches Some(p) && analyzed_matches(p, self.spec_config(), result, now)
            } else {
                opt is None
            }),
    {
        let ip = match self.extract_primary_ip(&result) {
            Some(ip) => ip,
            None => {
                return Ok(None);
            },
        };
        let mut profile = TrafficProfile::new(ip, 0, now);
        profile.raw_data.source_ip = Some(profile.ip.clone());

        if let Some(syn) = &result.syn {
            let syn_data = self.process_syn_packet(syn, now);
            profile.raw_data.syn = Some(syn_data);
            if self.config.enable_tcp {
                if let Some(tcp_analysis) = self.analyze_tcp_syn(syn) {
                    profile.tcp = Some(tcp_analysis.clone());
                    profile.update_tcp_client(tcp_analysis, now);
                    self.emit_tcp_event(&profile, now);
                }
            }
        }

        if let Some(syn_ack) = &result.syn_ack {
            let syn_ack_data = self.process_syn_ack_packet(syn_ack, now);
            profile.raw_data.syn_ack = Some(syn_ack_data);
            if self.config.enable_tcp {
                if let Some(tcp_analysis) = self.analyze_tcp_syn_ack(syn_ack) {
                    profile.update_tcp_server(tcp_analysis, now);
                }
            }
        }

        if let Some(http_req) = &result.http_request {
            let http_req_data = self.process_http_request(http_req);
            profile.raw_data.http_request = Some(http_req_data);
            if self.config.enable_http {
                if let Some(http_analysis) = self.analyze_http_request(http_req) {
                    profile.update_http(http_analysis, now);
                    self.emit_http_event(&profile, now);
                }
            }
        }

        if let Some(http_res) = &result.http_response {
            let http_res_data = self.process_http_response(http_res);
            profile.raw_data.http_response = Some(http_res_data);
            if self.config.enable_http {
                if let Some(http_analysis) = self.analyze_http_response(http_res) {
                    profile.update_http(http_analysis, now);
                }
            }
        }

        if let Some(tls_client) = &result.tls_client {
            let tls_data = self.process_tls_client(tls_client, now);
            profile.raw_data.tls_client = Some(tls_data);
            if self.config.enable_tls {
                let tls_analysis = self.analyze_tls_client(tls_client);
                profile.update_tls(tls_analysis, now);
                self.emit_tls_event(&profile, now);
            }
        }

        if let Some(mtu) = &result.mtu {
            let mtu_data = self.process_mtu_data(mtu, now);
            profile.raw_data.mtu = Some(mtu_data);
        }

        if let Some(uptime) = &result.uptime {
            let uptime_data = self.process_uptime_data(uptime, now);
            profile.raw_data.uptime = Some(uptime_data);
        }

        if profile.is_empty() {
            Ok(None)
        } else {
            Ok(Some(profile))
        }
    }
}

impl Default for HuginnAnalyzer {
    /// An analyzer with the default configuration.
    fn default() -> (r: Self)
        ensures
            r.spec_config().enable_tcp && r.spec_config().enable_http && r.spec_config().enable_tls,
            r.spec_config().min_quality == 0,
    {
        HuginnAnalyzer::new()
    }
}

} // verus!
