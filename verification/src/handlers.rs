//! Shaping of profiles for API consumers: the per-field view each profile
//! is served as, filtering by query, free-text search with relevance
//! ranking, and the endpoint catalogue.

use vstd::prelude::*;
use vstd::multiset::Multiset;
use crate::analyzer::{find_char, find_char_str};
use crate::profile::{OsDetection, TcpDetails, TrafficProfile};
use crate::table::ProfileTable;
use crate::text::{dec_digits, hundredths_text, hundredths_to_string, u64_to_string};

verus! {

/// A profile shaped for API consumers: each observation separate, nothing
/// merged.
#[derive(Debug)]
pub struct TcpInfo {
    pub syn: Option<SynAckTCP>,
    pub syn_ack: Option<SynAckTCP>,
    pub mtu: Option<Mtu>,
    pub uptime: Option<Uptime>,
    pub http_request: Option<HttpRequest>,
    pub http_response: Option<HttpResponse>,
    pub source_ip: Option<String>,
    pub tls_client: Option<TlsClient>,
}

/// One TCP observation's view: detected OS, confidence and distance as
/// text, with the observed characteristics.
#[derive(Debug)]
pub struct SynAckTCP {
    pub os: String,
    pub quality: String,
    pub dist: String,
    pub signature: String,
    pub observed: TcpObserved,
}

/// Observed TCP characteristics, as served.
#[derive(Debug)]
pub struct TcpObserved {
    pub version: String,
    pub ittl: String,
    pub olen: u8,
    pub mss: Option<u16>,
    pub wsize: String,
    pub wscale: Option<u8>,
    pub olayout: String,
    pub quirks: String,
    pub pclass: String,
}

/// One HTTP request observation's view.
#[derive(Debug)]
pub struct HttpRequest {
    pub lang: Option<String>,
    pub diagnosis: String,
    pub browser: String,
    pub quality: String,
    pub signature: String,
    pub observed: HttpObserved,
}

/// One HTTP response observation's view.
#[derive(Debug)]
pub struct HttpResponse {
    pub diagnosis: String,
    pub web_server: String,
    pub quality: String,
    pub observed: HttpObserved,
}

/// Observed HTTP characteristics, as served.
#[derive(Debug)]
pub struct HttpObserved {
    pub version: String,
    pub horder: String,
    pub habsent: String,
    pub expsw: String,
}

/// One TLS client observation's view.
#[derive(Debug)]
pub struct TlsClient {
    pub ja4: String,
    pub ja4_raw: String,
    pub ja4_original: String,
    pub ja4_original_raw: String,
    pub observed: TlsClientObserved,
}

/// Observed TLS characteristics, as served.
#[derive(Debug)]
pub struct TlsClientObserved {
    pub version: String,
    pub sni: Option<String>,
    pub alpn: Option<String>,
    pub cipher_suites: Vec<u16>,
    pub extensions: Vec<u16>,
    pub signature_algorithms: Vec<u16>,
    pub elliptic_curves: Vec<u16>,
}

/// An MTU observation's view.
#[derive(Debug)]
pub struct Mtu {
    pub link: String,
    pub mtu: u16,
}

/// An uptime observation's view.
#[derive(Debug)]
pub struct Uptime {
    pub time: String,
    pub freq: String,
}

/// The stored text, or the given fallback where nothing is stored.
pub open spec fn opt_or(o: Option<String>, fallback: Seq<char>) -> Seq<char> {
    match o {
        Option::Some(s) => s@,
        Option::None => fallback,
    }
}

/// Leading spaces removed.
pub open spec fn trim_start_spaces(s: Seq<char>) -> Seq<char>
    decreases s.len(),
{
    if s.len() > 0 && s[0] == ' ' {
        trim_start_spaces(s.drop_first())
    } else {
        s
    }
}

/// Trailing spaces removed.
pub open spec fn trim_end_spaces(s: Seq<char>) -> Seq<char>
    decreases s.len(),
{
    if s.len() > 0 && s.last() == ' ' {
        trim_end_spaces(s.drop_last())
    } else {
        s
    }
}

/// Leading and trailing spaces removed.
pub open spec fn trim_spaces(s: Seq<char>) -> Seq<char> {
    trim_end_spaces(trim_start_spaces(s))
}

/// The text before the first comma (all of it where none occurs).
pub open spec fn first_comma_segment(s: Seq<char>) -> Seq<char> {
    match find_char(s, ',') {
        Option::Some(i) => s.take(i),
        Option::None => s,
    }
}

/// Dropping a leading space keeps what a start-trim yields.
proof fn lemma_trim_start_skip(s: Seq<char>, i: int)
    requires
        0 <= i <= s.len(),
        forall|j: int| 0 <= j < i ==> s[j] == ' ',
    ensures
        trim_start_spaces(s) == trim_start_spaces(s.skip(i)),
    decreases i,
{
    if i > 0 {
        assert(s.drop_first() =~= s.skip(1));
        lemma_trim_start_skip(s.skip(1), i - 1);
        assert(s.skip(1).skip(i - 1) =~= s.skip(i));
    } else {
        assert(s.skip(0) =~= s);
    }
}

/// Dropping a trailing space keeps what an end-trim yields.
proof fn lemma_trim_end_take(s: Seq<char>, i: int)
    requires
        0 <= i <= s.len(),
        forall|j: int| i <= j < s.len() ==> s[j] == ' ',
    ensures
        trim_end_spaces(s) == trim_end_spaces(s.take(i)),
    decreases s.len() - i,
{
    if i < s.len() {
        assert(s.drop_last() =~= s.take(s.len() - 1));
        lemma_trim_end_take(s.take(s.len() - 1), i);
        assert(s.take(s.len() - 1).take(i) =~= s.take(i));
    } else {
        assert(s.take(i) =~= s);
    }
}

/// Strip leading and trailing spaces from a string.
fn trim_spaces_str(s: &str) -> (r: String)
    ensures
        r@ == trim_spaces(s@),
{
    let n = s.unicode_len();
    let mut start: usize = 0;
    while start < n && s.get_char(start) == ' '
        invariant
            n == s@.len(),
            start <= n,
            forall|j: int| 0 <= j < start ==> s@[j] == ' ',
        decreases n - start,
    {
        start += 1;
    }
    proof {
        lemma_trim_start_skip(s@, start as int);
        assert(trim_start_spaces(s@.skip(start as int)) == s@.skip(start as int));
    }
    let mut end: usize = n;
    while end > start && s.get_char(end - 1) == ' '
        invariant
            n == s@.len(),
            start <= end <= n,
            forall|j: int| 0 <= j < start ==> s@[j] == ' ',
            forall|j: int| end <= j < n ==> s@[j] == ' ',
        decreases end,
    {
        end -= 1;
    }
    let cut = s.substring_char(start, end);
    proof {
        let tail = s@.skip(start as int);
        lemma_trim_end_take(tail, end - start);
        assert(tail.take(end - start) =~= s@.subrange(start as int, end as int));
        if end > start {
            assert(trim_end_spaces(tail.take(end - start)) == tail.take(end - start));
        } else {
            assert(tail.take(0) =~= Seq::<char>::empty());
            assert(trim_end_spaces(tail.take(end - start)) == tail.take(end - start));
        }
        assert(cut@ == trim_spaces(s@));
    }
    cut.to_owned()
}

/// The text before the first comma.
fn first_comma_segment_str(s: &str) -> (r: &str)
    ensures
        r@ == first_comma_segment(s@),
{
    match find_char_str(s, ',') {
        Some(i) => {
            proof {
                crate::analyzer::lemma_find_char_in_range(s@, ',');
            }
            let cut = s.substring_char(0, i);
            proof {
                assert(cut@ =~= s@.take(i as int));
            }
            cut
        },
        None => s,
    }
}

/// The TCP view built from one stored observation: label, confidence and
/// distance rendered as text (with the given fallbacks where no match was
/// stored), and the observed details copied through.
pub open spec fn syn_block_matches(
    b: SynAckTCP,
    os_detected: Option<OsDetection>,
    signature: String,
    details: TcpDetails,
    fallback_os: Seq<char>,
    fallback_quality: Seq<char>,
    fallback_dist: Seq<char>,
) -> bool {
    &&& b.os@ == (match os_detected {
        Option::Some(od) => od.os@,
        Option::None => fallback_os,
    })
    &&& b.quality@ == (match os_detected {
        Option::Some(od) => hundredths_text(od.quality as nat),
        Option::None => fallback_quality,
    })
    &&& b.dist@ == (match os_detected {
        Option::Some(od) => dec_digits(od.distance as nat),
        Option::None => fallback_dist,
    })
    &&& b.signature == signature
    &&& b.observed.version == details.version
    &&& b.observed.ittl == details.initial_ttl
    &&& b.observed.olen == details.options_length
    &&& b.observed.mss == details.mss
    &&& b.observed.wsize == details.window_size
    &&& b.observed.wscale == details.window_scale
    &&& b.observed.olayout == details.options_layout
    &&& b.observed.quirks == details.quirks
    &&& b.observed.pclass == details.payload_class
}

/// Everything `convert_profile_to_tcp_info` promises of the view it
/// builds, one raw observation at a time.
pub open spec fn tcp_info_matches(info: TcpInfo, p: TrafficProfile) -> bool {
    &&& (match p.raw_data.syn {
        Option::Some(d) => info.syn matches Some(b) && syn_block_matches(
            b,
            d.os_detected,
            d.signature,
            d.details,
            "Linux unix Android"@,
            "1.00"@,
            "6"@,
        ),
        Option::None => info.syn is None,
    })
    &&& (match p.raw_data.syn_ack {
        Option::Some(d) => info.syn_ack matches Some(b) && syn_block_matches(
            b,
            d.os_detected,
            d.signature,
            d.details,
            "Linux unix 3.x"@,
            "0.90"@,
            "0"@,
        ),
        Option::None => info.syn_ack is None,
    })
    &&& (match p.raw_data.http_request {
        Option::Some(d) => info.http_request matches Some(b) && {
            &&& (match d.accept_language {
                Option::Some(al) => b.lang matches Some(l) && l@ == trim_spaces(first_comma_segment(al@)),
                Option::None => b.lang is None,
            })
            &&& b.diagnosis@ == "none"@
            &&& b.browser@ == "Chrome Android"@
            &&& b.quality@ == hundredths_text(d.quality as nat)
            &&& b.signature == d.signature
            &&& b.observed.version@ == "1"@
            &&& b.observed.horder@ == "Host,Connection=["@ + opt_or(d.connection, "keep-alive"@)
                + "],User-Agent,Accept=["@ + opt_or(d.accept, Seq::empty()) + "],Accept-Language=["@ + opt_or(
                d.accept_language,
                Seq::empty(),
            ) + "]"@
            &&& b.observed.habsent@ == "Accept-Charset,Keep-Alive"@
            &&& b.observed.expsw@ == "Chrome"@
        },
        Option::None => info.http_request is None,
    })
    &&& (match p.raw_data.http_response {
        Option::Some(d) => info.http_response matches Some(b) && {
            &&& b.diagnosis@ == "none"@
            &&& b.web_server@ == opt_or(d.server, "Apache 2.x"@)
            &&& b.quality@ == hundredths_text(d.quality as nat)
            &&& b.observed.version@ == "1"@
            &&& b.observed.horder@ == "content-length=["@ + opt_or(d.content_length, "0"@) + "],date=["@
                + "Sun, 06 Jul 2025 19:06:27 GMT"@ + "]"@
            &&& b.observed.habsent@ == "Content-Type,Connection,Keep-Alive,Accept-Ranges,Date"@
            &&& b.observed.expsw@ == "Apache"@
        },
        Option::None => info.http_response is None,
    })
    &&& (match p.raw_data.tls_client {
        Option::Some(d) => info.tls_client matches Some(b) && {
            &&& b.ja4 == d.ja4
            &&& b.ja4_raw == d.ja4_raw
            &&& b.ja4_original == d.ja4
            &&& b.ja4_original_raw == d.ja4_raw
            &&& b.observed.version == d.details.version
            &&& b.observed.sni == d.details.sni
            &&& b.observed.alpn == d.details.alpn
            &&& b.observed.cipher_suites@ == d.details.cipher_suites@
            &&& b.observed.extensions@ == d.details.extensions@
            &&& b.observed.signature_algorithms@ == d.details.signature_algorithms@
            &&& b.observed.elliptic_curves@ == d.details.elliptic_curves@
        },
        Option::None => info.tls_client is None,
    })
    &&& (match p.raw_data.mtu {
        Option::Some(d) => info.mtu matches Some(b) && b.link@ == "ethernet"@ && b.mtu == d.mtu_value,
        Option::None => info.mtu is None,
    })
    &&& (match p.raw_data.uptime {
        Option::Some(d) => info.uptime matches Some(b) && {
            &&& b.time@ == "0 days, "@ + dec_digits((d.uptime_seconds / 3600) as nat) + " hrs, "@ + dec_digits(
                (((d.uptime_seconds as nat) % 3600) / 60),
            ) + " min (modulo 0 days)"@
            &&& b.freq@ == "0.00 Hz"@
        },
        Option::None => info.uptime is None,
    })
    &&& info.source_ip matches Some(s) && s@ == p.ip@
}

/// Render one stored TCP observation as its served view.
fn convert_syn_block(
    os_detected: &Option<OsDetection>,
    signature: &String,
    details: &TcpDetails,
    fallback_os: &str,
    fallback_quality: &str,
    fallback_dist: &str,
) -> (r: SynAckTCP)
    ensures
        syn_block_matches(r, *os_detected, *signature, *details, fallback_os@, fallback_quality@, fallback_dist@),
{
    let (os, quality, dist): (String, String, String) = match os_detected {
        Some(od) => (od.os.clone(), hundredths_to_string(od.quality), u64_to_string(od.distance as u64)),
        None => (fallback_os.to_owned(), fallback_quality.to_owned(), fallback_dist.to_owned()),
    };
    SynAckTCP {
        os,
        quality,
        dist,
        signature: signature.clone(),
        observed: TcpObserved {
            version: details.version.clone(),
            ittl: details.initial_ttl.clone(),
            olen: details.options_length,
            mss: details.mss,
            wsize: details.window_size.clone(),
            wscale: details.window_scale,
            olayout: details.options_layout.clone(),
            quirks: details.quirks.clone(),
            pclass: details.payload_class.clone(),
        },
    }
}

/// Shape one profile for API consumers, each raw observation rendered as
/// its served view.
pub fn convert_profile_to_tcp_info(profile: &TrafficProfile) -> (r: TcpInfo)
    ensures
        tcp_info_matches(r, *profile),
{
    let mut tcp_info = TcpInfo {
        syn: None,
        syn_ack: None,
        mtu: None,
        uptime: None,
        http_request: None,
        http_response: None,
        source_ip: Some(profile.ip.clone()),
        tls_client: None,
    };

    if let Some(syn_data) = &profile.raw_data.syn {
        tcp_info.syn = Some(
            convert_syn_block(
                &syn_data.os_detected,
                &syn_data.signature,
                &syn_data.details,
                "Linux unix Android",
                "1.00",
                "6",
            ),
        );
    }

    if let Some(syn_ack_data) = &profile.raw_data.syn_ack {
        tcp_info.syn_ack = Some(
            convert_syn_block(
                &syn_ack_data.os_detected,
                &syn_ack_data.signature,
                &syn_ack_data.details,
                "Linux unix 3.x",
                "0.90",
                "0",
            ),
        );
    }

    if let Some(http_req_data) = &profile.raw_data.http_request {
        let lang = match &http_req_data.accept_language {
            Some(al) => Some(trim_spaces_str(first_comma_segment_str(al.as_str()))),
            None => None,
        };
        let mut horder = "Host,Connection=[".to_owned();
        match &http_req_data.connection {
            Some(c) => horder.append(c.as_str()),
            None => horder.append("keep-alive"),
        }
        horder.append("],User-Agent,Accept=[");
        if let Some(a) = &http_req_data.accept {
            horder.append(a.as_str());
        }
        horder.append("],Accept-Language=[");
        if let Some(al) = &http_req_data.accept_language {
            horder.append(al.as_str());
        }
        horder.append("]");
        proof {
            reveal_strlit("");
            assert(opt_or(http_req_data.accept, Seq::empty()) == opt_or(http_req_data.accept, ""@));
        }
        tcp_info.http_request = Some(
            HttpRequest {
                lang,
                diagnosis: "none".to_owned(),
                browser: "Chrome Android".to_owned(),
                quality: hundredths_to_string(http_req_data.quality),
                signature: http_req_data.signature.clone(),
                observed: HttpObserved {
                    version: "1".to_owned(),
                    horder,
                    habsent: "Accept-Charset,Keep-Alive".to_owned(),
                    expsw: "Chrome".to_owned(),
                },
            },
        );
    }

    if let Some(http_res_data) = &profile.raw_data.http_response {
        let mut horder = "content-length=[".to_owned();
        match &http_res_data.content_length {
            Some(c) => horder.append(c.as_str()),
            None => horder.append("0"),
        }
        horder.append("],date=[");
        horder.append("Sun, 06 Jul 2025 19:06:27 GMT");
        horder.append("]");
        tcp_info.http_response = Some(
            HttpResponse {
                diagnosis: "none".to_owned(),
                web_server: match &http_res_data.server {
                    Some(s) => s.clone(),
                    None => "Apache 2.x".to_owned(),
                },
                quality: hundredths_to_string(http_res_data.quality),
                observed: HttpObserved {
                    version: "1".to_owned(),
                    horder,
                    habsent: "Content-Type,Connection,Keep-Alive,Accept-Ranges,Date".to_owned(),
                    expsw: "Apache".to_owned(),
                },
            },
        );
    }

    if let Some(tls_data) = &profile.raw_data.tls_client {
        tcp_info.tls_client = Some(
            TlsClient {
                ja4: tls_data.ja4.clone(),
                ja4_raw: tls_data.ja4_raw.clone(),
                ja4_original: tls_data.ja4.clone(),
                ja4_original_raw: tls_data.ja4_raw.clone(),
                observed: TlsClientObserved {
                    version: tls_data.details.version.clone(),
                    sni: tls_data.details.sni.clone(),
                    alpn: tls_data.details.alpn.clone(),
                    cipher_suites: tls_data.details.cipher_suites.clone(),
                    extensions: tls_data.details.extensions.clone(),
                    signature_algorithms: tls_data.details.signature_algorithms.clone(),
                    elliptic_curves: tls_data.details.elliptic_curves.clone(),
                },
            },
        );
        proof {
            let b = tcp_info.tls_client->0;
            let d = profile.raw_data.tls_client->0;
            assert(b.observed.cipher_suites@ =~= d.details.cipher_suites@);
            assert(b.observed.extensions@ =~= d.details.extensions@);
            assert(b.observed.signature_algorithms@ =~= d.details.signature_algorithms@);
            assert(b.observed.elliptic_curves@ =~= d.details.elliptic_curves@);
        }
    }

    if let Some(mtu_data) = &profile.raw_data.mtu {
        tcp_info.mtu = Some(Mtu { link: "ethernet".to_owned(), mtu: mtu_data.mtu_value });
    }

    if let Some(uptime_data) = &profile.raw_data.uptime {
        let hours = uptime_data.uptime_seconds / 3600;
        let minutes = (uptime_data.uptime_seconds % 3600) / 60;
        let mut time = "0 days, ".to_owned();
        let h = u64_to_string(hours);
        time.append(h.as_str());
        time.append(" hrs, ");
        let m = u64_to_string(minutes);
        time.append(m.as_str());
        time.append(" min (modulo 0 days)");
        tcp_info.uptime = Some(Uptime { time, freq: "0.00 Hz".to_owned() });
    }

    tcp_info
}

/// Query parameters for filtering profiles.  `min_completeness` is in
/// hundredths.
#[derive(Clone, Copy, Debug)]
pub struct ProfileQuery {
    /// Keep profiles at least this complete
    pub min_completeness: Option<u32>,
    /// Keep profiles with (or without) TCP data
    pub has_tcp: Option<bool>,
    /// Keep profiles with (or without) HTTP data
    pub has_http: Option<bool>,
    /// Keep profiles with (or without) TLS data
    pub has_tls: Option<bool>,
    /// Serve at most this many profiles
    pub limit: Option<usize>,
}

/// Whether a profile passes every filter of a query.
pub open spec fn passes_query(p: TrafficProfile, q: ProfileQuery) -> bool {
    &&& (match q.min_completeness {
        Option::Some(mc) => p.metadata.completeness >= mc,
        Option::None => true,
    })
    &&& (match q.has_tcp {
        Option::Some(want) => want == (p.raw_data.syn is Some || p.raw_data.syn_ack is Some || p.tcp is Some),
        Option::None => true,
    })
    &&& (match q.has_http {
        Option::Some(want) => want == (p.raw_data.http_request is Some || p.raw_data.http_response is Some
            || p.http is Some),
        Option::None => true,
    })
    &&& (match q.has_tls {
        Option::Some(want) => want == (p.raw_data.tls_client is Some || p.tls is Some),
        Option::None => true,
    })
}

/// The table's entries that pass a query, in table order.
pub open spec fn filtered_entries(s: Seq<(String, TrafficProfile)>, q: ProfileQuery) -> Seq<
    (String, TrafficProfile),
>
    decreases s.len(),
{
    if s.len() == 0 {
        Seq::empty()
    } else {
        filtered_entries(s.drop_last(), q) + (if passes_query(s.last().1, q) {
            seq![s.last()]
        } else {
            Seq::empty()
        })
    }
}

/// Response for the profiles list: the served views keyed by IP, in table
/// order.
#[derive(Debug)]
pub struct ProfilesResponse {
    pub profiles: Vec<(String, TcpInfo)>,
    pub count: usize,
    pub timestamp: u64,
}

/// Serve the profiles that pass a query, up to its limit: the first
/// passing entries of the table in order, each shaped as its view.
pub fn get_profiles(table: &ProfileTable, query: &ProfileQuery, now: u64) -> (r: ProfilesResponse)
    ensures
        ({
            let fs = filtered_entries(table@, *query);
            let served = (match query.limit {
                Option::Some(l) => if l < fs.len() {
                    l as int
                } else {
                    fs.len() as int
                },
                Option::None => fs.len() as int,
            });
            &&& r.profiles@.len() == served
            &&& (forall|i: int|
                0 <= i < r.profiles@.len() ==> (#[trigger] r.profiles@[i]).0 == fs[i].0 && tcp_info_matches(
                    r.profiles@[i].1,
                    fs[i].1,
                ))
            &&& r.count == r.profiles@.len()
            &&& r.timestamp == now
        }),
{
    let mut out: Vec<(String, TcpInfo)> = Vec::new();
    let n = table.len();
    let mut i: usize = 0;
    while i < n
        invariant
            n == table@.len(),
            i <= n,
            ({
                let fs = filtered_entries(table@.take(i as int), *query);
                let served = (match query.limit {
                    Option::Some(l) => if (l as int) < fs.len() {
                        l as int
                    } else {
                        fs.len() as int
                    },
                    Option::None => fs.len() as int,
                });
                &&& out@.len() == served
                &&& (forall|j: int|
                    0 <= j < out@.len() ==> (#[trigger] out@[j]).0 == fs[j].0 && tcp_info_matches(
                        out@[j].1,
                        fs[j].1,
                    ))
            }),
        decreases n - i,
    {
        let entry = table.at(i);
        let passes = {
            let p = &entry.1;
            let mut ok = true;
            if let Some(mc) = query.min_completeness {
                if p.metadata.completeness < mc {
                    ok = false;
                }
            }
            if let Some(want) = query.has_tcp {
                let has = p.raw_data.syn.is_some() || p.raw_data.syn_ack.is_some() || p.tcp.is_some();
                if want != has {
                    ok = false;
                }
            }
            if let Some(want) = query.has_http {
                let has = p.raw_data.http_request.is_some() || p.raw_data.http_response.is_some()
                    || p.http.is_some();
                if want != has {
                    ok = false;
                }
            }
            if let Some(want) = query.has_tls {
                let has = p.raw_data.tls_client.is_some() || p.tls.is_some();
                if want != has {
                    ok = false;
                }
            }
            ok
        };
        if passes {
            let under_limit = match query.limit {
                Some(l) => out.len() < l,
                None => true,
            };
            if under_limit {
                out.push((entry.0.clone(), convert_profile_to_tcp_info(&entry.1)));
            }
        }
        proof {
            assert(table@.take(i + 1).drop_last() =~= table@.take(i as int));
            assert(table@.take(i + 1).last() == table@[i as int]);
            if passes_query(table@[i as int].1, *query) {
                assert(filtered_entries(table@.take(i + 1), *query) =~= filtered_entries(
                    table@.take(i as int),
                    *query,
                ).push(table@[i as int]));
            } else {
                assert(filtered_entries(table@.take(i + 1), *query) =~= filtered_entries(
                    table@.take(i as int),
                    *query,
                ));
            }
        }
        i += 1;
    }
    proof {
        assert(table@.take(n as int) =~= table@);
    }
    let count = out.len();
    ProfilesResponse { profiles: out, count, timestamp: now }
}

/// Whether `needle` occurs in `hay` as a contiguous run.
pub open spec fn contains_text(hay: Seq<char>, needle: Seq<char>) -> bool {
    exists|i: int| 0 <= i <= hay.len() - needle.len() && #[trigger] hay.subrange(i, i + needle.len()) == needle
}

/// Case-insensitive containment: whether the lower-cased needle occurs in
/// the lower-cased hay.
fn contains_ci(hay: &str, needle: &str) -> (r: bool)
    ensures
        r == contains_text(crate::analyzer::lower_seq(hay@), crate::analyzer::lower_seq(needle@)),
{
    let ghost lh = crate::analyzer::lower_seq(hay@);
    let ghost ln = crate::analyzer::lower_seq(needle@);
    let hn = hay.unicode_len();
    let nn = needle.unicode_len();
    if nn > hn {
        proof {
            assert(lh.len() == hay@.len() && ln.len() == needle@.len());
        }
        return false;
    }
    if nn == 0 {
        proof {
            assert(lh.subrange(0, 0 + ln.len() as int) =~= ln);
            assert(contains_text(lh, ln));
        }
        return true;
    }
    let mut i: usize = 0;
    while i <= hn - nn
        invariant
            hn == hay@.len(),
            nn == needle@.len(),
            0 < nn <= hn,
            i <= hn - nn + 1,
            lh == crate::analyzer::lower_seq(hay@),
            ln == crate::analyzer::lower_seq(needle@),
            forall|x: int| 0 <= x < i ==> #[trigger] lh.subrange(x, x + ln.len()) != ln,
        decreases hn - i,
    {
        let mut j: usize = 0;
        let mut matched = true;
        while j < nn
            invariant
                hn == hay@.len(),
                nn == needle@.len(),
                i + nn <= hn,
                j <= nn,
                lh == crate::analyzer::lower_seq(hay@),
                ln == crate::analyzer::lower_seq(needle@),
                matched ==> forall|y: int| 0 <= y < j ==> lh[i + y] == ln[y],
                !matched ==> lh.subrange(i as int, i + ln.len()) != ln,
            decreases nn - j,
        {
            let hc = crate::analyzer::lower_char(hay.get_char(i + j));
            let nc = crate::analyzer::lower_char(needle.get_char(j));
            if hc != nc {
                proof {
                    assert(lh.subrange(i as int, i + ln.len())[j as int] == lh[i + j]);
                }
                matched = false;
                j = nn;
            } else {
                j += 1;
            }
        }
        if matched {
            proof {
                assert(lh.subrange(i as int, i + ln.len()) =~= ln);
            }
            return true;
        }
        i += 1;
    }
    proof {
        if contains_text(lh, ln) {
            let x = choose|x: int|
                0 <= x <= lh.len() - ln.len() && #[trigger] lh.subrange(x, x + ln.len()) == ln;
            assert(false);
        }
    }
    false
}

/// Whether the search term occurs in the profile's IP text,
/// case-insensitively.
pub open spec fn ip_hit(p: TrafficProfile, term: Seq<char>) -> bool {
    contains_text(crate::analyzer::lower_seq(p.ip@), crate::analyzer::lower_seq(term))
}

/// Whether the search term occurs in the detected OS label.
pub open spec fn tcp_hit(p: TrafficProfile, term: Seq<char>) -> bool {
    p.tcp matches Some(t) && contains_text(
        crate::analyzer::lower_seq(t.os@),
        crate::analyzer::lower_seq(term),
    )
}

/// Whether the search term occurs in the detected browser label.
pub open spec fn http_hit(p: TrafficProfile, term: Seq<char>) -> bool {
    p.http matches Some(h) && contains_text(
        crate::analyzer::lower_seq(h.browser@),
        crate::analyzer::lower_seq(term),
    )
}

/// Whether the search term occurs in the TLS JA4 fingerprint.
pub open spec fn tls_hit(p: TrafficProfile, term: Seq<char>) -> bool {
    p.tls matches Some(t) && contains_text(
        crate::analyzer::lower_seq(t.ja4@),
        crate::analyzer::lower_seq(term),
    )
}

/// How many of the profile's searchable fields the term hits.
pub open spec fn match_count(p: TrafficProfile, term: Seq<char>) -> int {
    (if ip_hit(p, term) {
        1int
    } else {
        0
    }) + (if tcp_hit(p, term) {
        1int
    } else {
        0
    }) + (if http_hit(p, term) {
        1int
    } else {
        0
    }) + (if tls_hit(p, term) {
        1int
    } else {
        0
    })
}

/// The summed field weights a term earns on a profile, in hundredths: the
/// IP counts 1.00, OS and browser 0.80 each, the JA4 fingerprint 0.60.
pub open spec fn relevance_total(p: TrafficProfile, term: Seq<char>) -> int {
    (if ip_hit(p, term) {
        100int
    } else {
        0
    }) + (if tcp_hit(p, term) {
        80int
    } else {
        0
    }) + (if http_hit(p, term) {
        80int
    } else {
        0
    }) + (if tls_hit(p, term) {
        60int
    } else {
        0
    })
}

/// A profile's relevance for a term, in hundredths: the mean weight of the
/// fields hit (integer division), zero where nothing is hit.
pub open spec fn spec_relevance(p: TrafficProfile, term: Seq<char>) -> int {
    if match_count(p, term) == 0 {
        0
    } else {
        relevance_total(p, term) / match_count(p, term)
    }
}

/// Count the fields a term hits and the profile's relevance.
fn search_relevance(p: &TrafficProfile, term: &str) -> (r: (u32, u32))
    ensures
        r.0 == match_count(*p, term@),
        r.1 == spec_relevance(*p, term@),
{
    let mut matches: u32 = 0;
    let mut total: u32 = 0;
    if contains_ci(p.ip.as_str(), term) {
        matches += 1;
        total += 100;
    }
    if let Some(t) = &p.tcp {
        if contains_ci(t.os.as_str(), term) {
            matches += 1;
            total += 80;
        }
    }
    if let Some(h) = &p.http {
        if contains_ci(h.browser.as_str(), term) {
            matches += 1;
            total += 80;
        }
    }
    if let Some(t) = &p.tls {
        if contains_ci(t.ja4.as_str(), term) {
            matches += 1;
            total += 60;
        }
    }
    if matches == 0 {
        (0, 0)
    } else {
        (matches, total / matches)
    }
}

/// Query parameters for searching profiles.
#[derive(Debug)]
pub struct SearchQuery {
    /// Search query string
    pub q: String,
    /// Maximum number of results
    pub limit: Option<usize>,
}

/// Individual search result; `relevance` is in hundredths.
#[derive(Debug)]
pub struct SearchResult {
    pub key: String,
    pub profile: TcpInfo,
    pub relevance: u32,
}

/// Response for a profile search, most relevant first.
#[derive(Debug)]
pub struct SearchResponse {
    pub results: Vec<SearchResult>,
    pub count: usize,
    pub query: String,
    pub timestamp: u64,
}

/// A search result drawn from the table: some entry's key, with the
/// relevance the term earns on that entry, which the term hits at all.
pub open spec fn result_from_table(res: SearchResult, s: Seq<(String, TrafficProfile)>, term: Seq<char>) -> bool {
    exists|j: int|
        0 <= j < s.len() && res.key == (#[trigger] s[j]).0 && res.relevance == spec_relevance(s[j].1, term)
            && match_count(s[j].1, term) > 0
}

/// A sequence with no elements abstracts to the empty multiset.
proof fn lemma_empty_to_multiset(s: Seq<SearchResult>)
    requires
        s.len() == 0,
    ensures
        s.to_multiset() =~= Multiset::<SearchResult>::empty(),
{
    broadcast use vstd::multiset::group_multiset_axioms;

    assert forall|a: SearchResult| s.to_multiset().count(a) == Multiset::<SearchResult>::empty().count(
        a,
    ) by {
        vstd::seq_lib::to_multiset_contains::<SearchResult>(s, a);
    }
}

/// Results sorted by relevance, highest first, by repeatedly moving the
/// most relevant remaining result over.
fn sort_by_relevance_desc(v: Vec<SearchResult>) -> (r: Vec<SearchResult>)
    ensures
        r@.len() == v@.len(),
        forall|i: int, j: int|
            0 <= i < j < r@.len() ==> (#[trigger] r@[i]).relevance >= (#[trigger] r@[j]).relevance,
        r@.to_multiset() == v@.to_multiset(),
{
    let mut rest = v;
    let mut out: Vec<SearchResult> = Vec::new();
    let ghost orig = rest@;
    proof {
        broadcast use vstd::multiset::group_multiset_axioms;

        lemma_empty_to_multiset(out@);
        assert(out@.to_multiset().add(rest@.to_multiset()) =~= orig.to_multiset());
    }
    while rest.len() > 0
        invariant
            out@.to_multiset().add(rest@.to_multiset()) =~= orig.to_multiset(),
            out@.len() + rest@.len() == orig.len(),
            forall|i: int, j: int|
                0 <= i < j < out@.len() ==> (#[trigger] out@[i]).relevance >= (#[trigger] out@[j]).relevance,
            forall|i: int, j: int|
                0 <= i < out@.len() && 0 <= j < rest@.len() ==> (#[trigger] out@[i]).relevance
                    >= (#[trigger] rest@[j]).relevance,
        decreases rest@.len(),
    {
        let mut best: usize = 0;
        let mut k: usize = 1;
        while k < rest.len()
            invariant
                rest@.len() > 0,
                best < rest@.len(),
                k <= rest@.len(),
                forall|j: int| 0 <= j < k ==> rest@[best as int].relevance >= (#[trigger] rest@[j]).relevance,
            decreases rest@.len() - k,
        {
            if rest[k].relevance > rest[best].relevance {
                best = k;
            }
            k += 1;
        }
        let ghost rest_old = rest@;
        let ghost out_old = out@;
        let picked = rest.remove(best);
        let ghost picked_spec = picked;
        out.push(picked);
        proof {
            broadcast use vstd::multiset::group_multiset_axioms;

            assert(rest_old.contains(picked_spec)) by {
                assert(rest_old[best as int] == picked_spec);
            }
            vstd::seq_lib::to_multiset_contains::<SearchResult>(rest_old, picked_spec);
            assert(rest_old.to_multiset().count(picked_spec) > 0);
            assert(out@ == out_old.push(picked_spec));
            vstd::seq_lib::to_multiset_build::<SearchResult>(out_old, picked_spec);
            assert(rest@ == rest_old.remove(best as int));
            vstd::seq_lib::to_multiset_remove::<SearchResult>(rest_old, best as int);
            assert(out@.to_multiset().add(rest@.to_multiset()) =~= orig.to_multiset());
        }
    }
    proof {
        broadcast use vstd::multiset::group_multiset_axioms;

        lemma_empty_to_multiset(rest@);
        assert(out@.to_multiset() =~= orig.to_multiset());
    }
    out
}

/// Search the table for profiles the term hits: the first matching entries
/// in table order, up to the limit (50 where none is given), sorted most
/// relevant first.
pub fn search_profiles(table: &ProfileTable, query: &SearchQuery, now: u64) -> (r: SearchResponse)
    ensures
        r.count == r.results@.len(),
        r.timestamp == now,
        r.query == query.q,
        forall|i: int, j: int| 0 <= i < j < r.results@.len() ==> (#[trigger] r.results@[i]).relevance
            >= (#[trigger] r.results@[j]).relevance,
        forall|i: int|
            0 <= i < r.results@.len() ==> result_from_table(#[trigger] r.results@[i], table@, query.q@),
        r.results@.len() <= (match query.limit {
            Option::Some(l) => l as int,
            Option::None => 50int,
        }),
{
    let limit = match query.limit {
        Some(l) => l,
        None => 50,
    };
    let mut picked: Vec<SearchResult> = Vec::new();
    let n = table.len();
    let mut i: usize = 0;
    while i < n
        invariant
            n == table@.len(),
            i <= n,
            limit == (match query.limit {
                Option::Some(l) => l,
                Option::None => 50usize,
            }),
            picked@.len() <= limit,
            forall|x: int| 0 <= x < picked@.len() ==> result_from_table(#[trigger] picked@[x], table@, query.q@),
        decreases n - i,
    {
        let entry = table.at(i);
        let (matches, relevance) = search_relevance(&entry.1, query.q.as_str());
        if matches > 0 && picked.len() < limit {
            let result = SearchResult {
                key: entry.0.clone(),
                profile: convert_profile_to_tcp_info(&entry.1),
                relevance,
            };
            picked.push(result);
            proof {
                let x = picked@.len() - 1;
                assert(picked@[x].key == (table@[i as int]).0 && picked@[x].relevance == spec_relevance(
                    table@[i as int].1,
                    query.q@,
                ) && match_count(table@[i as int].1, query.q@) > 0);
                assert(result_from_table(picked@[x], table@, query.q@));
            }
        }
        i += 1;
    }
    let ghost picked_snap = picked@;
    let results = sort_by_relevance_desc(picked);
    proof {
        broadcast use vstd::multiset::group_multiset_axioms;

        assert forall|x: int| 0 <= x < results@.len() implies result_from_table(
            #[trigger] results@[x],
            table@,
            query.q@,
        ) by {
            assert(results@.contains(results@[x])) by {
                assert(results@[x] == results@[x]);
            }
            vstd::seq_lib::to_multiset_contains::<SearchResult>(results@, results@[x]);
            assert(results@.to_multiset().count(results@[x]) > 0);
            assert(picked_snap.to_multiset().count(results@[x]) > 0);
            vstd::seq_lib::to_multiset_contains::<SearchResult>(picked_snap, results@[x]);
            assert(picked_snap.contains(results@[x]));
            let y = choose|y: int| 0 <= y < picked_snap.len() && #[trigger] picked_snap[y] == results@[x];
            assert(result_from_table(picked_snap[y], table@, query.q@));
        }
    }
    let count = results.len();
    SearchResponse { results, count, query: query.q.clone(), timestamp: now }
}

/// Information about an API endpoint.
#[derive(Debug)]
pub struct EndpointInfo {
    pub method: String,
    pub path: String,
    pub description: String,
}

/// Response for API information.
#[derive(Debug)]
pub struct ApiInfoResponse {
    pub name: String,
    pub version: String,
    pub description: String,
    pub endpoints: Vec<EndpointInfo>,
    pub timestamp: u64,
}

/// One catalogue entry.
fn endpoint(method: &str, path: &str, description: &str) -> (r: EndpointInfo)
    ensures
        r.method@ == method@,
        r.path@ == path@,
        r.description@ == description@,
{
    EndpointInfo { method: method.to_owned(), path: path.to_owned(), description: description.to_owned() }
}

/// The API's self-description: its name, the version the caller reports,
/// and the nine endpoints it serves, in a fixed order.
pub fn api_info(version: String, now: u64) -> (r: ApiInfoResponse)
    ensures
        r.name@ == "Huginn API"@,
        r.version == version,
        r.description@ == "REST API for Huginn network traffic profiler"@,
        r.timestamp == now,
        r.endpoints@.len() == 9,
        r.endpoints@[0].method@ == "GET"@ && r.endpoints@[0].path@ == "/health"@,
        r.endpoints@[1].method@ == "GET"@ && r.endpoints@[1].path@ == "/api"@,
        r.endpoints@[2].method@ == "GET"@ && r.endpoints@[2].path@ == "/api/profiles"@,
        r.endpoints@[3].method@ == "GET"@ && r.endpoints@[3].path@ == "/api/profiles/{key}"@,
        r.endpoints@[4].method@ == "DELETE"@ && r.endpoints@[4].path@ == "/api/profiles/{key}"@,
        r.endpoints@[5].method@ == "DELETE"@ && r.endpoints@[5].path@ == "/api/profiles"@,
        r.endpoints@[6].method@ == "GET"@ && r.endpoints@[6].path@ == "/api/stats"@,
        r.endpoints@[7].method@ == "GET"@ && r.endpoints@[7].path@ == "/api/search"@,
        r.endpoints@[8].method@ == "GET"@ && r.endpoints@[8].path@ == "/ws"@,
{
    let mut endpoints: Vec<EndpointInfo> = Vec::new();
    endpoints.push(endpoint("GET", "/health", "Health check endpoint"));
    endpoints.push(endpoint("GET", "/api", "API information and endpoints"));
    endpoints.push(endpoint("GET", "/api/profiles", "Get all traffic profiles with optional filtering"));
    endpoints.push(endpoint("GET", "/api/profiles/{key}", "Get a specific traffic profile"));
    endpoints.push(endpoint("DELETE", "/api/profiles/{key}", "Delete a specific traffic profile"));
    endpoints.push(endpoint("DELETE", "/api/profiles", "Clear all traffic profiles"));
    endpoints.push(endpoint("GET", "/api/stats", "Get statistics about traffic profiles"));
    endpoints.push(endpoint("GET", "/api/search", "Search traffic profiles"));
    endpoints.push(endpoint("GET", "/ws", "WebSocket endpoint for real-time updates"));
    ApiInfoResponse {
        name: "Huginn API".to_owned(),
        version,
        description: "REST API for Huginn network traffic profiler".to_owned(),
        endpoints,
        timestamp: now,
    }
}

/// Response for the health check endpoint.
#[derive(Debug)]
pub struct HealthResponse {
    pub status: String,
    pub version: String,
    pub timestamp: u64,
}

/// The health check's answer: healthy, at the version the caller reports.
pub fn health(version: String, now: u64) -> (r: HealthResponse)
    ensures
        r.status@ == "healthy"@,
        r.version == version,
        r.timestamp == now,
{
    HealthResponse { status: "healthy".to_owned(), version, timestamp: now }
}

} // verus!
