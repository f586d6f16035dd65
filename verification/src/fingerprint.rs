//! The analyzer's input: one event per observed packet feature, as handed in
//! by the capture engine, reduced to plain values.
//!
//! Confidence values are in hundredths (`0 ..= 100`).

use vstd::prelude::*;
use crate::profile::{HttpDetails, NetworkEndpoint, TcpDetails, TlsDetails, joined, lemma_joined_two, lemma_joined_three};

verus! {

/// The name of a matched subject (an OS, a browser, a web server), split
/// into its parts.
pub struct MatchLabel {
    pub name: String,
    pub family: Option<String>,
    pub variant: Option<String>,
}

/// A signature-database match: a label and the confidence of the match,
/// in hundredths.
pub struct LabelMatch {
    pub label: MatchLabel,
    pub quality: u32,
}

/// SYN observation (client side).  `distance` is the network distance the
/// observed TTL implies.
pub struct SynEvent {
    pub source: NetworkEndpoint,
    pub os_matched: Option<LabelMatch>,
    pub signature: String,
    pub details: TcpDetails,
    pub distance: u8,
}

/// SYN-ACK observation (server side); `destination` is the client that
/// initiated the connection.
pub struct SynAckEvent {
    pub source: NetworkEndpoint,
    pub destination: NetworkEndpoint,
    pub os_matched: Option<LabelMatch>,
    pub signature: String,
    pub details: TcpDetails,
    pub distance: u8,
}

/// HTTP request observation (client side).  `horder` carries the observed
/// headers in order, each rendered as `name=[value]`.
pub struct HttpRequestEvent {
    pub source: NetworkEndpoint,
    pub browser_matched: Option<LabelMatch>,
    pub lang: Option<String>,
    pub diagnosis: String,
    pub signature: String,
    pub details: HttpDetails,
    pub horder: Vec<String>,
}

/// HTTP response observation (server side); `destination` is the client
/// that made the request.
pub struct HttpResponseEvent {
    pub source: NetworkEndpoint,
    pub destination: NetworkEndpoint,
    pub web_server_matched: Option<LabelMatch>,
    pub diagnosis: String,
    pub signature: String,
    pub details: HttpDetails,
    pub horder: Vec<String>,
}

/// TLS client hello observation.
pub struct TlsClientEvent {
    pub source: NetworkEndpoint,
    pub ja4: String,
    pub ja4_raw: String,
    pub ja4_original: String,
    pub ja4_original_raw: String,
    pub details: TlsDetails,
}

/// MTU estimate observation.
pub struct MtuEvent {
    pub source: NetworkEndpoint,
    pub mtu: u16,
}

/// Uptime estimate observation, as the engine reports it.
pub struct UptimeEvent {
    pub source: NetworkEndpoint,
    pub days: u32,
    pub hours: u32,
    pub min: u32,
}

/// One fingerprint event: any combination of the per-category observations.
pub struct FingerprintEvent {
    pub syn: Option<SynEvent>,
    pub syn_ack: Option<SynAckEvent>,
    pub mtu: Option<MtuEvent>,
    pub uptime: Option<UptimeEvent>,
    pub http_request: Option<HttpRequestEvent>,
    pub http_response: Option<HttpResponseEvent>,
    pub tls_client: Option<TlsClientEvent>,
}

impl FingerprintEvent {
    /// An event with no observation in any category.
    pub fn empty() -> (r: Self)
        ensures
            r.syn is None,
            r.syn_ack is None,
            r.mtu is None,
            r.uptime is None,
            r.http_request is None,
            r.http_response is None,
            r.tls_client is None,
    {
        FingerprintEvent {
            syn: None,
            syn_ack: None,
            mtu: None,
            uptime: None,
            http_request: None,
            http_response: None,
            tls_client: None,
        }
    }
}

/// The parts of a label in the order they are joined: name, then family,
/// then variant, where present.
pub open spec fn label_parts(l: MatchLabel) -> Seq<Seq<char>> {
    seq![l.name@] + (match l.family {
        Option::Some(f) => seq![f@],
        Option::None => Seq::empty(),
    }) + (match l.variant {
        Option::Some(v) => seq![v@],
        Option::None => Seq::empty(),
    })
}

/// A label's parts joined with single spaces, e.g. `"Linux unix 3.x"`.
pub open spec fn label_text(l: MatchLabel) -> Seq<char> {
    joined(label_parts(l), " "@)
}

impl MatchLabel {
    /// Render the label as its space-joined parts.
    pub fn label_string(&self) -> (r: String)
        ensures
            r@ == label_text(*self),
    {
        let mut s = self.name.clone();
        match (&self.family, &self.variant) {
            (Some(f), Some(v)) => {
                s.append(" ");
                s.append(f.as_str());
                s.append(" ");
                s.append(v.as_str());
                proof {
                    assert(label_parts(*self) =~= seq![self.name@, f@, v@]);
                    lemma_joined_three(self.name@, f@, v@, " "@);
                    assert(s@ =~= label_text(*self));
                }
            },
            (Some(f), None) => {
                s.append(" ");
                s.append(f.as_str());
                proof {
                    assert(label_parts(*self) =~= seq![self.name@, f@]);
                    lemma_joined_two(self.name@, f@, " "@);
                    assert(s@ =~= label_text(*self));
                }
            },
            (None, Some(v)) => {
                s.append(" ");
                s.append(v.as_str());
                proof {
                    assert(label_parts(*self) =~= seq![self.name@, v@]);
                    lemma_joined_two(self.name@, v@, " "@);
                    assert(s@ =~= label_text(*self));
                }
            },
            (None, None) => {
                proof {
                    assert(label_parts(*self) =~= seq![self.name@]);
                    assert(s@ =~= label_text(*self));
                }
            },
        }
        s
    }
}

/// The confidence of an optional match, in hundredths; absent means zero.
pub open spec fn match_quality(m: Option<LabelMatch>) -> u32 {
    match m {
        Option::Some(lm) => lm.quality,
        Option::None => 0,
    }
}

/// The key IP a profile is filed under for this event: the client address
/// by the fixed priority order SYN, SYN-ACK, HTTP request, HTTP response,
/// TLS, MTU, uptime — for handshake and response packets that is the
/// recorded destination, which is the client that initiated the exchange.
pub open spec fn primary_ip(e: FingerprintEvent) -> Option<Seq<char>> {
    if e.syn is Some {
        Some(e.syn->0.source.ip@)
    } else if e.syn_ack is Some {
        Some(e.syn_ack->0.destination.ip@)
    } else if e.http_request is Some {
        Some(e.http_request->0.source.ip@)
    } else if e.http_response is Some {
        Some(e.http_response->0.destination.ip@)
    } else if e.tls_client is Some {
        Some(e.tls_client->0.source.ip@)
    } else if e.mtu is Some {
        Some(e.mtu->0.source.ip@)
    } else if e.uptime is Some {
        Some(e.uptime->0.source.ip@)
    } else {
        None
    }
}

} // verus!
