use huginn::analyzer::{AnalyzerConfig, HuginnAnalyzer};
use huginn::fingerprint::{
    FingerprintEvent, HttpRequestEvent, LabelMatch, MatchLabel, MtuEvent, SynEvent, UptimeEvent,
};
use huginn::profile::{HttpDetails, NetworkEndpoint, TcpDetails};

fn endpoint(ip: &str, port: u16) -> NetworkEndpoint {
    NetworkEndpoint { ip: ip.to_string(), port }
}

fn tcp_details() -> TcpDetails {
    TcpDetails {
        version: "IPv4".to_string(),
        initial_ttl: "Value*64".to_string(),
        options_length: 0,
        mss: Some(1460),
        window_size: "MSS*44".to_string(),
        window_scale: Some(7),
        options_layout: "mss,sok,ts,nop,ws".to_string(),
        quirks: "df,id+".to_string(),
        payload_class: "0".to_string(),
    }
}

fn http_details() -> HttpDetails {
    HttpDetails {
        version: "1".to_string(),
        header_order: "host, user-agent".to_string(),
        headers_absent: "".to_string(),
        expected_software: "Chrome".to_string(),
    }
}

fn syn_event(ip: &str, quality: u32) -> SynEvent {
    SynEvent {
        source: endpoint(ip, 44321),
        os_matched: Some(LabelMatch {
            label: MatchLabel {
                name: "Linux".to_string(),
                family: Some("unix".to_string()),
                variant: Some("3.x".to_string()),
            },
            quality,
        }),
        signature: "tcp-sig".to_string(),
        details: tcp_details(),
        distance: 6,
    }
}

fn http_request_event(ip: &str, quality: u32, horder: Vec<String>) -> HttpRequestEvent {
    HttpRequestEvent {
        source: endpoint(ip, 44321),
        browser_matched: Some(LabelMatch {
            label: MatchLabel { name: "Chrome".to_string(), family: None, variant: None },
            quality,
        }),
        lang: Some("en".to_string()),
        diagnosis: "none".to_string(),
        signature: "http-sig".to_string(),
        details: http_details(),
        horder,
    }
}

struct CountingHandler {
    seen: std::sync::Arc<std::sync::atomic::AtomicUsize>,
}

impl huginn::events::EventHandler for CountingHandler {
    fn handle_event(&self, _event: huginn::events::TrafficEvent) -> Result<(), huginn::error::HuginnError> {
        self.seen.fetch_add(1, std::sync::atomic::Ordering::SeqCst);
        Ok(())
    }
}

#[test]
fn test_dispatcher_fans_events_out() {
    let seen = std::sync::Arc::new(std::sync::atomic::AtomicUsize::new(0));
    let mut analyzer = HuginnAnalyzer::new();
    analyzer.event_dispatcher_mut().add_handler(CountingHandler { seen: seen.clone() });

    let mut event = FingerprintEvent::empty();
    event.syn = Some(syn_event("10.0.0.1", 90));
    let _ = analyzer.analyze(event, 7).unwrap();

    assert_eq!(seen.load(std::sync::atomic::Ordering::SeqCst), 1);
}

#[test]
fn test_analyzer_creation() {
    let analyzer = HuginnAnalyzer::new();
    drop(analyzer);
}

#[test]
fn test_analyzer_with_config() {
    let config = AnalyzerConfig { enable_tcp: true, enable_http: false, enable_tls: true, min_quality: 80 };
    let analyzer = HuginnAnalyzer::with_config(config);
    drop(analyzer);
}

#[test]
fn test_analyze_empty_event_yields_nothing() {
    let analyzer = HuginnAnalyzer::new();
    let outcome = analyzer.analyze(FingerprintEvent::empty(), 5).unwrap();
    assert!(outcome.is_none());
}

#[test]
fn test_analyze_syn_builds_profile() {
    let analyzer = HuginnAnalyzer::new();
    let mut event = FingerprintEvent::empty();
    event.syn = Some(syn_event("10.0.0.1", 90));

    let profile = analyzer.analyze(event, 7).unwrap().unwrap();
    assert_eq!(profile.ip, "10.0.0.1");
    assert_eq!(profile.port, 0);
    assert_eq!(profile.metadata.completeness, 40);
    assert_eq!(profile.metadata.packet_count, 1);

    let tcp = profile.tcp.as_ref().unwrap();
    assert_eq!(tcp.os, "Linux unix 3.x");
    assert_eq!(tcp.quality, 90);
    assert_eq!(tcp.distance, 6);
    let client = profile.tcp_client.as_ref().unwrap();
    assert_eq!(client.os, "Linux unix 3.x");
    assert!(profile.tcp_server.is_none());
    assert_eq!(profile.raw_data.source_ip.as_deref(), Some("10.0.0.1"));
    assert!(profile.raw_data.syn.is_some());
}

#[test]
fn test_analyze_applies_quality_threshold_per_category() {
    let analyzer = HuginnAnalyzer::with_config(AnalyzerConfig {
        enable_tcp: true,
        enable_http: true,
        enable_tls: true,
        min_quality: 60,
    });
    let mut event = FingerprintEvent::empty();
    event.syn = Some(syn_event("10.0.0.1", 90));
    event.http_request = Some(http_request_event("10.0.0.1", 30, vec![]));

    let profile = analyzer.analyze(event, 7).unwrap().unwrap();
    // The weak HTTP fragment is dropped for its category only.
    assert!(profile.tcp.is_some());
    assert!(profile.http.is_none());
    assert!(profile.raw_data.http_request.is_some());
    assert_eq!(profile.metadata.completeness, 40);
}

#[test]
fn test_analyze_all_below_threshold_yields_nothing() {
    let analyzer = HuginnAnalyzer::with_config(AnalyzerConfig {
        enable_tcp: true,
        enable_http: true,
        enable_tls: true,
        min_quality: 95,
    });
    let mut event = FingerprintEvent::empty();
    event.syn = Some(syn_event("10.0.0.1", 90));
    assert!(analyzer.analyze(event, 7).unwrap().is_none());
}

#[test]
fn test_analyze_mtu_only_event_yields_nothing() {
    // An event with no category data never results in a profile, even
    // though it carries an extractable IP.
    let analyzer = HuginnAnalyzer::new();
    let mut event = FingerprintEvent::empty();
    event.mtu = Some(MtuEvent { source: endpoint("10.0.0.9", 1), mtu: 1500 });
    assert!(analyzer.analyze(event, 7).unwrap().is_none());
}

#[test]
fn test_analyze_disabled_category_is_dropped() {
    let analyzer = HuginnAnalyzer::with_config(AnalyzerConfig {
        enable_tcp: false,
        enable_http: true,
        enable_tls: true,
        min_quality: 0,
    });
    let mut event = FingerprintEvent::empty();
    event.syn = Some(syn_event("10.0.0.1", 90));
    // The raw record alone does not make a profile.
    assert!(analyzer.analyze(event, 7).unwrap().is_none());
}

#[test]
fn test_header_extraction_from_horder() {
    let analyzer = HuginnAnalyzer::new();
    let mut event = FingerprintEvent::empty();
    event.http_request = Some(http_request_event(
        "10.0.0.1",
        50,
        vec![
            "Host=[example.com]".to_string(),
            "User-Agent=[Mozilla/5.0]".to_string(),
            "Accept-Language=en-US,en".to_string(),
            "Connection".to_string(),
        ],
    ));

    let profile = analyzer.analyze(event, 7).unwrap().unwrap();
    let req = profile.raw_data.http_request.as_ref().unwrap();
    assert_eq!(req.host.as_deref(), Some("example.com"));
    assert_eq!(req.user_agent.as_deref(), Some("Mozilla/5.0"));
    // A value without brackets is taken whole.
    assert_eq!(req.accept_language.as_deref(), Some("en-US,en"));
    // A header without '=' contributes nothing.
    assert!(req.connection.is_none());
    assert!(req.accept.is_none());
    assert_eq!(req.method.as_deref(), Some("GET"));
    assert_eq!(req.quality, 50);
}

#[test]
fn test_uptime_seconds_computed() {
    let analyzer = HuginnAnalyzer::new();
    let mut event = FingerprintEvent::empty();
    event.syn = Some(syn_event("10.0.0.1", 90));
    event.uptime = Some(UptimeEvent { source: endpoint("10.0.0.1", 1), days: 2, hours: 3, min: 4 });

    let profile = analyzer.analyze(event, 7).unwrap().unwrap();
    let uptime = profile.raw_data.uptime.as_ref().unwrap();
    assert_eq!(uptime.uptime_seconds, 2 * 24 * 3600 + 3 * 3600 + 4 * 60);
}

#[test]
fn test_ip_priority_order() {
    // A SYN-ACK's recorded destination is the client that initiated the
    // connection, and outranks later categories.
    let analyzer = HuginnAnalyzer::new();
    let mut event = FingerprintEvent::empty();
    event.syn_ack = Some(huginn::fingerprint::SynAckEvent {
        source: endpoint("93.184.216.34", 443),
        destination: endpoint("10.0.0.7", 51312),
        os_matched: Some(LabelMatch {
            label: MatchLabel { name: "FreeBSD".to_string(), family: None, variant: None },
            quality: 80,
        }),
        signature: "sa-sig".to_string(),
        details: tcp_details(),
        distance: 12,
    });
    event.http_request = Some(http_request_event("10.0.0.8", 70, vec![]));

    let profile = analyzer.analyze(event, 7).unwrap().unwrap();
    assert_eq!(profile.ip, "10.0.0.7");
    assert!(profile.tcp_server.is_some());
    assert!(profile.tcp.is_none());
}
