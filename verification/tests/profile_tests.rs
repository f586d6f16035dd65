use huginn::profile::{
    HttpAnalysis, HttpDetails, HttpRequestData, HttpResponseData, TcpAnalysis, TcpDetails, TrafficProfile,
};
use huginn::text::{hundredths_to_string, str_eq, u64_to_string};

fn tcp_details() -> TcpDetails {
    TcpDetails {
        version: "IPv4".to_string(),
        initial_ttl: "Value*64".to_string(),
        options_length: 0,
        mss: Some(1460),
        window_size: "MSS*44".to_string(),
        window_scale: Some(7),
        options_layout: "mss,sok,ts,nop,ws".to_string(),
        quirks: "df,id+".to_string(),
        payload_class: "0".to_string(),
    }
}

fn http_details() -> HttpDetails {
    HttpDetails {
        version: "1".to_string(),
        header_order: "host, user-agent".to_string(),
        headers_absent: "".to_string(),
        expected_software: "Chrome".to_string(),
    }
}

fn tcp_analysis(quality: u32) -> TcpAnalysis {
    TcpAnalysis {
        os: "Linux".to_string(),
        quality,
        distance: 6,
        signature: "sig".to_string(),
        details: tcp_details(),
    }
}

fn http_analysis(quality: u32, browser: &str) -> HttpAnalysis {
    HttpAnalysis {
        browser: browser.to_string(),
        quality,
        language: Some("en".to_string()),
        diagnosis: "none".to_string(),
        signature: "hsig".to_string(),
        details: http_details(),
        request: None,
        response: None,
    }
}

#[test]
fn test_traffic_profile_creation() {
    let profile = TrafficProfile::new("192.168.1.1".to_string(), 80, 0);

    assert_eq!(profile.ip, "192.168.1.1");
    assert_eq!(profile.port, 80);
    assert!(profile.is_empty());
    assert_eq!(profile.summary(), "No data");
}

#[test]
fn test_completeness_weights() {
    let mut profile = TrafficProfile::new("10.0.0.1".to_string(), 0, 1);
    assert_eq!(profile.metadata.completeness, 0);

    profile.update_tcp(tcp_analysis(90), 2);
    assert_eq!(profile.metadata.completeness, 40);

    profile.update_http(http_analysis(50, "Chrome"), 3);
    assert_eq!(profile.metadata.completeness, 70);

    profile.update_tls(
        huginn::profile::TlsAnalysis {
            ja4: "j".to_string(),
            ja4_raw: "jr".to_string(),
            ja4_original: "jo".to_string(),
            ja4_original_raw: "jor".to_string(),
            details: huginn::profile::TlsDetails {
                version: "1.3".to_string(),
                sni: None,
                alpn: None,
                cipher_suites: vec![1, 2],
                extensions: vec![],
                signature_algorithms: vec![],
                elliptic_curves: vec![],
            },
        },
        4,
    );
    assert_eq!(profile.metadata.completeness, 100);
    assert_eq!(profile.metadata.packet_count, 3);
    assert_eq!(profile.metadata.last_updated, 4);
    assert_eq!(profile.metadata.first_seen, 1);
}

#[test]
fn test_http_merge_keeps_higher_confidence() {
    let mut profile = TrafficProfile::new("10.0.0.1".to_string(), 0, 0);
    let mut strong = http_analysis(50, "Chrome");
    strong.request = Some(HttpRequestData {
        user_agent: Some("UA".to_string()),
        accept: None,
        accept_language: None,
        accept_encoding: None,
        connection: None,
        method: Some("GET".to_string()),
        host: None,
        signature: "rs".to_string(),
        quality: 50,
    });
    profile.update_http(strong, 1);

    let mut weak = http_analysis(30, "Apache");
    weak.language = None;
    weak.response = Some(HttpResponseData {
        server: Some("Apache".to_string()),
        content_type: None,
        content_length: None,
        set_cookie: None,
        cache_control: None,
        status: Some("200".to_string()),
        signature: "ws".to_string(),
        quality: 30,
    });
    profile.update_http(weak, 2);

    let http = profile.http.as_ref().unwrap();
    // The response sub-record always replaces; the scalars keep the
    // stored, higher confidence.
    assert!(http.request.is_some());
    assert!(http.response.is_some());
    assert_eq!(http.browser, "Chrome");
    assert_eq!(http.quality, 50);
    assert_eq!(http.language.as_deref(), Some("en"));
}

#[test]
fn test_http_merge_takes_higher_confidence() {
    let mut profile = TrafficProfile::new("10.0.0.1".to_string(), 0, 0);
    profile.update_http(http_analysis(30, "Firefox"), 1);
    profile.update_http(http_analysis(80, "Chrome"), 2);

    let http = profile.http.as_ref().unwrap();
    assert_eq!(http.browser, "Chrome");
    assert_eq!(http.quality, 80);
}

#[test]
fn test_tcp_client_server_tracked_separately() {
    let mut profile = TrafficProfile::new("10.0.0.1".to_string(), 0, 0);
    profile.update_tcp_client(tcp_analysis(90), 1);
    profile.update_tcp_server(tcp_analysis(70), 2);

    assert_eq!(profile.tcp_client.as_ref().unwrap().quality, 90);
    assert_eq!(profile.tcp_server.as_ref().unwrap().quality, 70);
    assert!(profile.tcp.is_none());
    assert_eq!(profile.metadata.completeness, 40);
}

#[test]
fn test_summary_lists_categories() {
    let mut profile = TrafficProfile::new("10.0.0.1".to_string(), 0, 0);
    profile.update_tcp(tcp_analysis(90), 1);
    profile.update_tcp_client(tcp_analysis(90), 2);
    profile.update_http(http_analysis(50, "Chrome"), 3);
    assert_eq!(profile.summary(), "TCP + TCP-Client + HTTP");
}

#[test]
fn test_u64_to_string_renders_decimal() {
    assert_eq!(u64_to_string(0), "0");
    assert_eq!(u64_to_string(7), "7");
    assert_eq!(u64_to_string(1234), "1234");
    assert_eq!(u64_to_string(1000000), "1000000");
}

#[test]
fn test_hundredths_to_string_renders_score() {
    assert_eq!(hundredths_to_string(0), "0.00");
    assert_eq!(hundredths_to_string(5), "0.05");
    assert_eq!(hundredths_to_string(90), "0.90");
    assert_eq!(hundredths_to_string(100), "1.00");
}

#[test]
fn test_str_eq_compares_text() {
    assert!(str_eq("abc", "abc"));
    assert!(!str_eq("abc", "abd"));
    assert!(!str_eq("abc", "ab"));
    assert!(str_eq("", ""));
}
