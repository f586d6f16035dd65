use huginn::collector::{
    ActorInput, ActorOutput, CollectorCommand, CommandResponse, NetworkCollector, NetworkCollectorBuilder,
    merge_profiles,
};
use huginn::config::CollectorConfig;
use huginn::fingerprint::{
    FingerprintEvent, HttpRequestEvent, HttpResponseEvent, LabelMatch, MatchLabel, SynEvent,
};
use huginn::profile::{HttpDetails, NetworkEndpoint, TcpDetails, TrafficProfile};

fn endpoint(ip: &str, port: u16) -> NetworkEndpoint {
    NetworkEndpoint { ip: ip.to_string(), port }
}

fn tcp_details() -> TcpDetails {
    TcpDetails {
        version: "IPv4".to_string(),
        initial_ttl: "Value*64".to_string(),
        options_length: 0,
        mss: Some(1460),
        window_size: "MSS*44".to_string(),
        window_scale: Some(7),
        options_layout: "mss,sok,ts,nop,ws".to_string(),
        quirks: "df,id+".to_string(),
        payload_class: "0".to_string(),
    }
}

fn http_details() -> HttpDetails {
    HttpDetails {
        version: "1".to_string(),
        header_order: "host, user-agent".to_string(),
        headers_absent: "".to_string(),
        expected_software: "Chrome".to_string(),
    }
}

fn syn_event_for(ip: &str, quality: u32) -> FingerprintEvent {
    let mut event = FingerprintEvent::empty();
    event.syn = Some(SynEvent {
        source: endpoint(ip, 44321),
        os_matched: Some(LabelMatch {
            label: MatchLabel { name: "Linux".to_string(), family: None, variant: None },
            quality,
        }),
        signature: "tcp-sig".to_string(),
        details: tcp_details(),
        distance: 6,
    });
    event
}

fn http_request_event_for(ip: &str, quality: u32) -> FingerprintEvent {
    let mut event = FingerprintEvent::empty();
    event.http_request = Some(HttpRequestEvent {
        source: endpoint(ip, 44321),
        browser_matched: Some(LabelMatch {
            label: MatchLabel { name: "Chrome".to_string(), family: None, variant: None },
            quality,
        }),
        lang: Some("en".to_string()),
        diagnosis: "none".to_string(),
        signature: "http-sig".to_string(),
        details: http_details(),
        horder: vec![],
    });
    event
}

fn http_response_event_for(ip: &str, quality: u32) -> FingerprintEvent {
    let mut event = FingerprintEvent::empty();
    event.http_response = Some(HttpResponseEvent {
        source: endpoint("93.184.216.34", 80),
        destination: endpoint(ip, 44321),
        web_server_matched: Some(LabelMatch {
            label: MatchLabel { name: "Apache".to_string(), family: None, variant: None },
            quality,
        }),
        diagnosis: "none".to_string(),
        signature: "resp-sig".to_string(),
        details: http_details(),
        horder: vec![],
    });
    event
}

fn collector() -> NetworkCollector {
    NetworkCollector::new(CollectorConfig::default()).unwrap()
}

#[test]
fn test_collector_rejects_invalid_config() {
    match NetworkCollector::new(CollectorConfig::new("".to_string())) {
        Err(err) => assert_eq!(err.message(), "Configuration error: Interface cannot be empty"),
        Ok(_) => panic!("an empty interface must be rejected"),
    }
}

#[test]
fn test_event_stream_scenario() {
    // SYN with OS confidence 0.90: profile created, completeness 0.40,
    // tcp set.  HTTP request with confidence 0.50: completeness 0.70,
    // request and browser set.  HTTP response with confidence 0.30: the
    // response sub-record replaces, the stored 0.50 scalars stay.
    let mut c = collector();

    c.process_fingerprint_result(syn_event_for("10.0.0.1", 90), 1).unwrap();
    {
        let p = c.get_profile("10.0.0.1").unwrap();
        assert_eq!(p.metadata.completeness, 40);
        assert_eq!(p.tcp.as_ref().unwrap().os, "Linux");
        assert_eq!(p.tcp.as_ref().unwrap().quality, 90);
        assert_eq!(p.metadata.packet_count, 1);
    }

    c.process_fingerprint_result(http_request_event_for("10.0.0.1", 50), 2).unwrap();
    {
        let p = c.get_profile("10.0.0.1").unwrap();
        assert_eq!(p.metadata.completeness, 70);
        let http = p.http.as_ref().unwrap();
        assert!(http.request.is_some());
        assert_eq!(http.browser, "Chrome");
        assert_eq!(http.quality, 50);
        assert_eq!(p.metadata.packet_count, 2);
    }

    c.process_fingerprint_result(http_response_event_for("10.0.0.1", 30), 3).unwrap();
    {
        let p = c.get_profile("10.0.0.1").unwrap();
        assert_eq!(p.metadata.completeness, 70);
        let http = p.http.as_ref().unwrap();
        assert!(http.request.is_some());
        assert!(http.response.is_some());
        assert_eq!(http.browser, "Chrome");
        assert_eq!(http.quality, 50);
        assert_eq!(http.language.as_deref(), Some("en"));
        assert_eq!(p.metadata.packet_count, 3);
    }
    assert_eq!(c.profile_count(), 1);
}

#[test]
fn test_packet_count_equals_number_of_merges() {
    let mut c = collector();
    let n: u64 = 5;
    for i in 0..n {
        c.process_fingerprint_result(syn_event_for("10.0.0.1", 90), i).unwrap();
    }
    assert_eq!(c.get_profile("10.0.0.1").unwrap().metadata.packet_count, n);
    assert_eq!(c.profile_count(), 1);
}

#[test]
fn test_events_keyed_by_ip() {
    let mut c = collector();
    c.process_fingerprint_result(syn_event_for("10.0.0.1", 90), 1).unwrap();
    c.process_fingerprint_result(syn_event_for("10.0.0.2", 80), 2).unwrap();
    assert_eq!(c.profile_count(), 2);
    assert!(c.get_profile("10.0.0.1").is_some());
    assert!(c.get_profile("10.0.0.2").is_some());
    assert!(c.get_profile("10.0.0.3").is_none());
}

#[test]
fn test_empty_event_never_inserts() {
    let mut c = collector();
    c.process_fingerprint_result(FingerprintEvent::empty(), 1).unwrap();
    assert_eq!(c.profile_count(), 0);
}

#[test]
fn test_merge_profiles_accumulates_counts() {
    let mut existing = TrafficProfile::new("10.0.0.1".to_string(), 0, 1);
    existing.metadata.packet_count = 3;
    let mut incoming = TrafficProfile::new("10.0.0.1".to_string(), 0, 9);
    incoming.metadata.packet_count = 2;
    incoming.metadata.last_updated = 9;

    merge_profiles(&mut existing, incoming);
    assert_eq!(existing.metadata.packet_count, 5);
    assert_eq!(existing.metadata.first_seen, 1);
    assert_eq!(existing.metadata.last_updated, 9);
    assert_eq!(existing.timestamp, 9);
    assert_eq!(existing.metadata.completeness, 0);
}

#[test]
fn test_actor_answers_commands_in_step_order() {
    let mut c = collector();
    let out = c.actor_step(ActorInput::Event(syn_event_for("10.0.0.1", 90)), 1);
    assert!(matches!(out, ActorOutput::Continue));

    match c.actor_step(ActorInput::Command(CollectorCommand::GetProfileCount), 2) {
        ActorOutput::Response(CommandResponse::ProfileCount(n)) => assert_eq!(n, 1),
        _ => panic!("expected a profile count response"),
    }

    match c.actor_step(ActorInput::Command(CollectorCommand::GetProfile("10.0.0.1".to_string())), 3) {
        ActorOutput::Response(CommandResponse::Profile(Some(p))) => {
            assert_eq!(p.ip, "10.0.0.1");
            assert_eq!(p.metadata.completeness, 40);
        },
        _ => panic!("expected the stored profile"),
    }

    match c.actor_step(ActorInput::Command(CollectorCommand::GetProfiles), 4) {
        ActorOutput::Response(CommandResponse::Profiles(t)) => assert_eq!(t.len(), 1),
        _ => panic!("expected the full table"),
    }

    match c.actor_step(ActorInput::Command(CollectorCommand::ClearProfiles), 5) {
        ActorOutput::Response(CommandResponse::Cleared) => {},
        _ => panic!("expected a clear acknowledgement"),
    }
    assert_eq!(c.profile_count(), 0);

    assert!(matches!(c.actor_step(ActorInput::Shutdown, 6), ActorOutput::Stop));
    assert!(matches!(c.actor_step(ActorInput::InputClosed, 7), ActorOutput::Stop));
}

#[test]
fn test_builder_settings_carry_through() {
    let c = NetworkCollectorBuilder::new("wlan0".to_string())
        .buffer_size(64)
        .channel_buffer_size(256)
        .min_quality(75)
        .enable_tcp(true)
        .enable_http(false)
        .enable_tls(true)
        .verbose(true)
        .build()
        .unwrap();
    drop(c);

    let err = NetworkCollectorBuilder::new("eth0".to_string()).buffer_size(0).build();
    assert!(err.is_err());
}
