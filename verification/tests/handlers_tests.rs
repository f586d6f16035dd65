use huginn::broadcast::TryRecvOutcome;
use huginn::events::{format_event, TrafficEvent};
use huginn::fingerprint::{MatchLabel};
use huginn::handlers::{
    ProfileQuery, SearchQuery, api_info, convert_profile_to_tcp_info, get_profiles, health, search_profiles,
};
use huginn::profile::{
    HttpRequestData, MtuData, NetworkEndpoint, OsDetection, SynPacketData, TcpAnalysis, TcpDetails,
    TrafficProfile, UptimeData,
};
use huginn::state::{AppState, ProfileUpdate, UpdateType};
use huginn::table::ProfileTable;
use huginn::websocket::{ClientMessage, ServerMessage, SessionAction, handle_client_message, session_update_step};

fn tcp_details() -> TcpDetails {
    TcpDetails {
        version: "IPv4".to_string(),
        initial_ttl: "Value*64".to_string(),
        options_length: 0,
        mss: Some(1460),
        window_size: "MSS*44".to_string(),
        window_scale: Some(7),
        options_layout: "mss,sok,ts,nop,ws".to_string(),
        quirks: "df,id+".to_string(),
        payload_class: "0".to_string(),
    }
}

fn profile_with_raw(ip: &str) -> TrafficProfile {
    let mut p = TrafficProfile::new(ip.to_string(), 0, 1);
    p.raw_data.syn = Some(SynPacketData {
        source: NetworkEndpoint { ip: ip.to_string(), port: 44321 },
        os_detected: Some(OsDetection { os: "Linux unix 3.x".to_string(), quality: 90, distance: 6 }),
        signature: "tcp-sig".to_string(),
        details: tcp_details(),
        timestamp: 1,
    });
    p.raw_data.http_request = Some(HttpRequestData {
        user_agent: Some("Mozilla/5.0".to_string()),
        accept: Some("text/html".to_string()),
        accept_language: Some("en-US, en".to_string()),
        accept_encoding: None,
        connection: Some("keep-alive".to_string()),
        method: Some("GET".to_string()),
        host: Some("example.com".to_string()),
        signature: "http-sig".to_string(),
        quality: 50,
    });
    p.raw_data.mtu = Some(MtuData {
        source: NetworkEndpoint { ip: ip.to_string(), port: 1 },
        mtu_value: 1500,
        timestamp: 1,
    });
    p.raw_data.uptime = Some(UptimeData {
        source: NetworkEndpoint { ip: ip.to_string(), port: 1 },
        uptime_seconds: 3660,
        timestamp: 1,
    });
    p
}

#[test]
fn test_convert_profile_views_each_observation() {
    let info = convert_profile_to_tcp_info(&profile_with_raw("10.0.0.1"));

    assert_eq!(info.source_ip.as_deref(), Some("10.0.0.1"));

    let syn = info.syn.as_ref().unwrap();
    assert_eq!(syn.os, "Linux unix 3.x");
    assert_eq!(syn.quality, "0.90");
    assert_eq!(syn.dist, "6");
    assert_eq!(syn.signature, "tcp-sig");
    assert_eq!(syn.observed.version, "IPv4");
    assert_eq!(syn.observed.mss, Some(1460));
    assert!(info.syn_ack.is_none());

    let req = info.http_request.as_ref().unwrap();
    assert_eq!(req.lang.as_deref(), Some("en-US"));
    assert_eq!(req.quality, "0.50");
    assert_eq!(req.browser, "Chrome Android");
    assert_eq!(
        req.observed.horder,
        "Host,Connection=[keep-alive],User-Agent,Accept=[text/html],Accept-Language=[en-US, en]"
    );

    let mtu = info.mtu.as_ref().unwrap();
    assert_eq!(mtu.link, "ethernet");
    assert_eq!(mtu.mtu, 1500);

    let uptime = info.uptime.as_ref().unwrap();
    assert_eq!(uptime.time, "0 days, 1 hrs, 1 min (modulo 0 days)");
    assert_eq!(uptime.freq, "0.00 Hz");
}

#[test]
fn test_convert_fallbacks_without_match() {
    let mut p = TrafficProfile::new("10.0.0.1".to_string(), 0, 1);
    p.raw_data.syn = Some(SynPacketData {
        source: NetworkEndpoint { ip: "10.0.0.1".to_string(), port: 44321 },
        os_detected: None,
        signature: "tcp-sig".to_string(),
        details: tcp_details(),
        timestamp: 1,
    });
    let info = convert_profile_to_tcp_info(&p);
    let syn = info.syn.as_ref().unwrap();
    assert_eq!(syn.os, "Linux unix Android");
    assert_eq!(syn.quality, "1.00");
    assert_eq!(syn.dist, "6");
}

fn filter_table() -> ProfileTable {
    let mut t = ProfileTable::new();
    t.insert("10.0.0.1".to_string(), profile_with_raw("10.0.0.1"));
    let mut plain = TrafficProfile::new("10.0.0.2".to_string(), 0, 1);
    plain.update_tcp(
        TcpAnalysis {
            os: "Windows NT kernel".to_string(),
            quality: 80,
            distance: 3,
            signature: "s".to_string(),
            details: tcp_details(),
        },
        2,
    );
    t.insert("10.0.0.2".to_string(), plain);
    t.insert("10.0.0.3".to_string(), TrafficProfile::new("10.0.0.3".to_string(), 0, 1));
    t
}

#[test]
fn test_get_profiles_filters_and_limits() {
    let t = filter_table();
    let all = get_profiles(
        &t,
        &ProfileQuery { min_completeness: None, has_tcp: None, has_http: None, has_tls: None, limit: None },
        9,
    );
    assert_eq!(all.count, 3);
    assert_eq!(all.timestamp, 9);

    let with_tcp = get_profiles(
        &t,
        &ProfileQuery {
            min_completeness: None,
            has_tcp: Some(true),
            has_http: None,
            has_tls: None,
            limit: None,
        },
        9,
    );
    assert_eq!(with_tcp.count, 2);
    assert_eq!(with_tcp.profiles[0].0, "10.0.0.1");
    assert_eq!(with_tcp.profiles[1].0, "10.0.0.2");

    let complete_enough = get_profiles(
        &t,
        &ProfileQuery {
            min_completeness: Some(40),
            has_tcp: None,
            has_http: None,
            has_tls: None,
            limit: None,
        },
        9,
    );
    assert_eq!(complete_enough.count, 1);
    assert_eq!(complete_enough.profiles[0].0, "10.0.0.2");

    let limited = get_profiles(
        &t,
        &ProfileQuery { min_completeness: None, has_tcp: None, has_http: None, has_tls: None, limit: Some(2) },
        9,
    );
    assert_eq!(limited.count, 2);
}

#[test]
fn test_search_scores_and_sorts() {
    let t = filter_table();
    let response = search_profiles(&t, &SearchQuery { q: "windows".to_string(), limit: None }, 9);
    assert_eq!(response.count, 1);
    assert_eq!(response.results[0].key, "10.0.0.2");
    // Only the OS label matches: relevance is exactly its 0.80 weight.
    assert_eq!(response.results[0].relevance, 80);

    let by_ip = search_profiles(&t, &SearchQuery { q: "10.0.0.2".to_string(), limit: None }, 9);
    assert_eq!(by_ip.count, 1);
    assert_eq!(by_ip.results[0].relevance, 100);

    let broad = search_profiles(&t, &SearchQuery { q: "10.0.0".to_string(), limit: None }, 9);
    assert_eq!(broad.count, 3);
    let relevances: Vec<u32> = broad.results.iter().map(|r| r.relevance).collect();
    let mut sorted = relevances.clone();
    sorted.sort_by(|a, b| b.cmp(a));
    assert_eq!(relevances, sorted);

    let none = search_profiles(&t, &SearchQuery { q: "nothing-here".to_string(), limit: None }, 9);
    assert_eq!(none.count, 0);

    let limited = search_profiles(&t, &SearchQuery { q: "10.0.0".to_string(), limit: Some(1) }, 9);
    assert_eq!(limited.count, 1);
}

#[test]
fn test_api_info_catalogue() {
    let info = api_info("1.2.3".to_string(), 9);
    assert_eq!(info.name, "Huginn API");
    assert_eq!(info.version, "1.2.3");
    assert_eq!(info.endpoints.len(), 9);
    assert_eq!(info.endpoints[0].path, "/health");
    assert_eq!(info.endpoints[8].path, "/ws");
    assert_eq!(info.endpoints[5].method, "DELETE");
}

#[test]
fn test_health_answer() {
    let h = health("1.2.3".to_string(), 4);
    assert_eq!(h.status, "healthy");
    assert_eq!(h.version, "1.2.3");
    assert_eq!(h.timestamp, 4);
}

#[test]
fn test_session_lag_catch_up_carries_skip_count() {
    let state = AppState::new();
    state.update_profiles(
        {
            let mut t = ProfileTable::new();
            t.insert("10.0.0.1".to_string(), TrafficProfile::new("10.0.0.1".to_string(), 0, 1));
            t
        },
        2,
    );

    match session_update_step(&state, TryRecvOutcome::Lagged(7), 9) {
        SessionAction::Send(ServerMessage::CatchUp { profiles, skipped_updates, timestamp, .. }) => {
            assert_eq!(skipped_updates, 7);
            assert_eq!(timestamp, 9);
            // The catch-up carries a table consistent with the state.
            assert_eq!(profiles.len(), 1);
        },
        _ => panic!("a lag must yield a catch-up"),
    }

    assert!(matches!(session_update_step(&state, TryRecvOutcome::Empty, 9), SessionAction::Idle));
    assert!(matches!(session_update_step(&state, TryRecvOutcome::Closed, 9), SessionAction::Stop));

    let u = ProfileUpdate {
        update_type: UpdateType::StatsUpdated,
        key: "10.0.0.1".to_string(),
        profile: None,
        timestamp: 5,
    };
    match session_update_step(&state, TryRecvOutcome::Item(u), 9) {
        SessionAction::Send(ServerMessage::ProfileUpdate { update, timestamp, .. }) => {
            assert_eq!(update.key, "10.0.0.1");
            assert_eq!(timestamp, 9);
        },
        _ => panic!("a delivered update must be forwarded"),
    }
}

#[test]
fn test_client_messages_answered() {
    let state = AppState::new();
    state.update_profiles(
        {
            let mut t = ProfileTable::new();
            t.insert("10.0.0.1".to_string(), TrafficProfile::new("10.0.0.1".to_string(), 0, 1));
            t
        },
        2,
    );

    assert!(matches!(
        handle_client_message(ClientMessage::Ping, &state, 9),
        ServerMessage::Pong { timestamp: 9 }
    ));
    match handle_client_message(ClientMessage::GetStats, &state, 9) {
        ServerMessage::Stats { stats, timestamp } => {
            assert_eq!(stats.total_profiles, 1);
            assert_eq!(timestamp, 9);
        },
        _ => panic!("expected statistics"),
    }
    match handle_client_message(ClientMessage::GetProfiles, &state, 9) {
        ServerMessage::Profiles { profiles, .. } => assert_eq!(profiles.len(), 1),
        _ => panic!("expected the profiles"),
    }
    match handle_client_message(ClientMessage::Subscribe { filters: None }, &state, 9) {
        ServerMessage::Subscribed { message, .. } => assert_eq!(message, "Subscribed to all updates"),
        _ => panic!("expected a subscription acknowledgement"),
    }
    assert!(matches!(
        handle_client_message(ClientMessage::ClearProfiles, &state, 9),
        ServerMessage::ProfilesCleared { timestamp: 9 }
    ));
    assert_eq!(state.profile_count(), 0);
}

#[test]
fn test_format_event_lines() {
    let label = MatchLabel { name: "Linux".to_string(), family: Some("unix".to_string()), variant: None };
    assert_eq!(label.label_string(), "Linux unix");

    let e = TrafficEvent::TcpAnalyzed {
        ip: "10.0.0.1".to_string(),
        port: 0,
        os: "Linux unix".to_string(),
        quality: 90,
        timestamp: 4,
    };
    assert_eq!(format_event(&e), "TCP analysis for 10.0.0.1:0 - OS: Linux unix (quality: 0.90)");
    assert_eq!(e.ip().as_str(), "10.0.0.1");
    assert_eq!(e.port(), 0);
    assert_eq!(e.timestamp(), 4);

    let created = TrafficEvent::ProfileCreated { ip: "10.0.0.1".to_string(), port: 8080, timestamp: 4 };
    assert_eq!(format_event(&created), "New profile created for 10.0.0.1:8080");
}
