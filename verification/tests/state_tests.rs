use huginn::broadcast::{TryRecvOutcome, UpdateBroadcaster};
use huginn::profile::TrafficProfile;
use huginn::snapshot::SnapshotCache;
use huginn::state::{AppState, ProfileUpdate, UpdateType, diff_updates, stats_of_table};
use huginn::table::ProfileTable;

fn profile(ip: &str, stamp: u64) -> TrafficProfile {
    let mut p = TrafficProfile::new(ip.to_string(), 0, stamp);
    p.timestamp = stamp;
    p
}

fn table_of(entries: &[(&str, u64)]) -> ProfileTable {
    let mut t = ProfileTable::new();
    for (ip, stamp) in entries {
        t.insert(ip.to_string(), profile(ip, *stamp));
    }
    t
}

fn update(kind: UpdateType, key: &str, stamp: u64) -> ProfileUpdate {
    ProfileUpdate { update_type: kind, key: key.to_string(), profile: None, timestamp: stamp }
}

#[test]
fn test_app_state_creation() {
    let state = AppState::new();
    drop(state);
}

#[test]
fn test_diff_reports_each_change_once() {
    let old = table_of(&[("10.0.0.1", 1), ("10.0.0.2", 1), ("10.0.0.3", 1)]);
    // 10.0.0.1 unchanged, 10.0.0.2 mutated, 10.0.0.3 removed, 10.0.0.4 new.
    let new = table_of(&[("10.0.0.1", 1), ("10.0.0.2", 5), ("10.0.0.4", 6)]);

    let updates = diff_updates(&old, &new, 9);
    assert_eq!(updates.len(), 3);
    assert_eq!(updates[0].update_type, UpdateType::ProfileUpdated);
    assert_eq!(updates[0].key, "10.0.0.2");
    assert!(updates[0].profile.is_some());
    assert_eq!(updates[1].update_type, UpdateType::ProfileCreated);
    assert_eq!(updates[1].key, "10.0.0.4");
    assert_eq!(updates[2].update_type, UpdateType::ProfileRemoved);
    assert_eq!(updates[2].key, "10.0.0.3");
    assert!(updates[2].profile.is_none());
    assert!(updates.iter().all(|u| u.timestamp == 9));
}

#[test]
fn test_update_profiles_notifies_subscribers() {
    let state = AppState::new();
    let mut rx = state.subscribe_updates();

    state.update_profiles(table_of(&[("10.0.0.1", 1)]), 2);
    match rx.try_next() {
        TryRecvOutcome::Item(u) => {
            assert_eq!(u.update_type, UpdateType::ProfileCreated);
            assert_eq!(u.key, "10.0.0.1");
        },
        _ => panic!("expected the created notification"),
    }
    assert!(matches!(rx.try_next(), TryRecvOutcome::Empty));
    assert_eq!(state.profile_count(), 1);
}

#[test]
fn test_clear_profiles_emits_removed_for_key() {
    let state = AppState::new();
    state.update_profiles(table_of(&[("10.0.0.1", 1)]), 2);

    let mut rx = state.subscribe_updates();
    state.clear_profiles(3);

    match rx.try_next() {
        TryRecvOutcome::Item(u) => {
            assert_eq!(u.update_type, UpdateType::ProfileRemoved);
            assert_eq!(u.key, "10.0.0.1");
        },
        _ => panic!("expected the removed notification"),
    }
    assert_eq!(state.profile_count(), 0);
    // A reader told of the change immediately observes it.
    assert!(state.get_profile("10.0.0.1").is_none());
}

#[test]
fn test_lagged_subscriber_gets_exact_skip_count() {
    // Capacity 2, five messages published: the subscriber missed exactly 3.
    let tx = UpdateBroadcaster::new(2);
    let mut rx = tx.subscribe();
    for i in 0..5u64 {
        tx.publish(update(UpdateType::StatsUpdated, "10.0.0.1", i));
    }
    match rx.try_next() {
        TryRecvOutcome::Lagged(skipped) => assert_eq!(skipped, 3),
        _ => panic!("expected a lag report"),
    }
    // After the lag report the subscriber resumes at the oldest retained
    // message.
    match rx.try_next() {
        TryRecvOutcome::Item(u) => assert_eq!(u.timestamp, 3),
        _ => panic!("expected the oldest retained message"),
    }
    match rx.try_next() {
        TryRecvOutcome::Item(u) => assert_eq!(u.timestamp, 4),
        _ => panic!("expected the final message"),
    }
    assert!(matches!(rx.try_next(), TryRecvOutcome::Empty));
}

#[test]
fn test_subscriber_closed_when_producer_gone() {
    let tx = UpdateBroadcaster::new(4);
    let mut rx = tx.subscribe();
    tx.publish(update(UpdateType::StatsUpdated, "10.0.0.1", 1));
    drop(tx);
    assert!(matches!(rx.try_next(), TryRecvOutcome::Item(_)));
    assert!(matches!(rx.try_next(), TryRecvOutcome::Closed));
}

#[test]
fn test_snapshot_readers_keep_old_table() {
    let cache = SnapshotCache::new();
    cache.publish(table_of(&[("10.0.0.1", 1)]));

    let held = cache.current();
    cache.publish(table_of(&[("10.0.0.1", 1), ("10.0.0.2", 2), ("10.0.0.3", 3)]));

    // The reader that loaded before the swap still sees its consistent
    // snapshot; new readers see the new one.
    assert_eq!(held.len(), 1);
    assert_eq!(cache.current().len(), 3);
    assert_eq!(cache.count(), 3);
    assert!(cache.get("10.0.0.3").is_some());
    assert!(held.get("10.0.0.3").is_none());
}

#[test]
fn test_stats_count_categories() {
    let mut t = ProfileTable::new();
    let mut with_tcp = profile("10.0.0.1", 1);
    with_tcp.update_tcp(
        huginn::profile::TcpAnalysis {
            os: "Linux".to_string(),
            quality: 90,
            distance: 6,
            signature: "s".to_string(),
            details: huginn::profile::TcpDetails {
                version: "IPv4".to_string(),
                initial_ttl: "Value*64".to_string(),
                options_length: 0,
                mss: None,
                window_size: "w".to_string(),
                window_scale: None,
                options_layout: "o".to_string(),
                quirks: "q".to_string(),
                payload_class: "0".to_string(),
            },
        },
        2,
    );
    t.insert("10.0.0.1".to_string(), with_tcp);
    t.insert("10.0.0.2".to_string(), profile("10.0.0.2", 1));

    let stats = stats_of_table(&t, 7);
    assert_eq!(stats.total_profiles, 2);
    assert_eq!(stats.tcp_profiles, 1);
    assert_eq!(stats.http_profiles, 0);
    assert_eq!(stats.tls_profiles, 0);
    assert_eq!(stats.complete_profiles, 0);
    assert_eq!(stats.timestamp, 7);
}

#[test]
fn test_remove_profile_returns_and_notifies() {
    let state = AppState::new();
    state.update_profiles(table_of(&[("10.0.0.1", 1), ("10.0.0.2", 2)]), 3);
    let mut rx = state.subscribe_updates();

    assert!(state.remove_profile("10.0.0.9", 4).is_none());
    assert!(matches!(rx.try_next(), TryRecvOutcome::Empty));

    let removed = state.remove_profile("10.0.0.1", 5).unwrap();
    assert_eq!(removed.ip, "10.0.0.1");
    match rx.try_next() {
        TryRecvOutcome::Item(u) => {
            assert_eq!(u.update_type, UpdateType::ProfileRemoved);
            assert_eq!(u.key, "10.0.0.1");
        },
        _ => panic!("expected the removed notification"),
    }
    assert_eq!(state.profile_count(), 1);
}

#[test]
fn test_upsert_profile_kinds() {
    let state = AppState::new();
    let mut rx = state.subscribe_updates();

    state.upsert_profile("10.0.0.1".to_string(), profile("10.0.0.1", 1), 2);
    match rx.try_next() {
        TryRecvOutcome::Item(u) => assert_eq!(u.update_type, UpdateType::ProfileCreated),
        _ => panic!("expected a created notification"),
    }

    state.upsert_profile("10.0.0.1".to_string(), profile("10.0.0.1", 5), 6);
    match rx.try_next() {
        TryRecvOutcome::Item(u) => assert_eq!(u.update_type, UpdateType::ProfileUpdated),
        _ => panic!("expected an updated notification"),
    }
    assert_eq!(state.profile_count(), 1);
}
