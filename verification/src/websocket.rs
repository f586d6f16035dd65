//! Decisions of a real-time subscriber session: what to answer a client
//! command, and what to do with each polled update — in particular, a
//! lagging subscriber is sent a catch-up carrying the exact skip count and
//! the current snapshot, never a replay of the missed deltas.
//!
//! The surrounding socket loop (accept, await, serialize) belongs to the
//! embedding application; it feeds these functions plain values.

use vstd::prelude::*;
use crate::broadcast::TryRecvOutcome;
use crate::state::{AppState, ProfileStats, ProfileUpdate, UpdateType, stats_match, stats_of_some_snapshot, stats_of_table};
use crate::table::ProfileTable;

verus! {

/// Filters for subscriptions.  `min_completeness` is in hundredths.
#[derive(Debug)]
pub struct SubscriptionFilters {
    /// Only updates for profiles at least this complete
    pub min_completeness: Option<u32>,
    /// Only updates of these kinds
    pub update_types: Option<Vec<String>>,
    /// Only updates for these IP addresses
    pub ip_addresses: Option<Vec<String>>,
}

/// Messages a client can send.
#[derive(Debug)]
pub enum ClientMessage {
    /// Liveness probe
    Ping,
    /// Ask for current statistics
    GetStats,
    /// Ask for the current profiles
    GetProfiles,
    /// Drop every profile
    ClearProfiles,
    /// Subscribe to updates
    Subscribe { filters: Option<SubscriptionFilters> },
}

/// Messages the server sends.
#[derive(Debug)]
pub enum ServerMessage {
    /// The full state on connect
    InitialData { profiles: ProfileTable, stats: ProfileStats, timestamp: u64 },
    /// One profile change
    ProfileUpdate { update: ProfileUpdate, stats: ProfileStats, timestamp: u64 },
    /// Resynchronization after a lag: the full current state and exactly
    /// how many updates were skipped
    CatchUp { profiles: ProfileTable, stats: ProfileStats, skipped_updates: u64, timestamp: u64 },
    /// Answer to a ping
    Pong { timestamp: u64 },
    /// Current statistics
    Stats { stats: ProfileStats, timestamp: u64 },
    /// Current profiles
    Profiles { profiles: ProfileTable, timestamp: u64 },
    /// Acknowledgement that every profile was dropped
    ProfilesCleared { timestamp: u64 },
    /// Acknowledgement of a subscription
    Subscribed { message: String, timestamp: u64 },
    /// An unusable client message
    Error { message: String, timestamp: u64 },
}

/// What the session loop must do after one poll of the update channel.
pub enum SessionAction {
    /// Deliver this message to the client
    Send(ServerMessage),
    /// Nothing new; wait
    Idle,
    /// The update channel closed; end the session
    Stop,
}

/// The message sent to a client when it connects: the full current state,
/// a well-formed table whose statistics the carried stats describe
/// exactly.
pub fn initial_message(state: &AppState, now: u64) -> (r: ServerMessage)
    ensures
        r matches ServerMessage::InitialData { profiles, stats, timestamp } && (timestamp == now
            && profiles.wf() && stats_match(stats, profiles@, now)),
{
    let snapshot = state.get_profiles();
    let table_ref: &ProfileTable = &snapshot;
    let served = table_ref.clone();
    let stats = stats_of_table(&served, now);
    ServerMessage::InitialData { profiles: served, stats, timestamp: now }
}

/// Decide one polled update: forward a delivered update with fresh
/// statistics; on a lag, build the catch-up response carrying exactly the
/// reported skip count and a well-formed snapshot whose statistics the
/// carried stats describe exactly; on a closed channel, end the session.
pub fn session_update_step(state: &AppState, outcome: TryRecvOutcome, now: u64) -> (r: SessionAction)
    ensures
        match outcome {
            TryRecvOutcome::Item(u) => r matches SessionAction::Send(m) && (m
                matches ServerMessage::ProfileUpdate { update, stats, timestamp } && update == u && timestamp
                == now && stats_of_some_snapshot(stats, now)),
            TryRecvOutcome::Empty => r is Idle,
            TryRecvOutcome::Lagged(n) => r matches SessionAction::Send(m) && (m
                matches ServerMessage::CatchUp { profiles, stats, skipped_updates, timestamp } && (
                skipped_updates == n && timestamp == now && profiles.wf() && stats_match(
                    stats,
                    profiles@,
                    now,
                ))),
            TryRecvOutcome::Closed => r is Stop,
        },
{
    match outcome {
        TryRecvOutcome::Item(update) => SessionAction::Send(
            ServerMessage::ProfileUpdate { update, stats: state.get_stats(now), timestamp: now },
        ),
        TryRecvOutcome::Empty => SessionAction::Idle,
        TryRecvOutcome::Lagged(skipped) => {
            let snapshot = state.get_profiles();
            let table_ref: &ProfileTable = &snapshot;
            let served = table_ref.clone();
            let stats = stats_of_table(&served, now);
            SessionAction::Send(
                ServerMessage::CatchUp { profiles: served, stats, skipped_updates: skipped, timestamp: now },
            )
        },
        TryRecvOutcome::Closed => SessionAction::Stop,
    }
}

/// Answer one client message; `ClearProfiles` drops every profile before
/// acknowledging.  Served statistics describe a well-formed published
/// snapshot; a served table is well-formed.
pub fn handle_client_message(msg: ClientMessage, state: &AppState, now: u64) -> (r: ServerMessage)
    ensures
        match msg {
            ClientMessage::Ping => r matches ServerMessage::Pong { timestamp } && timestamp == now,
            ClientMessage::GetStats => r matches ServerMessage::Stats { stats, timestamp } && (timestamp
                == now && stats_of_some_snapshot(stats, now)),
            ClientMessage::GetProfiles => r matches ServerMessage::Profiles { profiles, timestamp } && (
            timestamp == now && profiles.wf()),
            ClientMessage::ClearProfiles => r matches ServerMessage::ProfilesCleared { timestamp } && timestamp
                == now,
            ClientMessage::Subscribe { .. } => r matches ServerMessage::Subscribed { message, timestamp } && (
            message@ == "Subscribed to all updates"@ && timestamp == now),
        },
{
    match msg {
        ClientMessage::Ping => ServerMessage::Pong { timestamp: now },
        ClientMessage::GetStats => ServerMessage::Stats { stats: state.get_stats(now), timestamp: now },
        ClientMessage::GetProfiles => {
            let snapshot = state.get_profiles();
            let table_ref: &ProfileTable = &snapshot;
            ServerMessage::Profiles { profiles: table_ref.clone(), timestamp: now }
        },
        ClientMessage::ClearProfiles => {
            state.clear_profiles(now);
            ServerMessage::ProfilesCleared { timestamp: now }
        },
        ClientMessage::Subscribe { filters: _ } => ServerMessage::Subscribed {
            message: "Subscribed to all updates".to_owned(),
            timestamp: now,
        },
    }
}

/// The error answer for a client message the server cannot use.
pub fn error_message(message: String, now: u64) -> (r: ServerMessage)
    ensures
        r matches ServerMessage::Error { message: m, timestamp } && m == message && timestamp == now,
{
    ServerMessage::Error { message, timestamp: now }
}

} // verus!
