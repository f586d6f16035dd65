//! Shared application state: the snapshot cache readers see, and the
//! broadcast channel subscribers listen on.  Every mutation publishes the
//! new table first and then emits exactly one notification per affected
//! key, so a reader told of a change can immediately observe it.

use vstd::prelude::*;
use std::sync::Arc;
use crate::broadcast::{UpdateBroadcaster, UpdateReceiver};
use crate::profile::{TrafficProfile, profile_eq};
use crate::snapshot::SnapshotCache;
use crate::table::{ProfileTable, opt_profile_eq, table_get};

verus! {

/// Type of profile update.
#[derive(Clone, Copy, Debug, PartialEq, Eq, Structural)]
pub enum UpdateType {
    /// New profile created
    ProfileCreated,
    /// Existing profile updated
    ProfileUpdated,
    /// Profile removed
    ProfileRemoved,
    /// Statistics updated
    StatsUpdated,
}

/// Update event for real-time notifications.
#[derive(Debug)]
pub struct ProfileUpdate {
    /// Type of update
    pub update_type: UpdateType,
    /// Profile key (the host's IP text)
    pub key: String,
    /// Updated profile (for created/updated events)
    pub profile: Option<TrafficProfile>,
    /// Timestamp of the update, milliseconds
    pub timestamp: u64,
}

/// Notifications that say the same thing: same kind, key and time, and
/// corresponding profile payloads.
pub open spec fn update_like(a: ProfileUpdate, b: ProfileUpdate) -> bool {
    a.update_type == b.update_type && a.key@ == b.key@ && opt_profile_eq(a.profile, b.profile) && a.timestamp
        == b.timestamp
}

/// Sequences of notifications that say the same things in the same order.
pub open spec fn updates_like(a: Seq<ProfileUpdate>, b: Seq<ProfileUpdate>) -> bool {
    a.len() == b.len() && (forall|i: int| 0 <= i < a.len() ==> update_like(#[trigger] a[i], #[trigger] b[i]))
}

impl Clone for ProfileUpdate {
    fn clone(&self) -> (r: Self)
        ensures
            update_like(r, *self),
    {
        let profile = match &self.profile {
            Some(p) => Some(p.clone()),
            None => None,
        };
        ProfileUpdate {
            update_type: self.update_type,
            key: self.key.clone(),
            profile,
            timestamp: self.timestamp,
        }
    }
}

/// The created/updated notifications a table replacement owes: one per new
/// entry whose key was absent before (created) or whose profile carries a
/// different mutation time (updated), in table order.
pub open spec fn upsert_updates(
    old: Seq<(String, TrafficProfile)>,
    new: Seq<(String, TrafficProfile)>,
    now: u64,
) -> Seq<ProfileUpdate>
    decreases new.len(),
{
    if new.len() == 0 {
        Seq::empty()
    } else {
        upsert_updates(old, new.drop_last(), now) + (match table_get(old, new.last().0@) {
            Option::None => seq![
                ProfileUpdate {
                    update_type: UpdateType::ProfileCreated,
                    key: new.last().0,
                    profile: Some(new.last().1),
                    timestamp: now,
                },
            ],
            Option::Some(op) => if op.timestamp != new.last().1.timestamp {
                seq![
                    ProfileUpdate {
                        update_type: UpdateType::ProfileUpdated,
                        key: new.last().0,
                        profile: Some(new.last().1),
                        timestamp: now,
                    },
                ]
            } else {
                Seq::empty()
            },
        })
    }
}

/// The removal notifications a table replacement owes: one per old entry
/// whose key is gone from the new table, in table order.
pub open spec fn removal_updates(
    old: Seq<(String, TrafficProfile)>,
    new: Seq<(String, TrafficProfile)>,
    now: u64,
) -> Seq<ProfileUpdate>
    decreases old.len(),
{
    if old.len() == 0 {
        Seq::empty()
    } else {
        removal_updates(old.drop_last(), new, now) + (if table_get(new, old.last().0@) is None {
            seq![
                ProfileUpdate {
                    update_type: UpdateType::ProfileRemoved,
                    key: old.last().0,
                    profile: None,
                    timestamp: now,
                },
            ]
        } else {
            Seq::empty()
        })
    }
}

/// Every notification a table replacement owes: the created/updated ones,
/// then the removals.
pub open spec fn diff_spec(
    old: Seq<(String, TrafficProfile)>,
    new: Seq<(String, TrafficProfile)>,
    now: u64,
) -> Seq<ProfileUpdate> {
    upsert_updates(old, new, now) + removal_updates(old, new, now)
}

/// No two of the notifications name the same key.
pub open spec fn update_keys_distinct(us: Seq<ProfileUpdate>) -> bool {
    forall|x: int, y: int| 0 <= x < y < us.len() ==> (#[trigger] us[x]).key@ != (#[trigger] us[y]).key@
}

/// Every notification names a key bound in the given table.
pub open spec fn update_keys_in(us: Seq<ProfileUpdate>, entries: Seq<(String, TrafficProfile)>) -> bool {
    forall|x: int|
        0 <= x < us.len() ==> exists|i: int| 0 <= i < entries.len() && (#[trigger] us[x]).key@ == (#[trigger]
        entries[i]).0@
}

/// The upsert pass owes at most one notification per key, each for a key
/// of the new table.
pub proof fn lemma_upsert_one_per_key(
    old: Seq<(String, TrafficProfile)>,
    new: Seq<(String, TrafficProfile)>,
    now: u64,
)
    requires
        crate::table::keys_unique(new),
    ensures
        update_keys_distinct(upsert_updates(old, new, now)),
        update_keys_in(upsert_updates(old, new, now), new),
    decreases new.len(),
{
    if new.len() > 0 {
        let prefix = new.drop_last();
        assert(crate::table::keys_unique(prefix)) by {
            assert(forall|i: int| 0 <= i < prefix.len() ==> prefix[i] == new[i]);
        }
        lemma_upsert_one_per_key(old, prefix, now);
        let us = upsert_updates(old, new, now);
        let pre = upsert_updates(old, prefix, now);
        assert(update_keys_in(us, new)) by {
            assert forall|x: int| 0 <= x < us.len() implies exists|i: int|
                0 <= i < new.len() && (#[trigger] us[x]).key@ == (#[trigger] new[i]).0@ by {
                if x < pre.len() {
                    let i = choose|i: int| 0 <= i < prefix.len() && (#[trigger] pre[x]).key@ == (#[trigger]
                    prefix[i]).0@;
                    assert(us[x] == pre[x] && new[i] == prefix[i]);
                } else {
                    assert(us[x].key@ == new[new.len() - 1].0@);
                }
            }
        }
        assert(update_keys_distinct(us)) by {
            assert forall|x: int, y: int| 0 <= x < y < us.len() implies (#[trigger] us[x]).key@ != (#[trigger]
            us[y]).key@ by {
                if y < pre.len() {
                    assert(us[x] == pre[x] && us[y] == pre[y]);
                } else {
                    assert(us[y].key@ == new[new.len() - 1].0@);
                    assert(us[x] == pre[x]);
                    let i = choose|i: int| 0 <= i < prefix.len() && (#[trigger] pre[x]).key@ == (#[trigger]
                    prefix[i]).0@;
                    assert(new[i] == prefix[i]);
                    assert(new[i].0@ != new[new.len() - 1].0@);
                }
            }
        }
    }
}

/// The removal pass owes at most one notification per key, each for a key
/// of the old table that the new table no longer binds.
pub proof fn lemma_removal_one_per_key(
    old: Seq<(String, TrafficProfile)>,
    new: Seq<(String, TrafficProfile)>,
    now: u64,
)
    requires
        crate::table::keys_unique(old),
    ensures
        update_keys_distinct(removal_updates(old, new, now)),
        update_keys_in(removal_updates(old, new, now), old),
        forall|x: int|
            0 <= x < removal_updates(old, new, now).len() ==> table_get(
                new,
                (#[trigger] removal_updates(old, new, now)[x]).key@,
            ) is None,
    decreases old.len(),
{
    if old.len() > 0 {
        let prefix = old.drop_last();
        assert(crate::table::keys_unique(prefix)) by {
            assert(forall|i: int| 0 <= i < prefix.len() ==> prefix[i] == old[i]);
        }
        lemma_removal_one_per_key(prefix, new, now);
        let us = removal_updates(old, new, now);
        let pre = removal_updates(prefix, new, now);
        assert(update_keys_in(us, old)) by {
            assert forall|x: int| 0 <= x < us.len() implies exists|i: int|
                0 <= i < old.len() && (#[trigger] us[x]).key@ == (#[trigger] old[i]).0@ by {
                if x < pre.len() {
                    let i = choose|i: int| 0 <= i < prefix.len() && (#[trigger] pre[x]).key@ == (#[trigger]
                    prefix[i]).0@;
                    assert(us[x] == pre[x] && old[i] == prefix[i]);
                } else {
                    assert(us[x].key@ == old[old.len() - 1].0@);
                }
            }
        }
        assert(update_keys_distinct(us)) by {
            assert forall|x: int, y: int| 0 <= x < y < us.len() implies (#[trigger] us[x]).key@ != (#[trigger]
            us[y]).key@ by {
                if y < pre.len() {
                    assert(us[x] == pre[x] && us[y] == pre[y]);
                } else {
                    assert(us[y].key@ == old[old.len() - 1].0@);
                    assert(us[x] == pre[x]);
                    let i = choose|i: int| 0 <= i < prefix.len() && (#[trigger] pre[x]).key@ == (#[trigger]
                    prefix[i]).0@;
                    assert(old[i] == prefix[i]);
                    assert(old[i].0@ != old[old.len() - 1].0@);
                }
            }
        }
    }
}

/// A table replacement owes exactly one notification per affected key: no
/// key is named twice across the created, updated and removed
/// notifications.
pub proof fn lemma_diff_one_per_key(
    old: Seq<(String, TrafficProfile)>,
    new: Seq<(String, TrafficProfile)>,
    now: u64,
)
    requires
        crate::table::keys_unique(old),
        crate::table::keys_unique(new),
    ensures
        update_keys_distinct(diff_spec(old, new, now)),
{
    lemma_upsert_one_per_key(old, new, now);
    lemma_removal_one_per_key(old, new, now);
    let ups = upsert_updates(old, new, now);
    let rems = removal_updates(old, new, now);
    let all = diff_spec(old, new, now);
    assert forall|x: int, y: int| 0 <= x < y < all.len() implies (#[trigger] all[x]).key@ != (#[trigger]
    all[y]).key@ by {
        if x < ups.len() && y >= ups.len() {
            assert(all[x] == ups[x] && all[y] == rems[y - ups.len()]);
            let i = choose|i: int| 0 <= i < new.len() && (#[trigger] ups[x]).key@ == (#[trigger] new[i]).0@;
            crate::table::lemma_get_at_index(new, i);
            assert(table_get(new, all[x].key@) is Some);
            assert(table_get(new, all[y].key@) is None);
        } else if y < ups.len() {
            assert(all[x] == ups[x] && all[y] == ups[y]);
        } else {
            assert(all[x] == rems[x - ups.len()] && all[y] == rems[y - ups.len()]);
        }
    }
}

/// Compute the notifications owed when `new` replaces `old`: exactly one
/// per created, visibly updated, or removed key.
pub fn diff_updates(old: &ProfileTable, new: &ProfileTable, now: u64) -> (r: Vec<ProfileUpdate>)
    requires
        old.wf(),
        new.wf(),
    ensures
        updates_like(r@, diff_spec(old@, new@, now)),
{
    let mut out: Vec<ProfileUpdate> = Vec::new();
    let n = new.len();
    let mut i: usize = 0;
    while i < n
        invariant
            old.wf(),
            new.wf(),
            n == new@.len(),
            i <= n,
            updates_like(out@, upsert_updates(old@, new@.take(i as int), now)),
        decreases n - i,
    {
        let entry = new.at(i);
        match old.get(entry.0.as_str()) {
            None => {
                out.push(
                    ProfileUpdate {
                        update_type: UpdateType::ProfileCreated,
                        key: entry.0.clone(),
                        profile: Some(entry.1.clone()),
                        timestamp: now,
                    },
                );
            },
            Some(op) => {
                if op.timestamp != entry.1.timestamp {
                    out.push(
                        ProfileUpdate {
                            update_type: UpdateType::ProfileUpdated,
                            key: entry.0.clone(),
                            profile: Some(entry.1.clone()),
                            timestamp: now,
                        },
                    );
                }
            },
        }
        proof {
            assert(new@.take(i + 1).drop_last() =~= new@.take(i as int));
            assert(new@.take(i + 1).last() == new@[i as int]);
            assert(updates_like(out@, upsert_updates(old@, new@.take(i + 1), now)));
        }
        i += 1;
    }
    proof {
        assert(new@.take(n as int) =~= new@);
    }
    let m = old.len();
    let mut j: usize = 0;
    while j < m
        invariant
            old.wf(),
            new.wf(),
            m == old@.len(),
            updates_like(
                out@,
                upsert_updates(old@, new@, now) + removal_updates(old@.take(j as int), new@, now),
            ),
            j <= m,
        decreases m - j,
    {
        let entry = old.at(j);
        match new.get(entry.0.as_str()) {
            None => {
                out.push(
                    ProfileUpdate {
                        update_type: UpdateType::ProfileRemoved,
                        key: entry.0.clone(),
                        profile: None,
                        timestamp: now,
                    },
                );
            },
            Some(_) => {},
        }
        proof {
            assert(old@.take(j + 1).drop_last() =~= old@.take(j as int));
            assert(old@.take(j + 1).last() == old@[j as int]);
            let a = upsert_updates(old@, new@, now);
            let b = removal_updates(old@.take(j as int), new@, now);
            let c = removal_updates(old@.take(j + 1), new@, now);
            if table_get(new@, old@[j as int].0@) is None {
                let u = ProfileUpdate {
                    update_type: UpdateType::ProfileRemoved,
                    key: old@[j as int].0,
                    profile: None,
                    timestamp: now,
                };
                assert(c =~= b.push(u));
                assert(a + c =~= (a + b).push(u));
            } else {
                assert(c =~= b);
            }
            assert(updates_like(out@, a + c));
        }
        j += 1;
    }
    proof {
        assert(old@.take(m as int) =~= old@);
    }
    out
}

/// How many entries carry a legacy/shared TCP analysis.
pub open spec fn count_tcp(s: Seq<(String, TrafficProfile)>) -> int
    decreases s.len(),
{
    if s.len() == 0 {
        0
    } else {
        count_tcp(s.drop_last()) + (if s.last().1.tcp is Some {
            1int
        } else {
            0
        })
    }
}

/// How many entries carry an HTTP analysis.
pub open spec fn count_http(s: Seq<(String, TrafficProfile)>) -> int
    decreases s.len(),
{
    if s.len() == 0 {
        0
    } else {
        count_http(s.drop_last()) + (if s.last().1.http is Some {
            1int
        } else {
            0
        })
    }
}

/// How many entries carry a TLS analysis.
pub open spec fn count_tls(s: Seq<(String, TrafficProfile)>) -> int
    decreases s.len(),
{
    if s.len() == 0 {
        0
    } else {
        count_tls(s.drop_last()) + (if s.last().1.tls is Some {
            1int
        } else {
            0
        })
    }
}

/// How many entries are fully complete.
pub open spec fn count_complete(s: Seq<(String, TrafficProfile)>) -> int
    decreases s.len(),
{
    if s.len() == 0 {
        0
    } else {
        count_complete(s.drop_last()) + (if s.last().1.metadata.completeness >= 100 {
            1int
        } else {
            0
        })
    }
}

/// Statistics about the profile table.
#[derive(Debug)]
pub struct ProfileStats {
    /// Total number of profiles
    pub total_profiles: usize,
    /// Number of profiles with TCP data
    pub tcp_profiles: usize,
    /// Number of profiles with HTTP data
    pub http_profiles: usize,
    /// Number of profiles with TLS data
    pub tls_profiles: usize,
    /// Number of complete profiles
    pub complete_profiles: usize,
    /// When these stats were generated, milliseconds
    pub timestamp: u64,
}

/// The statistics a table snapshot owes: the five counts, stamped at the
/// given time.
pub open spec fn stats_match(stats: ProfileStats, entries: Seq<(String, TrafficProfile)>, now: u64) -> bool {
    &&& stats.total_profiles == entries.len()
    &&& stats.tcp_profiles == count_tcp(entries)
    &&& stats.http_profiles == count_http(entries)
    &&& stats.tls_profiles == count_tls(entries)
    &&& stats.complete_profiles == count_complete(entries)
    &&& stats.timestamp == now
}

/// Statistics that describe some well-formed snapshot, stamped at the
/// given time.
pub open spec fn stats_of_some_snapshot(stats: ProfileStats, now: u64) -> bool {
    exists|t: ProfileTable| t.wf() && #[trigger] stats_match(stats, t@, now)
}

/// Count the statistics of a table snapshot.
pub fn stats_of_table(table: &ProfileTable, now: u64) -> (r: ProfileStats)
    ensures
        stats_match(r, table@, now),
{
    let n = table.len();
    let mut tcp_count: usize = 0;
    let mut http_count: usize = 0;
    let mut tls_count: usize = 0;
    let mut complete_count: usize = 0;
    let mut i: usize = 0;
    while i < n
        invariant
            n == table@.len(),
            i <= n,
            tcp_count == count_tcp(table@.take(i as int)),
            http_count == count_http(table@.take(i as int)),
            tls_count == count_tls(table@.take(i as int)),
            complete_count == count_complete(table@.take(i as int)),
            tcp_count <= i && http_count <= i && tls_count <= i && complete_count <= i,
        decreases n - i,
    {
        let entry = table.at(i);
        if entry.1.tcp.is_some() {
            tcp_count += 1;
        }
        if entry.1.http.is_some() {
            http_count += 1;
        }
        if entry.1.tls.is_some() {
            tls_count += 1;
        }
        if entry.1.metadata.completeness >= 100 {
            complete_count += 1;
        }
        proof {
            assert(table@.take(i + 1).drop_last() =~= table@.take(i as int));
            assert(table@.take(i + 1).last() == table@[i as int]);
        }
        i += 1;
    }
    proof {
        assert(table@.take(n as int) =~= table@);
    }
    ProfileStats {
        total_profiles: n,
        tcp_profiles: tcp_count,
        http_profiles: http_count,
        tls_profiles: tls_count,
        complete_profiles: complete_count,
        timestamp: now,
    }
}

/// Build the single created-or-updated notification an upsert owes: the
/// kind says whether the key was bound in the table the upsert starts
/// from, and the payload carries the new profile.
fn upsert_notification(table: &ProfileTable, key: &String, profile: &TrafficProfile, now: u64) -> (u: ProfileUpdate)
    requires
        table.wf(),
    ensures
        u.update_type == (if table.spec_get(key@) is Some {
            UpdateType::ProfileUpdated
        } else {
            UpdateType::ProfileCreated
        }),
        u.key@ == key@,
        u.profile matches Some(p) && profile_eq(p, *profile),
        u.timestamp == now,
{
    let update_type = match table.get(key.as_str()) {
        Some(_) => UpdateType::ProfileUpdated,
        None => UpdateType::ProfileCreated,
    };
    ProfileUpdate { update_type, key: key.clone(), profile: Some(profile.clone()), timestamp: now }
}

/// Build the single notification a removal owes: a removed kind for the
/// key, with no payload.
fn removal_notification(key: &str, now: u64) -> (u: ProfileUpdate)
    ensures
        u.update_type == UpdateType::ProfileRemoved,
        u.key@ == key@,
        u.profile is None,
        u.timestamp == now,
{
    ProfileUpdate { update_type: UpdateType::ProfileRemoved, key: key.to_owned(), profile: None, timestamp: now }
}

/// Shared application state: the published snapshot and the notification
/// channel.  Clones share both.
pub struct AppState {
    /// Traffic profiles cache, swapped atomically for concurrent readers
    pub profiles: SnapshotCache,
    /// Broadcast channel for real-time updates
    pub updates_tx: UpdateBroadcaster,
}

impl AppState {
    /// A state with an empty table and a notification buffer of 1000
    /// messages.
    pub fn new() -> Self {
        AppState { profiles: SnapshotCache::new(), updates_tx: UpdateBroadcaster::new(1000) }
    }

    /// The current snapshot of all profiles.
    pub fn get_profiles(&self) -> (r: Arc<ProfileTable>)
        ensures
            r.wf(),
    {
        self.profiles.current()
    }

    /// One profile from the current snapshot.
    pub fn get_profile(&self, key: &str) -> (r: Option<TrafficProfile>)
        ensures
            r matches Some(p) ==> exists|t: ProfileTable|
                t.wf() && (#[trigger] table_get(t@, key@) matches Some(q) && profile_eq(q, p)),
    {
        self.profiles.get(key)
    }

    /// Replace the published table and notify subscribers of every
    /// difference: the new table is published first, then exactly the
    /// notifications of [`diff_spec`] are sent in order, so a subscriber
    /// that hears of a change can immediately observe it.
    pub fn update_profiles(&self, new_profiles: ProfileTable, now: u64)
        requires
            new_profiles.wf(),
    {
        let old = self.profiles.current();
        let updates = diff_updates(&old, &new_profiles, now);
        self.profiles.publish(new_profiles);
        let count = updates.len();
        let mut i: usize = 0;
        while i < count
            invariant
                count == updates@.len(),
            decreases count - i,
        {
            self.updates_tx.publish(updates[i].clone());
            i += 1;
        }
    }

    /// Add or update a single profile: insert into a copy of the loaded
    /// snapshot, publish it, then send the one notification that
    /// [`upsert_notification`] certifies (created where the key was
    /// absent, updated where it was bound, carrying the new profile).
    pub fn upsert_profile(&self, key: String, profile: TrafficProfile, now: u64) {
        let current = self.profiles.current();
        let mut new_profiles = (*current).clone();
        let notification = upsert_notification(&new_profiles, &key, &profile, now);
        new_profiles.insert(key, profile);
        self.profiles.publish(new_profiles);
        self.updates_tx.publish(notification);
    }

    /// Remove a profile; where the key was bound, publish the shrunken
    /// table and then send the one removal notification that
    /// [`removal_notification`] certifies.  Where it was not, nothing is
    /// published and nothing is sent.
    pub fn remove_profile(&self, key: &str, now: u64) -> (r: Option<TrafficProfile>)
        ensures
            r matches Some(p) ==> exists|t: ProfileTable|
                t.wf() && (#[trigger] table_get(t@, key@) matches Some(q) && profile_eq(q, p)),
    {
        let current = self.profiles.current();
        let mut new_profiles = (*current).clone();
        let ghost loaded = new_profiles;
        let removed = new_profiles.remove(key);
        if removed.is_some() {
            proof {
                let p = removed->0;
                assert(loaded.wf() && (table_get(loaded@, key@) matches Some(q) && profile_eq(q, p)));
                assert(exists|t: ProfileTable|
                    t.wf() && (#[trigger] table_get(t@, key@) matches Some(q) && profile_eq(q, p))) by {
                    assert(loaded.wf() && (table_get(loaded@, key@) matches Some(q) && profile_eq(q, p)));
                }
            }
            self.profiles.publish(new_profiles);
            self.updates_tx.publish(removal_notification(key, now));
        }
        removed
    }

    /// Drop every profile: publish the empty table, then send exactly the
    /// notifications [`diff_spec`] owes against it — one removal per key
    /// that was bound, in table order, each certified by `diff_updates`
    /// and pairwise distinct by [`lemma_removal_one_per_key`].
    pub fn clear_profiles(&self, now: u64) {
        let current = self.profiles.current();
        let updates = diff_updates(&current, &ProfileTable::new(), now);
        self.profiles.publish(ProfileTable::new());
        let count = updates.len();
        let mut i: usize = 0;
        while i < count
            invariant
                count == updates@.len(),
            decreases count - i,
        {
            self.updates_tx.publish(updates[i].clone());
            i += 1;
        }
    }

    /// How many profiles the current snapshot holds.
    pub fn profile_count(&self) -> usize {
        self.profiles.count()
    }

    /// Subscribe to profile updates published from now on.
    pub fn subscribe_updates(&self) -> UpdateReceiver {
        self.updates_tx.subscribe()
    }

    /// Statistics over the current snapshot: the counts of some
    /// well-formed published table, stamped now.
    pub fn get_stats(&self, now: u64) -> (r: ProfileStats)
        ensures
            stats_of_some_snapshot(r, now),
    {
        let snapshot = self.profiles.current();
        let table_ref: &ProfileTable = &snapshot;
        let r = stats_of_table(table_ref, now);
        proof {
            assert(exists|t: ProfileTable| t.wf() && #[trigger] stats_match(r, t@, now)) by {
                assert(table_ref.wf() && stats_match(r, (*table_ref)@, now));
            }
        }
        r
    }

    /// Send one notification to subscribers; never blocks.
    pub fn notify_update(&self, update: ProfileUpdate) {
        self.updates_tx.publish(update);
    }
}

impl Clone for AppState {
    /// A clone shares the cache and the channel.
    fn clone(&self) -> Self {
        AppState { profiles: self.profiles.clone(), updates_tx: self.updates_tx.clone() }
    }
}

impl Default for AppState {
    fn default() -> Self {
        AppState::new()
    }
}

} // verus!
