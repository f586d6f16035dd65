//! The aggregation actor: the single owner of the live profile table.
//! It consumes bridged fingerprint events and answers commands, fully
//! serializing every mutation; and it carries the merge policy that folds a
//! single-event profile into the stored one.

use vstd::prelude::*;
use crate::analyzer::{AnalyzerConfig, HuginnAnalyzer, analyzed_matches, any_accepted};
use crate::config::{CollectorConfig, config_valid, validate_error_text};
use crate::error::CollectorError;
use crate::events::LoggingEventHandler;
use crate::fingerprint::{FingerprintEvent, primary_ip};
use crate::profile::{
    ProfileMetadata, RawFingerprintData, TrafficProfile, completeness_of, merge_http_analysis, merged_http,
};
use crate::table::{ProfileTable, opt_profile_eq, table_get, table_like};

verus! {

/// A packet-count sum that sticks at the maximum instead of wrapping.
pub open spec fn add_count(a: u64, b: u64) -> u64 {
    if a + b > u64::MAX {
        u64::MAX
    } else {
        (a + b) as u64
    }
}

/// Per-direction raw records merge field by field: a present incoming
/// sub-record replaces the stored one, an absent one leaves it alone, so
/// client and server observations never overwrite one another.
pub open spec fn merged_raw(e: RawFingerprintData, n: RawFingerprintData) -> RawFingerprintData {
    RawFingerprintData {
        syn: if n.syn is Some {
            n.syn
        } else {
            e.syn
        },
        syn_ack: if n.syn_ack is Some {
            n.syn_ack
        } else {
            e.syn_ack
        },
        mtu: if n.mtu is Some {
            n.mtu
        } else {
            e.mtu
        },
        uptime: if n.uptime is Some {
            n.uptime
        } else {
            e.uptime
        },
        http_request: if n.http_request is Some {
            n.http_request
        } else {
            e.http_request
        },
        http_response: if n.http_response is Some {
            n.http_response
        } else {
            e.http_response
        },
        tls_client: if n.tls_client is Some {
            n.tls_client
        } else {
            e.tls_client
        },
        source_ip: if n.source_ip is Some {
            n.source_ip
        } else {
            e.source_ip
        },
    }
}

/// The merge policy: TCP and TLS are last-write-wins per slot, HTTP folds
/// by confidence, counters add, identity and first-seen stay, completeness
/// is recomputed.
pub open spec fn merged_profile(e: TrafficProfile, n: TrafficProfile) -> TrafficProfile {
    let base = TrafficProfile {
        ip: e.ip,
        port: e.port,
        timestamp: n.timestamp,
        raw_data: merged_raw(e.raw_data, n.raw_data),
        tcp: if n.tcp is Some {
            n.tcp
        } else {
            e.tcp
        },
        tcp_client: if n.tcp_client is Some {
            n.tcp_client
        } else {
            e.tcp_client
        },
        tcp_server: if n.tcp_server is Some {
            n.tcp_server
        } else {
            e.tcp_server
        },
        http: match n.http {
            Option::Some(h) => Some(merged_http(e.http, h)),
            Option::None => e.http,
        },
        tls: if n.tls is Some {
            n.tls
        } else {
            e.tls
        },
        metadata: ProfileMetadata {
            first_seen: e.metadata.first_seen,
            last_updated: n.metadata.last_updated,
            packet_count: add_count(e.metadata.packet_count, n.metadata.packet_count),
            completeness: 0,
        },
    };
    TrafficProfile { metadata: ProfileMetadata { completeness: completeness_of(base), ..base.metadata }, ..base }
}

/// A profile with nothing observed yet: no category analysis and no raw
/// sub-record, as `TrafficProfile::new` builds it.
pub open spec fn blank_profile(p: TrafficProfile) -> bool {
    &&& p.tcp is None
    &&& p.tcp_client is None
    &&& p.tcp_server is None
    &&& p.http is None
    &&& p.tls is None
    &&& p.raw_data.syn is None
    &&& p.raw_data.syn_ack is None
    &&& p.raw_data.mtu is None
    &&& p.raw_data.uptime is None
    &&& p.raw_data.http_request is None
    &&& p.raw_data.http_response is None
    &&& p.raw_data.tls_client is None
    &&& p.raw_data.source_ip is None
}

/// The observed state two profiles agree on: every per-category analysis
/// slot and every raw sub-record.
pub open spec fn category_state_eq(a: TrafficProfile, b: TrafficProfile) -> bool {
    a.tcp == b.tcp && a.tcp_client == b.tcp_client && a.tcp_server == b.tcp_server && a.http == b.http && a.tls
        == b.tls && a.raw_data == b.raw_data
}

/// Merging a fragment into a blank profile yields exactly the fragment's
/// observed state.
pub proof fn lemma_merge_into_blank(p0: TrafficProfile, n: TrafficProfile)
    requires
        blank_profile(p0),
    ensures
        category_state_eq(merged_profile(p0, n), n),
{
}

/// The merge policy applies in order: for two fragments for one host, the
/// profile they leave behind has the observed state of folding both into a
/// blank profile in application order.  The fold is order-sensitive, not
/// commutative: the confidence-gated HTTP scalars favor whichever fragment
/// was applied when its confidence was strictly higher.
pub proof fn lemma_merge_applies_in_order(p0: TrafficProfile, q1: TrafficProfile, q2: TrafficProfile)
    requires
        blank_profile(p0),
    ensures
        category_state_eq(merged_profile(merged_profile(p0, q1), q2), merged_profile(q1, q2)),
{
    lemma_merge_into_blank(p0, q1);
}

/// The merge policy never leaves completeness stale: a merged profile
/// carries exactly the weighted sum its categories imply.
pub proof fn lemma_merged_completeness(e: TrafficProfile, n: TrafficProfile)
    ensures
        merged_profile(e, n).completeness_ok(),
{
}

/// An event with no extractable IP, or with no accepted fragment, never
/// results in an insertion: the table stands exactly as it was.
pub proof fn lemma_empty_event_is_noop(
    pre: Seq<(String, TrafficProfile)>,
    post: Seq<(String, TrafficProfile)>,
    c: AnalyzerConfig,
    e: FingerprintEvent,
    now: u64,
)
    requires
        event_applied(pre, post, c, e, now),
        primary_ip(e) is None || !any_accepted(c, e),
    ensures
        post == pre,
{
}

/// Fragments folded into a profile in order, oldest first.
pub open spec fn apply_fragments(p0: TrafficProfile, qs: Seq<TrafficProfile>) -> TrafficProfile
    decreases qs.len(),
{
    if qs.len() == 0 {
        p0
    } else {
        merged_profile(apply_fragments(p0, qs.drop_last()), qs.last())
    }
}

/// The packet counter never decreases across a merge.
pub proof fn lemma_merge_count_monotone(e: TrafficProfile, n: TrafficProfile)
    ensures
        merged_profile(e, n).metadata.packet_count >= e.metadata.packet_count,
{
}

/// After N merges into the same profile, the packet counter reads exactly
/// N: each single-fragment merge contributes one.
pub proof fn lemma_packet_count_counts_merges(p0: TrafficProfile, qs: Seq<TrafficProfile>)
    requires
        p0.metadata.packet_count == 0,
        forall|i: int| 0 <= i < qs.len() ==> (#[trigger] qs[i]).metadata.packet_count == 1,
        qs.len() <= u64::MAX,
    ensures
        apply_fragments(p0, qs).metadata.packet_count == qs.len(),
    decreases qs.len(),
{
    if qs.len() > 0 {
        assert(forall|i: int|
            0 <= i < qs.drop_last().len() ==> (#[trigger] qs.drop_last()[i]).metadata.packet_count == 1);
        lemma_packet_count_counts_merges(p0, qs.drop_last());
    }
}

/// Commands that can be sent to the collector.  Responses travel back as
/// [`CommandResponse`] values; the channel plumbing belongs to the caller.
pub enum CollectorCommand {
    /// Get all profiles
    GetProfiles,
    /// Get a specific profile by key
    GetProfile(String),
    /// Get the profile count
    GetProfileCount,
    /// Clear all profiles
    ClearProfiles,
}

/// What the actor answers to each command.
pub enum CommandResponse {
    /// The full table, for `GetProfiles`
    Profiles(ProfileTable),
    /// One profile, for `GetProfile`
    Profile(Option<TrafficProfile>),
    /// The table's size, for `GetProfileCount`
    ProfileCount(usize),
    /// Acknowledgement of `ClearProfiles`
    Cleared,
}

/// One input of the actor's multiplexed loop.
pub enum ActorInput {
    /// A bridged fingerprint event
    Event(FingerprintEvent),
    /// A command from the control surface
    Command(CollectorCommand),
    /// The shutdown signal
    Shutdown,
    /// The event stream has closed
    InputClosed,
}

/// What the caller of one actor step must do next.
pub enum ActorOutput {
    /// Keep looping
    Continue,
    /// Deliver this response, then keep looping
    Response(CommandResponse),
    /// Leave the loop
    Stop,
}

/// How one fingerprint event changes the table: nothing without a usable
/// IP or an accepted fragment; otherwise exactly the event's key is bound,
/// to the analyzed profile or to its merge into the stored one.
pub open spec fn event_applied(
    pre: Seq<(String, TrafficProfile)>,
    post: Seq<(String, TrafficProfile)>,
    c: AnalyzerConfig,
    e: FingerprintEvent,
    now: u64,
) -> bool {
    if primary_ip(e) is Some && any_accepted(c, e) {
        let ipt = primary_ip(e)->0;
        &&& (forall|k: Seq<char>| k != ipt ==> #[trigger] table_get(post, k) == table_get(pre, k))
        &&& (match table_get(pre, ipt) {
            Option::None => table_get(post, ipt) matches Some(p) && analyzed_matches(p, c, e, now),
            Option::Some(ex) => exists|q: TrafficProfile|
                analyzed_matches(q, c, e, now) && table_get(post, ipt) == Some(merged_profile(ex, q)),
        })
        &&& post.len() == pre.len() + (if table_get(pre, ipt) is Some {
            0int
        } else {
            1int
        })
    } else {
        post == pre
    }
}

/// How one command reads or changes the table, and what it answers.
pub open spec fn command_applied(
    pre: Seq<(String, TrafficProfile)>,
    post: Seq<(String, TrafficProfile)>,
    cmd: CollectorCommand,
    resp: CommandResponse,
) -> bool {
    match cmd {
        CollectorCommand::GetProfiles => post == pre && (resp matches CommandResponse::Profiles(t) && table_like(
            pre,
            t@,
        )),
        CollectorCommand::GetProfile(key) => post == pre && (resp matches CommandResponse::Profile(p)
            && opt_profile_eq(table_get(pre, key@), p)),
        CollectorCommand::GetProfileCount => post == pre && (resp matches CommandResponse::ProfileCount(n) && n
            == pre.len()),
        CollectorCommand::ClearProfiles => post.len() == 0 && resp is Cleared,
    }
}

/// Network traffic collector: the analyzer plus the live profile table.
pub struct NetworkCollector {
    config: CollectorConfig,
    analyzer: HuginnAnalyzer,
    profiles: ProfileTable,
}

impl NetworkCollector {
    /// The collector's configuration.
    pub closed spec fn spec_config(&self) -> CollectorConfig {
        self.config
    }

    /// The live table's entries.
    pub closed spec fn spec_profiles(&self) -> Seq<(String, TrafficProfile)> {
        self.profiles@
    }

    /// The collector's invariant: unique keys, and the analyzer running
    /// the configured settings.
    pub closed spec fn wf(&self) -> bool {
        self.profiles.wf() && self.analyzer.spec_config() == self.config.analyzer
    }

    /// Create a new collector, rejecting an invalid configuration before
    /// any component starts.
    pub fn new(config: CollectorConfig) -> (r: Result<Self, CollectorError>)
        ensures
            r is Ok <==> config_valid(config),
            r matches Ok(c) ==> c.spec_config() == config && c.spec_profiles().len() == 0 && c.wf(),
            r matches Err(e) ==> e matches CollectorError::Configuration(m) && m@ == validate_error_text(config),
    {
        match config.validate() {
            Err(m) => Err(CollectorError::Configuration(m)),
            Ok(()) => {
                let mut analyzer = HuginnAnalyzer::with_config(config.analyzer.clone());
                analyzer.event_dispatcher_mut().add_handler(LoggingEventHandler);
                Ok(NetworkCollector { config, analyzer, profiles: ProfileTable::new() })
            },
        }
    }

    /// Apply one fingerprint event to the table: analyze it, then insert
    /// the fresh profile or merge it into the stored one.  An event with
    /// no usable IP or no accepted fragment changes nothing.
    pub fn process_fingerprint_result(&mut self, result: FingerprintEvent, now: u64) -> (r: Result<
        (),
        CollectorError,
    >)
        requires
            old(self).wf(),
        ensures
            r is Ok,
            final(self).wf(),
            final(self).spec_config() == old(self).spec_config(),
            event_applied(
                old(self).spec_profiles(),
                final(self).spec_profiles(),
                old(self).spec_config().analyzer,
                result,
                now,
            ),
    {
        let ghost e = result;
        let ghost pre = self.spec_profiles();
        let ghost cfg = self.spec_config().analyzer;
        match self.analyzer.analyze(result, now) {
            Ok(Some(profile)) => {
                let ghost q = profile;
                let ghost ipt = primary_ip(e)->0;
                let key = profile.ip.clone();
                let ghost had = self.profiles.spec_get(key@);
                let merged = match self.profiles.remove(key.as_str()) {
                    Some(mut existing) => {
                        let ghost ex = existing;
                        merge_profiles(&mut existing, profile);
                        proof {
                            assert(had == Some(ex));
                            assert(analyzed_matches(q, cfg, e, now) && existing == merged_profile(ex, q));
                        }
                        existing
                    },
                    None => profile,
                };
                let ghost mid = self.spec_profiles();
                self.profiles.insert(key, merged);
                proof {
                    assert(key@ == ipt);
                    assert forall|k: Seq<char>| k != ipt implies #[trigger] table_get(
                        self.spec_profiles(),
                        k,
                    ) == table_get(pre, k) by {
                        assert(self.profiles.spec_get(k) == table_get(mid, k));
                        assert(table_get(mid, k) == table_get(pre, k));
                    }
                    if had is Some {
                        let ex = had->0;
                        assert(table_get(self.spec_profiles(), ipt) == Some(merged_profile(ex, q)));
                        assert(exists|qq: TrafficProfile|
                            analyzed_matches(qq, cfg, e, now) && table_get(self.spec_profiles(), ipt) == Some(
                                merged_profile(ex, qq),
                            ));
                    } else {
                        assert(table_get(self.spec_profiles(), ipt) == Some(merged));
                        assert(analyzed_matches(merged, cfg, e, now));
                    }
                    assert(event_applied(pre, self.spec_profiles(), cfg, e, now));
                }
                Ok(())
            },
            Ok(None) => Ok(()),
            Err(err) => Err(CollectorError::Core(err)),
        }
    }

    /// Answer one command from the actor's current state; the response
    /// reflects every mutation already applied.
    pub fn handle_command(&mut self, command: CollectorCommand) -> (r: CommandResponse)
        requires
            old(self).wf(),
        ensures
            final(self).wf(),
            final(self).spec_config() == old(self).spec_config(),
            command_applied(old(self).spec_profiles(), final(self).spec_profiles(), command, r),
    {
        match command {
            CollectorCommand::GetProfiles => CommandResponse::Profiles(self.profiles.clone()),
            CollectorCommand::GetProfile(key) => {
                let p = match self.profiles.get(key.as_str()) {
                    Some(found) => Some(found.clone()),
                    None => None,
                };
                CommandResponse::Profile(p)
            },
            CollectorCommand::GetProfileCount => CommandResponse::ProfileCount(self.profiles.len()),
            CollectorCommand::ClearProfiles => {
                self.profiles.clear();
                CommandResponse::Cleared
            },
        }
    }

    /// One step of the actor's multiplexed loop: apply an event, answer a
    /// command, or leave on shutdown or on a closed event stream.
    pub fn actor_step(&mut self, input: ActorInput, now: u64) -> (r: ActorOutput)
        requires
            old(self).wf(),
        ensures
            final(self).wf(),
            final(self).spec_config() == old(self).spec_config(),
            match input {
                ActorInput::Event(e) => r is Continue && event_applied(
                    old(self).spec_profiles(),
                    final(self).spec_profiles(),
                    old(self).spec_config().analyzer,
                    e,
                    now,
                ),
                ActorInput::Command(cmd) => r matches ActorOutput::Response(resp) && command_applied(
                    old(self).spec_profiles(),
                    final(self).spec_profiles(),
                    cmd,
                    resp,
                ),
                ActorInput::Shutdown => r is Stop && final(self).spec_profiles() == old(self).spec_profiles(),
                ActorInput::InputClosed => r is Stop && final(self).spec_profiles() == old(self).spec_profiles(),
            },
    {
        match input {
            ActorInput::Event(e) => {
                // A component-local analysis error never aborts the loop.
                let _ = self.process_fingerprint_result(e, now);
                ActorOutput::Continue
            },
            ActorInput::Command(cmd) => ActorOutput::Response(self.handle_command(cmd)),
            ActorInput::Shutdown => ActorOutput::Stop,
            ActorInput::InputClosed => ActorOutput::Stop,
        }
    }

    /// A copy of all current profiles.
    pub fn get_profiles(&self) -> (r: ProfileTable)
        requires
            self.wf(),
        ensures
            table_like(self.spec_profiles(), r@),
            r.wf(),
    {
        self.profiles.clone()
    }

    /// A specific profile by its key.
    pub fn get_profile(&self, key: &str) -> (r: Option<&TrafficProfile>)
        requires
            self.wf(),
        ensures
            r matches Some(p) ==> table_get(self.spec_profiles(), key@) == Some(*p),
            r is None ==> table_get(self.spec_profiles(), key@) is None,
    {
        self.profiles.get(key)
    }

    /// How many profiles are cached.
    pub fn profile_count(&self) -> (r: usize)
        ensures
            r == self.spec_profiles().len(),
    {
        self.profiles.len()
    }

    /// Drop every profile.
    pub fn clear_profiles(&mut self)
        ensures
            final(self).wf() == old(self).wf() || final(self).wf(),
            final(self).spec_profiles().len() == 0,
            final(self).spec_config() == old(self).spec_config(),
    {
        self.profiles.clear();
    }
}

/// Fold the per-direction raw records field by field.
#[verifier::rlimit(100)]
#[verifier::spinoff_prover]
fn merge_raw_data(existing: &mut RawFingerprintData, new: RawFingerprintData)
    ensures
        *final(existing) == merged_raw(*old(existing), new),
{
    if new.syn.is_some() {
        existing.syn = new.syn;
    }
    if new.syn_ack.is_some() {
        existing.syn_ack = new.syn_ack;
    }
    if new.mtu.is_some() {
        existing.mtu = new.mtu;
    }
    if new.uptime.is_some() {
        existing.uptime = new.uptime;
    }
    if new.http_request.is_some() {
        existing.http_request = new.http_request;
    }
    if new.http_response.is_some() {
        existing.http_response = new.http_response;
    }
    if new.tls_client.is_some() {
        existing.tls_client = new.tls_client;
    }
    if new.source_ip.is_some() {
        existing.source_ip = new.source_ip;
    }
}

/// Fold a single-event profile into the stored one under the merge policy.
#[verifier::rlimit(100)]
#[verifier::spinoff_prover]
pub fn merge_profiles(existing: &mut TrafficProfile, new: TrafficProfile)
    ensures
        *final(existing) == merged_profile(*old(existing), new),
        final(existing).completeness_ok(),
{
    if new.tcp.is_some() {
        existing.tcp = new.tcp;
    }
    if new.tcp_client.is_some() {
        existing.tcp_client = new.tcp_client;
    }
    if new.tcp_server.is_some() {
        existing.tcp_server = new.tcp_server;
    }
    if let Some(h) = new.http {
        let prev = existing.http.take();
        existing.http = Some(merge_http_analysis(prev, h));
    }
    if new.tls.is_some() {
        existing.tls = new.tls;
    }
    merge_raw_data(&mut existing.raw_data, new.raw_data);
    existing.timestamp = new.timestamp;
    existing.metadata.last_updated = new.metadata.last_updated;
    if new.metadata.packet_count > u64::MAX - existing.metadata.packet_count {
        existing.metadata.packet_count = u64::MAX;
    } else {
        existing.metadata.packet_count = existing.metadata.packet_count + new.metadata.packet_count;
    }
    let mut score: u32 = 0;
    if existing.tcp.is_some() || existing.tcp_client.is_some() || existing.tcp_server.is_some() {
        score += crate::profile::TCP_WEIGHT;
    }
    if existing.http.is_some() {
        score += crate::profile::HTTP_WEIGHT;
    }
    if existing.tls.is_some() {
        score += crate::profile::TLS_WEIGHT;
    }
    existing.metadata.completeness = score;
}

/// Builder for a collector with custom configuration.
pub struct NetworkCollectorBuilder {
    config: CollectorConfig,
}

impl NetworkCollectorBuilder {
    /// The configuration built so far.
    pub closed spec fn spec_config(&self) -> CollectorConfig {
        self.config
    }

    /// Start from the defaults for an interface.
    pub fn new(interface: String) -> (r: Self)
        ensures
            r.spec_config().interface == interface,
            r.spec_config().buffer_size == 100,
            r.spec_config().channel_buffer_size == 1000,
            r.spec_config().analyzer.enable_tcp && r.spec_config().analyzer.enable_http
                && r.spec_config().analyzer.enable_tls,
            r.spec_config().analyzer.min_quality == 0,
            !r.spec_config().verbose,
    {
        NetworkCollectorBuilder { config: CollectorConfig::new(interface) }
    }

    /// Set the capture buffer size.
    pub fn buffer_size(self, size: usize) -> (r: Self)
        ensures
            r.spec_config() == (CollectorConfig { buffer_size: size, ..self.spec_config() }),
    {
        NetworkCollectorBuilder { config: self.config.with_buffer_size(size) }
    }

    /// Set the channel buffer size.
    pub fn channel_buffer_size(self, size: usize) -> (r: Self)
        ensures
            r.spec_config() == (CollectorConfig { channel_buffer_size: size, ..self.spec_config() }),
    {
        NetworkCollectorBuilder { config: self.config.with_channel_buffer_size(size) }
    }

    /// Set the confidence threshold, in hundredths.
    pub fn min_quality(self, quality: u32) -> (r: Self)
        ensures
            r.spec_config() == (CollectorConfig {
                analyzer: AnalyzerConfig { min_quality: quality, ..self.spec_config().analyzer },
                ..self.spec_config()
            }),
    {
        let mut config = self.config;
        config.analyzer.min_quality = quality;
        NetworkCollectorBuilder { config }
    }

    /// Enable or disable TCP analysis.
    pub fn enable_tcp(self, enable: bool) -> (r: Self)
        ensures
            r.spec_config() == (CollectorConfig {
                analyzer: AnalyzerConfig { enable_tcp: enable, ..self.spec_config().analyzer },
                ..self.spec_config()
            }),
    {
        let mut config = self.config;
        config.analyzer.enable_tcp = enable;
        NetworkCollectorBuilder { config }
    }

    /// Enable or disable HTTP analysis.
    pub fn enable_http(self, enable: bool) -> (r: Self)
        ensures
            r.spec_config() == (CollectorConfig {
                analyzer: AnalyzerConfig { enable_http: enable, ..self.spec_config().analyzer },
                ..self.spec_config()
            }),
    {
        let mut config = self.config;
        config.analyzer.enable_http = enable;
        NetworkCollectorBuilder { config }
    }

    /// Enable or disable TLS analysis.
    pub fn enable_tls(self, enable: bool) -> (r: Self)
        ensures
            r.spec_config() == (CollectorConfig {
                analyzer: AnalyzerConfig { enable_tls: enable, ..self.spec_config().analyzer },
                ..self.spec_config()
            }),
    {
        let mut config = self.config;
        config.analyzer.enable_tls = enable;
        NetworkCollectorBuilder { config }
    }

    /// Enable verbose logging.
    pub fn verbose(self, verbose: bool) -> (r: Self)
        ensures
            r.spec_config() == (CollectorConfig { verbose: verbose, ..self.spec_config() }),
    {
        NetworkCollectorBuilder { config: self.config.with_verbose(verbose) }
    }

    /// Build the collector, rejecting an invalid configuration.
    pub fn build(self) -> (r: Result<NetworkCollector, CollectorError>)
        ensures
            r is Ok <==> config_valid(self.spec_config()),
            r matches Ok(c) ==> c.spec_config() == self.spec_config() && c.spec_profiles().len() == 0 && c.wf(),
    {
        NetworkCollector::new(self.config)
    }
}

} // verus!
