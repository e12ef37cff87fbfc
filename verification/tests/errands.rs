//! The errands of more than one call.

use mstream_admin::backups::{BackupStatus, Loaded};
use mstream_admin::discovery::{CatalogStorage, DiscoveryActivity, DiscoveryCatalog, DiscoveryRecovery, DiscoveryStatus, DiscoveryWatchdog};
use mstream_admin::errands::{BackupCall, BackupLoad, DiscoveryCall, DiscoveryLoad, FederationCall, FederationLoad, IdentityCall, IdentityErrand, StatsCall, StatsLoad};
use mstream_admin::federation::{FederationLimits, FederationParams};
use mstream_admin::msg::ApiError;
use mstream_admin::stats::{OriginSlice, Origins, Preset, Sessions, StatsHistory, StatsSummary, StreakDays};
use mstream_admin::stats_series::StatsTimeseries;

fn down() -> ApiError {
    ApiError::Network("refused".into())
}

fn params(enabled: bool) -> FederationParams {
    FederationParams {
        enabled,
        available: true,
        running: enabled,
        endpoint_id: None,
        online: enabled,
        relay_url: None,
        limit_defaults: FederationLimits { stream_kbps: 8000, daily_mb: 2048, max_streams: 3 },
        accept_requests: true,
    }
}

fn status(enabled: bool) -> DiscoveryStatus {
    DiscoveryStatus {
        enabled,
        binary_found: true,
        binary_fetchable: true,
        running: enabled,
        endpoint_id: None,
        ticket: None,
        joined: enabled,
        neighbors: 0,
        watchdog: DiscoveryWatchdog { last_rss_mb: None, restarts: 0, max_rss_mb: 256 },
        recovery: DiscoveryRecovery { attempts: 0, retry_pending: false },
        known_peers: 0,
        community_seeds: true,
        server_name: "Den".into(),
        server_description: String::new(),
        max_peer_db_storage_mb: 500,
        auto_fetch_count: 6,
        rotation_days: 7,
        peer_retention_days: 30,
        blocked_peers: Vec::new(),
    }
}

fn catalog() -> DiscoveryCatalog {
    DiscoveryCatalog {
        peers: Vec::new(),
        hidden_incompatible: 2,
        local_model_id: None,
        auto_fetch: true,
        storage: CatalogStorage { used_bytes: 0, cap_bytes: 1 },
    }
}

fn summary(plays: u64) -> StatsSummary {
    let slice = || OriginSlice { plays: 0, listened_ms: 0 };
    StatsSummary {
        from: String::new(),
        to: String::new(),
        events: plays,
        plays,
        unique_tracks: 0,
        listened_ms: 0,
        skips: 0,
        skip_pct: None,
        library_pct: None,
        sessions: Sessions { count: 0, avg_ms: None },
        streak_days: StreakDays { current: 0, longest: 0 },
        top_day: None,
        peak_hour: None,
        peak_weekday: None,
        origins: Origins { local: slice(), peers: slice() },
    }
}

fn series(bucket: &str) -> StatsTimeseries {
    StatsTimeseries { bucket: bucket.into(), items: Vec::new() }
}

#[test]
fn the_backups_load_without_the_names_of_libraries() {
    let mut load = BackupLoad::new();
    assert_eq!(load.wants(), Some(BackupCall::Destinations));
    load.dests = Some(Ok(Vec::new()));
    assert_eq!(load.wants(), Some(BackupCall::Status));
    load.status = Some(Ok(BackupStatus { active: None, queue_length: 3 }));
    assert_eq!(load.wants(), Some(BackupCall::Libraries));
    load.libraries = Some(None);
    assert_eq!(load.wants(), None);
    let loaded = load.finish().unwrap().unwrap();
    assert_eq!(loaded, Loaded { dests: Vec::new(), status: BackupStatus { active: None, queue_length: 3 }, libraries: None });
}

#[test]
fn the_backups_do_not_load_without_their_state() {
    let mut load = BackupLoad::new();
    load.dests = Some(Ok(Vec::new()));
    load.status = Some(Err(down()));
    assert_eq!(load.wants(), None);
    assert_eq!(load.finish().unwrap().unwrap_err(), down());
}

#[test]
fn an_errand_half_done_has_no_outcome() {
    let mut load = BackupLoad::new();
    load.dests = Some(Ok(Vec::new()));
    assert!(load.finish().is_none());
    assert!(FederationLoad::new().finish().is_none());
    assert!(DiscoveryLoad::new(false, None).finish().is_none());
    assert!(StatsLoad::new(Preset::Month, 0).finish().is_none());
    assert!(IdentityErrand::new(Some("Den".into()), None).finish().is_none());
}

#[test]
fn federation_off_asks_for_nothing_more() {
    let mut load = FederationLoad::new();
    assert_eq!(load.wants(), Some(FederationCall::Params));
    load.params = Some(Ok(params(false)));
    assert_eq!(load.wants(), None);
    let loaded = load.finish().unwrap().unwrap();
    assert!(!loaded.params.enabled);
    assert!(loaded.requests.is_none() && loaded.keys.is_none() && loaded.peers.is_none() && loaded.libraries.is_none());
}

#[test]
fn federation_on_loads_around_what_the_server_keeps_to_itself() {
    let mut load = FederationLoad::new();
    load.params = Some(Ok(params(true)));
    let mut asked = Vec::new();
    while let Some(call) = load.wants() {
        asked.push(call);
        match call {
            FederationCall::Params => unreachable!(),
            FederationCall::Requests => load.requests = Some(None),
            FederationCall::Keys => load.keys = Some(Some(Vec::new())),
            FederationCall::Peers => load.peers = Some(None),
            FederationCall::Libraries => load.libraries = Some(Some(vec!["jazz".into()])),
        }
    }
    assert_eq!(asked, [FederationCall::Requests, FederationCall::Keys, FederationCall::Peers, FederationCall::Libraries]);
    let loaded = load.finish().unwrap().unwrap();
    assert!(loaded.requests.is_none() && loaded.peers.is_none());
    assert_eq!(loaded.keys, Some(Vec::new()));
    assert_eq!(loaded.libraries, Some(vec!["jazz".to_string()]));
}

#[test]
fn off_the_network_only_the_state_is_asked_for() {
    let mut load = DiscoveryLoad::new(true, Some(7));
    assert_eq!(load.wants(), Some(DiscoveryCall::Status));
    load.status = Some(Ok(status(false)));
    assert_eq!(load.wants(), None);
    assert!(load.finish().unwrap().unwrap().catalog.is_none());
}

#[test]
fn on_the_network_the_catalogue_is_needed_and_the_rest_is_not() {
    let mut load = DiscoveryLoad::new(true, Some(7));
    load.status = Some(Ok(status(true)));
    assert_eq!(load.wants(), Some(DiscoveryCall::Catalog { include_incompatible: true }));
    load.catalog = Some(Ok(catalog()));
    assert_eq!(load.wants(), Some(DiscoveryCall::Federation));
    load.federation = Some(None);
    assert_eq!(load.wants(), Some(DiscoveryCall::Requests));
    load.requests = Some(None);
    assert_eq!(load.wants(), Some(DiscoveryCall::Activity(7)));
    load.activity = Some(Some(DiscoveryActivity { entries: Vec::new(), last_seq: 9 }));
    assert_eq!(load.wants(), None);
    let loaded = load.finish().unwrap().unwrap();
    assert_eq!(loaded.catalog.unwrap().hidden_incompatible, 2);
    assert_eq!(loaded.activity.unwrap().last_seq, 9);
    assert!(loaded.federation.is_none());

    let mut load = DiscoveryLoad::new(false, None);
    load.status = Some(Ok(status(true)));
    load.catalog = Some(Err(down()));
    assert_eq!(load.wants(), None);
    assert_eq!(load.finish().unwrap().unwrap_err(), down());
}

#[test]
fn the_log_is_asked_for_only_where_it_is_read() {
    let mut load = DiscoveryLoad::new(false, None);
    load.status = Some(Ok(status(true)));
    load.catalog = Some(Ok(catalog()));
    load.federation = Some(Some(params(true)));
    load.requests = Some(Some(Vec::new()));
    assert_eq!(load.wants(), None);
    assert!(load.finish().unwrap().unwrap().activity.is_none());
}

#[test]
fn a_refused_name_leaves_the_description_alone() {
    let mut errand = IdentityErrand::new(Some("Den".into()), Some("Vinyl".into()));
    assert_eq!(errand.wants(), Some(IdentityCall::Name));
    errand.named = Some(Err(down()));
    assert_eq!(errand.wants(), None);
    assert_eq!(errand.finish(), Some(Err(down())));

    let mut errand = IdentityErrand::new(Some("Den".into()), Some("Vinyl".into()));
    errand.named = Some(Ok(()));
    assert_eq!(errand.wants(), Some(IdentityCall::Description));
    errand.described = Some(Ok(()));
    assert_eq!(errand.finish(), Some(Ok(())));

    let mut errand = IdentityErrand::new(None, Some("Vinyl".into()));
    assert_eq!(errand.wants(), Some(IdentityCall::Description));
    errand.described = Some(Err(down()));
    assert_eq!(errand.finish(), Some(Err(down())));
}

#[test]
fn a_period_is_read_beside_the_one_before() {
    let mut load = StatsLoad::new(Preset::Week, -2);
    let mut asked = Vec::new();
    while let Some(call) = load.wants() {
        asked.push(call);
        match call {
            StatsCall::Periods => load.periods = Some(None),
            StatsCall::Summary { .. } => load.summary = Some(Ok(summary(5))),
            StatsCall::Previous { .. } => load.previous = Some(Some(summary(4))),
            StatsCall::Series => load.series = Some(Ok(series("day"))),
            StatsCall::Hours => load.hours = Some(Ok(series("hourOfDay"))),
            StatsCall::Top => load.top = Some(Ok(Vec::new())),
            StatsCall::History => load.history = Some(Ok(StatsHistory { items: Vec::new(), next: None })),
        }
    }
    let wanted = [
        StatsCall::Periods,
        StatsCall::Summary { offset: -2 },
        StatsCall::Previous { offset: -3 },
        StatsCall::Series,
        StatsCall::Hours,
        StatsCall::Top,
        StatsCall::History,
    ];
    assert_eq!(asked, wanted);
    let loaded = load.finish().unwrap().unwrap();
    assert_eq!((loaded.summary.plays, loaded.previous.unwrap().plays), (5, 4));
    assert_eq!(loaded.hours.bucket, "hourOfDay");
    assert!(loaded.periods.is_none());
}

#[test]
fn all_time_is_compared_with_nothing() {
    let mut load = StatsLoad::new(Preset::All, 0);
    load.periods = Some(None);
    load.summary = Some(Ok(summary(5)));
    assert_eq!(load.wants(), Some(StatsCall::Series));
    load.series = Some(Ok(series("month")));
    load.hours = Some(Err(down()));
    assert_eq!(load.wants(), None);
    assert_eq!(load.finish().unwrap().unwrap_err(), down());
}
