//! Errands that take more than one call to the server: which call comes next,
//! given the answers so far, and what the answers come to. Some answers an
//! errand cannot do without; a list that is only nice to have is left out
//! where the server does not give it.

use vstd::prelude::*;

use crate::backups::{BackupDestination, BackupStatus};
use crate::discovery::{DiscoveryActivity, DiscoveryCatalog, DiscoveryStatus};
use crate::federation::{FederationKey, FederationParams, FederationPeer, FederationRequest};
use crate::msg::ApiError;
use crate::stats::{Preset, StatsHistory, StatsPeriods, StatsSummary, TopItem};
use crate::stats_series::StatsTimeseries;

verus! {

/// An answer that failed.
pub open spec fn failed<T>(answer: Option<Result<T, ApiError>>) -> bool {
    answer is Some && answer->0 is Err
}

// ── The backups ──────────────────────────────────────────────────────────

/// A call of the backups' load.
#[derive(Clone, Copy, Debug, PartialEq, Eq, Structural)]
pub enum BackupCall {
    Destinations,
    Status,
    /// The libraries' names and ids.
    Libraries,
}

/// The answers of the backups' load so far.
#[derive(Debug)]
pub struct BackupLoad {
    pub dests: Option<Result<Vec<BackupDestination>, ApiError>>,
    pub status: Option<Result<BackupStatus, ApiError>>,
    /// Empty inside where the server did not say.
    pub libraries: Option<Option<Vec<(String, i64)>>>,
}

impl BackupLoad {
    pub open spec fn asks(self) -> Option<BackupCall> {
        if self.dests is None {
            Some(BackupCall::Destinations)
        } else if failed(self.dests) {
            None
        } else if self.status is None {
            Some(BackupCall::Status)
        } else if failed(self.status) {
            None
        } else if self.libraries is None {
            Some(BackupCall::Libraries)
        } else {
            None
        }
    }

    /// What the answers come to: the first failure of what cannot be done
    /// without, else everything.
    pub open spec fn comes_to(self) -> Result<crate::backups::Loaded, ApiError> {
        match (self.dests->0, self.status->0) {
            (Err(e), _) => Err(e),
            (Ok(_), Err(e)) => Err(e),
            (Ok(dests), Ok(status)) => Ok(crate::backups::Loaded { dests, status, libraries: self.libraries->0 }),
        }
    }

    pub fn new() -> (load: BackupLoad)
        ensures
            load.dests is None && load.status is None && load.libraries is None,
    {
        BackupLoad { dests: None, status: None, libraries: None }
    }

    /// The call to make next, if there is one.
    pub fn wants(&self) -> (call: Option<BackupCall>)
        ensures
            call == self.asks(),
    {
        match &self.dests {
            None => Some(BackupCall::Destinations),
            Some(Err(_)) => None,
            Some(Ok(_)) => match &self.status {
                None => Some(BackupCall::Status),
                Some(Err(_)) => None,
                Some(Ok(_)) => {
                    if self.libraries.is_none() {
                        Some(BackupCall::Libraries)
                    } else {
                        None
                    }
                },
            },
        }
    }

    /// The outcome, once there is nothing more to ask.
    pub fn finish(self) -> (out: Option<Result<crate::backups::Loaded, ApiError>>)
        ensures
            out == (if self.asks() is Some { None } else { Some(self.comes_to()) }),
    {
        match (self.dests, self.status, self.libraries) {
            (Some(Err(e)), _, _) => Some(Err(e)),
            (Some(Ok(_)), Some(Err(e)), _) => Some(Err(e)),
            (Some(Ok(dests)), Some(Ok(status)), Some(libraries)) => Some(
                Ok(crate::backups::Loaded { dests, status, libraries }),
            ),
            _ => None,
        }
    }
}

/// The backups load whenever the destinations and the state are answered: the
/// libraries' names hold nothing up.
pub proof fn names_hold_no_backups_up(load: BackupLoad)
    requires
        load.asks() is None,
    ensures
        load.comes_to() is Ok <==> !failed(load.dests) && !failed(load.status),
{
}

// ── The federation ───────────────────────────────────────────────────────

/// A call of the federation's load.
#[derive(Clone, Copy, Debug, PartialEq, Eq, Structural)]
pub enum FederationCall {
    Params,
    Requests,
    Keys,
    Peers,
    /// The libraries' names.
    Libraries,
}

/// The answers of the federation's load so far; a list is empty inside where
/// the server did not give it.
#[derive(Debug)]
pub struct FederationLoad {
    pub params: Option<Result<FederationParams, ApiError>>,
    pub requests: Option<Option<(bool, Vec<FederationRequest>)>>,
    pub keys: Option<Option<Vec<FederationKey>>>,
    pub peers: Option<Option<Vec<FederationPeer>>>,
    pub libraries: Option<Option<Vec<String>>>,
}

impl FederationLoad {
    /// The endpoint answered, and is on.
    pub open spec fn is_on(self) -> bool {
        self.params matches Some(Ok(p)) && p.enabled
    }

    pub open spec fn asks(self) -> Option<FederationCall> {
        if self.params is None {
            Some(FederationCall::Params)
        } else if !self.is_on() {
            None
        } else if self.requests is None {
            Some(FederationCall::Requests)
        } else if self.keys is None {
            Some(FederationCall::Keys)
        } else if self.peers is None {
            Some(FederationCall::Peers)
        } else if self.libraries is None {
            Some(FederationCall::Libraries)
        } else {
            None
        }
    }

    pub open spec fn comes_to(self) -> Result<crate::federation::Loaded, ApiError> {
        match self.params->0 {
            Err(e) => Err(e),
            Ok(params) => Ok(
                if params.enabled {
                    crate::federation::Loaded {
                        params,
                        requests: self.requests->0,
                        keys: self.keys->0,
                        peers: self.peers->0,
                        libraries: self.libraries->0,
                    }
                } else {
                    crate::federation::Loaded { params, requests: None, keys: None, peers: None, libraries: None }
                },
            ),
        }
    }

    pub fn new() -> (load: FederationLoad)
        ensures
            load.params is None && load.requests is None && load.keys is None && load.peers is None && load.libraries is None,
    {
        FederationLoad { params: None, requests: None, keys: None, peers: None, libraries: None }
    }

    /// The call to make next, if there is one.
    pub fn wants(&self) -> (call: Option<FederationCall>)
        ensures
            call == self.asks(),
    {
        match &self.params {
            None => Some(FederationCall::Params),
            Some(Err(_)) => None,
            Some(Ok(p)) => {
                if !p.enabled {
                    None
                } else if self.requests.is_none() {
                    Some(FederationCall::Requests)
                } else if self.keys.is_none() {
                    Some(FederationCall::Keys)
                } else if self.peers.is_none() {
                    Some(FederationCall::Peers)
                } else if self.libraries.is_none() {
                    Some(FederationCall::Libraries)
                } else {
                    None
                }
            },
        }
    }

    /// The outcome, once there is nothing more to ask.
    pub fn finish(self) -> (out: Option<Result<crate::federation::Loaded, ApiError>>)
        ensures
            out == (if self.asks() is Some { None } else { Some(self.comes_to()) }),
    {
        match self.params {
            None => None,
            Some(Err(e)) => Some(Err(e)),
            Some(Ok(params)) => {
                if !params.enabled {
                    return Some(
                        Ok(crate::federation::Loaded { params, requests: None, keys: None, peers: None, libraries: None }),
                    );
                }
                match (self.requests, self.keys, self.peers, self.libraries) {
                    (Some(requests), Some(keys), Some(peers), Some(libraries)) => Some(
                        Ok(crate::federation::Loaded { params, requests, keys, peers, libraries }),
                    ),
                    _ => None,
                }
            },
        }
    }
}

/// The federation loads whenever the endpoint's state is answered, and while
/// it is off nothing else is asked for.
pub proof fn lists_hold_no_federation_up(load: FederationLoad)
    ensures
        load.asks() is None ==> (load.comes_to() is Ok <==> !failed(load.params)),
        load.params is Some && !load.is_on() ==> load.asks() is None,
{
}

// ── The discovery network ────────────────────────────────────────────────

/// A call of the discovery network's load.
#[derive(Clone, Copy, Debug, PartialEq, Eq, Structural)]
pub enum DiscoveryCall {
    Status,
    Catalog { include_incompatible: bool },
    Federation,
    Requests,
    /// The log's lines after this one.
    Activity(u64),
}

/// What was asked for, and the answers so far; what is only nice to have is
/// empty inside where the server did not give it.
#[derive(Debug)]
pub struct DiscoveryLoad {
    pub include_incompatible: bool,
    pub activity_since: Option<u64>,
    pub status: Option<Result<DiscoveryStatus, ApiError>>,
    pub catalog: Option<Result<DiscoveryCatalog, ApiError>>,
    pub federation: Option<Option<FederationParams>>,
    pub requests: Option<Option<Vec<FederationRequest>>>,
    pub activity: Option<Option<DiscoveryActivity>>,
}

impl DiscoveryLoad {
    /// The network answered, and is on.
    pub open spec fn is_on(self) -> bool {
        self.status matches Some(Ok(s)) && s.enabled
    }

    pub open spec fn asks(self) -> Option<DiscoveryCall> {
        if self.status is None {
            Some(DiscoveryCall::Status)
        } else if !self.is_on() {
            None
        } else if self.catalog is None {
            Some(DiscoveryCall::Catalog { include_incompatible: self.include_incompatible })
        } else if failed(self.catalog) {
            None
        } else if self.federation is None {
            Some(DiscoveryCall::Federation)
        } else if self.requests is None {
            Some(DiscoveryCall::Requests)
        } else {
            match self.activity_since {
                Some(since) => if self.activity is None { Some(DiscoveryCall::Activity(since)) } else { None },
                None => None,
            }
        }
    }

    pub open spec fn comes_to(self) -> Result<crate::discovery::Loaded, ApiError> {
        match self.status->0 {
            Err(e) => Err(e),
            Ok(status) => if !status.enabled {
                Ok(crate::discovery::Loaded { status, catalog: None, federation: None, requests: None, activity: None })
            } else {
                match self.catalog->0 {
                    Err(e) => Err(e),
                    Ok(catalog) => Ok(
                        crate::discovery::Loaded {
                            status,
                            catalog: Some(catalog),
                            federation: self.federation->0,
                            requests: self.requests->0,
                            activity: if self.activity_since is Some { self.activity->0 } else { None },
                        },
                    ),
                }
            },
        }
    }

    pub fn new(include_incompatible: bool, activity_since: Option<u64>) -> (load: DiscoveryLoad)
        ensures
            load.include_incompatible == include_incompatible && load.activity_since == activity_since,
            load.status is None && load.catalog is None && load.federation is None && load.requests is None,
            load.activity is None,
    {
        DiscoveryLoad {
            include_incompatible,
            activity_since,
            status: None,
            catalog: None,
            federation: None,
            requests: None,
            activity: None,
        }
    }

    /// The call to make next, if there is one.
    pub fn wants(&self) -> (call: Option<DiscoveryCall>)
        ensures
            call == self.asks(),
    {
        match &self.status {
            None => return Some(DiscoveryCall::Status),
            Some(Err(_)) => return None,
            Some(Ok(s)) => {
                if !s.enabled {
                    return None;
                }
            },
        }
        match &self.catalog {
            None => return Some(DiscoveryCall::Catalog { include_incompatible: self.include_incompatible }),
            Some(Err(_)) => return None,
            Some(Ok(_)) => {},
        }
        if self.federation.is_none() {
            return Some(DiscoveryCall::Federation);
        }
        if self.requests.is_none() {
            return Some(DiscoveryCall::Requests);
        }
        match self.activity_since {
            Some(since) => {
                if self.activity.is_none() {
                    Some(DiscoveryCall::Activity(since))
                } else {
                    None
                }
            },
            None => None,
        }
    }

    /// The outcome, once there is nothing more to ask.
    pub fn finish(self) -> (out: Option<Result<crate::discovery::Loaded, ApiError>>)
        ensures
            out == (if self.asks() is Some { None } else { Some(self.comes_to()) }),
    {
        let status = match self.status {
            None => return None,
            Some(Err(e)) => return Some(Err(e)),
            Some(Ok(status)) => status,
        };
        if !status.enabled {
            return Some(
                Ok(crate::discovery::Loaded { status, catalog: None, federation: None, requests: None, activity: None }),
            );
        }
        let catalog = match self.catalog {
            None => return None,
            Some(Err(e)) => return Some(Err(e)),
            Some(Ok(catalog)) => Some(catalog),
        };
        let (federation, requests) = match (self.federation, self.requests) {
            (Some(federation), Some(requests)) => (federation, requests),
            _ => return None,
        };
        let activity = if self.activity_since.is_some() {
            match self.activity {
                Some(activity) => activity,
                None => return None,
            }
        } else {
            None
        };
        Some(Ok(crate::discovery::Loaded { status, catalog, federation, requests, activity }))
    }
}

/// The network loads whenever its state and, while it is on, its catalogue are
/// answered; while it is off nothing else is asked for.
pub proof fn lists_hold_no_discovery_up(load: DiscoveryLoad)
    ensures
        load.asks() is None ==> (load.comes_to() is Ok <==> !failed(load.status) && (load.is_on() ==> !failed(load.catalog))),
        load.status is Some && !load.is_on() ==> load.asks() is None,
{
}

/// A call that gives this server another identity.
#[derive(Clone, Copy, Debug, PartialEq, Eq, Structural)]
pub enum IdentityCall {
    Name,
    Description,
}

/// What is to be changed, and the answers so far.
#[derive(Debug)]
pub struct IdentityErrand {
    pub name: Option<String>,
    pub description: Option<String>,
    pub named: Option<Result<(), ApiError>>,
    pub described: Option<Result<(), ApiError>>,
}

impl IdentityErrand {
    pub open spec fn asks(self) -> Option<IdentityCall> {
        if self.name is Some && self.named is None {
            Some(IdentityCall::Name)
        } else if self.name is Some && failed(self.named) {
            None
        } else if self.description is Some && self.described is None {
            Some(IdentityCall::Description)
        } else {
            None
        }
    }

    /// The first failure, else success.
    pub open spec fn comes_to(self) -> Result<(), ApiError> {
        if self.name is Some && failed(self.named) {
            self.named->0
        } else if self.description is Some {
            self.described->0
        } else {
            Ok(())
        }
    }

    pub fn new(name: Option<String>, description: Option<String>) -> (e: IdentityErrand)
        ensures
            e.name == name && e.description == description && e.named is None && e.described is None,
    {
        IdentityErrand { name, description, named: None, described: None }
    }

    /// The call to make next, if there is one.
    pub fn wants(&self) -> (call: Option<IdentityCall>)
        ensures
            call == self.asks(),
    {
        if self.name.is_some() {
            match &self.named {
                None => return Some(IdentityCall::Name),
                Some(Err(_)) => return None,
                Some(Ok(_)) => {},
            }
        }
        if self.description.is_some() && self.described.is_none() {
            Some(IdentityCall::Description)
        } else {
            None
        }
    }

    /// The outcome, once there is nothing more to ask.
    pub fn finish(self) -> (out: Option<Result<(), ApiError>>)
        ensures
            out == (if self.asks() is Some { None } else { Some(self.comes_to()) }),
    {
        if self.name.is_some() {
            match self.named {
                None => return None,
                Some(Err(e)) => return Some(Err(e)),
                Some(Ok(_)) => {},
            }
        }
        if self.description.is_some() { self.described } else { Some(Ok(())) }
    }
}

/// A name that was refused leaves the description as it is.
pub proof fn a_refused_name_stops_there(e: IdentityErrand)
    requires
        e.name is Some,
        failed(e.named),
    ensures
        e.asks() is None,
        e.comes_to() == e.named->0,
{
}

// ── The listening report ─────────────────────────────────────────────────

/// A call of the report's load.
#[derive(Clone, Copy, Debug, PartialEq, Eq, Structural)]
pub enum StatsCall {
    Periods,
    /// The totals of the period that lies so far back.
    Summary { offset: i32 },
    /// The totals of the period before it.
    Previous { offset: i32 },
    Series,
    Hours,
    Top,
    History,
}

/// What was asked for, and the answers so far; the periods and the totals
/// before are empty inside where the server did not give them.
#[derive(Debug)]
pub struct StatsLoad {
    pub preset: Preset,
    pub offset: i32,
    pub periods: Option<Option<StatsPeriods>>,
    pub summary: Option<Result<StatsSummary, ApiError>>,
    pub previous: Option<Option<StatsSummary>>,
    pub series: Option<Result<StatsTimeseries, ApiError>>,
    pub hours: Option<Result<StatsTimeseries, ApiError>>,
    pub top: Option<Result<Vec<TopItem>, ApiError>>,
    pub history: Option<Result<StatsHistory, ApiError>>,
}

impl StatsLoad {
    /// All time has nothing before it.
    pub open spec fn compares(self) -> bool {
        self.preset != Preset::All
    }

    pub open spec fn asks(self) -> Option<StatsCall> {
        if self.periods is None {
            Some(StatsCall::Periods)
        } else if self.summary is None {
            Some(StatsCall::Summary { offset: self.offset })
        } else if failed(self.summary) {
            None
        } else if self.compares() && self.previous is None {
            Some(StatsCall::Previous { offset: (self.offset - 1) as i32 })
        } else if self.series is None {
            Some(StatsCall::Series)
        } else if failed(self.series) {
            None
        } else if self.hours is None {
            Some(StatsCall::Hours)
        } else if failed(self.hours) {
            None
        } else if self.top is None {
            Some(StatsCall::Top)
        } else if failed(self.top) {
            None
        } else if self.history is None {
            Some(StatsCall::History)
        } else {
            None
        }
    }

    /// The first failure of what cannot be done without, else everything.
    pub open spec fn comes_to(self) -> Result<crate::stats::Loaded, ApiError> {
        match self.summary->0 {
            Err(e) => Err(e),
            Ok(summary) => match self.series->0 {
                Err(e) => Err(e),
                Ok(series) => match self.hours->0 {
                    Err(e) => Err(e),
                    Ok(hours) => match self.top->0 {
                        Err(e) => Err(e),
                        Ok(top) => match self.history->0 {
                            Err(e) => Err(e),
                            Ok(history) => Ok(
                                crate::stats::Loaded {
                                    periods: self.periods->0,
                                    summary,
                                    previous: if self.compares() { self.previous->0 } else { None },
                                    series,
                                    hours,
                                    top,
                                    history,
                                },
                            ),
                        },
                    },
                },
            },
        }
    }

    pub fn new(preset: Preset, offset: i32) -> (load: StatsLoad)
        ensures
            load.preset == preset && load.offset == offset,
            load.periods is None && load.summary is None && load.previous is None && load.series is None,
            load.hours is None && load.top is None && load.history is None,
    {
        StatsLoad {
            preset,
            offset,
            periods: None,
            summary: None,
            previous: None,
            series: None,
            hours: None,
            top: None,
            history: None,
        }
    }

    /// The call to make next, if there is one.
    pub fn wants(&self) -> (call: Option<StatsCall>)
        requires
            self.offset > i32::MIN,
        ensures
            call == self.asks(),
    {
        if self.periods.is_none() {
            return Some(StatsCall::Periods);
        }
        match &self.summary {
            None => return Some(StatsCall::Summary { offset: self.offset }),
            Some(Err(_)) => return None,
            Some(Ok(_)) => {},
        }
        if self.preset != Preset::All && self.previous.is_none() {
            return Some(StatsCall::Previous { offset: self.offset - 1 });
        }
        match &self.series {
            None => return Some(StatsCall::Series),
            Some(Err(_)) => return None,
            Some(Ok(_)) => {},
        }
        match &self.hours {
            None => return Some(StatsCall::Hours),
            Some(Err(_)) => return None,
            Some(Ok(_)) => {},
        }
        match &self.top {
            None => return Some(StatsCall::Top),
            Some(Err(_)) => return None,
            Some(Ok(_)) => {},
        }
        if self.history.is_none() { Some(StatsCall::History) } else { None }
    }

    /// The outcome, once there is nothing more to ask.
    pub fn finish(self) -> (out: Option<Result<crate::stats::Loaded, ApiError>>)
        ensures
            out == (if self.asks() is Some { None } else { Some(self.comes_to()) }),
    {
        let periods = match self.periods {
            None => return None,
            Some(periods) => periods,
        };
        let summary = match self.summary {
            None => return None,
            Some(Err(e)) => return Some(Err(e)),
            Some(Ok(summary)) => summary,
        };
        let previous = if self.preset != Preset::All {
            match self.previous {
                None => return None,
                Some(previous) => previous,
            }
        } else {
            None
        };
        let series = match self.series {
            None => return None,
            Some(Err(e)) => return Some(Err(e)),
            Some(Ok(series)) => series,
        };
        let hours = match self.hours {
            None => return None,
            Some(Err(e)) => return Some(Err(e)),
            Some(Ok(hours)) => hours,
        };
        let top = match self.top {
            None => return None,
            Some(Err(e)) => return Some(Err(e)),
            Some(Ok(top)) => top,
        };
        match self.history {
            None => None,
            Some(Err(e)) => Some(Err(e)),
            Some(Ok(history)) => Some(
                Ok(crate::stats::Loaded { periods, summary, previous, series, hours, top, history }),
            ),
        }
    }
}

/// Of all time, no totals before are ever asked for.
pub proof fn all_time_has_nothing_before(load: StatsLoad)
    requires
        load.preset == Preset::All,
    ensures
        !(load.asks() matches Some(call) && call is Previous),
{
}

// ── What the answers come to ─────────────────────────────────────────────

/// The backups' load is what was answered, each answer in its place.
pub proof fn backups_come_as_answered(load: BackupLoad, l: crate::backups::Loaded)
    requires
        load.asks() is None,
        load.comes_to() == Ok::<crate::backups::Loaded, ApiError>(l),
    ensures
        load.dests == Some(Ok::<Vec<BackupDestination>, ApiError>(l.dests)),
        load.status == Some(Ok::<BackupStatus, ApiError>(l.status)),
        load.libraries == Some(l.libraries),
{
}

/// The federation's load is what was answered, and nothing but its state where
/// it is off.
pub proof fn federation_comes_as_answered(load: FederationLoad, l: crate::federation::Loaded)
    requires
        load.asks() is None,
        load.comes_to() == Ok::<crate::federation::Loaded, ApiError>(l),
    ensures
        load.params matches Some(Ok(p)) && p == l.params,
        l.params.enabled ==> load.requests == Some(l.requests) && load.keys == Some(l.keys) && load.peers == Some(l.peers)
            && load.libraries == Some(l.libraries),
        !l.params.enabled ==> l.requests is None && l.keys is None && l.peers is None && l.libraries is None,
{
}

/// The network's load is what was answered: off the network its status alone,
/// the log only where it was asked for.
pub proof fn discovery_comes_as_answered(load: DiscoveryLoad, l: crate::discovery::Loaded)
    requires
        load.asks() is None,
        load.comes_to() == Ok::<crate::discovery::Loaded, ApiError>(l),
    ensures
        load.status matches Some(Ok(s)) && s == l.status,
        l.status.enabled ==> (load.catalog matches Some(Ok(c)) && l.catalog == Some(c)) && load.federation == Some(l.federation)
            && load.requests == Some(l.requests),
        l.status.enabled && load.activity_since is Some ==> load.activity == Some(l.activity),
        load.activity_since is None ==> l.activity is None,
        !l.status.enabled ==> l.catalog is None && l.federation is None && l.requests is None && l.activity is None,
{
}

/// The catalog is asked for as it was wanted, and the log from where it was.
pub proof fn discovery_asks_as_wanted(load: DiscoveryLoad)
    ensures
        load.asks() matches Some(DiscoveryCall::Catalog { include_incompatible }) ==> include_incompatible
            == load.include_incompatible,
        load.asks() matches Some(DiscoveryCall::Activity(since)) ==> load.activity_since == Some(since),
{
}

/// A changed identity asks for each field that changed, the name first, and
/// succeeds only where every one was taken.
pub proof fn identities_are_taken_whole(e: IdentityErrand)
    ensures
        e.asks() == Some(IdentityCall::Name) ==> e.name is Some && e.named is None,
        e.asks() == Some(IdentityCall::Description) ==> e.description is Some && e.described is None && (e.name is Some
            ==> e.named is Some && e.named->0 is Ok),
        e.asks() is None && e.comes_to() is Ok ==> (e.name is Some ==> e.named is Some && e.named->0 is Ok) && (
        e.description is Some ==> e.described is Some && e.described->0 is Ok),
        e.name is Some && e.named is None ==> e.asks() == Some(IdentityCall::Name),
{
}

/// The report's load is what was answered, each answer in its place, and the
/// period before is the one right before.
pub proof fn reports_come_as_answered(load: StatsLoad, l: crate::stats::Loaded)
    requires
        load.asks() is None,
        load.comes_to() == Ok::<crate::stats::Loaded, ApiError>(l),
    ensures
        load.summary matches Some(Ok(s)) && s == l.summary,
        load.series matches Some(Ok(s)) && s == l.series,
        load.hours matches Some(Ok(s)) && s == l.hours,
        load.top matches Some(Ok(s)) && s == l.top,
        load.history matches Some(Ok(s)) && s == l.history,
        load.periods == Some(l.periods),
        load.preset != Preset::All ==> load.previous == Some(l.previous),
        load.preset == Preset::All ==> l.previous is None,
{
}

/// The totals are asked for the period that is shown, and those to compare with
/// for the one right before it; all time compares with nothing.
pub proof fn reports_ask_for_their_period(load: StatsLoad)
    requires
        load.offset > i32::MIN,
    ensures
        load.asks() matches Some(StatsCall::Summary { offset }) ==> offset == load.offset,
        load.asks() matches Some(StatsCall::Previous { offset }) ==> offset + 1 == load.offset && load.preset != Preset::All,
{
}

} // verus!
