//! Ensemble tuning parameters and their defaults.

use vstd::prelude::*;
use crate::string_map::StringMap;

verus! {

/// Ticks that a follower may take to connect to the leader and catch up.
pub const DEFAULT_INIT_LIMIT: i32 = 10;

/// Length of a tick in milliseconds.
pub const DEFAULT_TICK_TIME: i32 = 2000;

/// Ticks that a follower may lag behind the leader.
pub const DEFAULT_SYNC_LIMIT: i32 = 2;

/// Requests that may be outstanding before clients are slowed down.
pub const DEFAULT_GLOBAL_OUTSTANDING_LIMIT: i32 = 1000;

/// Kilobytes by which the transaction log grows.
pub const DEFAULT_PRE_ALLOC_SIZE: i32 = 65536;

/// Transactions between two snapshots.
pub const DEFAULT_SNAP_COUNT: i32 = 10000;

/// Committed requests that a server keeps in memory.
pub const DEFAULT_COMMIT_LOG_COUNT: i32 = 500;

/// Kilobytes of transaction log after which a snapshot is taken.
pub const DEFAULT_SNAP_SIZE_LIMIT_IN_KB: i32 = 4194304;

/// Connections that one client address may hold to a server.
pub const DEFAULT_MAX_CLIENT_CNXNS: i32 = 60;

/// Snapshots that a purge keeps.
pub const DEFAULT_AUTO_PURGE_SNAP_RETAIN_COUNT: i32 = 3;

/// Hours between two purges.
pub const DEFAULT_AUTO_PURGE_PURGE_INTERVAL: i32 = 1;

/// Whether servers listen for their peers on every address.
pub const DEFAULT_QUORUM_LISTEN_ON_ALL_IPS: bool = false;

/// Number of ticks that the shortest session timeout lasts.
pub const MIN_SESSION_TIMEOUT_TICKS: i32 = 2;

/// Number of ticks that the longest session timeout lasts.
pub const MAX_SESSION_TIMEOUT_TICKS: i32 = 20;

/// Tuning parameters of the ensemble. A parameter that is `None` has not been stated.
#[derive(Clone, Debug, PartialEq, Eq)]
pub struct ZookeeperConfig {
    /// Ticks that a follower may take to connect to the leader and catch up.
    pub init_limit: Option<i32>,
    /// Length of a tick in milliseconds.
    pub tick_time: Option<i32>,
    /// Ticks that a follower may lag behind the leader.
    pub sync_limit: Option<i32>,
    /// Requests that may be outstanding before clients are slowed down.
    pub global_outstanding_limit: Option<i32>,
    /// Kilobytes by which the transaction log grows.
    pub pre_alloc_size: Option<i32>,
    /// Transactions between two snapshots.
    pub snap_count: Option<i32>,
    /// Committed requests that a server keeps in memory.
    pub commit_log_count: Option<i32>,
    /// Kilobytes of transaction log after which a snapshot is taken.
    pub snap_size_limit_in_kb: Option<i32>,
    /// Connections that a server accepts in all.
    pub max_cnxns: Option<i32>,
    /// Connections that one client address may hold to a server.
    pub max_client_cnxns: Option<i32>,
    /// Shortest session timeout that a client may ask for, in milliseconds.
    pub min_session_timeout: Option<i32>,
    /// Longest session timeout that a client may ask for, in milliseconds.
    pub max_session_timeout: Option<i32>,
    /// Snapshots that a purge keeps.
    pub auto_purge_snap_retain_count: Option<i32>,
    /// Hours between two purges.
    pub auto_purge_purge_interval: Option<i32>,
    /// Whether servers listen for their peers on every address.
    pub quorum_listen_on_all_ips: Option<bool>,
    /// Further settings, by name.
    pub additional_config: Option<StringMap>,
}

/// Mathematical value of a [`ZookeeperConfig`].
pub struct ZookeeperConfigView {
    pub init_limit: Option<i32>,
    pub tick_time: Option<i32>,
    pub sync_limit: Option<i32>,
    pub global_outstanding_limit: Option<i32>,
    pub pre_alloc_size: Option<i32>,
    pub snap_count: Option<i32>,
    pub commit_log_count: Option<i32>,
    pub snap_size_limit_in_kb: Option<i32>,
    pub max_cnxns: Option<i32>,
    pub max_client_cnxns: Option<i32>,
    pub min_session_timeout: Option<i32>,
    pub max_session_timeout: Option<i32>,
    pub auto_purge_snap_retain_count: Option<i32>,
    pub auto_purge_purge_interval: Option<i32>,
    pub quorum_listen_on_all_ips: Option<bool>,
    pub additional_config: Option<Map<Seq<char>, Seq<char>>>,
}

impl View for ZookeeperConfig {
    type V = ZookeeperConfigView;

    open spec fn view(&self) -> ZookeeperConfigView {
        ZookeeperConfigView {
            init_limit: self.init_limit,
            tick_time: self.tick_time,
            sync_limit: self.sync_limit,
            global_outstanding_limit: self.global_outstanding_limit,
            pre_alloc_size: self.pre_alloc_size,
            snap_count: self.snap_count,
            commit_log_count: self.commit_log_count,
            snap_size_limit_in_kb: self.snap_size_limit_in_kb,
            max_cnxns: self.max_cnxns,
            max_client_cnxns: self.max_client_cnxns,
            min_session_timeout: self.min_session_timeout,
            max_session_timeout: self.max_session_timeout,
            auto_purge_snap_retain_count: self.auto_purge_snap_retain_count,
            auto_purge_purge_interval: self.auto_purge_purge_interval,
            quorum_listen_on_all_ips: self.quorum_listen_on_all_ips,
            additional_config: match self.additional_config {
                Some(m) => Some(m@),
                None => None,
            },
        }
    }
}

/// `value` if it is stated, else `fallback`.
pub open spec fn or_number(value: Option<i32>, fallback: i32) -> Option<i32> {
    match value {
        Some(_) => value,
        None => Some(fallback),
    }
}

/// `value` if it is stated, else `fallback`.
pub open spec fn or_flag(value: Option<bool>, fallback: bool) -> Option<bool> {
    match value {
        Some(_) => value,
        None => Some(fallback),
    }
}

/// The 32-bit number nearest to `v`.
pub open spec fn saturated(v: int) -> i32 {
    if v > i32::MAX {
        i32::MAX
    } else if v < i32::MIN {
        i32::MIN
    } else {
        v as i32
    }
}

/// The session timeout that lasts `ticks` ticks of `tick_time` milliseconds, as near as 32
/// bits can hold it.
pub open spec fn session_timeout(tick_time: i32, ticks: i32) -> i32 {
    saturated(ticks * tick_time)
}

impl ZookeeperConfigView {
    /// The configuration with no parameter stated.
    pub open spec fn unset() -> ZookeeperConfigView {
        ZookeeperConfigView {
            init_limit: None,
            tick_time: None,
            sync_limit: None,
            global_outstanding_limit: None,
            pre_alloc_size: None,
            snap_count: None,
            commit_log_count: None,
            snap_size_limit_in_kb: None,
            max_cnxns: None,
            max_client_cnxns: None,
            min_session_timeout: None,
            max_session_timeout: None,
            auto_purge_snap_retain_count: None,
            auto_purge_purge_interval: None,
            quorum_listen_on_all_ips: None,
            additional_config: None,
        }
    }

    /// The tick time in force: the stated one, or the default.
    pub open spec fn resolved_tick_time(self) -> i32 {
        match self.tick_time {
            Some(t) => t,
            None => DEFAULT_TICK_TIME,
        }
    }

    /// The configuration with its gaps filled: eleven numbers and the flag get their fixed
    /// defaults, and the two session timeouts default to 2 and 20 ticks of the tick time
    /// in force; one that is stated is kept whatever the tick time.
    ///
    /// The limit on all connections has no default: without it the server accepts any
    /// number. It and the additional settings are kept as they are.
    pub open spec fn defaulted(self) -> ZookeeperConfigView {
        ZookeeperConfigView {
            init_limit: or_number(self.init_limit, DEFAULT_INIT_LIMIT),
            tick_time: Some(self.resolved_tick_time()),
            sync_limit: or_number(self.sync_limit, DEFAULT_SYNC_LIMIT),
            global_outstanding_limit: or_number(
                self.global_outstanding_limit,
                DEFAULT_GLOBAL_OUTSTANDING_LIMIT,
            ),
            pre_alloc_size: or_number(self.pre_alloc_size, DEFAULT_PRE_ALLOC_SIZE),
            snap_count: or_number(self.snap_count, DEFAULT_SNAP_COUNT),
            commit_log_count: or_number(self.commit_log_count, DEFAULT_COMMIT_LOG_COUNT),
            snap_size_limit_in_kb: or_number(
                self.snap_size_limit_in_kb,
                DEFAULT_SNAP_SIZE_LIMIT_IN_KB,
            ),
            max_cnxns: self.max_cnxns,
            max_client_cnxns: or_number(self.max_client_cnxns, DEFAULT_MAX_CLIENT_CNXNS),
            min_session_timeout: or_number(
                self.min_session_timeout,
                session_timeout(self.resolved_tick_time(), MIN_SESSION_TIMEOUT_TICKS),
            ),
            max_session_timeout: or_number(
                self.max_session_timeout,
                session_timeout(self.resolved_tick_time(), MAX_SESSION_TIMEOUT_TICKS),
            ),
            auto_purge_snap_retain_count: or_number(
                self.auto_purge_snap_retain_count,
                DEFAULT_AUTO_PURGE_SNAP_RETAIN_COUNT,
            ),
            auto_purge_purge_interval: or_number(
                self.auto_purge_purge_interval,
                DEFAULT_AUTO_PURGE_PURGE_INTERVAL,
            ),
            quorum_listen_on_all_ips: or_flag(
                self.quorum_listen_on_all_ips,
                DEFAULT_QUORUM_LISTEN_ON_ALL_IPS,
            ),
            additional_config: self.additional_config,
        }
    }

    /// Whether every parameter that has a default is stated.
    pub open spec fn is_complete(self) -> bool {
        &&& self.init_limit is Some
        &&& self.tick_time is Some
        &&& self.sync_limit is Some
        &&& self.global_outstanding_limit is Some
        &&& self.pre_alloc_size is Some
        &&& self.snap_count is Some
        &&& self.commit_log_count is Some
        &&& self.snap_size_limit_in_kb is Some
        &&& self.max_client_cnxns is Some
        &&& self.min_session_timeout is Some
        &&& self.max_session_timeout is Some
        &&& self.auto_purge_snap_retain_count is Some
        &&& self.auto_purge_purge_interval is Some
        &&& self.quorum_listen_on_all_ips is Some
    }
}

/// `value` if it is stated, else `fallback`.
fn number_or(value: Option<i32>, fallback: i32) -> (number: Option<i32>)
    ensures
        number == or_number(value, fallback),
{
    match value {
        Some(_) => value,
        None => Some(fallback),
    }
}

/// `value` if it is stated, else `fallback`.
fn flag_or(value: Option<bool>, fallback: bool) -> (flag: Option<bool>)
    ensures
        flag == or_flag(value, fallback),
{
    match value {
        Some(_) => value,
        None => Some(fallback),
    }
}

/// `ticks` times `tick_time`, as near as 32 bits can hold it.
fn ticks_of(tick_time: i32, ticks: i32) -> (timeout: i32)
    requires
        0 <= ticks <= MAX_SESSION_TIMEOUT_TICKS,
    ensures
        timeout == session_timeout(tick_time, ticks),
{
    assert(-0x1_0000_0000_00 <= ticks * tick_time <= 0x1_0000_0000_00) by (nonlinear_arith)
        requires
            0 <= ticks <= 20,
            -0x8000_0000 <= tick_time < 0x8000_0000,
    ;
    let wide: i64 = (ticks as i64) * (tick_time as i64);
    if wide > i32::MAX as i64 {
        i32::MAX
    } else if wide < i32::MIN as i64 {
        i32::MIN
    } else {
        wide as i32
    }
}

impl ZookeeperConfig {
    /// A configuration with no parameter stated.
    pub fn new() -> (config: ZookeeperConfig)
        ensures
            config@ == ZookeeperConfigView::unset(),
    {
        ZookeeperConfig {
            init_limit: None,
            tick_time: None,
            sync_limit: None,
            global_outstanding_limit: None,
            pre_alloc_size: None,
            snap_count: None,
            commit_log_count: None,
            snap_size_limit_in_kb: None,
            max_cnxns: None,
            max_client_cnxns: None,
            min_session_timeout: None,
            max_session_timeout: None,
            auto_purge_snap_retain_count: None,
            auto_purge_purge_interval: None,
            quorum_listen_on_all_ips: None,
            additional_config: None,
        }
    }

    /// Replaces each missing parameter that has a default by it, and says whether any was
    /// missing.
    ///
    /// A session timeout that was missing comes out as 2 (the shortest) or 20 (the longest)
    /// times the tick time that the configuration holds afterwards, wherever that product
    /// fits in 32 bits.
    pub fn with_defaults(&mut self) -> (changed: bool)
        ensures
            final(self)@ == old(self)@.defaulted(),
            changed == !old(self)@.is_complete(),
            final(self)@.is_complete(),
            old(self).min_session_timeout is None
                && i32::MIN <= 2 * final(self).tick_time->0 <= i32::MAX
                ==> final(self).min_session_timeout == Some((2 * final(self).tick_time->0) as i32),
            old(self).max_session_timeout is None
                && i32::MIN <= 20 * final(self).tick_time->0 <= i32::MAX
                ==> final(self).max_session_timeout == Some((20 * final(self).tick_time->0) as i32),
    {
        let complete = self.is_complete();
        let tick_time = match self.tick_time {
            Some(t) => t,
            None => DEFAULT_TICK_TIME,
        };
        self.init_limit = number_or(self.init_limit, DEFAULT_INIT_LIMIT);
        self.tick_time = Some(tick_time);
        self.sync_limit = number_or(self.sync_limit, DEFAULT_SYNC_LIMIT);
        self.global_outstanding_limit = number_or(
            self.global_outstanding_limit,
            DEFAULT_GLOBAL_OUTSTANDING_LIMIT,
        );
        self.pre_alloc_size = number_or(self.pre_alloc_size, DEFAULT_PRE_ALLOC_SIZE);
        self.snap_count = number_or(self.snap_count, DEFAULT_SNAP_COUNT);
        self.commit_log_count = number_or(self.commit_log_count, DEFAULT_COMMIT_LOG_COUNT);
        self.snap_size_limit_in_kb = number_or(
            self.snap_size_limit_in_kb,
            DEFAULT_SNAP_SIZE_LIMIT_IN_KB,
        );
        self.max_client_cnxns = number_or(self.max_client_cnxns, DEFAULT_MAX_CLIENT_CNXNS);
        self.min_session_timeout = number_or(
            self.min_session_timeout,
            ticks_of(tick_time, MIN_SESSION_TIMEOUT_TICKS),
        );
        self.max_session_timeout = number_or(
            self.max_session_timeout,
            ticks_of(tick_time, MAX_SESSION_TIMEOUT_TICKS),
        );
        self.auto_purge_snap_retain_count = number_or(
            self.auto_purge_snap_retain_count,
            DEFAULT_AUTO_PURGE_SNAP_RETAIN_COUNT,
        );
        self.auto_purge_purge_interval = number_or(
            self.auto_purge_purge_interval,
            DEFAULT_AUTO_PURGE_PURGE_INTERVAL,
        );
        self.quorum_listen_on_all_ips = flag_or(
            self.quorum_listen_on_all_ips,
            DEFAULT_QUORUM_LISTEN_ON_ALL_IPS,
        );
        !complete
    }

    /// Whether every parameter that has a default is stated.
    pub fn is_complete(&self) -> (complete: bool)
        ensures
            complete == self@.is_complete(),
    {
        self.init_limit.is_some() && self.tick_time.is_some() && self.sync_limit.is_some()
            && self.global_outstanding_limit.is_some() && self.pre_alloc_size.is_some()
            && self.snap_count.is_some() && self.commit_log_count.is_some()
            && self.snap_size_limit_in_kb.is_some() && self.max_client_cnxns.is_some()
            && self.min_session_timeout.is_some()
            && self.max_session_timeout.is_some() && self.auto_purge_snap_retain_count.is_some()
            && self.auto_purge_purge_interval.is_some() && self.quorum_listen_on_all_ips.is_some()
    }
}

} // verus!
