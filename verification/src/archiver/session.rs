//! User sessions of the archiver interface, kept in a `dashmap::DashMap`
//! by their id (the 128-bit value of a UUID) and dropped once idle longer
//! than the timeout.
//!
//! Instants are milliseconds since the Unix epoch; durations of the
//! preferences are whole seconds, as they are serialised.

use vstd::prelude::*;

use dashmap::DashMap;

use crate::archiver::error::{new_uuid, ArchiverError};
use crate::archiver::metrics::{connections_after_expiries, ApiMetrics};
use crate::calendar::now_millis;

verus! {

// ---------------------------------------------------------------------------
// Preferences and sessions
// ---------------------------------------------------------------------------

/// How chart lines are drawn.
#[derive(Debug, Clone, Copy, PartialEq, Eq, Structural)]
pub enum LineStyle {
    Solid,
    Dashed,
    Dotted,
}

/// Chart settings of a user; the time range is in seconds.
#[derive(Debug, Clone)]
pub struct ChartPreferences {
    pub default_time_range: i64,
    pub show_grid: bool,
    pub show_legend: bool,
    pub auto_scale: bool,
    pub default_operator: String,
    pub line_style: LineStyle,
}

impl Default for ChartPreferences {
    /// An hour of raw data, solid lines, grid, legend and automatic scale.
    fn default() -> (r: Self)
        ensures
            r.default_time_range == 3600,
            r.show_grid && r.show_legend && r.auto_scale,
            r.default_operator@ == "raw"@,
            r.line_style == LineStyle::Solid,
    {
        ChartPreferences {
            default_time_range: 3600,
            show_grid: true,
            show_legend: true,
            auto_scale: true,
            default_operator: String::from_str("raw"),
            line_style: LineStyle::Solid,
        }
    }
}

/// Settings of a user; the refresh interval is in seconds.
#[derive(Debug, Clone)]
pub struct UserPreferences {
    pub timezone: String,
    pub default_chart_settings: ChartPreferences,
    pub refresh_interval: i64,
    pub max_points_per_chart: usize,
    pub auto_reconnect: bool,
}

/// Whether `p` holds the default settings: UTC, an hour of raw data in
/// solid lines with grid, legend and automatic scale, a refresh every
/// second, ten thousand points per chart, reconnecting automatically.
pub open spec fn is_default_preferences(p: UserPreferences) -> bool {
    &&& p.timezone@ == "UTC"@
    &&& p.default_chart_settings.default_time_range == 3600
    &&& p.default_chart_settings.show_grid && p.default_chart_settings.show_legend
    &&& p.default_chart_settings.auto_scale
    &&& p.default_chart_settings.default_operator@ == "raw"@
    &&& p.default_chart_settings.line_style == LineStyle::Solid
    &&& p.refresh_interval == 1
    &&& p.max_points_per_chart == 10000
    &&& p.auto_reconnect
}

impl Default for UserPreferences {
    /// UTC, the default chart settings, a refresh every second, ten thousand
    /// points per chart, reconnecting automatically.
    fn default() -> (r: Self)
        ensures
            is_default_preferences(r),
    {
        UserPreferences {
            timezone: String::from_str("UTC"),
            default_chart_settings: ChartPreferences::default(),
            refresh_interval: 1,
            max_points_per_chart: 10000,
            auto_reconnect: true,
        }
    }
}

/// A user session: its id, when it was opened and last used, the user's
/// settings and the ids of the charts it shows.
#[derive(Debug, Clone)]
pub struct Session {
    pub id: u128,
    pub created_at: i64,
    pub last_active: i64,
    pub user_preferences: UserPreferences,
    pub charts: Vec<u128>,
}

// ---------------------------------------------------------------------------
// The session map
// ---------------------------------------------------------------------------

/// What a session map holds: each id and the session under it.
pub uninterp spec fn stored_sessions(m: DashMap<u128, Session>) -> Map<u128, Session>;

/// `DashMap::new`: a map that holds nothing.
#[verifier::external_body]
fn session_map_new() -> (r: DashMap<u128, Session>)
    ensures
        stored_sessions(r).dom() == Set::<u128>::empty(),
{
    DashMap::new()
}

/// `DashMap::get` followed by a clone of the value found: the session under
/// `id`, if there is one.
#[verifier::external_body]
fn session_map_get(m: &DashMap<u128, Session>, id: u128) -> (r: Option<Session>)
    ensures
        r == (if stored_sessions(*m).dom().contains(id) {
            Some(stored_sessions(*m)[id])
        } else {
            None
        }),
{
    match m.get(&id) {
        Some(e) => Some(e.value().clone()),
        None => None,
    }
}

/// `DashMap::insert`: `id` now maps to `session`.
#[verifier::external_body]
fn session_map_insert(m: &mut DashMap<u128, Session>, id: u128, session: Session)
    ensures
        stored_sessions(*final(m)) == stored_sessions(*old(m)).insert(id, session),
{
    m.insert(id, session);
}

/// `DashMap::remove`: `id` no longer maps to anything; the result tells
/// whether it did.
#[verifier::external_body]
fn session_map_remove(m: &mut DashMap<u128, Session>, id: u128) -> (r: bool)
    ensures
        stored_sessions(*final(m)) == stored_sessions(*old(m)).remove(id),
        r == stored_sessions(*old(m)).dom().contains(id),
{
    m.remove(&id).is_some()
}

/// `DashMap::len`: the number of sessions.
#[verifier::external_body]
fn session_map_len(m: &DashMap<u128, Session>) -> (r: usize)
    ensures
        r == stored_sessions(*m).dom().len(),
{
    m.len()
}

/// `DashMap::iter`, reading each key and the last activity of the session
/// under it: every key, in an order the map chooses.
#[verifier::external_body]
fn session_map_activity(m: &DashMap<u128, Session>) -> (r: Vec<(u128, i64)>)
    ensures
        forall|i: int|
            0 <= i < r@.len() ==> stored_sessions(*m).dom().contains(#[trigger] r@[i].0)
                && stored_sessions(*m)[r@[i].0].last_active == r@[i].1,
        forall|id: u128|
            stored_sessions(*m).dom().contains(id) ==> exists|i: int|
                0 <= i < r@.len() && #[trigger] r@[i].0 == id,
{
    m.iter().map(|e| (*e.key(), e.last_active)).collect()
}

// ---------------------------------------------------------------------------
// The manager
// ---------------------------------------------------------------------------

/// Whether a session last active at `last_active` has been idle longer than
/// `timeout` at `now`.
pub open spec fn idle_too_long(last_active: i64, now: i64, timeout: i64) -> bool {
    now - last_active > timeout
}

/// The sessions that are still live at `now`.
pub open spec fn live_sessions(m: Map<u128, Session>, now: i64, timeout: i64) -> Map<u128, Session> {
    m.restrict(m.dom().filter(|id: u128| !idle_too_long(m[id].last_active, now, timeout)))
}

/// Whether `e` is a server error with this message, status and retry delay,
/// no body and no context.
pub open spec fn is_server_error(e: ArchiverError, message: Seq<char>, status: u16, retry_after: Option<u64>) -> bool {
    e matches ArchiverError::ServerError { message: m, status: s, body, retry_after: ra, error_context }
        && m@ == message && s == status && body is None && ra == retry_after && error_context is None
}

fn server_error(message: &str, status: u16, retry_after: Option<u64>) -> (r: ArchiverError)
    ensures
        is_server_error(r, message@, status, retry_after),
{
    ArchiverError::ServerError {
        message: String::from_str(message),
        status,
        body: None,
        retry_after,
        error_context: None,
    }
}

/// The open sessions, their idle timeout and their limit. Timeouts and
/// intervals are in milliseconds.
#[derive(Debug)]
pub struct SessionManager {
    sessions: DashMap<u128, Session>,
    timeout: i64,
    max_sessions: usize,
    metrics: ApiMetrics,
    cleanup_interval: i64,
}

impl SessionManager {
    /// The open sessions, by id.
    pub closed spec fn sessions(&self) -> Map<u128, Session> {
        stored_sessions(self.sessions)
    }

    /// How long a session may stay idle (milliseconds).
    pub closed spec fn timeout(&self) -> i64 {
        self.timeout
    }

    /// How many sessions may be open at once.
    pub closed spec fn max_sessions(&self) -> usize {
        self.max_sessions
    }

    /// The counters of the manager.
    pub closed spec fn counters(&self) -> ApiMetrics {
        self.metrics
    }

    /// How often idle sessions are swept (milliseconds).
    pub closed spec fn cleanup_interval(&self) -> i64 {
        self.cleanup_interval
    }

    /// The session map is finite.
    pub closed spec fn wf(&self) -> bool {
        self.sessions().dom().finite()
    }

    /// No sessions; at most `max_sessions` open at once, each dropped after
    /// `timeout` milliseconds idle; swept every five minutes; counters
    /// started at `now`.
    pub fn new(max_sessions: usize, timeout: i64, now: i64) -> (r: Self)
        ensures
            r.wf(),
            r.sessions().dom() == Set::<u128>::empty(),
            r.timeout() == timeout,
            r.max_sessions() == max_sessions,
            r.cleanup_interval() == 300_000,
            r.counters().fresh(now),
    {
        SessionManager {
            sessions: session_map_new(),
            timeout,
            max_sessions,
            metrics: ApiMetrics::new(now),
            cleanup_interval: 300_000,
        }
    }

    /// The sweep interval (milliseconds).
    pub fn cleanup_interval_ms(&self) -> (r: i64)
        ensures
            r == self.cleanup_interval(),
    {
        self.cleanup_interval
    }

    /// Whether `session` has been idle longer than the timeout at `now`.
    fn is_session_expired(&self, last_active: i64, now: i64) -> (r: bool)
        ensures
            r == idle_too_long(last_active, now, self.timeout()),
    {
        (now as i128) - (last_active as i128) > self.timeout as i128
    }

    /// Drops the sessions idle longer than the timeout at `now`; each one
    /// dropped is counted as expired when `count` is set.
    fn drop_idle_sessions(&mut self, now: i64, count: bool)
        requires
            old(self).wf(),
        ensures
            final(self).wf(),
            final(self).sessions() == live_sessions(old(self).sessions(), now, old(self).timeout()),
            final(self).timeout() == old(self).timeout(),
            final(self).max_sessions() == old(self).max_sessions(),
            final(self).cleanup_interval() == old(self).cleanup_interval(),
            count ==> final(self).counters() == (ApiMetrics {
                active_connections: connections_after_expiries(
                    old(self).counters().active_connections,
                    (old(self).sessions().dom().len() - live_sessions(
                        old(self).sessions(),
                        now,
                        old(self).timeout(),
                    ).dom().len()) as nat,
                ),
                ..old(self).counters()
            }),
            !count ==> final(self).counters() == old(self).counters(),
    {
        let activity = session_map_activity(&self.sessions);
        let ghost m = self.sessions();
        let ghost target = live_sessions(m, now, self.timeout);
        let ghost mut removed: Set<u128> = Set::empty();
        let ghost c0 = self.metrics;
        let mut i: usize = 0;
        while i < activity.len()
            invariant
                i <= activity@.len(),
                m == old(self).sessions(),
                m.dom().finite(),
                self.timeout == old(self).timeout(),
                self.max_sessions == old(self).max_sessions(),
                self.cleanup_interval == old(self).cleanup_interval(),
                target == live_sessions(m, now, self.timeout),
                forall|j: int|
                    0 <= j < activity@.len() ==> m.dom().contains(#[trigger] activity@[j].0)
                        && m[activity@[j].0].last_active == activity@[j].1,
                forall|id: u128|
                    m.dom().contains(id) ==> exists|j: int|
                        0 <= j < activity@.len() && #[trigger] activity@[j].0 == id,
                removed.finite(),
                removed.subset_of(m.dom()),
                forall|id: u128|
                    #[trigger] removed.contains(id) ==> idle_too_long(m[id].last_active, now, self.timeout),
                forall|j: int|
                    0 <= j < i && #[trigger] idle_too_long(activity@[j].1, now, self.timeout)
                        ==> removed.contains(activity@[j].0),
                self.sessions() == m.remove_keys(removed),
                count ==> self.metrics == (ApiMetrics {
                    active_connections: connections_after_expiries(
                        c0.active_connections,
                        removed.len(),
                    ),
                    ..c0
                }),
                !count ==> self.metrics == c0,
            decreases activity@.len() - i,
        {
            let (id, last_active) = activity[i];
            if self.is_session_expired(last_active, now) {
                let was_there = session_map_remove(&mut self.sessions, id);
                proof {
                    assert(was_there == !removed.contains(id));
                }
                if was_there && count {
                    self.metrics.record_session_expired();
                }
                proof {
                    vstd::set::axiom_set_insert_len(removed, id);
                    assert(self.sessions() =~= m.remove_keys(removed.insert(id)));
                    removed = removed.insert(id);
                }
            }
            i = i + 1;
        }
        proof {
            assert forall|id: u128| m.dom().contains(id) && idle_too_long(m[id].last_active, now, self.timeout)
                implies removed.contains(id) by {
                let j = choose|j: int| 0 <= j < activity@.len() && #[trigger] activity@[j].0 == id;
                assert(idle_too_long(activity@[j].1, now, self.timeout));
            }
            assert(self.sessions() =~= target);
            assert(removed =~= m.dom().difference(target.dom()));
            vstd::set_lib::lemma_len_subset(target.dom(), m.dom());
            vstd::set_lib::lemma_set_difference_len(m.dom(), target.dom());
            assert(m.dom().intersect(target.dom()) =~= target.dom());
        }
    }
}

/// What creating a session with `preferences` and id `id` at `now` does to
/// the sessions `m` (at most `max`, dropped after `timeout` idle), giving
/// `after` and `r`: when the sessions are at the limit, the idle ones are
/// dropped first; if they are still at the limit the creation fails with
/// status 503, else the new session is stored under its id and returned.
pub open spec fn create_outcome(
    m: Map<u128, Session>,
    max: usize,
    timeout: i64,
    preferences: Option<UserPreferences>,
    id: u128,
    now: i64,
    after: Map<u128, Session>,
    r: Result<Session, ArchiverError>,
) -> bool {
    let full = m.len() >= max;
    let kept = if full { live_sessions(m, now, timeout) } else { m };
    if full && kept.len() >= max {
        &&& r matches Err(e) && is_server_error(
            e,
            "Maximum number of sessions reached"@,
            503,
            Some(60_000u64),
        )
        &&& after == kept
    } else {
        &&& r matches Ok(s) && after == kept.insert(id, s) && s.id == id && s.created_at == now
            && s.last_active == now && s.charts@.len() == 0 && match preferences {
            Some(p) => s.user_preferences == p,
            None => is_default_preferences(s.user_preferences),
        }
    }
}

/// What reading session `id` at `now` does to the sessions `m`: an unknown
/// id fails with status 404; a session idle longer than `timeout` is dropped
/// and fails with status 401; else its last activity becomes `now` and it is
/// returned.
pub open spec fn get_outcome(
    m: Map<u128, Session>,
    timeout: i64,
    id: u128,
    now: i64,
    after: Map<u128, Session>,
    r: Result<Session, ArchiverError>,
) -> bool {
    if !m.dom().contains(id) {
        &&& r matches Err(e) && is_server_error(e, "Session not found"@, 404, None)
        &&& after == m
    } else if idle_too_long(m[id].last_active, now, timeout) {
        &&& r matches Err(e) && is_server_error(e, "Session expired"@, 401, None)
        &&& after == m.remove(id)
    } else {
        &&& r == Ok::<Session, ArchiverError>(Session { last_active: now, ..m[id] })
        &&& after == m.insert(id, Session { last_active: now, ..m[id] })
    }
}

/// What replacing the preferences of session `id` at `now` does to the
/// sessions `m`: an unknown id fails with status 404; else the session gets
/// the preferences and `now` as its last activity, and is returned.
pub open spec fn update_outcome(
    m: Map<u128, Session>,
    id: u128,
    preferences: UserPreferences,
    now: i64,
    after: Map<u128, Session>,
    r: Result<Session, ArchiverError>,
) -> bool {
    if !m.dom().contains(id) {
        &&& r matches Err(e) && is_server_error(e, "Session not found"@, 404, None)
        &&& after == m
    } else {
        let s = Session { user_preferences: preferences, last_active: now, ..m[id] };
        &&& r == Ok::<Session, ArchiverError>(s)
        &&& after == m.insert(id, s)
    }
}

impl SessionManager {
    /// Opens a session with id `id` at `now`, with `preferences` or the
    /// default ones; see `create_outcome`.
    pub fn create_session_at(&mut self, preferences: Option<UserPreferences>, id: u128, now: i64) -> (r: Result<Session, ArchiverError>)
        requires
            old(self).wf(),
        ensures
            final(self).wf(),
            create_outcome(
                old(self).sessions(),
                old(self).max_sessions(),
                old(self).timeout(),
                preferences,
                id,
                now,
                final(self).sessions(),
                r,
            ),
            final(self).timeout() == old(self).timeout(),
            final(self).max_sessions() == old(self).max_sessions(),
            final(self).cleanup_interval() == old(self).cleanup_interval(),
            final(self).counters() == old(self).counters(),
    {
        let count = session_map_len(&self.sessions);
        if count >= self.max_sessions {
            self.drop_idle_sessions(now, false);
            let remaining = session_map_len(&self.sessions);
            if remaining >= self.max_sessions {
                return Err(server_error("Maximum number of sessions reached", 503, Some(60_000)));
            }
        }
        let user_preferences = match preferences {
            Some(p) => p,
            None => UserPreferences::default(),
        };
        let session = Session {
            id,
            created_at: now,
            last_active: now,
            user_preferences,
            charts: Vec::new(),
        };
        session_map_insert(&mut self.sessions, id, session);
        match session_map_get(&self.sessions, id) {
            Some(stored) => Ok(stored),
            None => Err(server_error("Session not found", 404, None)),
        }
    }

    /// Opens a session with a fresh random id at the current instant; what
    /// holds is `create_outcome` for the id and instant drawn.
    pub fn create_session(&mut self, preferences: Option<UserPreferences>) -> (r: Result<Session, ArchiverError>)
        requires
            old(self).wf(),
        ensures
            final(self).wf(),
            exists|id: u128, now: i64|
                create_outcome(
                    old(self).sessions(),
                    old(self).max_sessions(),
                    old(self).timeout(),
                    preferences,
                    id,
                    now,
                    final(self).sessions(),
                    r,
                ),
            final(self).timeout() == old(self).timeout(),
            final(self).max_sessions() == old(self).max_sessions(),
            final(self).counters() == old(self).counters(),
    {
        let id = new_uuid();
        let now = now_millis();
        self.create_session_at(preferences, id, now)
    }

    /// Reads session `id` at `now`; see `get_outcome`.
    pub fn get_session_at(&mut self, id: u128, now: i64) -> (r: Result<Session, ArchiverError>)
        requires
            old(self).wf(),
        ensures
            final(self).wf(),
            get_outcome(old(self).sessions(), old(self).timeout(), id, now, final(self).sessions(), r),
            final(self).timeout() == old(self).timeout(),
            final(self).max_sessions() == old(self).max_sessions(),
            final(self).cleanup_interval() == old(self).cleanup_interval(),
            final(self).counters() == old(self).counters(),
    {
        match session_map_get(&self.sessions, id) {
            None => Err(server_error("Session not found", 404, None)),
            Some(mut session) => {
                if self.is_session_expired(session.last_active, now) {
                    session_map_remove(&mut self.sessions, id);
                    return Err(server_error("Session expired", 401, None));
                }
                session.last_active = now;
                session_map_insert(&mut self.sessions, id, session);
                match session_map_get(&self.sessions, id) {
                    Some(stored) => Ok(stored),
                    None => Err(server_error("Session not found", 404, None)),
                }
            },
        }
    }

    /// Reads session `id` at the current instant; what holds is `get_outcome`
    /// for the instant read.
    pub fn get_session(&mut self, id: u128) -> (r: Result<Session, ArchiverError>)
        requires
            old(self).wf(),
        ensures
            final(self).wf(),
            exists|now: i64|
                get_outcome(old(self).sessions(), old(self).timeout(), id, now, final(self).sessions(), r),
            final(self).timeout() == old(self).timeout(),
            final(self).max_sessions() == old(self).max_sessions(),
            final(self).counters() == old(self).counters(),
    {
        let now = now_millis();
        self.get_session_at(id, now)
    }

    /// Replaces the preferences of session `id` at `now`; see
    /// `update_outcome`.
    pub fn update_session_at(&mut self, id: u128, preferences: UserPreferences, now: i64) -> (r: Result<Session, ArchiverError>)
        requires
            old(self).wf(),
        ensures
            final(self).wf(),
            update_outcome(old(self).sessions(), id, preferences, now, final(self).sessions(), r),
            final(self).timeout() == old(self).timeout(),
            final(self).max_sessions() == old(self).max_sessions(),
            final(self).cleanup_interval() == old(self).cleanup_interval(),
            final(self).counters() == old(self).counters(),
    {
        match session_map_get(&self.sessions, id) {
            None => Err(server_error("Session not found", 404, None)),
            Some(mut session) => {
                session.user_preferences = preferences;
                session.last_active = now;
                session_map_insert(&mut self.sessions, id, session);
                match session_map_get(&self.sessions, id) {
                    Some(stored) => Ok(stored),
                    None => Err(server_error("Session not found", 404, None)),
                }
            },
        }
    }

    /// Replaces the preferences of session `id` at the current instant;
    /// what holds is `update_outcome` for the instant read.
    pub fn update_session(&mut self, id: u128, preferences: UserPreferences) -> (r: Result<Session, ArchiverError>)
        requires
            old(self).wf(),
        ensures
            final(self).wf(),
            exists|now: i64|
                update_outcome(old(self).sessions(), id, preferences, now, final(self).sessions(), r),
            final(self).timeout() == old(self).timeout(),
            final(self).max_sessions() == old(self).max_sessions(),
            final(self).counters() == old(self).counters(),
    {
        let now = now_millis();
        self.update_session_at(id, preferences, now)
    }

    /// Drops the sessions idle longer than the timeout at `now`.
    pub fn cleanup_expired_sessions_at(&mut self, now: i64) -> (r: Result<(), ArchiverError>)
        requires
            old(self).wf(),
        ensures
            final(self).wf(),
            r is Ok,
            final(self).sessions() == live_sessions(old(self).sessions(), now, old(self).timeout()),
            final(self).timeout() == old(self).timeout(),
            final(self).max_sessions() == old(self).max_sessions(),
            final(self).cleanup_interval() == old(self).cleanup_interval(),
            final(self).counters() == old(self).counters(),
    {
        self.drop_idle_sessions(now, false);
        Ok(())
    }

    /// Drops the sessions idle longer than the timeout at the current
    /// instant.
    pub fn cleanup_expired_sessions(&mut self) -> (r: Result<(), ArchiverError>)
        requires
            old(self).wf(),
        ensures
            final(self).wf(),
            r is Ok,
            exists|now: i64|
                final(self).sessions() == live_sessions(old(self).sessions(), now, old(self).timeout()),
            final(self).timeout() == old(self).timeout(),
            final(self).max_sessions() == old(self).max_sessions(),
            final(self).counters() == old(self).counters(),
    {
        let now = now_millis();
        self.cleanup_expired_sessions_at(now)
    }

    /// One round of the periodic sweep at `now`: drops the idle sessions and
    /// counts each as an expired connection.
    pub fn sweep_expired_sessions(&mut self, now: i64)
        requires
            old(self).wf(),
        ensures
            final(self).wf(),
            final(self).sessions() == live_sessions(old(self).sessions(), now, old(self).timeout()),
            final(self).counters() == (ApiMetrics {
                active_connections: connections_after_expiries(
                    old(self).counters().active_connections,
                    (old(self).sessions().dom().len() - final(self).sessions().dom().len()) as nat,
                ),
                ..old(self).counters()
            }),
            final(self).timeout() == old(self).timeout(),
            final(self).max_sessions() == old(self).max_sessions(),
            final(self).cleanup_interval() == old(self).cleanup_interval(),
    {
        self.drop_idle_sessions(now, true);
    }

    /// The number of open sessions.
    pub fn get_active_session_count(&self) -> (r: usize)
        ensures
            r == self.sessions().len(),
    {
        session_map_len(&self.sessions)
    }

    /// Closes session `id`; an unknown id fails with status 404.
    pub fn destroy_session(&mut self, id: u128) -> (r: Result<(), ArchiverError>)
        requires
            old(self).wf(),
        ensures
            final(self).wf(),
            final(self).sessions() == old(self).sessions().remove(id),
            old(self).sessions().dom().contains(id) ==> r is Ok,
            !old(self).sessions().dom().contains(id) ==> (r matches Err(e) && is_server_error(
                e,
                "Session not found"@,
                404,
                None,
            )),
            final(self).timeout() == old(self).timeout(),
            final(self).max_sessions() == old(self).max_sessions(),
            final(self).cleanup_interval() == old(self).cleanup_interval(),
            final(self).counters() == old(self).counters(),
    {
        if session_map_remove(&mut self.sessions, id) {
            Ok(())
        } else {
            Err(server_error("Session not found", 404, None))
        }
    }
}

// ---------------------------------------------------------------------------
// Laws
// ---------------------------------------------------------------------------

/// Opening a session never takes the number of sessions past the limit.
pub proof fn law_create_respects_limit(
    m: Map<u128, Session>,
    max: usize,
    timeout: i64,
    preferences: Option<UserPreferences>,
    id: u128,
    now: i64,
    after: Map<u128, Session>,
    r: Result<Session, ArchiverError>,
)
    requires
        m.dom().finite(),
        m.len() <= max,
        create_outcome(m, max, timeout, preferences, id, now, after, r),
    ensures
        after.len() <= max,
{
    let full = m.len() >= max;
    let kept = if full { live_sessions(m, now, timeout) } else { m };
    vstd::set_lib::lemma_len_subset(kept.dom(), m.dom());
    if !(full && kept.len() >= max) {
        vstd::set::axiom_set_insert_len(kept.dom(), id);
    }
}

/// A session just opened is found by its id, its activity refreshed, as
/// long as it is read within the timeout.
pub proof fn law_get_after_create(
    m: Map<u128, Session>,
    max: usize,
    timeout: i64,
    preferences: Option<UserPreferences>,
    id: u128,
    now: i64,
    after: Map<u128, Session>,
    s: Session,
    later: i64,
    after2: Map<u128, Session>,
    r2: Result<Session, ArchiverError>,
)
    requires
        create_outcome(m, max, timeout, preferences, id, now, after, Ok(s)),
        later - now <= timeout,
        get_outcome(after, timeout, s.id, later, after2, r2),
    ensures
        r2 == Ok::<Session, ArchiverError>(Session { last_active: later, ..s }),
        after2 == after.insert(id, Session { last_active: later, ..s }),
{
}

/// A closed session is not found any more.
pub proof fn law_get_after_destroy(
    m: Map<u128, Session>,
    timeout: i64,
    id: u128,
    now: i64,
    after: Map<u128, Session>,
    r: Result<Session, ArchiverError>,
)
    requires
        get_outcome(m.remove(id), timeout, id, now, after, r),
    ensures
        r matches Err(e) && is_server_error(e, "Session not found"@, 404, None),
        after == m.remove(id),
{
}

/// Sweeping at `now` keeps exactly the sessions not idle longer than the
/// timeout, unchanged.
pub proof fn law_sweep_keeps_live(m: Map<u128, Session>, now: i64, timeout: i64, id: u128)
    ensures
        live_sessions(m, now, timeout).dom().contains(id) <==> (m.dom().contains(id)
            && !idle_too_long(m[id].last_active, now, timeout)),
        live_sessions(m, now, timeout).dom().contains(id) ==> live_sessions(m, now, timeout)[id]
            == m[id],
{
}

} // verus!
