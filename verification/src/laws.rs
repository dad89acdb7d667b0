//! Properties that hold across the operations of the server: of the task
//! life cycle, of the agents' load, of the rate limits and of the stopper.

use vstd::prelude::*;
use crate::auth::{hex_digit, hex_lower};
use crate::bg_tasks::swept;
use crate::handlers::services::{count_active, count_finished, count_of_service};
use crate::ids::is_lower_hex;
use crate::json::{merged_output, output_text, ReportedOutput};
use crate::main_support::{before_query, database_dir, is_url_sep, lemma_query_start_unique, query_start, sqlite_path, sqlite_url};
use crate::paths::{is_absolute, spec_path_join, spec_path_parent};
use crate::text::has_char;
use crate::auth::starts_with;
use crate::models::service::{Service, ServiceView};
use crate::models::task::{max_retries, Task, TaskStatus, TaskView};
use crate::rate_limit::{bucket_key, bucket_of, in_window, limited, recent, window_nanos, RateLimitKind};
use crate::stop::{expects, next_stop, steps_left, StopEvent, StopPhase, StopStep};

verus! {

/// A finished task (completed, failed or cancelled) is final: no agent can
/// accept or finish it, no client can cancel it, and neither an offline
/// agent nor the deletion of its service changes it.
pub proof fn law_finished_tasks_are_final(
    t: TaskView,
    service_id: Seq<char>,
    status: TaskStatus,
    output: Option<Seq<char>>,
    error_message: Option<Seq<char>>,
    now: i64,
)
    requires
        t.status.terminal(),
    ensures
        t.accept(service_id, now) is None,
        t.finish(service_id, status, output, error_message, now) is None,
        t.client_cancel(now) is None,
        t.migrate(now) is None,
        t.force_cancel(now) is None,
{
}

/// No step of the life cycle changes who a task belongs to, which service
/// runs it, or its session.
pub proof fn law_task_identity_is_kept(
    t: TaskView,
    service_id: Seq<char>,
    status: TaskStatus,
    output: Option<Seq<char>>,
    error_message: Option<Seq<char>>,
    now: i64,
)
    ensures
        t.accept(service_id, now) matches Some(n) ==> n.id == t.id && n.user_id == t.user_id
            && n.service_id == t.service_id && n.session_id == t.session_id,
        t.finish(service_id, status, output, error_message, now) matches Some(n) ==> n.id == t.id
            && n.user_id == t.user_id && n.service_id == t.service_id && n.session_id == t.session_id,
        t.client_cancel(now) matches Some(n) ==> n.id == t.id && n.user_id == t.user_id
            && n.service_id == t.service_id && n.session_id == t.session_id,
        t.migrate(now) matches Some(n) ==> n.id == t.id && n.user_id == t.user_id && n.service_id
            == t.service_id && n.session_id == t.session_id,
        t.force_cancel(now) matches Some(n) ==> n.id == t.id && n.user_id == t.user_id
            && n.service_id == t.service_id && n.session_id == t.session_id,
{
}

/// A client can cancel exactly the pending and running tasks. A pending
/// task is cancelled at once; a running one is marked cancelling and
/// stays with its agent, which can still report its end.
pub proof fn law_client_cancel(t: TaskView, now: i64, later: i64, status: TaskStatus)
    ensures
        (t.client_cancel(now) is Some) == (t.status is Pending || t.status is Running),
        t.status is Pending ==> t.client_cancel(now).unwrap().status.terminal(),
        t.status is Running ==> {
            let c = t.client_cancel(now).unwrap();
            &&& c.status is Cancelling
            &&& !c.status.terminal()
            &&& c.finish(t.service_id, status, None, None, later) is Some
        },
{
}

/// When an agent goes offline, a running task goes back to the queue
/// with one more retry while it has been requeued fewer than three times,
/// and fails after that; a cancelling task is cancelled.
pub proof fn law_offline_agent_requeues_at_most_three_times(t: TaskView, now: i64)
    ensures
        t.status is Running && t.retry_count < max_retries() ==> (t.migrate(now) matches Some(n)
            && n.status is Pending && n.retry_count == t.retry_count + 1),
        t.status is Running && t.retry_count >= max_retries() ==> (t.migrate(now) matches Some(n)
            && n.status is Failed && n.status.terminal()),
        t.status is Cancelling ==> (t.migrate(now) matches Some(n) && n.status is Cancelled),
{
}

/// The retry count of a task never exceeds the limit: every step keeps
/// `retry_count <= 3`.
pub proof fn law_retry_count_bounded(
    t: TaskView,
    service_id: Seq<char>,
    status: TaskStatus,
    output: Option<Seq<char>>,
    error_message: Option<Seq<char>>,
    now: i64,
)
    requires
        0 <= t.retry_count <= max_retries(),
    ensures
        t.accept(service_id, now) matches Some(n) ==> n.retry_count <= max_retries(),
        t.finish(service_id, status, output, error_message, now) matches Some(n) ==> n.retry_count
            <= max_retries(),
        t.client_cancel(now) matches Some(n) ==> n.retry_count <= max_retries(),
        t.migrate(now) matches Some(n) ==> n.retry_count <= max_retries(),
        t.force_cancel(now) matches Some(n) ==> n.retry_count <= max_retries(),
{
}

/// An online agent with a free slot that accepts a task and then finishes
/// it is back where it was.
pub proof fn law_accept_then_finish_restores_service(s: ServiceView)
    requires
        s.agent_status is Online,
        0 <= s.agent_current_load < s.agent_capacity,
    ensures
        s.after_accept().after_finish() == s,
{
}

/// An agent's load never becomes negative: accepting, finishing, a
/// heartbeat, going offline and registering all keep it at zero or more.
pub proof fn law_load_never_negative(s: ServiceView, now: i64, key_hash: Seq<char>, capacity: int)
    requires
        s.agent_current_load >= 0,
    ensures
        s.after_accept().agent_current_load >= 0,
        s.after_finish().agent_current_load >= 0,
        s.after_heartbeat(now).agent_current_load >= 0,
        s.taken_offline().agent_current_load == 0,
        s.registered(key_hash, capacity, now).agent_current_load == 0,
{
}

/// A busy agent is never idle: accepting a task that fills the last slot
/// makes it busy, and finishing a task of a busy agent below capacity
/// makes it online again.
pub proof fn law_busy_tracks_capacity(s: ServiceView)
    ensures
        !(s.agent_status is Offline) && s.agent_current_load + 1 >= s.agent_capacity ==> s.after_accept().agent_status is Busy,
        s.agent_status is Busy && 0 < s.agent_current_load && s.agent_current_load - 1
            < s.agent_capacity ==> s.after_finish().agent_status is Online,
{
}

/// An agent that has just sent a heartbeat is online and is not taken
/// offline by a check whose threshold is not later than the heartbeat.
pub proof fn law_fresh_heartbeat_keeps_agent_online(s: ServiceView, now: i64, threshold: i64)
    requires
        threshold <= now,
    ensures
        !(s.after_heartbeat(now).agent_status is Offline),
        !s.after_heartbeat(now).stale(threshold),
{
}

/// The heartbeat check takes an agent offline once: a service it took
/// offline is left alone by the next check.
pub proof fn law_heartbeat_check_is_idempotent(before: Service, after: Service, again: Service, threshold: i64)
    requires
        swept(before, after, threshold),
        swept(after, again, threshold),
    ensures
        again@ == after@,
{
}

/// Forced deletion accounts for every task of the service: each one is
/// either cancelled (it was active) or retained (it was finished).
pub proof fn law_force_delete_accounts_for_every_task(ts: Seq<Task>, sid: Seq<char>)
    ensures
        count_active(ts, sid) + count_finished(ts, sid) == count_of_service(ts, sid),
    decreases ts.len(),
{
    if ts.len() > 0 {
        law_force_delete_accounts_for_every_task(ts.drop_last(), sid);
    }
}

/// Client and agent limits never share a bucket, whatever the key hashes.
pub proof fn law_rate_limit_kinds_are_separate(h1: Seq<char>, h2: Seq<char>)
    ensures
        bucket_key(RateLimitKind::Client, h1) != bucket_key(RateLimitKind::Agent, h2),
{
    reveal_strlit("client");
    reveal_strlit("agent");
    reveal_strlit(":");
    assert(bucket_key(RateLimitKind::Client, h1)[0] == 'c');
    assert(bucket_key(RateLimitKind::Agent, h2)[0] == 'a');
}

/// A request counts against its own bucket only: every other bucket is
/// left as it was.
pub proof fn law_rate_limit_buckets_are_independent(
    before: Map<Seq<char>, Seq<u64>>,
    kind: RateLimitKind,
    key_hash: Seq<char>,
    now: u64,
    res: Result<(), crate::error::AppError>,
    after: Map<Seq<char>, Seq<u64>>,
    other: Seq<char>,
)
    requires
        limited(before, kind, key_hash, now, res, after),
        other != bucket_key(kind, key_hash),
    ensures
        bucket_of(after, other) == bucket_of(before, other),
{
}

proof fn lemma_recent_len(b: Seq<u64>, now: u64)
    ensures
        recent(b, now).len() <= b.len(),
    decreases b.len(),
{
    if b.len() > 0 {
        lemma_recent_len(b.drop_last(), now);
    }
}

/// A bucket never holds more requests than its limit: a request is
/// recorded only below the limit, and old requests only leave.
pub proof fn law_rate_limit_bucket_bounded(
    before: Map<Seq<char>, Seq<u64>>,
    kind: RateLimitKind,
    key_hash: Seq<char>,
    now: u64,
    res: Result<(), crate::error::AppError>,
    after: Map<Seq<char>, Seq<u64>>,
)
    requires
        limited(before, kind, key_hash, now, res, after),
        bucket_of(before, bucket_key(kind, key_hash)).len() <= kind.max_requests(),
    ensures
        bucket_of(after, bucket_key(kind, key_hash)).len() <= kind.max_requests(),
        res is Ok <==> recent(bucket_of(before, bucket_key(kind, key_hash)), now).len() < kind.max_requests(),
{
    lemma_recent_len(bucket_of(before, bucket_key(kind, key_hash)), now);
}

/// Stopping a server always ends: every step brings the stopper closer to
/// its end, which it reaches after a bounded number of steps.
pub proof fn law_stopping_terminates(phase: StopPhase, event: StopEvent)
    requires
        expects(phase, event),
    ensures
        0 <= steps_left(next_stop(phase, event).phase) < steps_left(phase),
{
}

/// A stored key hash is 64 lowercase hex digits.
pub proof fn law_key_hash_is_hex(bytes: Seq<u8>)
    ensures
        hex_lower(bytes).len() == 2 * bytes.len(),
        forall|i: int| 0 <= i < hex_lower(bytes).len() ==> is_lower_hex(#[trigger] hex_lower(bytes)[i]),
    decreases bytes.len(),
{
    if bytes.len() > 0 {
        law_key_hash_is_hex(bytes.drop_first());
        let head = seq![hex_digit(bytes[0] as int / 16), hex_digit(bytes[0] as int % 16)];
        assert(hex_lower(bytes) == head + hex_lower(bytes.drop_first()));
        assert forall|i: int| 0 <= i < hex_lower(bytes).len() implies is_lower_hex(#[trigger] hex_lower(bytes)[i]) by {
            if i >= 2 {
                assert(hex_lower(bytes)[i] == hex_lower(bytes.drop_first())[i - 2]);
            }
        }
    }
}

/// The stopper ends well (and the pidfile goes) only right after a probe
/// found the process gone; it fails (and the pidfile stays) only right after
/// a probe found it running.
pub proof fn law_stop_done_only_when_gone(phase: StopPhase, event: StopEvent)
    requires
        expects(phase, event),
    ensures
        next_stop(phase, event).action is Done ==> event == StopEvent::Alive(false),
        next_stop(phase, event).action is Fail ==> event == StopEvent::Alive(true),
        next_stop(phase, event).phase is Finished <==> (next_stop(phase, event).action is Done
            || next_stop(phase, event).action is Fail),
{
}

/// Whether the caller can report `events`, one after another, from `phase`.
pub open spec fn stop_run_valid(phase: StopPhase, events: Seq<StopEvent>) -> bool
    decreases events.len(),
{
    events.len() == 0 || (expects(phase, events[0]) && stop_run_valid(
        next_stop(phase, events[0]).phase,
        events.drop_first(),
    ))
}

/// The step after the last of `events`, reported from `phase`.
pub open spec fn stop_run_last(phase: StopPhase, events: Seq<StopEvent>) -> StopStep
    decreases events.len(),
{
    if events.len() <= 1 {
        next_stop(phase, events[0])
    } else {
        stop_run_last(next_stop(phase, events[0]).phase, events.drop_first())
    }
}

/// Over a whole run of the stopper from `phase`: it takes no more steps
/// than `steps_left(phase)`; a run that ends well has just seen the process
/// gone, and a run that fails has just seen it running, so the pidfile is
/// removed only when the process is confirmed gone.
pub proof fn law_stop_run(phase: StopPhase, events: Seq<StopEvent>)
    requires
        events.len() > 0,
        stop_run_valid(phase, events),
    ensures
        events.len() <= steps_left(phase),
        stop_run_last(phase, events).action is Done ==> events.last() == StopEvent::Alive(false),
        stop_run_last(phase, events).action is Fail ==> events.last() == StopEvent::Alive(true),
    decreases events.len(),
{
    law_stopping_terminates(phase, events[0]);
    if events.len() == 1 {
        law_stop_done_only_when_gone(phase, events[0]);
    } else {
        let rest = events.drop_first();
        law_stop_run(next_stop(phase, events[0]).phase, rest);
        assert(rest.last() == events.last());
    }
}

/// The outcome of one request of `kind` with `key_hash` at `now` on the
/// buckets `before`, and the buckets after it.
pub open spec fn rate_step(
    before: Map<Seq<char>, Seq<u64>>,
    kind: RateLimitKind,
    key_hash: Seq<char>,
    now: u64,
) -> (Result<(), crate::error::AppError>, Map<Seq<char>, Seq<u64>>) {
    let key = bucket_key(kind, key_hash);
    let kept = recent(bucket_of(before, key), now);
    if kept.len() >= kind.max_requests() {
        (Err(crate::error::AppError::RateLimited), before.insert(key, kept))
    } else {
        (Ok(()), before.insert(key, kept.push(now)))
    }
}

/// A call of the limiter (`RateLimiter::check_at`) has exactly the outcome
/// of `rate_step`: its contract leaves nothing open.
pub proof fn law_rate_check_is_a_step(
    before: Map<Seq<char>, Seq<u64>>,
    kind: RateLimitKind,
    key_hash: Seq<char>,
    now: u64,
    res: Result<(), crate::error::AppError>,
    after: Map<Seq<char>, Seq<u64>>,
)
    ensures
        limited(before, kind, key_hash, now, res, after) <==> (res, after) == rate_step(before, kind, key_hash, now),
{
}

/// The buckets after the calls `calls` (kind, key hash, time), one after
/// another, on a new limiter.
pub open spec fn rate_run(calls: Seq<(RateLimitKind, Seq<char>, u64)>) -> Map<Seq<char>, Seq<u64>>
    decreases calls.len(),
{
    if calls.len() == 0 {
        Map::empty()
    } else {
        rate_step(rate_run(calls.drop_last()), calls.last().0, calls.last().1, calls.last().2).1
    }
}

/// The outcome of call `i` of a run.
pub open spec fn rate_run_result(calls: Seq<(RateLimitKind, Seq<char>, u64)>, i: int) -> Result<(), crate::error::AppError> {
    rate_step(rate_run(calls.take(i)), calls[i].0, calls[i].1, calls[i].2).0
}

/// How many of `calls` have this kind and key hash.
pub open spec fn rate_count(calls: Seq<(RateLimitKind, Seq<char>, u64)>, kind: RateLimitKind, key_hash: Seq<char>) -> nat
    decreases calls.len(),
{
    if calls.len() == 0 {
        0
    } else {
        rate_count(calls.drop_last(), kind, key_hash) + if calls.last().0 == kind && calls.last().1 == key_hash {
            1nat
        } else {
            0nat
        }
    }
}

/// Whether all calls happen within the window that opens at `start`.
pub open spec fn within_window(calls: Seq<(RateLimitKind, Seq<char>, u64)>, start: u64) -> bool {
    forall|j: int| 0 <= j < calls.len() ==> start <= #[trigger] calls[j].2 && calls[j].2 - start < window_nanos()
}

proof fn lemma_bucket_key_injective(k1: RateLimitKind, h1: Seq<char>, k2: RateLimitKind, h2: Seq<char>)
    requires
        bucket_key(k1, h1) == bucket_key(k2, h2),
    ensures
        k1 == k2 && h1 == h2,
{
    reveal_strlit("client");
    reveal_strlit("agent");
    reveal_strlit(":");
    if k1 != k2 {
        if k1 == RateLimitKind::Client {
            law_rate_limit_kinds_are_separate(h1, h2);
        } else {
            law_rate_limit_kinds_are_separate(h2, h1);
        }
    } else {
        let n: int = k1.name().len() + 1int;
        assert(h1 =~= bucket_key(k1, h1).skip(n));
        assert(h2 =~= bucket_key(k2, h2).skip(n));
    }
}

proof fn lemma_recent_keeps_all(b: Seq<u64>, now: u64)
    requires
        forall|j: int| 0 <= j < b.len() ==> in_window(#[trigger] b[j], now),
    ensures
        recent(b, now) == b,
    decreases b.len(),
{
    if b.len() > 0 {
        lemma_recent_keeps_all(b.drop_last(), now);
        assert(in_window(b[b.len() - 1], now));
        assert(b.drop_last().push(b.last()) =~= b);
    }
}

proof fn lemma_rate_run_bucket(
    calls: Seq<(RateLimitKind, Seq<char>, u64)>,
    start: u64,
    kind: RateLimitKind,
    key_hash: Seq<char>,
)
    requires
        within_window(calls, start),
    ensures
        bucket_of(rate_run(calls), bucket_key(kind, key_hash)).len() == if rate_count(calls, kind, key_hash)
            < kind.max_requests() {
            rate_count(calls, kind, key_hash)
        } else {
            kind.max_requests()
        },
        forall|j: int|
            0 <= j < bucket_of(rate_run(calls), bucket_key(kind, key_hash)).len() ==> start <= #[trigger] bucket_of(
                rate_run(calls),
                bucket_key(kind, key_hash),
            )[j] && bucket_of(rate_run(calls), bucket_key(kind, key_hash))[j] - start < window_nanos(),
    decreases calls.len(),
{
    if calls.len() > 0 {
        let prefix = calls.drop_last();
        assert forall|j: int| 0 <= j < prefix.len() implies start <= #[trigger] prefix[j].2 && prefix[j].2 - start
            < window_nanos() by {
            assert(prefix[j] == calls[j]);
        }
        lemma_rate_run_bucket(prefix, start, kind, key_hash);
        let c = calls.last();
        assert(c == calls[calls.len() - 1]);
        let before = rate_run(prefix);
        let key = bucket_key(kind, key_hash);
        let ck = bucket_key(c.0, c.1);
        if ck == key {
            lemma_bucket_key_injective(c.0, c.1, kind, key_hash);
            let b = bucket_of(before, key);
            assert forall|j: int| 0 <= j < b.len() implies in_window(#[trigger] b[j], c.2) by {
                assert(start <= b[j] && b[j] - start < window_nanos());
            }
            lemma_recent_keeps_all(b, c.2);
        } else {
            if c.0 == kind && c.1 == key_hash {
                assert(false);
            }
        }
    }
}

/// Over a run of calls on a new limiter within one window: a call passes
/// exactly when fewer than the limit of earlier calls had the same kind and
/// key hash, so the first `max_requests` calls of each kind and key pass and
/// every later one is refused with `RateLimited`; other keys and the other
/// kind are counted apart.
pub proof fn law_rate_limit_run(calls: Seq<(RateLimitKind, Seq<char>, u64)>, start: u64, i: int)
    requires
        0 <= i < calls.len(),
        within_window(calls, start),
    ensures
        rate_run_result(calls, i) is Ok <==> rate_count(calls.take(i), calls[i].0, calls[i].1)
            < calls[i].0.max_requests(),
        rate_run_result(calls, i) is Err ==> rate_run_result(calls, i) == Err::<(), crate::error::AppError>(
            crate::error::AppError::RateLimited,
        ),
{
    let prefix = calls.take(i);
    assert forall|j: int| 0 <= j < prefix.len() implies start <= #[trigger] prefix[j].2 && prefix[j].2 - start
        < window_nanos() by {
        assert(prefix[j] == calls[j]);
    }
    let c = calls[i];
    lemma_rate_run_bucket(prefix, start, c.0, c.1);
    let b = bucket_of(rate_run(prefix), bucket_key(c.0, c.1));
    assert(start <= calls[i].2 && calls[i].2 - start < window_nanos());
    assert forall|j: int| 0 <= j < b.len() implies in_window(#[trigger] b[j], c.2) by {
        assert(start <= b[j] && b[j] - start < window_nanos());
    }
    lemma_recent_keeps_all(b, c.2);
}

/// Reading back the database URL written for a data directory `d` (one
/// whose path has no '?' or '#') gives the database file in `d` again, and
/// the directory of the database is the parent of that file.
pub proof fn law_data_dir_round_trip(d: Seq<char>)
    requires
        !has_char(d, '?'),
        !has_char(d, '#'),
    ensures
        sqlite_path(sqlite_url(spec_path_join(d, "app.db"@))) == Some(spec_path_join(d, "app.db"@)),
        database_dir(sqlite_url(spec_path_join(d, "app.db"@))) == spec_path_parent(spec_path_join(d, "app.db"@)),
{
    reveal_strlit("app.db");
    reveal_strlit("sqlite:");
    reveal_strlit("sqlite:///");
    reveal_strlit("///");
    let db = spec_path_join(d, "app.db"@);
    assert(!is_absolute("app.db"@));
    assert(forall|i: int| 0 <= i < db.len() ==> !is_url_sep(#[trigger] db[i])) by {
        assert forall|i: int| 0 <= i < db.len() implies !is_url_sep(#[trigger] db[i]) by {
            if i < d.len() {
                assert(db[i] == d[i]);
            }
        }
    }
    assert(query_start(db, db.len() as int));
    let n = choose|n: int| query_start(db, n);
    lemma_query_start_unique(db, n, db.len() as int);
    assert(before_query(db) =~= db);
    let url = sqlite_url(db);
    assert(url.take(7) =~= "sqlite:"@);
    assert(starts_with(url, "sqlite:"@));
    if is_absolute(db) {
        assert(url.skip(7) =~= "///"@ + db);
        assert(url.skip(7).take(3) =~= "///"@);
        assert(starts_with(url.skip(7), "///"@));
        assert(url.skip(7).skip(3) =~= db);
        assert(sqlite_path(url) == Some(before_query(db)));
    } else {
        assert(url.skip(7) =~= db);
        if starts_with(db, "///"@) {
            assert(db[0] == "///"@[0]);
        }
        assert(sqlite_path(url) == Some(before_query(db)));
    }
}

/// An agent can accept exactly a pending task of its own service. Accepting
/// changes nothing but the status, which becomes running, and the assignment
/// and start times, which become the time of acceptance: in particular the
/// retry count, the input and the creation time stay as they were.
pub proof fn law_accept_changes_only_status_and_times(t: TaskView, service_id: Seq<char>, now: i64)
    ensures
        (t.accept(service_id, now) is Some) == (t.status is Pending && t.service_id == service_id),
        t.accept(service_id, now) matches Some(n) ==> {
            &&& n.status is Running
            &&& n.assigned_at == Some(now)
            &&& n.started_at == Some(now)
            &&& n.retry_count == t.retry_count
            &&& n.id == t.id
            &&& n.user_id == t.user_id
            &&& n.service_id == t.service_id
            &&& n.input == t.input
            &&& n.output == t.output
            &&& n.error_message == t.error_message
            &&& n.session_id == t.session_id
            &&& n.output_format == t.output_format
            &&& n.created_at == t.created_at
            &&& n.completed_at == t.completed_at
        },
{
}

/// Over the life cycle a task's retry count grows by exactly one per
/// requeue: a pending task of the service that is accepted and then loses
/// its agent is back in the queue with one more retry while it has been
/// requeued fewer than three times, and fails otherwise.
pub proof fn law_retry_count_grows_one_per_requeue(t: TaskView, service_id: Seq<char>, accepted_at: i64, offline_at: i64)
    requires
        t.status is Pending,
        t.service_id == service_id,
    ensures
        t.accept(service_id, accepted_at) matches Some(r) && r.migrate(offline_at) matches Some(n) && (
        if t.retry_count < max_retries() {
            n.status is Pending && n.retry_count == t.retry_count + 1
        } else {
            n.status is Failed && n.retry_count == t.retry_count
        }),
{
}

/// A heartbeat at `now` records `now` as the last heartbeat and only
/// revives an offline agent: an agent in any other state keeps it (a busy
/// agent stays busy), and its load, capacity and everything else are kept.
pub proof fn law_heartbeat_only_revives_offline_agents(s: ServiceView, now: i64)
    ensures
        s.after_heartbeat(now).agent_last_heartbeat == Some(now),
        s.agent_status is Offline ==> s.after_heartbeat(now).agent_status is Online,
        !(s.agent_status is Offline) ==> s.after_heartbeat(now).agent_status == s.agent_status,
        s.agent_status is Busy ==> s.after_heartbeat(now).agent_status is Busy,
        s.after_heartbeat(now).agent_current_load == s.agent_current_load,
        s.after_heartbeat(now).agent_capacity == s.agent_capacity,
        s.after_heartbeat(now).id == s.id,
        s.after_heartbeat(now).agent_api_key == s.agent_api_key,
        s.after_heartbeat(now).registration_status == s.registration_status,
        s.after_heartbeat(now).is_public == s.is_public,
{
}

/// Without result files the stored output is exactly what the agent
/// reported, object or not (a JSON string or array is kept as its text);
/// with result files only an object output changes, and a missing output
/// becomes an object. No output and no files store nothing.
pub proof fn law_output_kept_without_files(o: ReportedOutput, text: String, ids: Seq<Seq<char>>)
    ensures
        merged_output(Some(o), Seq::empty()) == Some(output_text(o)),
        merged_output(Some(ReportedOutput::Other(text)), Seq::empty()) == Some(text@),
        merged_output(Some(ReportedOutput::Other(text)), ids) == Some(text@),
        merged_output(None, Seq::empty()) is None,
        ids.len() > 0 ==> merged_output(None, ids) is Some,
{
}

proof fn lemma_recent_drops_all(b: Seq<u64>, now: u64)
    requires
        forall|j: int| 0 <= j < b.len() ==> !in_window(#[trigger] b[j], now),
    ensures
        recent(b, now).len() == 0,
    decreases b.len(),
{
    if b.len() > 0 {
        assert(!in_window(b[b.len() - 1], now));
        lemma_recent_drops_all(b.drop_last(), now);
    }
}

/// Requests age out: a request made a full window (one minute) after every
/// request its bucket holds is judged on an empty bucket, so it passes and
/// the bucket then holds it alone, however many requests came before.
pub proof fn law_rate_limit_requests_age_out(
    before: Map<Seq<char>, Seq<u64>>,
    kind: RateLimitKind,
    key_hash: Seq<char>,
    now: u64,
    res: Result<(), crate::error::AppError>,
    after: Map<Seq<char>, Seq<u64>>,
)
    requires
        limited(before, kind, key_hash, now, res, after),
        forall|j: int|
            0 <= j < bucket_of(before, bucket_key(kind, key_hash)).len() ==> #[trigger] bucket_of(
                before,
                bucket_key(kind, key_hash),
            )[j] <= now && now - bucket_of(before, bucket_key(kind, key_hash))[j] >= window_nanos(),
    ensures
        res is Ok,
        bucket_of(after, bucket_key(kind, key_hash)) == seq![now],
{
    let b = bucket_of(before, bucket_key(kind, key_hash));
    assert forall|j: int| 0 <= j < b.len() implies !in_window(#[trigger] b[j], now) by {
        assert(b[j] <= now && now - b[j] >= window_nanos());
    }
    lemma_recent_drops_all(b, now);
    assert(recent(b, now) =~= Seq::<u64>::empty());
    assert(recent(b, now).push(now) =~= seq![now]);
}

} // verus!
