//! Periodic work: agents whose heartbeat stopped are taken offline and
//! their tasks requeued, cancelled or failed; old finished tasks lose their
//! files.

use vstd::prelude::*;
use crate::models::service::{AgentStatus, Service};
use crate::models::task::{Task, TaskStatus, TaskView};
use crate::text::str_eq;

verus! {

/// Milliseconds in a second and in a day.
pub open spec fn ms_per_sec() -> int {
    1000
}

pub open spec fn ms_per_day() -> int {
    86400000
}

/// The heartbeat threshold at time `now`: agents silent since before it are
/// offline.
pub fn heartbeat_threshold(now: i64, timeout_secs: u64) -> (res: i64)
    requires
        timeout_secs * ms_per_sec() <= now - i64::MIN,
    ensures
        res == now - timeout_secs * ms_per_sec(),
{
    let span = (timeout_secs as i128) * 1000;
    ((now as i128) - span) as i64
}

/// The number of services in `ss` that a check with `threshold` takes
/// offline.
pub open spec fn count_stale(ss: Seq<Service>, threshold: i64) -> nat
    decreases ss.len(),
{
    if ss.len() == 0 {
        0
    } else {
        count_stale(ss.drop_last(), threshold) + (if ss.last()@.stale(threshold) {
            1nat
        } else {
            0nat
        })
    }
}

/// What a heartbeat check does to one service.
pub open spec fn swept(before: Service, after: Service, threshold: i64) -> bool {
    if before@.stale(threshold) {
        after@ == before@.taken_offline()
    } else {
        after@ == before@
    }
}

/// The heartbeat check: every service that is not offline and whose last
/// heartbeat is older than `threshold` goes offline with no load. Returns
/// how many did.
pub fn sweep_offline_services(services: &mut Vec<Service>, threshold: i64) -> (res: u64)
    ensures
        final(services)@.len() == old(services)@.len(),
        forall|i: int| 0 <= i < old(services)@.len() ==> swept(old(services)@[i], #[trigger] final(services)@[i], threshold),
        res == count_stale(old(services)@, threshold),
{
    let ghost before = services@;
    let mut count: u64 = 0;
    let mut i: usize = 0;
    while i < services.len()
        invariant
            i <= services@.len(),
            services@.len() == before.len(),
            count == count_stale(before.take(i as int), threshold),
            count <= i,
            forall|k: int| 0 <= k < i ==> swept(before[k], #[trigger] services@[k], threshold),
            forall|k: int| i <= k < services@.len() ==> services@[k] == before[k],
        decreases services@.len() - i,
    {
        assert(before.take(i + 1).drop_last() =~= before.take(i as int));
        assert(before.take(i + 1).last() == before[i as int]);
        let offline = match services[i].agent_status {
            AgentStatus::Offline => true,
            _ => false,
        };
        let old_beat = match services[i].agent_last_heartbeat {
            Some(h) => h < threshold,
            None => false,
        };
        if !offline && old_beat {
            let mut s = services[i].copy();
            s.agent_status = AgentStatus::Offline;
            s.agent_current_load = 0;
            services.set(i, s);
            count = count + 1;
        }
        i = i + 1;
    }
    assert(before.take(i as int) =~= before);
    count
}

/// Whether service `sid` is among `ss`, offline since before `threshold`.
pub open spec fn offline_before(ss: Seq<Service>, sid: Seq<char>, threshold: i64) -> bool {
    exists|j: int|
        0 <= j < ss.len() && (#[trigger] ss[j]).id@ == sid && ss[j].agent_status is Offline
            && (ss[j].agent_last_heartbeat matches Some(h) && h < threshold)
}

/// Whether task `t` is moved off its agent: it is running or cancelling,
/// and its service is offline since before `threshold`.
pub open spec fn migrates(t: Task, ss: Seq<Service>, threshold: i64) -> bool {
    (t.status is Running || t.status is Cancelling) && offline_before(ss, t.service_id@, threshold)
}

/// Whether a moved task counts as migrated: it was requeued or its
/// cancellation completed (a task that fails for want of retries does not).
pub open spec fn counted(t: Task, ss: Seq<Service>, threshold: i64) -> bool {
    migrates(t, ss, threshold) && (t@.migrate(0) matches Some(n) && !(n.status is Failed))
}

/// The number of tasks of `ts` that count as migrated.
pub open spec fn count_migrated(ts: Seq<Task>, ss: Seq<Service>, threshold: i64) -> nat
    decreases ts.len(),
{
    if ts.len() == 0 {
        0
    } else {
        count_migrated(ts.drop_last(), ss, threshold) + (if counted(ts.last(), ss, threshold) {
            1nat
        } else {
            0nat
        })
    }
}

/// What moving tasks off offline agents at time `now` does to one task.
pub open spec fn migrated(before: Task, after: Task, ss: Seq<Service>, threshold: i64, now: i64) -> bool {
    if migrates(before, ss, threshold) {
        after@ == before@.migrate(now).unwrap()
    } else {
        after@ == before@
    }
}

fn is_offline_before(services: &Vec<Service>, sid: &str, threshold: i64) -> (res: bool)
    ensures
        res == offline_before(services@, sid@, threshold),
{
    let mut j: usize = 0;
    while j < services.len()
        invariant
            j <= services@.len(),
            forall|k: int|
                0 <= k < j ==> !((#[trigger] services@[k]).id@ == sid@ && services@[k].agent_status is Offline
                    && (services@[k].agent_last_heartbeat matches Some(h) && h < threshold)),
        decreases services@.len() - j,
    {
        let s = &services[j];
        let offline = match s.agent_status {
            AgentStatus::Offline => true,
            _ => false,
        };
        let old_beat = match s.agent_last_heartbeat {
            Some(h) => h < threshold,
            None => false,
        };
        if offline && old_beat && str_eq(s.id.as_str(), sid) {
            return true;
        }
        j = j + 1;
    }
    false
}

/// Moves the tasks of agents that went offline (their service is offline
/// since before `threshold`) at time `now`: a cancelling task is cancelled,
/// a running task goes back to the queue, or fails once it was requeued
/// three times (`TaskView::migrate`). Returns how many tasks were requeued
/// or cancelled.
pub fn migrate_tasks_from_offline_services(
    tasks: &mut Vec<Task>,
    services: &Vec<Service>,
    threshold: i64,
    now: i64,
) -> (res: u64)
    ensures
        final(tasks)@.len() == old(tasks)@.len(),
        forall|i: int| 0 <= i < old(tasks)@.len() ==> migrated(old(tasks)@[i], #[trigger] final(tasks)@[i], services@, threshold, now),
        res == count_migrated(old(tasks)@, services@, threshold),
{
    let ghost before = tasks@;
    let mut count: u64 = 0;
    let mut i: usize = 0;
    while i < tasks.len()
        invariant
            i <= tasks@.len(),
            tasks@.len() == before.len(),
            count == count_migrated(before.take(i as int), services@, threshold),
            count <= i,
            forall|k: int| 0 <= k < i ==> migrated(before[k], #[trigger] tasks@[k], services@, threshold, now),
            forall|k: int| i <= k < tasks@.len() ==> tasks@[k] == before[k],
        decreases tasks@.len() - i,
    {
        assert(before.take(i + 1).drop_last() =~= before.take(i as int));
        assert(before.take(i + 1).last() == before[i as int]);
        let status = tasks[i].status;
        let active = match status {
            TaskStatus::Running | TaskStatus::Cancelling => true,
            _ => false,
        };
        if active && is_offline_before(services, tasks[i].service_id.as_str(), threshold) {
            let mut t = tasks[i].copy();
            match status {
                TaskStatus::Cancelling => {
                    t.status = TaskStatus::Cancelled;
                    t.error_message = Some(String::from_str("Agent 离线，任务取消完成"));
                    t.completed_at = Some(now);
                    count = count + 1;
                },
                _ => {
                    if t.retry_count >= 3 {
                        t.status = TaskStatus::Failed;
                        t.error_message = Some(String::from_str("任务重试次数超过上限，无可用服务"));
                        t.completed_at = Some(now);
                    } else {
                        t.status = TaskStatus::Pending;
                        t.assigned_at = None;
                        t.started_at = None;
                        t.retry_count = t.retry_count + 1;
                        count = count + 1;
                    }
                },
            }
            tasks.set(i, t);
        }
        i = i + 1;
    }
    assert(before.take(i as int) =~= before);
    count
}

/// The cleanup cutoff at time `now`: finished tasks completed before it
/// lose their files. No cleanup (`None`) when `retention_days` is not
/// positive.
pub fn cleanup_cutoff(now: i64, retention_days: i64) -> (res: Option<i64>)
    requires
        retention_days > 0 ==> retention_days * ms_per_day() <= now - i64::MIN,
    ensures
        retention_days <= 0 ==> res is None,
        retention_days > 0 ==> res == Some((now - retention_days * ms_per_day()) as i64),
{
    if retention_days <= 0 {
        return None;
    }
    let span = (retention_days as i128) * 86400000;
    Some(((now as i128) - span) as i64)
}

/// Whether a task's files are due for cleanup: it is finished and was
/// completed before `cutoff`.
pub open spec fn expired(t: Task, cutoff: i64) -> bool {
    t.status.terminal() && (t.completed_at matches Some(c) && c < cutoff)
}

/// The ids of the tasks whose files are due for cleanup, in order.
pub open spec fn expired_ids(ts: Seq<Task>, cutoff: i64) -> Seq<Seq<char>>
    decreases ts.len(),
{
    if ts.len() == 0 {
        seq![]
    } else if expired(ts.last(), cutoff) {
        expired_ids(ts.drop_last(), cutoff).push(ts.last().id@)
    } else {
        expired_ids(ts.drop_last(), cutoff)
    }
}

/// The tasks whose files the cleanup removes (their records stay).
pub fn expired_task_ids(tasks: &Vec<Task>, cutoff: i64) -> (res: Vec<String>)
    ensures
        crate::json::texts(res@) == expired_ids(tasks@, cutoff),
{
    let mut res: Vec<String> = Vec::new();
    let mut i: usize = 0;
    while i < tasks.len()
        invariant
            i <= tasks@.len(),
            crate::json::texts(res@) == expired_ids(tasks@.take(i as int), cutoff),
        decreases tasks@.len() - i,
    {
        assert(tasks@.take(i + 1).drop_last() =~= tasks@.take(i as int));
        assert(tasks@.take(i + 1).last() == tasks@[i as int]);
        let t = &tasks[i];
        let done = t.status.is_terminal();
        let before_cutoff = match t.completed_at {
            Some(c) => c < cutoff,
            None => false,
        };
        if done && before_cutoff {
            res.push(t.id.clone());
        }
        assert(crate::json::texts(res@) =~= expired_ids(tasks@.take(i + 1), cutoff));
        i = i + 1;
    }
    assert(tasks@.take(i as int) =~= tasks@);
    res
}

} // verus!
