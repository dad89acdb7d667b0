//! Service administration: listing, creation with a registration token,
//! details, and deletion with or without the service's active tasks.

use vstd::prelude::*;
use crate::clock::utc_now_millis;
use crate::error::{is_bad_request, AppError};
use crate::ids::{is_hyphenated_uuid, is_simple_uuid, new_v4_simple_string, new_v4_string};
use crate::models::service::{
    AgentStatus, CreateServiceRequest, CreateServiceResponse, DeleteServiceResponse, Service,
    ServiceListItem, ServiceResponse,
};
use crate::models::task::{Task, TaskStatus};
use crate::text::{concat, decimal, str_eq, u64_to_string};
use crate::auth::starts_with;

verus! {

/// The line of service `s` in the administrator's list: every service is
/// usable.
pub open spec fn admin_lists(item: ServiceListItem, s: Service) -> bool {
    &&& item.id == s.id
    &&& item.name == s.name
    &&& item.description == s.description
    &&& item.agent_status == s.agent_status
    &&& item.registration_status == s.registration_status
    &&& item.agent_last_heartbeat == s.agent_last_heartbeat
    &&& item.access_type@ == (if s.is_public {
        "public"@
    } else {
        "restricted"@
    })
    &&& item.has_permission
}

/// GET /services (admin): every service, in the order given.
pub fn list_services(services: &Vec<Service>) -> (res: Vec<ServiceListItem>)
    ensures
        res@.len() == services@.len(),
        forall|i: int| 0 <= i < services@.len() ==> admin_lists(#[trigger] res@[i], services@[i]),
{
    let mut res: Vec<ServiceListItem> = Vec::new();
    let mut i: usize = 0;
    while i < services.len()
        invariant
            i <= services@.len(),
            res@.len() == i,
            forall|k: int| 0 <= k < i ==> admin_lists(#[trigger] res@[k], services@[k]),
        decreases services@.len() - i,
    {
        let s = &services[i];
        let access_type = if s.is_public {
            String::from_str("public")
        } else {
            String::from_str("restricted")
        };
        res.push(
            ServiceListItem {
                id: s.id.clone(),
                name: s.name.clone(),
                description: s.description.clone(),
                agent_status: s.agent_status,
                registration_status: s.registration_status.clone(),
                agent_last_heartbeat: s.agent_last_heartbeat,
                access_type,
                has_permission: true,
            },
        );
        i = i + 1;
    }
    res
}

/// The id of a service to create: the requested one, or a random UUID.
pub fn new_service_id(requested: Option<String>) -> (res: String)
    ensures
        requested matches Some(r) ==> res == r,
        requested is None ==> is_hyphenated_uuid(res@, '4'),
{
    match requested {
        Some(r) => r,
        None => new_v4_string(),
    }
}

/// The row of a service just created with the id `id` and the token
/// `token`: no agent yet (offline, capacity 1, no load), registration
/// pending.
pub open spec fn created_row(s: Service, id: Seq<char>, req: CreateServiceRequest, token: Seq<char>) -> bool {
    &&& s.id@ == id
    &&& s.name == req.name
    &&& s.description == req.description
    &&& s.usage == req.usage
    &&& s.agent_api_key is None
    &&& s.agent_status == AgentStatus::Offline
    &&& s.agent_capacity == 1
    &&& s.agent_current_load == 0
    &&& s.agent_last_heartbeat is None
    &&& s.registration_token matches Some(t) && t@ == token
    &&& s.registration_status@ == "pending"@
    &&& s.is_public == req.is_public
}

/// A registration token: "rt_" and 32 random hex digits.
pub open spec fn is_registration_token(t: Seq<char>) -> bool {
    t.len() == 35 && starts_with(t, "rt_"@) && is_simple_uuid(t.skip(3), '4')
}

/// The message for an id that is taken.
pub open spec fn service_exists_message(id: Seq<char>) -> Seq<char> {
    "服务 '"@ + id + "' 已存在"@
}

/// POST /services (admin), for the id chosen by `new_service_id`; `exists`
/// tells whether a service has that id. The answer carries the
/// registration token, which the administrator hands to the agent.
pub fn create_service(id: String, exists: bool, req: CreateServiceRequest) -> (res: Result<
    (Service, CreateServiceResponse),
    AppError,
>)
    ensures
        exists ==> is_bad_request(res, service_exists_message(id@)),
        !exists ==> (res matches Ok((s, r)) && {
            &&& s.registration_token matches Some(t) && is_registration_token(t@)
            &&& created_row(s, id@, req, s.registration_token.unwrap()@)
            &&& r.id == s.id
            &&& r.name == s.name
            &&& r.description == s.description
            &&& r.usage == s.usage
            &&& r.registration_status@ == "pending"@
            &&& r.registration_token@ == s.registration_token.unwrap()@
            &&& r.created_at == s.created_at
        }),
{
    if exists {
        let mut m = String::from_str("服务 '");
        m.append(id.as_str());
        m.append("' 已存在");
        return Err(AppError::BadRequest(m));
    }
    let tail = new_v4_simple_string();
    let token = concat("rt_", tail.as_str());
    proof {
        reveal_strlit("rt_");
        assert(token@.take(3) =~= "rt_"@);
        assert(token@.skip(3) =~= tail@);
    }
    let now = utc_now_millis();
    let s = Service {
        id: id.clone(),
        name: req.name.clone(),
        description: req.description.clone(),
        usage: req.usage.clone(),
        agent_api_key: None,
        agent_status: AgentStatus::Offline,
        agent_capacity: 1,
        agent_current_load: 0,
        agent_last_heartbeat: None,
        registration_token: Some(token.clone()),
        registration_status: String::from_str("pending"),
        is_public: req.is_public,
        created_at: now,
    };
    let r = CreateServiceResponse {
        id,
        name: req.name,
        description: req.description,
        usage: req.usage,
        registration_status: String::from_str("pending"),
        registration_token: token,
        created_at: now,
    };
    Ok((s, r))
}

/// GET /services/{id} (admin). `service` is the row, if it exists.
pub fn get_service(service: Option<Service>) -> (res: Result<ServiceResponse, AppError>)
    ensures
        service is None ==> res == Err::<ServiceResponse, AppError>(AppError::NotFound),
        service matches Some(s) ==> (res matches Ok(r) && r.id == s.id && r.name == s.name
            && r.description == s.description && r.usage == s.usage && r.agent_status
            == s.agent_status && r.registration_status == s.registration_status && r.agent_capacity
            == s.agent_capacity && r.agent_current_load == s.agent_current_load
            && r.agent_last_heartbeat == s.agent_last_heartbeat && r.is_public == s.is_public
            && r.created_at == s.created_at),
{
    match service {
        None => Err(AppError::NotFound),
        Some(s) => Ok(ServiceResponse::from_service(s)),
    }
}

/// Query of DELETE /services/{id}: whether to delete a service that still
/// has tasks.
#[derive(Debug, Clone, Copy)]
pub struct DeleteServiceQuery {
    pub force: bool,
}

/// Whether `t` is a task of service `sid`.
pub open spec fn of_service(t: Task, sid: Seq<char>) -> bool {
    t.service_id@ == sid
}

/// The number of tasks of service `sid` in `ts`.
pub open spec fn count_of_service(ts: Seq<Task>, sid: Seq<char>) -> nat
    decreases ts.len(),
{
    if ts.len() == 0 {
        0
    } else {
        count_of_service(ts.drop_last(), sid) + (if of_service(ts.last(), sid) {
            1nat
        } else {
            0nat
        })
    }
}

/// The number of active tasks (pending, running, cancelling) of service
/// `sid` in `ts`.
pub open spec fn count_active(ts: Seq<Task>, sid: Seq<char>) -> nat
    decreases ts.len(),
{
    if ts.len() == 0 {
        0
    } else {
        count_active(ts.drop_last(), sid) + (if of_service(ts.last(), sid) && ts.last()@.active() {
            1nat
        } else {
            0nat
        })
    }
}

/// The number of finished tasks (completed, failed, cancelled) of service
/// `sid` in `ts`.
pub open spec fn count_finished(ts: Seq<Task>, sid: Seq<char>) -> nat
    decreases ts.len(),
{
    if ts.len() == 0 {
        0
    } else {
        count_finished(ts.drop_last(), sid) + (if of_service(ts.last(), sid)
            && ts.last().status.terminal() {
            1nat
        } else {
            0nat
        })
    }
}

/// What a forced deletion does to task `t` of the deleted service `sid` at
/// time `now`: an active task of the service is cancelled
/// (`TaskView::force_cancel`), any other task is kept as it is.
pub open spec fn after_force_delete(old_t: Task, new_t: Task, sid: Seq<char>, now: i64) -> bool {
    if of_service(old_t, sid) && old_t@.active() {
        new_t@ == old_t@.force_cancel(now).unwrap()
    } else {
        new_t@ == old_t@
    }
}

/// What a forced deletion of service `sid` at time `now` does to all
/// tasks: `after_force_delete` for each, in place.
pub open spec fn force_deleted(before: Seq<Task>, after: Seq<Task>, sid: Seq<char>, now: i64) -> bool {
    &&& after.len() == before.len()
    &&& forall|i: int| 0 <= i < before.len() ==> after_force_delete(before[i], #[trigger] after[i], sid, now)
}

/// The message for a service that still has tasks.
pub open spec fn has_tasks_message(n: nat) -> Seq<char> {
    "无法删除：还有 "@ + decimal(n) + " 个任务关联此服务"@
}

/// DELETE /services/{id} (admin) at time `now`. `exists` tells whether the
/// service exists; `tasks` are the stored tasks. Without `force` a service
/// with tasks is kept; with it, its active tasks are cancelled, its
/// finished ones are kept, and the service goes.
pub fn delete_service_at(
    exists: bool,
    query: DeleteServiceQuery,
    service_id: &str,
    tasks: &mut Vec<Task>,
    now: i64,
) -> (res: Result<DeleteServiceResponse, AppError>)
    requires
        old(tasks)@.len() < i64::MAX,
    ensures
        !exists ==> res == Err::<DeleteServiceResponse, AppError>(AppError::NotFound) && final(tasks)@ == old(tasks)@,
        exists && !query.force && count_of_service(old(tasks)@, service_id@) > 0 ==> is_bad_request(
            res,
            has_tasks_message(count_of_service(old(tasks)@, service_id@)),
        ) && final(tasks)@ == old(tasks)@,
        exists && !query.force && count_of_service(old(tasks)@, service_id@) == 0 ==> res == Ok::<DeleteServiceResponse, AppError>(
            DeleteServiceResponse { deleted: true, tasks_cancelled: 0, tasks_retained: 0 },
        ) && final(tasks)@ == old(tasks)@,
        exists && query.force ==> {
            &&& res matches Ok(r) && r.deleted && r.tasks_cancelled == count_active(old(tasks)@, service_id@)
                && r.tasks_retained == count_finished(old(tasks)@, service_id@)
            &&& force_deleted(old(tasks)@, final(tasks)@, service_id@, now)
        },
{
    if !exists {
        return Err(AppError::NotFound);
    }
    if !query.force {
        let mut count: u64 = 0;
        let mut i: usize = 0;
        while i < tasks.len()
            invariant
                i <= tasks@.len(),
                tasks@.len() < i64::MAX,
                count == count_of_service(tasks@.take(i as int), service_id@),
                count <= i,
            decreases tasks@.len() - i,
        {
            assert(tasks@.take(i + 1).drop_last() =~= tasks@.take(i as int));
            if str_eq(tasks[i].service_id.as_str(), service_id) {
                count = count + 1;
            }
            i = i + 1;
        }
        assert(tasks@.take(i as int) =~= tasks@);
        if count > 0 {
            let mut m = String::from_str("无法删除：还有 ");
            m.append(u64_to_string(count).as_str());
            m.append(" 个任务关联此服务");
            return Err(AppError::BadRequest(m));
        }
        return Ok(DeleteServiceResponse { deleted: true, tasks_cancelled: 0, tasks_retained: 0 });
    }
    let ghost before = tasks@;
    let mut cancelled: i64 = 0;
    let mut retained: i64 = 0;
    let mut i: usize = 0;
    while i < tasks.len()
        invariant
            i <= tasks@.len(),
            tasks@.len() == before.len(),
            before.len() < i64::MAX,
            cancelled == count_active(before.take(i as int), service_id@),
            retained == count_finished(before.take(i as int), service_id@),
            cancelled + retained <= i,
            forall|k: int| 0 <= k < i ==> after_force_delete(before[k], #[trigger] tasks@[k], service_id@, now),
            forall|k: int| i <= k < tasks@.len() ==> tasks@[k] == before[k],
        decreases tasks@.len() - i,
    {
        assert(before.take(i + 1).drop_last() =~= before.take(i as int));
        assert(before.take(i + 1).last() == before[i as int]);
        if str_eq(tasks[i].service_id.as_str(), service_id) {
            let status = tasks[i].status;
            match status {
                TaskStatus::Pending | TaskStatus::Running | TaskStatus::Cancelling => {
                    let mut t = tasks[i].copy();
                    assert(t == tasks@[i as int]);
                    t.status = TaskStatus::Cancelled;
                    t.error_message = Some(String::from_str("Service was forcefully deleted by admin"));
                    t.completed_at = Some(now);
                    tasks.set(i, t);
                    cancelled = cancelled + 1;
                },
                _ => {
                    retained = retained + 1;
                },
            }
        }
        i = i + 1;
    }
    assert(before.take(i as int) =~= before);
    Ok(DeleteServiceResponse { deleted: true, tasks_cancelled: cancelled, tasks_retained: retained })
}

/// DELETE /services/{id} (admin) now (see `delete_service_at`).
pub fn delete_service(
    exists: bool,
    query: DeleteServiceQuery,
    service_id: &str,
    tasks: &mut Vec<Task>,
) -> (res: Result<DeleteServiceResponse, AppError>)
    requires
        old(tasks)@.len() < i64::MAX,
    ensures
        !exists ==> res == Err::<DeleteServiceResponse, AppError>(AppError::NotFound) && final(tasks)@ == old(tasks)@,
        exists && !query.force && count_of_service(old(tasks)@, service_id@) > 0 ==> is_bad_request(
            res,
            has_tasks_message(count_of_service(old(tasks)@, service_id@)),
        ) && final(tasks)@ == old(tasks)@,
        exists && !query.force && count_of_service(old(tasks)@, service_id@) == 0 ==> res == Ok::<DeleteServiceResponse, AppError>(
            DeleteServiceResponse { deleted: true, tasks_cancelled: 0, tasks_retained: 0 },
        ) && final(tasks)@ == old(tasks)@,
        exists && query.force ==> {
            &&& res matches Ok(r) && r.deleted && r.tasks_cancelled == count_active(old(tasks)@, service_id@)
                && r.tasks_retained == count_finished(old(tasks)@, service_id@)
            &&& exists|now: i64| #[trigger] force_deleted(old(tasks)@, final(tasks)@, service_id@, now)
        },
{
    let now = utc_now_millis();
    delete_service_at(exists, query, service_id, tasks, now)
}

} // verus!
