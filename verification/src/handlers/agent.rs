//! Agent API: registration, polling, accepting and completing tasks, and
//! heartbeats. Each service is served by exactly one agent.

use vstd::prelude::*;
use crate::auth::{api_key_hash, hash_api_key, AuthAgent};
use crate::clock::utc_now_millis;
use crate::error::AppError;
use crate::ids::new_v4_string;
use crate::models::file::TaskFile;
use crate::models::service::{AgentStatus, Service, ServiceView};

use crate::models::task::{opt_text, Task, TaskInput, TaskStatus, TaskView};
use crate::json::{merge_file_ids, merged_output, texts, ReportedOutput};
use crate::text::{concat, str_eq};

verus! {

/// Heartbeat of an agent, optionally with its state.
#[derive(Debug, Clone)]
pub struct ServiceHeartbeatRequest {
    pub status: Option<String>,
    pub current_load: Option<i64>,
    pub capacity: Option<i64>,
    pub available_capacity: Option<i64>,
}

/// Answer to a heartbeat; `timestamp` in milliseconds since the Unix epoch.
#[derive(Debug)]
pub struct ServiceHeartbeatResponse {
    pub acknowledged: bool,
    pub service_id: String,
    pub timestamp: i64,
}

/// Registration of an agent with a registration token.
#[derive(Debug, Clone)]
pub struct RegisterAgentApiRequest {
    pub registration_token: String,
    pub capacity: Option<i64>,
}

/// Answer to a registration, with the agent's new API key (shown once).
#[derive(Debug)]
pub struct RegisterAgentResponse {
    pub service_id: String,
    pub name: String,
    pub api_key: String,
    pub status: String,
    pub created_at: i64,
}

/// An agent accepts a task.
#[derive(Debug, Clone)]
pub struct AcceptTaskRequest {
    pub task_id: String,
}

/// Body of a poll.
#[derive(Debug, Clone)]
pub struct PollRequest {
    pub current_load: Option<i64>,
    pub available_capacity: Option<i64>,
}

/// An input file as the agent sees it.
#[derive(Debug)]
pub struct AgentInputFileResponse {
    pub id: String,
    pub filename: String,
    pub mime_type: Option<String>,
    pub size_bytes: i64,
}

impl AgentInputFileResponse {
    /// The agent's view of a stored file.
    pub fn from_file(file: TaskFile) -> (res: AgentInputFileResponse)
        ensures
            res.id == file.id,
            res.filename == file.filename,
            res.mime_type == file.mime_type,
            res.size_bytes == file.size_bytes,
    {
        AgentInputFileResponse {
            id: file.id,
            filename: file.filename,
            mime_type: file.mime_type,
            size_bytes: file.size_bytes,
        }
    }
}

/// A task as handed to an agent.
#[derive(Debug)]
pub struct AgentTaskResponse {
    pub id: String,
    pub task_prompt: String,
    pub output_prompt: Option<String>,
    pub session_id: Option<String>,
    pub input_files: Vec<AgentInputFileResponse>,
}

/// `Some(s)` unless `s` is empty.
pub open spec fn non_empty(s: String) -> Option<String> {
    if s@.len() == 0 {
        None
    } else {
        Some(s)
    }
}

impl AgentTaskResponse {
    /// The task for the agent: its id, prompts and files; an empty output
    /// prompt or session id is left out.
    pub fn from_task(task: Task, input: TaskInput, input_files: Vec<AgentInputFileResponse>) -> (res:
        AgentTaskResponse)
        ensures
            res.id == task.id,
            res.task_prompt == input.task_prompt,
            res.output_prompt == non_empty(input.output_prompt),
            res.session_id == non_empty(task.session_id),
            res.input_files == input_files,
    {
        let output_prompt = if input.output_prompt.as_str().is_empty() {
            None
        } else {
            Some(input.output_prompt)
        };
        let session_id = if task.session_id.as_str().is_empty() {
            None
        } else {
            Some(task.session_id)
        };
        AgentTaskResponse {
            id: task.id,
            task_prompt: input.task_prompt,
            output_prompt,
            session_id,
            input_files,
        }
    }
}

/// Answer to a poll: a task to run, a task to cancel, or nothing.
#[derive(Debug)]
pub struct PollResponse {
    pub has_task: bool,
    pub task: Option<AgentTaskResponse>,
    pub should_cancel: bool,
    pub cancel_task_id: Option<String>,
}

/// Answer to an accepted task.
#[derive(Debug)]
pub struct AcceptTaskResponse {
    pub success: bool,
    pub task_id: String,
    pub message: String,
}

/// How a task ended, as the agent reports it.
#[derive(Debug, Clone, Copy, PartialEq, Eq, Structural)]
pub enum TaskCompleteStatus {
    Completed,
    Failed,
    Cancelled,
}

impl TaskCompleteStatus {
    /// The task status an agent's report leads to.
    pub open spec fn status(self) -> TaskStatus {
        match self {
            TaskCompleteStatus::Completed => TaskStatus::Completed,
            TaskCompleteStatus::Failed => TaskStatus::Failed,
            TaskCompleteStatus::Cancelled => TaskStatus::Cancelled,
        }
    }

    /// The task status an agent's report leads to.
    pub fn to_task_status(&self) -> (res: TaskStatus)
        ensures
            res == self.status(),
            res.terminal(),
    {
        match self {
            TaskCompleteStatus::Completed => TaskStatus::Completed,
            TaskCompleteStatus::Failed => TaskStatus::Failed,
            TaskCompleteStatus::Cancelled => TaskStatus::Cancelled,
        }
    }
}

/// An agent's report of a finished task: the task's output, if any, and the
/// ids of the result files it uploaded.
#[derive(Debug, Clone)]
pub struct CompleteTaskRequest {
    pub task_id: String,
    pub output: Option<ReportedOutput>,
    pub error_message: Option<String>,
    pub status: TaskCompleteStatus,
    pub file_ids: Vec<String>,
}

/// Answer to a finished task.
#[derive(Debug)]
pub struct CompleteTaskResponse {
    pub success: bool,
    pub task_id: String,
    pub status: String,
}

/// An agent may only act on the service it authenticated as.
pub fn check_agent(auth_agent: &AuthAgent, service_id: &str) -> (res: Result<(), AppError>)
    ensures
        res is Ok <==> auth_agent.agent_id@ == service_id@,
        res matches Err(e) ==> e == AppError::Forbidden,
{
    if str_eq(auth_agent.agent_id.as_str(), service_id) {
        Ok(())
    } else {
        Err(AppError::Forbidden)
    }
}

/// The agent of `service_id` accepts `task` at time `now`: a pending task of
/// that service starts running and the service's load grows
/// (`ServiceView::after_accept`); otherwise nothing changes.
pub fn accept_task_at(task: &mut Task, service: &mut Service, service_id: &str, now: i64) -> (res:
    bool)
    requires
        old(service).agent_current_load < i64::MAX,
    ensures
        match old(task)@.accept(service_id@, now) {
            Some(t) => res && final(task)@ == t && final(service)@ == old(service)@.after_accept(),
            None => !res && final(task)@ == old(task)@ && final(service)@ == old(service)@,
        },
{
    let pending = match task.status {
        TaskStatus::Pending => true,
        _ => false,
    };
    if !pending || !str_eq(task.service_id.as_str(), service_id) {
        return false;
    }
    task.status = TaskStatus::Running;
    task.assigned_at = Some(now);
    task.started_at = Some(now);
    let load = service.agent_current_load + 1;
    if load >= service.agent_capacity {
        service.agent_status = AgentStatus::Busy;
    }
    service.agent_current_load = load;
    true
}

/// The agent of `service_id` accepts `task` now (see `accept_task_at`); the
/// time recorded is the start time of the task.
pub fn accept_task(task: &mut Task, service: &mut Service, service_id: &str) -> (res: bool)
    requires
        old(service).agent_current_load < i64::MAX,
    ensures
        res == (old(task)@.accept(service_id@, 0) is Some),
        res ==> (final(task).started_at matches Some(now) && final(task)@ == old(task)@.accept(
            service_id@,
            now,
        ).unwrap() && final(service)@ == old(service)@.after_accept()),
        !res ==> final(task)@ == old(task)@ && final(service)@ == old(service)@,
{
    let now = utc_now_millis();
    accept_task_at(task, service, service_id, now)
}

/// The view of an optional task.
pub open spec fn task_views(t: Option<Task>) -> Option<TaskView> {
    match t {
        Some(t) => Some(t@),
        None => None,
    }
}

/// Whether `task` exists and the agent of `service_id` may accept it.
pub open spec fn accepts(task: Option<Task>, service_id: Seq<char>) -> bool {
    task matches Some(t) && t@.accept(service_id, 0) is Some
}

/// POST /{service_id}/accept. `task` is the task with the requested id, if
/// it exists; `service` is the service's row.
pub fn accept_handler(
    auth_agent: &AuthAgent,
    service_id: &str,
    req: AcceptTaskRequest,
    task: &mut Option<Task>,
    service: &mut Service,
) -> (res: Result<AcceptTaskResponse, AppError>)
    requires
        old(service).agent_current_load < i64::MAX,
    ensures
        auth_agent.agent_id@ != service_id@ ==> res == Err::<AcceptTaskResponse, AppError>(
            AppError::Forbidden,
        ) && task_views(*final(task)) == task_views(*old(task)) && final(service)@ == old(service)@,
        auth_agent.agent_id@ == service_id@ && accepts(*old(task), service_id@) ==> {
            &&& res matches Ok(r) && r.success && r.task_id == req.task_id && r.message@
                == "Task accepted"@
            &&& *final(task) matches Some(nt) && nt.started_at matches Some(now) && nt@
                == old(task).unwrap()@.accept(service_id@, now).unwrap()
            &&& final(service)@ == old(service)@.after_accept()
        },
        auth_agent.agent_id@ == service_id@ && !accepts(*old(task), service_id@) ==> {
            &&& res matches Err(AppError::BadRequest(m)) && m@
                == "Task not found or not in pending status"@
            &&& task_views(*final(task)) == task_views(*old(task))
            &&& final(service)@ == old(service)@
        },
{
    check_agent(auth_agent, service_id)?;
    let updated = match task {
        Some(t) => accept_task(t, service, service_id),
        None => false,
    };
    if updated {
        Ok(
            AcceptTaskResponse {
                success: true,
                task_id: req.task_id,
                message: String::from_str("Task accepted"),
            },
        )
    } else {
        Err(AppError::BadRequest(String::from_str("Task not found or not in pending status")))
    }
}

/// The agent of `service_id` reports at time `now` that `task` ended with
/// `status`: a running or cancelling task of that service takes it, with the
/// output and error message, and the service's load shrinks
/// (`ServiceView::after_finish`); otherwise nothing changes.
pub fn complete_task_at(
    task: &mut Task,
    service: &mut Service,
    service_id: &str,
    status: TaskStatus,
    output: Option<String>,
    error_message: Option<String>,
    now: i64,
) -> (res: bool)
    ensures
        match old(task)@.finish(service_id@, status, opt_text(output), opt_text(error_message), now) {
            Some(t) => res && final(task)@ == t && final(service)@ == old(service)@.after_finish(),
            None => !res && final(task)@ == old(task)@ && final(service)@ == old(service)@,
        },
{
    let active = match task.status {
        TaskStatus::Running | TaskStatus::Cancelling => true,
        _ => false,
    };
    if !active || !str_eq(task.service_id.as_str(), service_id) {
        return false;
    }
    task.status = status;
    task.output = output;
    task.error_message = error_message;
    task.completed_at = Some(now);
    let load = service.agent_current_load;
    let busy = match service.agent_status {
        AgentStatus::Busy => true,
        _ => false,
    };
    if load > 0 && load - 1 < service.agent_capacity && busy {
        service.agent_status = AgentStatus::Online;
    }
    service.agent_current_load = if load > 0 { load - 1 } else { 0 };
    true
}

/// The agent of `service_id` reports now that `task` ended (see
/// `complete_task_at`); the time recorded is the completion time.
pub fn complete_task(
    task: &mut Task,
    service: &mut Service,
    service_id: &str,
    status: TaskStatus,
    output: Option<String>,
    error_message: Option<String>,
) -> (res: bool)
    ensures
        res == (old(task)@.finish(service_id@, status, None, None, 0) is Some),
        res ==> (final(task).completed_at matches Some(now) && final(task)@ == old(task)@.finish(
            service_id@,
            status,
            opt_text(output),
            opt_text(error_message),
            now,
        ).unwrap() && final(service)@ == old(service)@.after_finish()),
        !res ==> final(task)@ == old(task)@ && final(service)@ == old(service)@,
{
    let now = utc_now_millis();
    complete_task_at(task, service, service_id, status, output, error_message, now)
}

/// Whether `task` exists and the agent of `service_id` may report its end.
pub open spec fn finishes(task: Option<Task>, service_id: Seq<char>) -> bool {
    task matches Some(t) && t@.finish(service_id, TaskStatus::Completed, None, None, 0) is Some
}

/// POST /{service_id}/complete. `task` is the task with the reported id, if
/// it exists; `service` is the service's row. The stored output carries
/// the ids of the result files (`merged_output`).
pub fn complete_handler(
    auth_agent: &AuthAgent,
    service_id: &str,
    req: CompleteTaskRequest,
    task: &mut Option<Task>,
    service: &mut Service,
) -> (res: Result<CompleteTaskResponse, AppError>)
    ensures
        auth_agent.agent_id@ != service_id@ ==> res == Err::<CompleteTaskResponse, AppError>(
            AppError::Forbidden,
        ) && task_views(*final(task)) == task_views(*old(task)) && final(service)@ == old(
            service,
        )@,
        auth_agent.agent_id@ == service_id@ && finishes(*old(task), service_id@) ==> {
            &&& res matches Ok(r) && r.success && r.task_id == req.task_id && r.status@
                == req.status.status().name()
            &&& *final(task) matches Some(nt) && nt.completed_at matches Some(now) && nt@
                == old(task).unwrap()@.finish(
                service_id@,
                req.status.status(),
                merged_output(req.output, texts(req.file_ids@)),
                opt_text(req.error_message),
                now,
            ).unwrap()
            &&& final(service)@ == old(service)@.after_finish()
        },
        auth_agent.agent_id@ == service_id@ && !finishes(*old(task), service_id@) ==> {
            &&& res matches Err(AppError::BadRequest(m)) && m@
                == "Task not found or invalid status transition"@
            &&& task_views(*final(task)) == task_views(*old(task))
            &&& final(service)@ == old(service)@
        },
{
    check_agent(auth_agent, service_id)?;
    let status = req.status.to_task_status();
    let output = merge_file_ids(req.output, &req.file_ids);
    let updated = match task {
        Some(t) => complete_task(t, service, service_id, status, output, req.error_message),
        None => false,
    };
    if updated {
        Ok(CompleteTaskResponse { success: true, task_id: req.task_id, status: status.to_string() })
    } else {
        Err(AppError::BadRequest(String::from_str("Task not found or invalid status transition")))
    }
}

/// The view of an optional service.
pub open spec fn service_views(s: Option<Service>) -> Option<ServiceView> {
    match s {
        Some(s) => Some(s@),
        None => None,
    }
}

/// Records a heartbeat at time `now` in the service's row (if it exists);
/// tells whether a row was updated.
pub fn update_service_heartbeat_at(service: &mut Option<Service>, now: i64) -> (res: bool)
    ensures
        res == (*old(service) is Some),
        service_views(*final(service)) == match *old(service) {
            Some(s) => Some(s@.after_heartbeat(now)),
            None => None,
        },
{
    match service {
        Some(s) => {
            s.agent_last_heartbeat = Some(now);
            match s.agent_status {
                AgentStatus::Offline => {
                    s.agent_status = AgentStatus::Online;
                },
                _ => {},
            }
            true
        },
        None => false,
    }
}

/// Records a heartbeat now (see `update_service_heartbeat_at`).
pub fn update_service_heartbeat(service: &mut Option<Service>) -> (res: bool)
    ensures
        res == (*old(service) is Some),
        *old(service) is None ==> *final(service) is None,
        *old(service) matches Some(s) ==> (*final(service) matches Some(ns)
            && ns.agent_last_heartbeat matches Some(now) && ns@ == s@.after_heartbeat(now)),
{
    let now = utc_now_millis();
    update_service_heartbeat_at(service, now)
}

/// Sets the agent status in the service's row (if it exists).
pub fn update_service_status(service: &mut Option<Service>, status: AgentStatus) -> (res: bool)
    ensures
        res == (*old(service) is Some),
        service_views(*final(service)) == match *old(service) {
            Some(s) => Some(ServiceView { agent_status: status, ..s@ }),
            None => None,
        },
{
    match service {
        Some(s) => {
            s.agent_status = status;
            true
        },
        None => false,
    }
}

/// Why a reported load and capacity are refused, if they are.
pub open spec fn load_update_error(current_load: Option<i64>, capacity: Option<i64>) -> Option<
    Seq<char>,
> {
    if current_load matches Some(l) && l < 0 {
        Some("current_load cannot be negative"@)
    } else if capacity matches Some(c) && c <= 0 {
        Some("capacity must be positive"@)
    } else if current_load matches Some(l) && capacity matches Some(c) && l > c {
        Some(
            "current_load ("@ + crate::text::decimal_signed(current_load.unwrap() as int)
                + ") cannot exceed capacity ("@ + crate::text::decimal_signed(capacity.unwrap() as int)
                + ")"@,
        )
    } else {
        None
    }
}

/// Sets the reported load and/or capacity in the service's row (if it
/// exists), after checking them: the load must not be negative, the capacity
/// must be positive, and the load must not exceed the capacity when both are
/// given. `Ok(false)` when neither is given.
pub fn update_service_load(
    service: &mut Option<Service>,
    current_load: Option<i64>,
    capacity: Option<i64>,
) -> (res: Result<bool, AppError>)
    ensures
        load_update_error(current_load, capacity) matches Some(m) ==> (res matches Err(
            AppError::BadRequest(e),
        ) && e@ == m && service_views(*final(service)) == service_views(*old(service))),
        load_update_error(current_load, capacity) is None ==> {
            &&& res == Ok::<bool, AppError>(current_load is Some || capacity is Some)
            &&& service_views(*final(service)) == match *old(service) {
                Some(s) => Some(s@.with_load(current_load, capacity)),
                None => None,
            }
        },
{
    proof {
        reveal_strlit("current_load (");
        reveal_strlit(") cannot exceed capacity (");
        reveal_strlit(")");
    }
    match current_load {
        Some(l) => {
            if l < 0 {
                return Err(AppError::BadRequest(String::from_str("current_load cannot be negative")));
            }
        },
        None => {},
    }
    match capacity {
        Some(c) => {
            if c <= 0 {
                return Err(AppError::BadRequest(String::from_str("capacity must be positive")));
            }
        },
        None => {},
    }
    match (current_load, capacity) {
        (Some(l), Some(c)) => {
            if l > c {
                let mut m = String::from_str("current_load (");
                m.append(crate::text::i64_to_string(l).as_str());
                m.append(") cannot exceed capacity (");
                m.append(crate::text::i64_to_string(c).as_str());
                m.append(")");
                return Err(AppError::BadRequest(m));
            }
        },
        _ => {},
    }
    if current_load.is_none() && capacity.is_none() {
        return Ok(false);
    }
    match service {
        Some(s) => {
            match current_load {
                Some(l) => {
                    s.agent_current_load = l;
                },
                None => {},
            }
            match capacity {
                Some(c) => {
                    s.agent_capacity = c;
                },
                None => {},
            }
        },
        None => {},
    }
    Ok(true)
}

/// Why a reported agent status is refused, if it is.
pub open spec fn status_report_error(status: Option<String>) -> Option<Seq<char>> {
    match status {
        Some(st) => if exists|a: AgentStatus| a.name() == st@ {
            None
        } else {
            Some("Invalid status: "@ + st@)
        },
        None => None,
    }
}

/// The last heartbeat time recorded in an optional service row (0 if none).
pub open spec fn last_beat(s: Option<Service>) -> i64 {
    match s {
        Some(s) => match s.agent_last_heartbeat {
            Some(t) => t,
            None => 0,
        },
        None => 0,
    }
}

/// POST /{service_id}/heartbeat. `service` is the service's row, if it
/// exists. The heartbeat is recorded first; then a reported status is set
/// (an unknown one is refused, and the load is left alone); then a reported
/// load and capacity are checked and set.
pub fn heartbeat_handler(
    auth_agent: &AuthAgent,
    service_id: &str,
    req: ServiceHeartbeatRequest,
    service: &mut Option<Service>,
) -> (res: Result<ServiceHeartbeatResponse, AppError>)
    ensures
        auth_agent.agent_id@ != service_id@ ==> res == Err::<ServiceHeartbeatResponse, AppError>(
            AppError::Forbidden,
        ) && service_views(*final(service)) == service_views(*old(service)),
        auth_agent.agent_id@ == service_id@ ==> ({
            let now = last_beat(*final(service));
            let beat = match *old(service) {
                Some(s) => Some(s@.after_heartbeat(now)),
                None => None,
            };
            let with_status = match (beat, req.status) {
                (Some(v), Some(st)) => Some(
                    ServiceView { agent_status: choose|a: AgentStatus| a.name() == st@, ..v },
                ),
                _ => beat,
            };
            match status_report_error(req.status) {
                Some(m) => res matches Err(AppError::BadRequest(e)) && e@ == m && service_views(
                    *final(service),
                ) == beat,
                None => match load_update_error(req.current_load, req.capacity) {
                    Some(m) => res matches Err(AppError::BadRequest(e)) && e@ == m
                        && service_views(*final(service)) == with_status,
                    None => {
                        &&& res matches Ok(r) && r.acknowledged && r.service_id@ == service_id@
                        &&& service_views(*final(service)) == match with_status {
                            Some(v) => Some(v.with_load(req.current_load, req.capacity)),
                            None => None,
                        }
                    },
                },
            }
        }),
{
    check_agent(auth_agent, service_id)?;
    let now = utc_now_millis();
    update_service_heartbeat_at(service, now);
    let ghost beat = service_views(*service);
    match &req.status {
        Some(st) => {
            match AgentStatus::parse(st.as_str()) {
                Some(a) => {
                    proof {
                        assert forall|b: AgentStatus| b.name() == st@ implies b == a by {
                            crate::models::service::lemma_agent_status_name_injective(a, b);
                        }
                        assert(a.name() == st@);
                    }
                    update_service_status(service, a);
                },
                None => {
                    let mut m = String::from_str("Invalid status: ");
                    m.append(st.as_str());
                    return Err(AppError::BadRequest(m));
                },
            }
        },
        None => {},
    }
    if req.current_load.is_some() || req.capacity.is_some() {
        update_service_load(service, req.current_load, req.capacity)?;
    }
    Ok(ServiceHeartbeatResponse {
        acknowledged: true,
        service_id: String::from_str(service_id),
        timestamp: utc_now_millis(),
    })
}

/// Whether `k` is an agent API key as registration makes them: "ak_agent_"
/// and a random version-4 UUID without its hyphens.
pub open spec fn is_agent_api_key(k: Seq<char>) -> bool {
    exists|u: Seq<char>|
        crate::ids::is_hyphenated_uuid(u, '4') && k == "ak_agent_"@ + crate::text::remove_char(
            u,
            '-',
        )
}

/// POST /register. `service` is the service whose registration token the
/// request presents, if any. A pending service gets an agent: a new API key
/// (returned once, stored as its keyed hash), online status, the requested
/// capacity (1 by default), no load, and the token is used up.
pub fn register_service_agent(
    service: Option<Service>,
    req: &RegisterAgentApiRequest,
    secret_key: Option<&str>,
) -> (res: Result<(Service, RegisterAgentResponse), AppError>)
    ensures
        service is None ==> res == Err::<(Service, RegisterAgentResponse), AppError>(
            AppError::NotFound,
        ),
        service matches Some(s) ==> if s.registration_status@ == "active"@ {
            res matches Err(AppError::Conflict(m)) && m@ == "该服务已注册，无法重复注册"@
        } else if s.registration_status@ == "revoked"@ {
            res == Err::<(Service, RegisterAgentResponse), AppError>(AppError::Forbidden)
        } else if secret_key is None {
            res matches Err(AppError::Internal(m)) && m@ == "Secret key not configured"@
        } else {
            res matches Ok(p) && {
                let (ns, r) = p;
                &&& is_agent_api_key(r.api_key@)
                &&& r.service_id == s.id
                &&& r.name == s.name
                &&& r.status@ == "online"@
                &&& ns@ == s@.registered(
                    api_key_hash(
                        vstd::utf8::encode_utf8(secret_key.unwrap()@),
                        vstd::utf8::encode_utf8(r.api_key@),
                    ),
                    match req.capacity {
                        Some(c) => c as int,
                        None => 1,
                    },
                    r.created_at,
                )
            }
        },
{
    let mut s = match service {
        Some(s) => s,
        None => {
            return Err(AppError::NotFound);
        },
    };
    if str_eq(s.registration_status.as_str(), "active") {
        return Err(AppError::Conflict(String::from_str("该服务已注册，无法重复注册")));
    }
    if str_eq(s.registration_status.as_str(), "revoked") {
        return Err(AppError::Forbidden);
    }
    let u = new_v4_string();
    let hex = crate::text::remove_char_from(u.as_str(), '-');
    let api_key = concat("ak_agent_", hex.as_str());
    assert(is_agent_api_key(api_key@));
    let now = utc_now_millis();
    let secret = match secret_key {
        Some(k) => k,
        None => {
            return Err(AppError::Internal(String::from_str("Secret key not configured")));
        },
    };
    let hashed = hash_api_key(secret, api_key.as_str());
    let capacity = match req.capacity {
        Some(c) => c,
        None => 1,
    };
    s.agent_api_key = Some(hashed);
    s.agent_status = AgentStatus::Online;
    s.agent_capacity = capacity;
    s.agent_current_load = 0;
    s.agent_last_heartbeat = Some(now);
    s.registration_status = String::from_str("active");
    s.registration_token = None;
    let response = RegisterAgentResponse {
        service_id: s.id.clone(),
        name: s.name.clone(),
        api_key,
        status: String::from_str("online"),
        created_at: now,
    };
    Ok((s, response))
}

/// Whether `t` is a task of service `sid` in status `st`.
pub open spec fn serves(t: Task, sid: Seq<char>, st: TaskStatus) -> bool {
    t.status == st && t.service_id@ == sid
}

/// The first cancelling task of the service, by position.
pub fn first_cancelling_task(tasks: &Vec<Task>, service_id: &str) -> (res: Option<usize>)
    ensures
        res matches Some(i) ==> i < tasks@.len() && serves(
            tasks@[i as int],
            service_id@,
            TaskStatus::Cancelling,
        ) && forall|j: int|
            0 <= j < i ==> !serves(#[trigger] tasks@[j], service_id@, TaskStatus::Cancelling),
        res is None ==> forall|j: int|
            0 <= j < tasks@.len() ==> !serves(
                #[trigger] tasks@[j],
                service_id@,
                TaskStatus::Cancelling,
            ),
{
    let mut i: usize = 0;
    while i < tasks.len()
        invariant
            i <= tasks@.len(),
            forall|j: int|
                0 <= j < i ==> !serves(#[trigger] tasks@[j], service_id@, TaskStatus::Cancelling),
        decreases tasks@.len() - i,
    {
        if tasks[i].status.is_cancelling() && str_eq(tasks[i].service_id.as_str(), service_id) {
            return Some(i);
        }
        i = i + 1;
    }
    None
}

/// The pending task of the service created first (the first of them by
/// position among those created at the same time).
pub fn oldest_pending_task(tasks: &Vec<Task>, service_id: &str) -> (res: Option<usize>)
    ensures
        res matches Some(i) ==> {
            &&& i < tasks@.len()
            &&& serves(tasks@[i as int], service_id@, TaskStatus::Pending)
            &&& forall|j: int|
                0 <= j < tasks@.len() && serves(#[trigger] tasks@[j], service_id@, TaskStatus::Pending)
                    ==> tasks@[i as int].created_at <= tasks@[j].created_at
            &&& forall|j: int|
                0 <= j < i && serves(#[trigger] tasks@[j], service_id@, TaskStatus::Pending)
                    ==> tasks@[i as int].created_at < tasks@[j].created_at
        },
        res is None ==> forall|j: int|
            0 <= j < tasks@.len() ==> !serves(#[trigger] tasks@[j], service_id@, TaskStatus::Pending),
{
    let mut best: Option<usize> = None;
    let mut i: usize = 0;
    while i < tasks.len()
        invariant
            i <= tasks@.len(),
            best matches Some(b) ==> {
                &&& b < i
                &&& serves(tasks@[b as int], service_id@, TaskStatus::Pending)
                &&& forall|j: int|
                    0 <= j < i && serves(#[trigger] tasks@[j], service_id@, TaskStatus::Pending)
                        ==> tasks@[b as int].created_at <= tasks@[j].created_at
                &&& forall|j: int|
                    0 <= j < b && serves(#[trigger] tasks@[j], service_id@, TaskStatus::Pending)
                        ==> tasks@[b as int].created_at < tasks@[j].created_at
            },
            best is None ==> forall|j: int|
                0 <= j < i ==> !serves(#[trigger] tasks@[j], service_id@, TaskStatus::Pending),
        decreases tasks@.len() - i,
    {
        let pending = match tasks[i].status {
            TaskStatus::Pending => true,
            _ => false,
        };
        if pending && str_eq(tasks[i].service_id.as_str(), service_id) {
            match best {
                Some(b) => {
                    if tasks[i].created_at < tasks[b].created_at {
                        best = Some(i);
                    }
                },
                None => {
                    best = Some(i);
                },
            }
        }
        i = i + 1;
    }
    best
}

/// What a poll hands to the agent: a task to cancel, a task to run (by
/// position), or nothing.
#[derive(Debug, Clone, Copy, PartialEq, Eq, Structural)]
pub enum PollChoice {
    Cancel(usize),
    Run(usize),
    Idle,
}

/// POST /{service_id}/poll. `tasks` are the service's tasks. A task that is
/// being cancelled comes first; otherwise the oldest pending task is handed
/// out; otherwise there is nothing to do.
pub fn poll_handler(auth_agent: &AuthAgent, service_id: &str, tasks: &Vec<Task>) -> (res: Result<
    PollChoice,
    AppError,
>)
    ensures
        auth_agent.agent_id@ != service_id@ ==> res == Err::<PollChoice, AppError>(
            AppError::Forbidden,
        ),
        auth_agent.agent_id@ == service_id@ ==> (res matches Ok(c) && match c {
            PollChoice::Cancel(i) => i < tasks@.len() && serves(
                tasks@[i as int],
                service_id@,
                TaskStatus::Cancelling,
            ) && forall|j: int|
                0 <= j < i ==> !serves(#[trigger] tasks@[j], service_id@, TaskStatus::Cancelling),
            PollChoice::Run(i) => {
                &&& i < tasks@.len()
                &&& forall|j: int|
                    0 <= j < tasks@.len() ==> !serves(
                        #[trigger] tasks@[j],
                        service_id@,
                        TaskStatus::Cancelling,
                    )
                &&& serves(tasks@[i as int], service_id@, TaskStatus::Pending)
                &&& forall|j: int|
                    0 <= j < tasks@.len() && serves(
                        #[trigger] tasks@[j],
                        service_id@,
                        TaskStatus::Pending,
                    ) ==> tasks@[i as int].created_at <= tasks@[j].created_at
            },
            PollChoice::Idle => forall|j: int|
                0 <= j < tasks@.len() ==> !serves(
                    #[trigger] tasks@[j],
                    service_id@,
                    TaskStatus::Cancelling,
                ) && !serves(tasks@[j], service_id@, TaskStatus::Pending),
        }),
{
    check_agent(auth_agent, service_id)?;
    match first_cancelling_task(tasks, service_id) {
        Some(i) => Ok(PollChoice::Cancel(i)),
        None => match oldest_pending_task(tasks, service_id) {
            Some(i) => Ok(PollChoice::Run(i)),
            None => Ok(PollChoice::Idle),
        },
    }
}

impl PollResponse {
    /// A request to cancel the task with this id.
    pub fn cancel(task_id: String) -> (res: PollResponse)
        ensures
            !res.has_task && res.task is None && res.should_cancel && res.cancel_task_id == Some(
                task_id,
            ),
    {
        PollResponse { has_task: false, task: None, should_cancel: true, cancel_task_id: Some(task_id) }
    }

    /// A task to run.
    pub fn run(task: AgentTaskResponse) -> (res: PollResponse)
        ensures
            res.has_task && res.task == Some(task) && !res.should_cancel && res.cancel_task_id is None,
    {
        PollResponse { has_task: true, task: Some(task), should_cancel: false, cancel_task_id: None }
    }

    /// Nothing to do.
    pub fn idle() -> (res: PollResponse)
        ensures
            !res.has_task && res.task is None && !res.should_cancel && res.cancel_task_id is None,
    {
        PollResponse { has_task: false, task: None, should_cancel: false, cancel_task_id: None }
    }
}

/// The position of the first file with id `id`, if there is one.
pub open spec fn first_file_with_id(files: Seq<TaskFile>, id: Seq<char>) -> Option<int>
    decreases files.len(),
{
    if files.len() == 0 {
        None
    } else {
        match first_file_with_id(files.drop_last(), id) {
            Some(i) => Some(i),
            None => if files.last().id@ == id {
                Some(files.len() - 1)
            } else {
                None
            },
        }
    }
}

/// The first file with an id is a file with that id, and none before it
/// has it.
pub proof fn lemma_first_file_with_id(files: Seq<TaskFile>, id: Seq<char>)
    ensures
        first_file_with_id(files, id) matches Some(i) ==> 0 <= i < files.len() && files[i].id@
            == id && forall|j: int| 0 <= j < i ==> files[j].id@ != id,
        first_file_with_id(files, id) is None ==> forall|j: int|
            0 <= j < files.len() ==> files[j].id@ != id,
    decreases files.len(),
{
    if files.len() > 0 {
        lemma_first_file_with_id(files.drop_last(), id);
        assert forall|j: int| 0 <= j < files.len() - 1 implies files.drop_last()[j] == files[j] by {}
    }
}

/// Looking further than a first match does not change it.
pub proof fn lemma_first_file_with_id_prefix(files: Seq<TaskFile>, id: Seq<char>, k: int)
    requires
        0 <= k <= files.len(),
        first_file_with_id(files.take(k), id) is Some,
    ensures
        first_file_with_id(files, id) == first_file_with_id(files.take(k), id),
    decreases files.len() - k,
{
    if k < files.len() {
        assert(files.take(k + 1).drop_last() =~= files.take(k));
        lemma_first_file_with_id_prefix(files, id, k + 1);
    } else {
        assert(files.take(k) =~= files);
    }
}

/// The files named by `ids`, in the order of `ids`: for each id the first
/// file with that id; ids without a file are skipped.
pub open spec fn files_in_order(ids: Seq<String>, files: Seq<TaskFile>) -> Seq<int>
    decreases ids.len(),
{
    if ids.len() == 0 {
        Seq::empty()
    } else {
        let rest = files_in_order(ids.drop_last(), files);
        match first_file_with_id(files, ids.last()@) {
            Some(i) => rest.push(i),
            None => rest,
        }
    }
}

/// Whether each response in `res` shows the file at the same place of
/// `order`.
pub open spec fn picks(res: Seq<AgentInputFileResponse>, order: Seq<int>, files: Seq<TaskFile>) -> bool {
    &&& res.len() == order.len()
    &&& forall|k: int| 0 <= k < res.len() ==> #[trigger] picked(res[k], order[k], files)
}

/// Whether `r` shows the file at position `i` of `files`.
pub open spec fn picked(r: AgentInputFileResponse, i: int, files: Seq<TaskFile>) -> bool {
    0 <= i < files.len() && shows_file(r, files[i])
}

/// Whether `r` shows file `f` to the agent.
pub open spec fn shows_file(r: AgentInputFileResponse, f: TaskFile) -> bool {
    r.id == f.id && r.filename == f.filename && r.mime_type == f.mime_type && r.size_bytes
        == f.size_bytes
}

fn find_file(files: &Vec<TaskFile>, id: &String) -> (res: Option<usize>)
    ensures
        res matches Some(r) ==> first_file_with_id(files@, id@) == Some(r as int),
        res is None ==> first_file_with_id(files@, id@) is None,
{
    let mut i: usize = 0;
    while i < files.len()
        invariant
            i <= files@.len(),
            first_file_with_id(files@.take(i as int), id@) is None,
        decreases files@.len() - i,
    {
        assert(files@.take(i + 1).drop_last() =~= files@.take(i as int));
        if files[i].id == *id {
            proof {
                lemma_first_file_with_id_prefix(files@, id@, i + 1);
            }
            return Some(i);
        }
        i = i + 1;
    }
    assert(files@.take(files@.len() as int) =~= files@);
    None
}

/// The task's input files in the order the client uploaded them: `ids` is
/// the task input's list of file ids, `files` the task's client files.
pub fn order_input_files(ids: &Vec<String>, files: &Vec<TaskFile>) -> (res: Vec<
    AgentInputFileResponse,
>)
    ensures
        picks(res@, files_in_order(ids@, files@), files@),
{
    let mut res: Vec<AgentInputFileResponse> = Vec::new();
    let mut n: usize = 0;
    while n < ids.len()
        invariant
            n <= ids@.len(),
            picks(res@, files_in_order(ids@.take(n as int), files@), files@),
        decreases ids@.len() - n,
    {
        let ghost before = files_in_order(ids@.take(n as int), files@);
        let ghost prev = res@;
        assert(ids@.take(n + 1).drop_last() =~= ids@.take(n as int));
        assert(ids@.take(n + 1).last() == ids@[n as int]);
        proof {
            lemma_first_file_with_id(files@, ids@[n as int]@);
        }
        match find_file(files, &ids[n]) {
            Some(i) => {
                let f = files[i].copy();
                res.push(AgentInputFileResponse::from_file(f));
                assert(first_file_with_id(files@, ids@[n as int]@) == Some(i as int));
                assert(first_file_with_id(files@, ids@.take(n + 1).last()@) == Some(i as int));
                assert(files_in_order(ids@.take(n + 1).drop_last(), files@) == before);
                assert(files_in_order(ids@.take(n + 1), files@) == before.push(i as int));
                assert forall|k: int| 0 <= k < res@.len() implies #[trigger] picked(
                    res@[k],
                    before.push(i as int)[k],
                    files@,
                ) by {
                    if k < prev.len() {
                        assert(res@[k] == prev[k]);
                    }
                }
                assert(prev.len() == before.len());
                assert(res@.len() == before.push(i as int).len());
                assert(picks(res@, before.push(i as int), files@));
                assert(picks(res@, files_in_order(ids@.take(n + 1), files@), files@));
            },
            None => {
                assert(first_file_with_id(files@, ids@.take(n + 1).last()@) is None);
                assert(files_in_order(ids@.take(n + 1).drop_last(), files@) == before);
                assert(files_in_order(ids@.take(n + 1), files@) == before);

            },
        }
        n = n + 1;
    }
    assert(ids@.take(ids@.len() as int) =~= ids@);
    assert(files_in_order(ids@.take(n as int), files@) == files_in_order(ids@, files@));
    res
}

} // verus!
