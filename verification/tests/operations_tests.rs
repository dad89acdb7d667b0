use open_aaas_server::auth::AuthUser;
use open_aaas_server::bg_tasks::{
    cleanup_cutoff, expired_task_ids, heartbeat_threshold, migrate_tasks_from_offline_services,
    sweep_offline_services,
};
use open_aaas_server::error::AppError;
use open_aaas_server::handlers::admin::{
    delete_user, list_user_permissions, list_users, plan_admin_task_list, revoke_service_permission,
    update_user_role, AdminListTasksQuery, AdminTaskResponse,
};
use open_aaas_server::handlers::files::{
    check_upload_task, download_headers, file_list, upload_record, verify_agent_file_access,
    UploadForm,
};
use open_aaas_server::handlers::services::{
    create_service, delete_service_at, get_service, list_services, new_service_id,
    DeleteServiceQuery,
};
use open_aaas_server::models::file::{FileCreatedBy, TaskFile};
use open_aaas_server::models::service::{AgentStatus, CreateServiceRequest, Service};
use open_aaas_server::models::task::{Task, TaskStatus};
use open_aaas_server::models::user::{UpdateUserRoleRequest, User, UserRole};
use open_aaas_server::stop::{
    failure_text, notice_text, outcome_text, stop_step, StopAction, StopEvent, StopFailure,
    StopNotice, StopOutcome, StopPhase,
};

fn bad_request(e: AppError) -> String {
    match e {
        AppError::BadRequest(msg) => msg,
        other => panic!("expected BadRequest, got {:?}", other),
    }
}

fn service(id: &str, status: AgentStatus, beat: Option<i64>, load: i64) -> Service {
    Service {
        id: id.to_string(),
        name: format!("{} name", id),
        description: String::new(),
        usage: String::new(),
        agent_api_key: None,
        agent_status: status,
        agent_capacity: 5,
        agent_current_load: load,
        agent_last_heartbeat: beat,
        registration_token: None,
        registration_status: "active".to_string(),
        is_public: true,
        created_at: 0,
    }
}

fn task_with(service_id: &str, status: TaskStatus, retry: i64) -> Task {
    let mut t = Task::new("u1", service_id, None);
    t.status = status;
    t.retry_count = retry;
    t
}

// ---- services ----

#[test]
fn admin_service_list_grants_everything() {
    let mut restricted = service("b", AgentStatus::Online, None, 0);
    restricted.is_public = false;
    let items = list_services(&vec![service("a", AgentStatus::Online, None, 0), restricted]);
    assert_eq!(items.len(), 2);
    assert!(items.iter().all(|i| i.has_permission));
    assert_eq!(items[1].access_type, "restricted");
}

#[test]
fn create_service_issues_a_token() {
    assert_eq!(new_service_id(Some("custom_id".to_string())), "custom_id");
    assert_eq!(new_service_id(None).len(), 36);
    let req = CreateServiceRequest {
        id: None,
        name: "New Service".to_string(),
        description: "d".to_string(),
        usage: "u".to_string(),
        is_public: false,
    };
    let (s, r) = create_service("svc".to_string(), false, req.clone()).unwrap();
    assert_eq!(s.id, "svc");
    assert_eq!(s.agent_status, AgentStatus::Offline);
    assert_eq!((s.agent_capacity, s.agent_current_load), (1, 0));
    assert_eq!(s.registration_status, "pending");
    assert!(!s.is_public);
    assert!(r.registration_token.starts_with("rt_"));
    assert_eq!(r.registration_token.len(), 35);
    assert_eq!(s.registration_token, Some(r.registration_token.clone()));
    assert_eq!(r.registration_status, "pending");
    assert_eq!(bad_request(create_service("svc".to_string(), true, req).unwrap_err()), "服务 'svc' 已存在");
}

#[test]
fn get_service_needs_a_row() {
    assert_eq!(get_service(None).unwrap_err(), AppError::NotFound);
    assert_eq!(get_service(Some(service("a", AgentStatus::Busy, None, 1))).unwrap().agent_status, AgentStatus::Busy);
}

#[test]
fn delete_service_without_force_needs_no_tasks() {
    let mut tasks = vec![task_with("svc", TaskStatus::Completed, 0), task_with("svc", TaskStatus::Pending, 0), task_with("other", TaskStatus::Pending, 0)];
    let err = delete_service_at(true, DeleteServiceQuery { force: false }, "svc", &mut tasks, 5).unwrap_err();
    assert_eq!(bad_request(err), "无法删除：还有 2 个任务关联此服务");
    assert_eq!(tasks[1].status, TaskStatus::Pending);
    let mut none: Vec<Task> = vec![task_with("other", TaskStatus::Pending, 0)];
    let r = delete_service_at(true, DeleteServiceQuery { force: false }, "svc", &mut none, 5).unwrap();
    assert!(r.deleted);
    assert_eq!((r.tasks_cancelled, r.tasks_retained), (0, 0));
    assert_eq!(delete_service_at(false, DeleteServiceQuery { force: true }, "svc", &mut none, 5).unwrap_err(), AppError::NotFound);
}

#[test]
fn forced_delete_cancels_active_and_keeps_finished() {
    let mut tasks = vec![
        task_with("svc", TaskStatus::Pending, 0),
        task_with("svc", TaskStatus::Running, 0),
        task_with("svc", TaskStatus::Cancelling, 0),
        task_with("svc", TaskStatus::Completed, 0),
        task_with("svc", TaskStatus::Failed, 0),
        task_with("other", TaskStatus::Running, 0),
    ];
    let r = delete_service_at(true, DeleteServiceQuery { force: true }, "svc", &mut tasks, 99).unwrap();
    assert_eq!((r.tasks_cancelled, r.tasks_retained), (3, 2));
    for t in &tasks[0..3] {
        assert_eq!(t.status, TaskStatus::Cancelled);
        assert_eq!(t.error_message, Some("Service was forcefully deleted by admin".to_string()));
        assert_eq!(t.completed_at, Some(99));
    }
    assert_eq!(tasks[3].status, TaskStatus::Completed);
    assert_eq!(tasks[5].status, TaskStatus::Running);
}

// ---- background work ----

#[test]
fn heartbeat_threshold_and_sweep() {
    assert_eq!(heartbeat_threshold(100_000, 30), 70_000);
    let mut services = vec![
        service("old", AgentStatus::Busy, Some(10), 3),
        service("fresh", AgentStatus::Online, Some(90_000), 1),
        service("never", AgentStatus::Online, None, 0),
        service("off", AgentStatus::Offline, Some(10), 0),
    ];
    assert_eq!(sweep_offline_services(&mut services, 70_000), 1);
    assert_eq!(services[0].agent_status, AgentStatus::Offline);
    assert_eq!(services[0].agent_current_load, 0);
    assert_eq!(services[1].agent_status, AgentStatus::Online);
    assert_eq!(services[2].agent_status, AgentStatus::Online);
    assert_eq!(sweep_offline_services(&mut services, 70_000), 0);
}

#[test]
fn migrate_requeues_cancels_and_fails() {
    let services = vec![service("down", AgentStatus::Offline, Some(10), 0), service("up", AgentStatus::Online, Some(90_000), 0)];
    let mut running = task_with("down", TaskStatus::Running, 1);
    running.assigned_at = Some(5);
    running.started_at = Some(5);
    let mut tasks = vec![
        running,
        task_with("down", TaskStatus::Running, 3),
        task_with("down", TaskStatus::Cancelling, 0),
        task_with("up", TaskStatus::Running, 0),
        task_with("down", TaskStatus::Pending, 0),
    ];
    let n = migrate_tasks_from_offline_services(&mut tasks, &services, 70_000, 77);
    assert_eq!(n, 2);
    assert_eq!(tasks[0].status, TaskStatus::Pending);
    assert_eq!(tasks[0].retry_count, 2);
    assert_eq!((tasks[0].assigned_at, tasks[0].started_at), (None, None));
    assert_eq!(tasks[1].status, TaskStatus::Failed);
    assert_eq!(tasks[1].error_message, Some("任务重试次数超过上限，无可用服务".to_string()));
    assert_eq!(tasks[2].status, TaskStatus::Cancelled);
    assert_eq!(tasks[2].error_message, Some("Agent 离线，任务取消完成".to_string()));
    assert_eq!(tasks[2].completed_at, Some(77));
    assert_eq!(tasks[3].status, TaskStatus::Running);
    assert_eq!(tasks[4].status, TaskStatus::Pending);
}

#[test]
fn cleanup_selects_old_finished_tasks() {
    assert_eq!(cleanup_cutoff(10 * 86_400_000, 0), None);
    assert_eq!(cleanup_cutoff(10 * 86_400_000, -1), None);
    assert_eq!(cleanup_cutoff(10 * 86_400_000, 7), Some(3 * 86_400_000));
    let mut old_done = task_with("s", TaskStatus::Completed, 0);
    old_done.completed_at = Some(5);
    let mut new_done = task_with("s", TaskStatus::Failed, 0);
    new_done.completed_at = Some(500);
    let mut old_running = task_with("s", TaskStatus::Running, 0);
    old_running.completed_at = Some(5);
    let ids = expired_task_ids(&vec![old_done.clone(), new_done, old_running], 100);
    assert_eq!(ids, vec![old_done.id]);
}

// ---- files ----

#[test]
fn download_headers_encode_the_name() {
    let f = TaskFile::new("t", "报告 1.pdf", Some("application/pdf".to_string()), 1, "t/x", FileCreatedBy::Agent);
    let h = download_headers(&f);
    assert_eq!(h.content_type, "application/pdf");
    assert_eq!(
        h.content_disposition,
        "attachment; filename=\"报告 1.pdf\"; filename*=UTF-8''%E6%8A%A5%E5%91%8A%201.pdf"
    );
    let g = TaskFile::new("t", "a-b_c.~txt", None, 1, "t/y", FileCreatedBy::Agent);
    let h = download_headers(&g);
    assert_eq!(h.content_type, "application/octet-stream");
    assert_eq!(h.content_disposition, "attachment; filename=\"a-b_c.~txt\"; filename*=UTF-8''a-b_c.~txt");
}

#[test]
fn upload_form_requires_task_id_first() {
    let mut form = UploadForm::new();
    assert_eq!(bad_request(form.begin_file(Some("a.txt".to_string()), None).unwrap_err()), "字段顺序错误：task_id 必须在 file 之前");
    let mut form = UploadForm::new();
    assert_eq!(bad_request(form.clone().finish().unwrap_err()), "缺少 task_id 字段");
    form.set_task_id("t1".to_string());
    assert_eq!(bad_request(form.clone().finish().unwrap_err()), "缺少 file 字段");
    assert_eq!(form.begin_file(None, Some("text/plain".to_string())).unwrap(), "t1");
    form.add_chunk(10, 100).unwrap();
    form.add_chunk(20, 100).unwrap();
    form.file_done();
    let (task_id, name, mime, size) = form.finish().unwrap();
    assert_eq!(task_id, "t1");
    assert_eq!(name, "unnamed");
    assert_eq!(mime, Some("text/plain".to_string()));
    assert_eq!(size, 30);
}

#[test]
fn upload_form_size_limit() {
    let mut form = UploadForm::new();
    form.set_task_id("t1".to_string());
    form.begin_file(Some("a".to_string()), None).unwrap();
    let err = form.add_chunk(3 * 1024 * 1024, 2 * 1024 * 1024).unwrap_err();
    assert_eq!(bad_request(err), "文件大小超过限制: 3 > 2 MB");
}

#[test]
fn upload_task_checks() {
    let t = Task::new("u", "svc", None);
    assert_eq!(check_upload_task(None, None).unwrap_err(), AppError::NotFound);
    assert_eq!(check_upload_task(Some(&t), Some("other")).unwrap_err(), AppError::Forbidden);
    assert!(check_upload_task(Some(&t), Some("svc")).is_ok());
    assert!(check_upload_task(Some(&t), None).is_ok());
    let rec = upload_record("t1", "out.txt", None, 12, FileCreatedBy::Agent);
    assert_eq!(rec.task_id, "t1");
    assert!(rec.storage_path.starts_with("t1/"));
    assert_eq!(rec.size_bytes, 12);
    assert_eq!(rec.created_by, FileCreatedBy::Agent);
}

#[test]
fn agent_file_access() {
    let t = Task::new("u", "svc", None);
    let f = TaskFile::new(&t.id, "a", None, 1, "p", FileCreatedBy::Client);
    assert_eq!(verify_agent_file_access(None, Some(t.clone()), "svc").unwrap_err(), AppError::NotFound);
    assert_eq!(verify_agent_file_access(Some(f.clone()), None, "svc").unwrap_err(), AppError::NotFound);
    assert_eq!(verify_agent_file_access(Some(f.clone()), Some(t.clone()), "x").unwrap_err(), AppError::Forbidden);
    let (ff, tt) = verify_agent_file_access(Some(f.clone()), Some(t.clone()), "svc").unwrap();
    assert_eq!((ff.id, tt.id), (f.id.clone(), t.id));
    let list = file_list(vec![f.clone()]);
    assert_eq!(list.files.len(), 1);
    assert_eq!(list.files[0].id, f.id);
}

// ---- admin ----

#[test]
fn admin_task_list_page_is_clamped() {
    let q = AdminListTasksQuery { user_id: Some("  ".to_string()), status: Some("done".to_string()), service_id: None, limit: None, offset: None };
    let p = plan_admin_task_list(q);
    assert_eq!((p.limit, p.offset), (100, 0));
    assert_eq!(p.user_id, None);
    assert_eq!(p.status, Some("done".to_string()));
    let q = AdminListTasksQuery { user_id: None, status: None, service_id: Some(" s ".to_string()), limit: Some(0), offset: Some(-3) };
    let p = plan_admin_task_list(q);
    assert_eq!((p.limit, p.offset), (1, 0));
    assert_eq!(p.service_id, Some(" s ".to_string()));
    let q = AdminListTasksQuery { user_id: None, status: None, service_id: None, limit: Some(5000), offset: Some(7) };
    assert_eq!(plan_admin_task_list(q).limit, 1000);
}

#[test]
fn admin_task_response_names_the_user() {
    let t = Task::new("u1", "svc", None);
    let r = AdminTaskResponse::from_task(t.clone(), Some("Ann".to_string()));
    assert_eq!(r.user_name, Some("Ann".to_string()));
    assert_eq!(r.status, "pending");
    assert_eq!(r.id, t.id);
}

#[test]
fn admins_cannot_delete_or_demote_themselves() {
    let me = AuthUser { user_id: "admin1".to_string(), api_key: "h".to_string(), role: "admin".to_string() };
    assert_eq!(bad_request(delete_user(&me, "admin1", true).unwrap_err()), "不能删除当前登录的管理员账户");
    assert_eq!(delete_user(&me, "u2", false).unwrap_err(), AppError::NotFound);
    assert!(delete_user(&me, "u2", true).is_ok());
    let req = UpdateUserRoleRequest { role: UserRole::Admin };
    assert_eq!(bad_request(update_user_role(&me, "admin1", req.clone(), None).unwrap_err()), "不能修改当前登录管理员的角色");
    assert_eq!(update_user_role(&me, "u2", req.clone(), None).unwrap_err(), AppError::NotFound);
    let u = User { id: "u2".to_string(), api_key: "h".to_string(), name: "Bo".to_string(), role: UserRole::Client, created_at: 1 };
    let updated = update_user_role(&me, "u2", req, Some(u)).unwrap();
    assert_eq!(updated.role, UserRole::Admin);
    assert_eq!(updated.name, "Bo");
    let listed = list_users(vec![updated]);
    assert_eq!(listed[0].role, "admin");
    assert_eq!(listed[0].api_key, "");
    assert!(list_user_permissions(false, vec![]).is_err());
    assert!(list_user_permissions(true, vec![]).unwrap().is_empty());
    assert_eq!(revoke_service_permission(true, false).unwrap_err(), AppError::NotFound);
    assert!(revoke_service_permission(true, true).is_ok());
}

// ---- stopping a background server ----

fn run_stop(probes: &[bool], signals: &[bool]) -> (Vec<StopAction>, Vec<StopNotice>) {
    let mut probes = probes.iter();
    let mut signals = signals.iter();
    let mut phase = StopPhase::Start;
    let mut event = StopEvent::Begin;
    let mut actions = Vec::new();
    let mut notices = Vec::new();
    loop {
        let step = stop_step(phase, event);
        if let Some(n) = step.notice {
            notices.push(n);
        }
        actions.push(step.action);
        phase = step.phase;
        event = match step.action {
            StopAction::Probe => StopEvent::Alive(*probes.next().expect("probe")),
            StopAction::Terminate | StopAction::Kill => StopEvent::Signalled(*signals.next().expect("signal")),
            StopAction::Sleep => StopEvent::Slept,
            StopAction::Done(_) | StopAction::Fail(_) => break,
        };
    }
    (actions, notices)
}

#[test]
fn stopping_a_process_that_is_not_running() {
    let (actions, _) = run_stop(&[false], &[]);
    assert_eq!(actions, vec![StopAction::Probe, StopAction::Done(StopOutcome::NotRunning)]);
}

#[test]
fn stopping_a_process_that_exits_on_term() {
    let (actions, notices) = run_stop(&[true, true, false, false], &[true]);
    assert_eq!(
        actions,
        vec![
            StopAction::Probe,
            StopAction::Terminate,
            StopAction::Sleep,
            StopAction::Probe,
            StopAction::Sleep,
            StopAction::Probe,
            StopAction::Probe,
            StopAction::Done(StopOutcome::Stopped),
        ]
    );
    assert_eq!(notices, vec![StopNotice::Stopping]);
}

#[test]
fn stopping_kills_after_fifty_polls() {
    let mut probes = vec![true];
    probes.extend(std::iter::repeat(true).take(50));
    probes.push(false);
    let (actions, notices) = run_stop(&probes, &[true, true]);
    assert_eq!(actions.iter().filter(|a| **a == StopAction::Sleep).count(), 50);
    assert_eq!(actions[actions.len() - 3], StopAction::Kill);
    assert_eq!(actions.last(), Some(&StopAction::Done(StopOutcome::Stopped)));
    assert_eq!(notices, vec![StopNotice::Stopping, StopNotice::Timeout]);
}

#[test]
fn stopping_failures() {
    let (actions, _) = run_stop(&[true, true], &[false]);
    assert_eq!(actions.last(), Some(&StopAction::Fail(StopFailure::TermFailed)));
    let (actions, _) = run_stop(&[true, false], &[false]);
    assert_eq!(actions.last(), Some(&StopAction::Done(StopOutcome::Exited)));
    let mut probes = vec![true];
    probes.extend(std::iter::repeat(true).take(50));
    probes.push(true);
    let (actions, _) = run_stop(&probes, &[true, false]);
    assert_eq!(actions.last(), Some(&StopAction::Fail(StopFailure::KillFailed)));
}

#[test]
fn stop_messages() {
    assert_eq!(outcome_text(StopOutcome::NotRunning, 42), "Server 未在运行 (PID: 42 已不存在)");
    assert_eq!(outcome_text(StopOutcome::Exited, 42), "Server 已停止 (PID: 42 已退出)");
    assert_eq!(outcome_text(StopOutcome::Stopped, 42), "Server 已停止");
    assert_eq!(failure_text(StopFailure::StillRunning), "Server 停止后进程仍存在");
    assert_eq!(notice_text(StopNotice::Stopping, 7), "正在停止 Server (PID: 7)...");
    assert_eq!(notice_text(StopNotice::Timeout, 7), "优雅关闭超时，强制终止 (PID: 7)...");
}
