use open_aaas_server::handlers::client::{status_summary, StatusCounts};
use open_aaas_server::auth::{hash_api_key, AuthUser};
use open_aaas_server::error::AppError;
use open_aaas_server::handlers::client::{
    add_chunk, cancel_task_at, check_grant, check_profile_name, check_service_access,
    get_service_load_handler, get_service_usage, get_task, plan_create_task, plan_task_list,
    register_user, sanitize_filename, service_list_items, status_alerts, upload_filename,
    valid_session_id, validate_username, CreateTaskForm, TaskListFilter, UploadedFile,
};
use open_aaas_server::models::file::FileCreatedBy;
use open_aaas_server::models::service::{AgentStatus, Service};
use open_aaas_server::models::task::{ListTasksQuery, Task, TaskStatus};

fn bad_request(e: AppError) -> String {
    match e {
        AppError::BadRequest(msg) => msg,
        other => panic!("期望是 BadRequest 错误类型, got {:?}", other),
    }
}

fn user(id: &str, role: &str) -> AuthUser {
    AuthUser { user_id: id.to_string(), api_key: "hash".to_string(), role: role.to_string() }
}

fn service(id: &str, is_public: bool) -> Service {
    Service {
        id: id.to_string(),
        name: "Test Service".to_string(),
        description: "A test service".to_string(),
        usage: "Test usage".to_string(),
        agent_api_key: None,
        agent_status: AgentStatus::Online,
        agent_capacity: 5,
        agent_current_load: 2,
        agent_last_heartbeat: Some(1_700_000_000_000),
        registration_token: None,
        registration_status: "active".to_string(),
        is_public,
        created_at: 1_700_000_000_000,
    }
}

#[test]
fn test_validate_username_success() {
    let result = validate_username("valid_user");
    assert!(result.is_ok());
    assert_eq!(result.unwrap(), "valid_user");
}

#[test]
fn test_validate_username_empty() {
    let result = validate_username("");
    assert!(result.is_err());
    assert!(bad_request(result.unwrap_err()).contains("不能为空"));
}

#[test]
fn test_validate_username_whitespace() {
    let result = validate_username("   ");
    assert!(result.is_err());
}

#[test]
fn test_validate_username_too_long() {
    let long_name = "a".repeat(65);
    let result = validate_username(&long_name);
    assert!(result.is_err());
    assert!(bad_request(result.unwrap_err()).contains("64"));
}

#[test]
fn test_validate_username_invalid_chars() {
    let result = validate_username("user/../name");
    assert!(result.is_err());
    let result = validate_username("user/name");
    assert!(result.is_err());
    let result = validate_username("user\\name");
    assert!(result.is_err());
}

#[test]
fn validate_username_trims_and_counts_characters() {
    assert_eq!(validate_username("  bob  ").unwrap(), "bob");
    assert!(validate_username(&"a".repeat(64)).is_ok());
    // 22 three-byte characters are 66 bytes but 22 characters.
    assert_eq!(validate_username(&"名".repeat(22)).unwrap(), "名".repeat(22));
    assert!(validate_username(&"名".repeat(64)).is_ok());
    assert!(bad_request(validate_username(&"名".repeat(65)).unwrap_err()).contains("64"));
    assert_eq!(bad_request(validate_username("a\0b").unwrap_err()), "用户名包含空字节");
}

#[test]
fn test_sanitize_filename_success() {
    let result = sanitize_filename("valid_file.txt");
    assert!(result.is_ok());
    assert_eq!(result.unwrap(), "valid_file.txt");
}

#[test]
fn test_sanitize_filename_empty() {
    let result = sanitize_filename("");
    assert!(result.is_err());
}

#[test]
fn test_sanitize_filename_path_traversal() {
    let result = sanitize_filename("../etc/passwd");
    assert!(result.is_err());
    let result = sanitize_filename("file/../../../etc/passwd");
    assert!(result.is_err());
}

#[test]
fn sanitize_filename_errors_in_order() {
    assert_eq!(bad_request(sanitize_filename("   ").unwrap_err()), "文件名不能为空");
    assert_eq!(bad_request(sanitize_filename(&"x".repeat(256)).unwrap_err()), "文件名过长");
    assert_eq!(bad_request(sanitize_filename("a\\b").unwrap_err()), "文件名包含非法字符");
    assert_eq!(bad_request(sanitize_filename("a\0b").unwrap_err()), "文件名包含空字节");
    assert_eq!(bad_request(sanitize_filename(".").unwrap_err()), "无效的文件名");
    assert_eq!(sanitize_filename("  report.pdf ").unwrap(), "report.pdf");
}

#[test]
fn upload_filename_defaults_to_unnamed() {
    assert_eq!(upload_filename(None).unwrap(), "unnamed");
    assert_eq!(upload_filename(Some("a.txt")).unwrap(), "a.txt");
    assert!(upload_filename(Some("../a")).is_err());
}

#[test]
fn session_ids_are_checked() {
    assert!(valid_session_id("session-1_a"));
    assert!(valid_session_id("会话1"));
    assert!(!valid_session_id("   "));
    assert!(!valid_session_id("a/b"));
    assert!(!valid_session_id("a..b"));
    assert!(!valid_session_id("a b"));
    assert!(!valid_session_id(&"a".repeat(65)));
    assert!(valid_session_id(&"a".repeat(64)));
}

#[test]
fn create_task_form_collects_fields() {
    let mut form = CreateTaskForm::new();
    form.apply_text_field("service_id", "svc".to_string());
    form.apply_text_field("task_prompt", "do it".to_string());
    form.apply_text_field("output_prompt", "as json".to_string());
    form.apply_text_field("session_id", "bad id!".to_string());
    form.apply_text_field("other", "ignored".to_string());
    let fields = form.clone().finish().unwrap();
    assert_eq!(fields.service_id, "svc");
    assert_eq!(fields.task_prompt, "do it");
    assert_eq!(fields.output_prompt, "as json");
    assert_eq!(fields.session_id, None);
    form.apply_text_field("session_id", "s-1".to_string());
    assert_eq!(form.finish().unwrap().session_id, Some("s-1".to_string()));
}

#[test]
fn create_task_form_reports_first_missing_field() {
    let form = CreateTaskForm::new();
    assert_eq!(bad_request(form.finish().unwrap_err()), "缺少 service_id 字段");
    let mut form = CreateTaskForm::new();
    form.apply_text_field("service_id", "svc".to_string());
    assert_eq!(bad_request(form.clone().finish().unwrap_err()), "缺少 task_prompt 字段");
    form.apply_text_field("task_prompt", "p".to_string());
    assert_eq!(bad_request(form.finish().unwrap_err()), "缺少 output_prompt 字段");
}

#[test]
fn add_chunk_reports_sizes_in_mb() {
    assert_eq!(add_chunk(0, 100, 1000).unwrap(), 100);
    assert_eq!(add_chunk(900, 100, 1000).unwrap(), 1000);
    let msg = bad_request(add_chunk(3 * 1024 * 1024, 1024 * 1024, 2 * 1024 * 1024).unwrap_err());
    assert_eq!(msg, "文件大小超过限制: 4 > 2 MB");
}

fn fields(session: Option<&str>) -> open_aaas_server::handlers::client::TaskFields {
    let mut form = CreateTaskForm::new();
    form.apply_text_field("service_id", "svc".to_string());
    form.apply_text_field("task_prompt", "say \"hi\"".to_string());
    form.apply_text_field("output_prompt", "text".to_string());
    if let Some(s) = session {
        form.apply_text_field("session_id", s.to_string());
    }
    form.finish().unwrap()
}

#[test]
fn plan_create_task_unknown_service() {
    let err = plan_create_task(&user("u1", "client"), fields(None), None, false, &vec![]).unwrap_err();
    assert_eq!(bad_request(err), "服务 'svc' 不存在");
}

#[test]
fn plan_create_task_restricted_service_needs_permission() {
    let s = service("svc", false);
    let err = plan_create_task(&user("u1", "client"), fields(None), Some(&s), false, &vec![]).unwrap_err();
    assert_eq!(err, AppError::Forbidden);
    assert!(plan_create_task(&user("u1", "client"), fields(None), Some(&s), true, &vec![]).is_ok());
    assert!(plan_create_task(&user("u1", "admin"), fields(None), Some(&s), false, &vec![]).is_ok());
}

#[test]
fn plan_create_task_without_files() {
    let s = service("svc", true);
    let plan = plan_create_task(&user("u1", "client"), fields(Some("sess-1")), Some(&s), false, &vec![]).unwrap();
    assert_eq!(plan.task.user_id, "u1");
    assert_eq!(plan.task.service_id, "svc");
    assert_eq!(plan.task.status, TaskStatus::Pending);
    assert_eq!(plan.task.session_id, "sess-1");
    assert_eq!(
        plan.task.input.as_deref(),
        Some("{\"input_files\":[],\"output_prompt\":\"text\",\"task_prompt\":\"say \\\"hi\\\"\"}")
    );
    assert!(plan.files.is_empty());
    assert!(plan.final_input.is_none());
}

#[test]
fn plan_create_task_with_files() {
    let s = service("svc", true);
    let uploads = vec![
        UploadedFile { filename: "a.txt".to_string(), mime_type: Some("text/plain".to_string()), size_bytes: 3 },
        UploadedFile { filename: "b.bin".to_string(), mime_type: None, size_bytes: 5 },
    ];
    let plan = plan_create_task(&user("u1", "client"), fields(None), Some(&s), false, &uploads).unwrap();
    assert_eq!(plan.task.session_id.len(), 36);
    assert_eq!(plan.files.len(), 2);
    for (f, u) in plan.files.iter().zip(uploads.iter()) {
        assert_eq!(f.task_id, plan.task.id);
        assert_eq!(f.filename, u.filename);
        assert_eq!(f.mime_type, u.mime_type);
        assert_eq!(f.size_bytes, u.size_bytes);
        assert_eq!(f.created_by, FileCreatedBy::Client);
        assert!(f.storage_path.starts_with(&format!("{}/", plan.task.id)));
        assert_eq!(f.storage_path.len(), plan.task.id.len() + 1 + 36);
    }
    let expected = format!(
        "{{\"input_files\":[\"{}\",\"{}\"],\"output_prompt\":\"text\",\"task_prompt\":\"say \\\"hi\\\"\"}}",
        plan.files[0].id, plan.files[1].id
    );
    assert_eq!(plan.final_input, Some(expected));
}

#[test]
fn task_list_plan_defaults_and_priority() {
    let q = ListTasksQuery { status: None, service_id: None, limit: None, offset: None };
    let p = plan_task_list(q);
    assert_eq!((p.limit, p.offset), (20, 0));
    assert!(matches!(p.filter, TaskListFilter::All));
    let q = ListTasksQuery { status: Some("running".to_string()), service_id: Some("svc".to_string()), limit: Some(5), offset: Some(10) };
    let p = plan_task_list(q);
    assert!(matches!(p.filter, TaskListFilter::Status(ref s) if s == "running"));
    assert_eq!((p.limit, p.offset), (5, 10));
    let q = ListTasksQuery { status: None, service_id: Some("svc".to_string()), limit: None, offset: None };
    assert!(matches!(plan_task_list(q).filter, TaskListFilter::Service(ref s) if s == "svc"));
}

#[test]
fn get_task_checks_owner() {
    let t = Task::new("u1", "svc", None);
    assert_eq!(get_task(&user("u1", "client"), None).unwrap_err(), AppError::NotFound);
    assert_eq!(get_task(&user("u2", "client"), Some(t.clone())).unwrap_err(), AppError::Forbidden);
    assert_eq!(get_task(&user("u2", "admin"), Some(t.clone())).unwrap().id, t.id);
    assert_eq!(get_task(&user("u1", "client"), Some(t.clone())).unwrap().status, "pending");
}

#[test]
fn cancel_pending_and_running_tasks() {
    let owner = user("u1", "client");
    let pending = Task::new("u1", "svc", None);
    let cancelled = cancel_task_at(&owner, Some(pending), 42).unwrap();
    assert_eq!(cancelled.status, TaskStatus::Cancelled);
    assert_eq!(cancelled.completed_at, Some(42));
    let mut running = Task::new("u1", "svc", None);
    running.start();
    let cancelling = cancel_task_at(&owner, Some(running), 42).unwrap();
    assert_eq!(cancelling.status, TaskStatus::Cancelling);
    assert_eq!(cancelling.completed_at, None);
}

#[test]
fn cancel_refuses_finished_tasks_and_strangers() {
    let owner = user("u1", "client");
    let mut done = Task::new("u1", "svc", None);
    done.complete(None);
    assert_eq!(bad_request(cancel_task_at(&owner, Some(done), 1).unwrap_err()), "当前状态 Completed 的任务无法取消");
    let mut c = Task::new("u1", "svc", None);
    c.status = TaskStatus::Cancelling;
    assert_eq!(bad_request(cancel_task_at(&owner, Some(c), 1).unwrap_err()), "当前状态 Cancelling 的任务无法取消");
    let t = Task::new("u1", "svc", None);
    assert_eq!(cancel_task_at(&user("u2", "client"), Some(t), 1).unwrap_err(), AppError::Forbidden);
    assert_eq!(cancel_task_at(&owner, None, 1).unwrap_err(), AppError::NotFound);
}

#[test]
fn service_list_shows_permissions() {
    let services = vec![service("pub", true), service("res1", false), service("res2", false)];
    let items = service_list_items(&services, &user("u1", "client"), &vec!["res2".to_string()]);
    assert_eq!(items.len(), 3);
    assert_eq!(items[0].access_type, "public");
    assert!(items[0].has_permission);
    assert_eq!(items[1].access_type, "restricted");
    assert!(!items[1].has_permission);
    assert!(items[2].has_permission);
    let admin_items = service_list_items(&services, &user("a", "admin"), &vec![]);
    assert!(admin_items.iter().all(|i| i.has_permission));
}

#[test]
fn service_load_reports_free_slots() {
    let r = get_service_load_handler(&user("u1", "client"), Some(service("svc", true)), false, 2, 1).unwrap();
    assert_eq!((r.capacity, r.current_load, r.available_slots), (5, 2, 3));
    assert_eq!((r.pending_tasks, r.running_tasks), (2, 1));
    assert_eq!(r.agent_status, "online");
    let mut over = service("svc", true);
    over.agent_capacity = 0;
    over.agent_current_load = 0;
    assert_eq!(get_service_load_handler(&user("u1", "client"), Some(over), false, 0, 0).unwrap().available_slots, 0);
    let mut inconsistent = service("svc", true);
    inconsistent.agent_capacity = 1;
    inconsistent.agent_current_load = 3;
    assert_eq!(get_service_load_handler(&user("u1", "client"), Some(inconsistent), false, 0, 0).unwrap().available_slots, 0);
    assert_eq!(get_service_load_handler(&user("u1", "client"), None, false, 0, 0).unwrap_err(), AppError::NotFound);
    assert_eq!(get_service_load_handler(&user("u1", "client"), Some(service("svc", false)), false, 0, 0).unwrap_err(), AppError::Forbidden);
    // A restricted service is refused before its load is looked at.
    let mut extreme = service("svc", false);
    extreme.agent_capacity = i64::MAX;
    extreme.agent_current_load = -1;
    assert_eq!(get_service_load_handler(&user("u1", "client"), Some(extreme), false, 0, 0).unwrap_err(), AppError::Forbidden);
}

#[test]
fn service_usage_and_access() {
    let u = get_service_usage(&user("u1", "client"), Some(service("svc", false)), true).unwrap();
    assert_eq!(u.usage, "Test usage");
    assert_eq!(check_service_access(&user("u1", "client"), None, true).unwrap_err(), AppError::NotFound);
}

#[test]
fn grant_rules() {
    let restricted = service("svc", false);
    let public = service("pub", true);
    assert_eq!(check_grant(&user("u1", "client"), Some(&restricted), true).unwrap_err(), AppError::Forbidden);
    assert_eq!(check_grant(&user("a", "admin"), None, true).unwrap_err(), AppError::NotFound);
    assert_eq!(bad_request(check_grant(&user("a", "admin"), Some(&public), true).unwrap_err()), "公开服务无需授权");
    assert_eq!(bad_request(check_grant(&user("a", "admin"), Some(&restricted), false).unwrap_err()), "目标用户不存在");
    assert!(check_grant(&user("a", "admin"), Some(&restricted), true).is_ok());
}

#[test]
fn registration_issues_a_client_key() {
    let secret = "test-secret-key-for-unit-tests-only";
    let r = register_user("alice", false, Some(secret)).unwrap();
    assert!(r.response.api_key.starts_with("ak_client_"));
    assert_eq!(r.response.api_key.len(), 42);
    assert_eq!(r.response.role, "client");
    assert_eq!(r.response.name, "alice");
    assert_eq!(r.response.id.len(), 36);
    assert_eq!(r.api_key_hash, hash_api_key(secret, &r.response.api_key));
    match register_user("alice", true, Some(secret)).unwrap_err() {
        AppError::Conflict(m) => assert_eq!(m, "用户名 'alice' 已存在"),
        other => panic!("unexpected {:?}", other),
    }
    match register_user("alice", false, None).unwrap_err() {
        AppError::Internal(m) => assert_eq!(m, "secret_key 未配置"),
        other => panic!("unexpected {:?}", other),
    }
}

#[test]
fn profile_name_must_be_free() {
    assert!(check_profile_name("bob", false).is_ok());
    match check_profile_name("bob", true).unwrap_err() {
        AppError::Conflict(m) => assert_eq!(m, "用户名 'bob' 已被使用"),
        other => panic!("unexpected {:?}", other),
    }
}

#[test]
fn status_alerts_in_order() {
    assert!(status_alerts(0, 1, 0, 5, 0).is_empty());
    assert_eq!(
        status_alerts(2, 0, 0, 3, 4),
        vec![
            "有 2 个服务已离线".to_string(),
            "有 pending 任务但无可用服务".to_string(),
            "有 4 个任务失败".to_string(),
        ]
    );
    assert_eq!(status_alerts(0, 0, 1, 3, 0), Vec::<String>::new());
}

#[test]
fn status_summary_reports_counts_only_when_the_database_answers() {
    let counts = StatusCounts {
        services_total: 3, online: 0, busy: 0, offline: 2,
        tasks_total: 9, pending: 4, running: 0, completed: 3, failed: 2,
    };
    let ok = status_summary(true, Some(counts));
    assert_eq!(ok.http_status, 200);
    assert_eq!(ok.stats.unwrap().pending, 4);
    assert_eq!(ok.alerts.len(), 3);
    assert_eq!(ok.alerts[0], "有 2 个服务已离线");
    let down = status_summary(false, Some(counts));
    assert_eq!(down.http_status, 503);
    assert!(down.stats.is_none());
    assert!(down.alerts.is_empty());
}
