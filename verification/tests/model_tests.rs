use open_aaas_server::error::AppError;
use open_aaas_server::models::file::{FileCreatedBy, FileInfoResponse, TaskFile, UploadFileResponse};
use open_aaas_server::models::service::{
    default_true, AgentStatus, RegistrationStatus, Service, ServiceResponse, UserServicePermission,
};
use open_aaas_server::models::task::{Task, TaskInput, TaskResponse, TaskStatus};
use open_aaas_server::models::user::{User, UserResponse, UserRole};

fn now_millis() -> i64 {
    chrono::Utc::now().timestamp_millis()
}

// ---- FileCreatedBy ----

#[test]
fn test_file_created_by_default() {
    let creator: FileCreatedBy = Default::default();
    assert_eq!(creator, FileCreatedBy::Client);
}

#[test]
fn test_file_created_by_to_string() {
    assert_eq!(FileCreatedBy::Client.to_string(), "client");
    assert_eq!(FileCreatedBy::Agent.to_string(), "agent");
}

#[test]
fn test_file_created_by_clone_and_eq() {
    let creator = FileCreatedBy::Agent;
    let cloned = creator.clone();
    assert_eq!(creator, cloned);
    assert_eq!(creator, FileCreatedBy::Agent);
    assert_ne!(creator, FileCreatedBy::Client);
}

// ---- TaskFile ----

#[test]
fn test_task_file_new() {
    let file = TaskFile::new("task_123", "test.txt", Some("text/plain".to_string()), 1024, "task_123/test.txt", FileCreatedBy::Client);
    assert!(!file.id.is_empty());
    assert_eq!(file.task_id, "task_123");
    assert_eq!(file.filename, "test.txt");
    assert_eq!(file.mime_type, Some("text/plain".to_string()));
    assert_eq!(file.size_bytes, 1024);
    assert_eq!(file.storage_path, "task_123/test.txt");
    assert_eq!(file.created_by, FileCreatedBy::Client);
}

#[test]
fn test_task_file_new_without_mime_type() {
    let file = TaskFile::new("task_456", "data.bin", None, 2048, "task_456/data.bin", FileCreatedBy::Agent);
    assert_eq!(file.task_id, "task_456");
    assert_eq!(file.filename, "data.bin");
    assert!(file.mime_type.is_none());
    assert_eq!(file.size_bytes, 2048);
    assert_eq!(file.created_by, FileCreatedBy::Agent);
}

#[test]
fn test_task_file_new_with_string_refs() {
    let task_id = String::from("task_789");
    let filename = String::from("document.pdf");
    let path = String::from("task_789/document.pdf");
    let file = TaskFile::new(&task_id, &filename, Some("application/pdf".to_string()), 1024000, &path, FileCreatedBy::Client);
    assert_eq!(file.task_id, "task_789");
    assert_eq!(file.filename, "document.pdf");
    assert_eq!(file.storage_path, "task_789/document.pdf");
}

#[test]
fn test_task_file_clone() {
    let file = TaskFile::new("task_123", "test.txt", Some("text/plain".to_string()), 1024, "task_123/test.txt", FileCreatedBy::Client);
    let cloned = file.clone();
    assert_eq!(cloned.id, file.id);
    assert_eq!(cloned.task_id, file.task_id);
    assert_eq!(cloned.filename, file.filename);
    assert_eq!(cloned.mime_type, file.mime_type);
    assert_eq!(cloned.size_bytes, file.size_bytes);
    assert_eq!(cloned.storage_path, file.storage_path);
    assert_eq!(cloned.created_by, file.created_by);
    assert_eq!(cloned.created_at, file.created_at);
}

#[test]
fn test_full_storage_path_invalid_base_path() {
    let file = TaskFile::new("task_123", "test.txt", None, 100, "task_123/test.txt", FileCreatedBy::Client);
    // "/nonexistent/path/that/does/not/exist" cannot be resolved, so no canonical base is known.
    let result = file.full_storage_path(None);
    assert!(result.is_err());
    match result.unwrap_err() {
        AppError::Internal(msg) => assert!(msg.contains("无效") || msg.contains("存储路径")),
        _ => panic!("应该是 Internal 错误"),
    }
}

#[test]
fn full_storage_path_joins_under_the_base() {
    let file = TaskFile::new("task_123", "test.txt", None, 100, "task_123/test.txt", FileCreatedBy::Client);
    assert_eq!(file.full_storage_path(Some("/srv/files")).unwrap(), "/srv/files/task_123/test.txt");
}

#[test]
fn full_storage_path_refuses_paths_that_climb_out() {
    for sp in ["../outside.txt", "task_1/../../etc/passwd", "/srv/files/../x", "a/../../b"] {
        let file = TaskFile::new("task_123", "x", None, 1, sp, FileCreatedBy::Client);
        match file.full_storage_path(Some("/srv/files")).unwrap_err() {
            AppError::Internal(msg) => assert_eq!(msg, "非法的文件路径"),
            other => panic!("unexpected {:?}", other),
        }
    }
}

#[test]
fn full_storage_path_accepts_paths_that_stay_under_the_root() {
    let cases = [
        ("a/../b", "/srv/files/a/../b"),
        ("/srv/files/x", "/srv/files/x"),
        ("a/..", "/srv/files/a/.."),
        ("task_1/a..b", "/srv/files/task_1/a..b"),
        ("./task_1/./f", "/srv/files/./task_1/./f"),
    ];
    for (sp, expected) in cases {
        let file = TaskFile::new("task_123", "x", None, 1, sp, FileCreatedBy::Client);
        assert_eq!(file.full_storage_path(Some("/srv/files")).unwrap(), expected);
    }
}

#[test]
fn full_storage_path_refuses_paths_outside_the_base() {
    let file = TaskFile::new("task_123", "test.txt", None, 100, "/etc/passwd", FileCreatedBy::Client);
    match file.full_storage_path(Some("/srv/files")).unwrap_err() {
        AppError::Internal(msg) => assert_eq!(msg, "非法的文件路径"),
        other => panic!("unexpected {:?}", other),
    }
}

#[test]
fn test_upload_file_response_from_task_file() {
    let file = TaskFile::new("task_123", "document.pdf", Some("application/pdf".to_string()), 1024000, "task_123/document.pdf", FileCreatedBy::Client);
    let response = UploadFileResponse::from_file(file.clone());
    assert_eq!(response.file_id, file.id);
    assert_eq!(response.filename, file.filename);
    assert_eq!(response.mime_type, file.mime_type);
    assert_eq!(response.size_bytes, file.size_bytes);
    assert_eq!(response.created_at, file.created_at);
}

#[test]
fn test_file_info_response_from_task_file() {
    let file = TaskFile::new("task_123", "image.png", Some("image/png".to_string()), 512000, "task_123/image.png", FileCreatedBy::Agent);
    let response = FileInfoResponse::from_file(file.clone());
    assert_eq!(response.id, file.id);
    assert_eq!(response.task_id, file.task_id);
    assert_eq!(response.filename, file.filename);
    assert_eq!(response.mime_type, file.mime_type);
    assert_eq!(response.size_bytes, file.size_bytes);
    assert_eq!(response.created_by, file.created_by);
    assert_eq!(response.created_at, file.created_at);
}

#[test]
fn test_task_file_zero_size() {
    let file = TaskFile::new("task_123", "empty.txt", Some("text/plain".to_string()), 0, "task_123/empty.txt", FileCreatedBy::Client);
    assert_eq!(file.size_bytes, 0);
}

#[test]
fn test_task_file_large_size() {
    let large_size = i64::MAX;
    let file = TaskFile::new("task_123", "large.bin", None, large_size, "task_123/large.bin", FileCreatedBy::Agent);
    assert_eq!(file.size_bytes, large_size);
}

#[test]
fn test_task_file_special_characters_in_filename() {
    let file = TaskFile::new("task_123", "file with spaces & symbols!.txt", Some("text/plain".to_string()), 100, "task_123/file with spaces & symbols!.txt", FileCreatedBy::Client);
    assert_eq!(file.filename, "file with spaces & symbols!.txt");
}

#[test]
fn test_task_file_unicode_filename() {
    let file = TaskFile::new("task_123", "中文文件.pdf", Some("application/pdf".to_string()), 1024, "task_123/中文文件.pdf", FileCreatedBy::Client);
    assert_eq!(file.filename, "中文文件.pdf");
}

// ---- AgentStatus / RegistrationStatus ----

#[test]
fn test_agent_status_default() {
    let status: AgentStatus = Default::default();
    assert_eq!(status, AgentStatus::Offline);
}

#[test]
fn test_agent_status_to_string() {
    assert_eq!(AgentStatus::Online.to_string(), "online");
    assert_eq!(AgentStatus::Offline.to_string(), "offline");
    assert_eq!(AgentStatus::Busy.to_string(), "busy");
}

#[test]
fn test_agent_status_clone_and_eq() {
    let status = AgentStatus::Online;
    let cloned = status;
    assert_eq!(status, cloned);
    assert_eq!(status, AgentStatus::Online);
    assert_ne!(status, AgentStatus::Offline);
}

#[test]
fn agent_status_parse_reads_the_names() {
    assert_eq!(AgentStatus::parse("online"), Some(AgentStatus::Online));
    assert_eq!(AgentStatus::parse("busy"), Some(AgentStatus::Busy));
    assert_eq!(AgentStatus::parse("offline"), Some(AgentStatus::Offline));
    assert_eq!(AgentStatus::parse("Online"), None);
}

#[test]
fn test_registration_status_default() {
    let status: RegistrationStatus = Default::default();
    assert_eq!(status, RegistrationStatus::Pending);
}

#[test]
fn test_registration_status_to_string() {
    assert_eq!(RegistrationStatus::Pending.to_string(), "pending");
    assert_eq!(RegistrationStatus::Active.to_string(), "active");
    assert_eq!(RegistrationStatus::Revoked.to_string(), "revoked");
}

#[test]
fn test_registration_status_clone_and_eq() {
    let status = RegistrationStatus::Active;
    let cloned = status;
    assert_eq!(status, cloned);
    assert_eq!(status, RegistrationStatus::Active);
    assert_ne!(status, RegistrationStatus::Pending);
}

// ---- Service ----

#[test]
fn test_service_creation() {
    let now = now_millis();
    let service = Service {
        id: "service_123".to_string(),
        name: "Test Service".to_string(),
        description: "A test service".to_string(),
        usage: "Service usage description".to_string(),
        agent_api_key: Some("ak_agent_key".to_string()),
        agent_status: AgentStatus::Online,
        agent_capacity: 5,
        agent_current_load: 2,
        agent_last_heartbeat: Some(now),
        registration_token: Some("reg_token_123".to_string()),
        registration_status: "active".to_string(),
        is_public: true,
        created_at: now,
    };
    assert_eq!(service.id, "service_123");
    assert_eq!(service.name, "Test Service");
    assert_eq!(service.description, "A test service");
    assert_eq!(service.usage, "Service usage description");
    assert_eq!(service.agent_api_key, Some("ak_agent_key".to_string()));
    assert_eq!(service.agent_status, AgentStatus::Online);
    assert_eq!(service.agent_capacity, 5);
    assert_eq!(service.agent_current_load, 2);
    assert!(service.agent_last_heartbeat.is_some());
    assert_eq!(service.registration_token, Some("reg_token_123".to_string()));
    assert_eq!(service.registration_status, "active");
    assert!(service.is_public);
}

#[test]
fn test_service_clone() {
    let now = now_millis();
    let service = Service {
        id: "service_123".to_string(),
        name: "Test Service".to_string(),
        description: "A test service".to_string(),
        usage: "Instructions".to_string(),
        agent_api_key: Some("ak_key".to_string()),
        agent_status: AgentStatus::Offline,
        agent_capacity: 1,
        agent_current_load: 0,
        agent_last_heartbeat: None,
        registration_token: None,
        registration_status: "pending".to_string(),
        is_public: false,
        created_at: now,
    };
    let cloned = service.clone();
    assert_eq!(cloned.id, service.id);
    assert_eq!(cloned.name, service.name);
    assert_eq!(cloned.agent_status, service.agent_status);
    assert_eq!(cloned.is_public, service.is_public);
}

#[test]
fn test_default_true() {
    assert!(default_true());
}

#[test]
fn test_service_response_from_service() {
    let now = now_millis();
    let service = Service {
        id: "service_123".to_string(),
        name: "Test Service".to_string(),
        description: "Description".to_string(),
        usage: "Instructions".to_string(),
        agent_api_key: None,
        agent_status: AgentStatus::Busy,
        agent_capacity: 10,
        agent_current_load: 5,
        agent_last_heartbeat: Some(now),
        registration_token: None,
        registration_status: "active".to_string(),
        is_public: false,
        created_at: now,
    };
    let response = ServiceResponse::from_service(service.clone());
    assert_eq!(response.id, service.id);
    assert_eq!(response.name, service.name);
    assert_eq!(response.description, service.description);
    assert_eq!(response.usage, service.usage);
    assert_eq!(response.agent_status, service.agent_status);
    assert_eq!(response.registration_status, service.registration_status);
    assert_eq!(response.agent_capacity, service.agent_capacity);
    assert_eq!(response.agent_current_load, service.agent_current_load);
    assert_eq!(response.agent_last_heartbeat, service.agent_last_heartbeat);
    assert_eq!(response.is_public, service.is_public);
    assert_eq!(response.created_at, service.created_at);
}

#[test]
fn test_user_service_permission_creation() {
    let now = now_millis();
    let permission = UserServicePermission {
        id: "perm_123".to_string(),
        user_id: "user_456".to_string(),
        service_id: "service_789".to_string(),
        granted_at: now,
    };
    assert_eq!(permission.id, "perm_123");
    assert_eq!(permission.user_id, "user_456");
    assert_eq!(permission.service_id, "service_789");
}

#[test]
fn test_user_service_permission_clone() {
    let now = now_millis();
    let permission = UserServicePermission {
        id: "perm_123".to_string(),
        user_id: "user_456".to_string(),
        service_id: "service_789".to_string(),
        granted_at: now,
    };
    let cloned = permission.clone();
    assert_eq!(cloned.id, permission.id);
    assert_eq!(cloned.user_id, permission.user_id);
    assert_eq!(cloned.service_id, permission.service_id);
}

// ---- TaskStatus / Task ----

#[test]
fn test_task_status_default() {
    let status: TaskStatus = Default::default();
    assert_eq!(status, TaskStatus::Pending);
}

#[test]
fn test_task_status_to_string() {
    assert_eq!(TaskStatus::Pending.to_string(), "pending");
    assert_eq!(TaskStatus::Running.to_string(), "running");
    assert_eq!(TaskStatus::Completed.to_string(), "completed");
    assert_eq!(TaskStatus::Failed.to_string(), "failed");
    assert_eq!(TaskStatus::Cancelled.to_string(), "cancelled");
    assert_eq!(TaskStatus::Cancelling.to_string(), "cancelling");
}

#[test]
fn test_task_status_is_terminal() {
    assert!(TaskStatus::Completed.is_terminal());
    assert!(TaskStatus::Failed.is_terminal());
    assert!(TaskStatus::Cancelled.is_terminal());
    assert!(!TaskStatus::Pending.is_terminal());
    assert!(!TaskStatus::Running.is_terminal());
    assert!(!TaskStatus::Cancelling.is_terminal());
}

#[test]
fn test_task_status_can_cancel() {
    assert!(TaskStatus::Pending.can_cancel());
    assert!(TaskStatus::Running.can_cancel());
    assert!(!TaskStatus::Completed.can_cancel());
    assert!(!TaskStatus::Failed.can_cancel());
    assert!(!TaskStatus::Cancelled.can_cancel());
    assert!(!TaskStatus::Cancelling.can_cancel());
}

#[test]
fn test_task_status_is_cancelling() {
    assert!(TaskStatus::Cancelling.is_cancelling());
    assert!(!TaskStatus::Pending.is_cancelling());
    assert!(!TaskStatus::Running.is_cancelling());
    assert!(!TaskStatus::Completed.is_cancelling());
    assert!(!TaskStatus::Failed.is_cancelling());
    assert!(!TaskStatus::Cancelled.is_cancelling());
}

#[test]
fn test_task_status_clone_and_eq() {
    let status = TaskStatus::Running;
    let cloned = status;
    assert_eq!(status, cloned);
    assert_eq!(status, TaskStatus::Running);
    assert_ne!(status, TaskStatus::Pending);
}

#[test]
fn test_task_new() {
    let task = Task::new("user_123", "service_456", None);
    assert!(!task.id.is_empty());
    assert_eq!(task.user_id, "user_123");
    assert_eq!(task.service_id, "service_456");
    assert_eq!(task.status, TaskStatus::Pending);
    assert!(task.input.is_none());
    assert!(task.output.is_none());
    assert!(task.error_message.is_none());
    assert_eq!(task.retry_count, 0);
    assert!(!task.session_id.is_empty());
    assert!(task.output_format.is_none());
    assert!(task.assigned_at.is_none());
    assert!(task.started_at.is_none());
    assert!(task.completed_at.is_none());
}

#[test]
fn test_task_new_with_session_id() {
    let task = Task::new("user_123", "service_456", Some("custom_session".to_string()));
    assert_eq!(task.session_id, "custom_session");
}

#[test]
fn test_task_new_generates_session_id_v7() {
    let task = Task::new("user_123", "service_456", None);
    let session_uuid = uuid::Uuid::parse_str(&task.session_id).expect("session_id should be a valid UUID");
    let version = session_uuid.as_bytes()[6] >> 4;
    assert_eq!(version, 7, "expected UUID v7 session_id, got version {}", version);
    assert_eq!(task.session_id.chars().nth(14), Some('7'));
}

#[test]
fn test_task_with_input() {
    let input = "{\"prompt\":\"test task\"}".to_string();
    let task = Task::new("user_123", "service_456", None).with_input(input.clone());
    assert!(task.input.is_some());
    assert_eq!(task.input.unwrap(), input);
}

#[test]
fn test_task_assign_to_service() {
    let mut task = Task::new("user_123", "initial_service", None);
    task.assign_to_service("new_service");
    assert_eq!(task.service_id, "new_service");
    assert_eq!(task.status, TaskStatus::Running);
    assert!(task.assigned_at.is_some());
}

#[test]
fn test_task_start() {
    let mut task = Task::new("user_123", "service_456", None);
    task.start();
    assert_eq!(task.status, TaskStatus::Running);
    assert!(task.started_at.is_some());
}

#[test]
fn test_task_complete() {
    let mut task = Task::new("user_123", "service_456", None);
    let output = "{\"result\":\"success\"}".to_string();
    task.complete(Some(output.clone()));
    assert_eq!(task.status, TaskStatus::Completed);
    assert_eq!(task.output, Some(output));
    assert!(task.completed_at.is_some());
}

#[test]
fn test_task_complete_without_output() {
    let mut task = Task::new("user_123", "service_456", None);
    task.complete(None);
    assert_eq!(task.status, TaskStatus::Completed);
    assert!(task.output.is_none());
    assert!(task.completed_at.is_some());
}

#[test]
fn test_task_fail() {
    let mut task = Task::new("user_123", "service_456", None);
    task.fail("Something went wrong");
    assert_eq!(task.status, TaskStatus::Failed);
    assert_eq!(task.error_message, Some("Something went wrong".to_string()));
    assert!(task.completed_at.is_some());
}

#[test]
fn test_task_fail_with_string() {
    let mut task = Task::new("user_123", "service_456", None);
    let error = String::from("Error from string");
    task.fail(&error);
    assert_eq!(task.status, TaskStatus::Failed);
    assert_eq!(task.error_message, Some("Error from string".to_string()));
}

#[test]
fn test_task_cancel() {
    let mut task = Task::new("user_123", "service_456", None);
    task.cancel();
    assert_eq!(task.status, TaskStatus::Cancelled);
    assert!(task.completed_at.is_some());
}

#[test]
fn test_task_increment_retry() {
    let mut task = Task::new("user_123", "service_456", None);
    assert_eq!(task.retry_count, 0);
    task.increment_retry();
    assert_eq!(task.retry_count, 1);
    task.increment_retry();
    assert_eq!(task.retry_count, 2);
    task.increment_retry();
    assert_eq!(task.retry_count, 3);
}

#[test]
fn test_task_clone() {
    let task = Task::new("user_123", "service_456", None).with_input("{\"test\":true}".to_string());
    let cloned = task.clone();
    assert_eq!(cloned.id, task.id);
    assert_eq!(cloned.user_id, task.user_id);
    assert_eq!(cloned.service_id, task.service_id);
    assert_eq!(cloned.status, task.status);
    assert_eq!(cloned.session_id, task.session_id);
    assert_eq!(cloned.input, task.input);
}

#[test]
fn task_copy_keeps_every_field() {
    let task = Task::new("user_123", "service_456", None).with_input("{}".to_string());
    let copy = task.copy();
    assert_eq!(copy.id, task.id);
    assert_eq!(copy.input, task.input);
    assert_eq!(copy.created_at, task.created_at);
}

#[test]
fn test_task_input_creation() {
    let input = TaskInput {
        task_prompt: "Do something".to_string(),
        output_prompt: "Return as JSON".to_string(),
        input_files: vec![],
    };
    assert_eq!(input.task_prompt, "Do something");
    assert_eq!(input.output_prompt, "Return as JSON");
}

#[test]
fn test_task_input_clone() {
    let input = TaskInput {
        task_prompt: "Do something".to_string(),
        output_prompt: "Return as JSON".to_string(),
        input_files: vec![],
    };
    let cloned = input.clone();
    assert_eq!(cloned.task_prompt, input.task_prompt);
    assert_eq!(cloned.output_prompt, input.output_prompt);
}

#[test]
fn test_task_response_from_task() {
    let task = Task::new("user_123", "service_456", Some("session_789".to_string())).with_input("{\"key\":\"value\"}".to_string());
    let response = TaskResponse::from_task(task.clone());
    assert_eq!(response.id, task.id);
    assert_eq!(response.service_id, task.service_id);
    assert_eq!(response.status, "pending");
    assert_eq!(response.session_id, task.session_id);
    assert_eq!(response.retry_count, task.retry_count);
    assert_eq!(response.created_at, task.created_at);
    assert_eq!(response.input, task.input);
    assert_eq!(response.output, task.output);
    assert_eq!(response.error_message, task.error_message);
    assert_eq!(response.assigned_at, task.assigned_at);
    assert_eq!(response.started_at, task.started_at);
    assert_eq!(response.completed_at, task.completed_at);
}

// ---- users ----

#[test]
fn user_response_hides_the_key() {
    let u = User { id: "u1".to_string(), api_key: "hash".to_string(), name: "Ann".to_string(), role: UserRole::Admin, created_at: 7 };
    let r = UserResponse::from_user(u);
    assert_eq!(r.id, "u1");
    assert_eq!(r.name, "Ann");
    assert_eq!(r.api_key, "");
    assert_eq!(r.role, "admin");
    assert_eq!(r.created_at, 7);
    assert_eq!(UserRole::Client.to_string(), "client");
}
