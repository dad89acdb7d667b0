//! The client API: validation of names and uploads, task creation, access
//! to tasks and services, registration and the status report.

use vstd::prelude::*;
use crate::auth::{api_key_hash, hash_api_key, is_admin_role, role_is_admin, starts_with, AuthUser};
use crate::models::user::UserResponse;
use vstd::utf8::encode_utf8;
use crate::ids::{is_hyphenated_uuid, is_simple_uuid, new_v4_simple_string, new_v4_string};
use crate::json::{task_input_document, task_input_json, texts};
use crate::models::file::{FileCreatedBy, TaskFile};
use crate::models::service::{Service, ServiceListItem, ServiceUsageResponse};
use crate::clock::utc_now_millis;
use crate::models::task::{ListTasksQuery, Task, TaskResponse, TaskStatus};
use crate::error::{is_bad_request, is_conflict, AppError};
use crate::paths::single_component_file_name;
use crate::text::{
    byte_len, char_is_alphanumeric, concat, contains_char, contains_double_dot, has_char,
    has_double_dot, str_chars, str_eq, str_trim, trim, unicode_alphanumeric, u64_to_string,
    decimal, decimal_signed, i64_to_string,
};

verus! {

/// The outcome that a check owes: the accepted value, or the message of a
/// `BadRequest`.
pub open spec fn answers(res: Result<String, AppError>, expected: Result<Seq<char>, Seq<char>>) -> bool {
    match expected {
        Ok(v) => res matches Ok(s) && s@ == v,
        Err(m) => res matches Err(AppError::BadRequest(e)) && e@ == m,
    }
}

/// The checks shared by user names and file names, on the trimmed name `t`
/// whose length (as `len_of_t` counts it) may be at most `max`.
pub open spec fn name_check(t: Seq<char>, len_of_t: int, max: int, empty: Seq<char>, too_long: Seq<char>, illegal: Seq<char>, nul: Seq<char>) -> Result<Seq<char>, Seq<char>> {
    if t.len() == 0 {
        Err(empty)
    } else if len_of_t > max {
        Err(too_long)
    } else if has_double_dot(t) || has_char(t, '/') || has_char(t, '\\') {
        Err(illegal)
    } else if has_char(t, '\0') {
        Err(nul)
    } else {
        Ok(t)
    }
}

/// What `validate_username` owes for `name`.
pub open spec fn username_check(name: Seq<char>) -> Result<Seq<char>, Seq<char>> {
    name_check(
        trim(name),
        trim(name).len() as int,
        64,
        "用户名不能为空"@,
        "用户名不能超过64个字符"@,
        "用户名包含非法字符"@,
        "用户名包含空字节"@,
    )
}

/// A user name, trimmed: not empty, at most 64 characters, without "..",
/// '/', '\\' or NUL.
pub fn validate_username(name: &str) -> (res: Result<String, AppError>)
    ensures
        answers(res, username_check(name@)),
{
    let t = str_trim(name);
    if t.is_empty() {
        return Err(AppError::BadRequest(String::from_str("用户名不能为空")));
    }
    if str_chars(t).len() > 64 {
        return Err(AppError::BadRequest(String::from_str("用户名不能超过64个字符")));
    }
    if contains_double_dot(t) || contains_char(t, '/') || contains_char(t, '\\') {
        return Err(AppError::BadRequest(String::from_str("用户名包含非法字符")));
    }
    if contains_char(t, '\0') {
        return Err(AppError::BadRequest(String::from_str("用户名包含空字节")));
    }
    Ok(String::from_str(t))
}

/// What `sanitize_filename` owes for `name`: the checks of a user name with
/// 255 bytes at most, and "." names no file.
pub open spec fn filename_check(name: Seq<char>) -> Result<Seq<char>, Seq<char>> {
    match name_check(
        trim(name),
        byte_len(trim(name)) as int,
        255,
        "文件名不能为空"@,
        "文件名过长"@,
        "文件名包含非法字符"@,
        "文件名包含空字节"@,
    ) {
        Ok(t) => if t == seq!['.'] {
            Err("无效的文件名"@)
        } else {
            Ok(t)
        },
        Err(m) => Err(m),
    }
}

/// The name under which an uploaded file is kept: the trimmed name, when it
/// is a single path component of at most 255 bytes without NUL.
pub fn sanitize_filename(name: &str) -> (res: Result<String, AppError>)
    ensures
        answers(res, filename_check(name@)),
{
    let t = str_trim(name);
    if t.is_empty() {
        return Err(AppError::BadRequest(String::from_str("文件名不能为空")));
    }
    if t.len() > 255 {
        return Err(AppError::BadRequest(String::from_str("文件名过长")));
    }
    if contains_double_dot(t) || contains_char(t, '/') || contains_char(t, '\\') {
        return Err(AppError::BadRequest(String::from_str("文件名包含非法字符")));
    }
    if contains_char(t, '\0') {
        return Err(AppError::BadRequest(String::from_str("文件名包含空字节")));
    }
    match single_component_file_name(t) {
        Some(f) => Ok(f),
        None => Err(AppError::BadRequest(String::from_str("无效的文件名"))),
    }
}

/// A character allowed in a session id.
pub open spec fn session_char(c: char) -> bool {
    unicode_alphanumeric(c) || c == '_' || c == '-'
}

/// Whether a client-chosen session id is kept: not blank, no ".." or '/',
/// at most 64 bytes, and only alphanumeric characters, '_' and '-'.
pub open spec fn good_session_id(id: Seq<char>) -> bool {
    &&& trim(id).len() > 0
    &&& !has_double_dot(id)
    &&& !has_char(id, '/')
    &&& byte_len(id) <= 64
    &&& forall|i: int| 0 <= i < id.len() ==> session_char(#[trigger] id[i])
}

/// Whether the session id sent with a new task is acceptable.
pub fn valid_session_id(id: &str) -> (res: bool)
    ensures
        res == good_session_id(id@),
{
    if str_trim(id).is_empty() || contains_double_dot(id) || contains_char(id, '/') || id.len()
        > 64 {
        return false;
    }
    let chars = str_chars(id);
    let mut i: usize = 0;
    while i < chars.len()
        invariant
            chars@ == id@,
            i <= chars@.len(),
            forall|k: int| 0 <= k < i ==> session_char(#[trigger] chars@[k]),
        decreases chars@.len() - i,
    {
        let c = chars[i];
        if !(char_is_alphanumeric(c) || c == '_' || c == '-') {
            assert(!session_char(id@[i as int]));
            return false;
        }
        i = i + 1;
    }
    true
}

/// The text fields of a task-creation form, as they have arrived so far.
#[derive(Debug, Clone)]
pub struct CreateTaskForm {
    pub service_id: Option<String>,
    pub task_prompt: Option<String>,
    pub output_prompt: Option<String>,
    pub session_id: Option<String>,
}

/// The fields of a complete task-creation form.
#[derive(Debug, Clone)]
pub struct TaskFields {
    pub service_id: String,
    pub task_prompt: String,
    pub output_prompt: String,
    pub session_id: Option<String>,
}

impl CreateTaskForm {
    /// A form before its first field.
    pub fn new() -> (res: CreateTaskForm)
        ensures
            res.service_id is None,
            res.task_prompt is None,
            res.output_prompt is None,
            res.session_id is None,
    {
        CreateTaskForm { service_id: None, task_prompt: None, output_prompt: None, session_id: None }
    }

    /// A text field named `name` with the text `value`. The three known
    /// fields take the value (the last one wins); "session_id" takes it when
    /// it is acceptable and is left as it was otherwise; any other field is
    /// ignored.
    pub fn apply_text_field(&mut self, name: &str, value: String)
        ensures
            name@ == "service_id"@ ==> *final(self) == (CreateTaskForm { service_id: Some(value), ..*old(self) }),
            name@ == "task_prompt"@ ==> *final(self) == (CreateTaskForm { task_prompt: Some(value), ..*old(self) }),
            name@ == "output_prompt"@ ==> *final(self) == (CreateTaskForm { output_prompt: Some(value), ..*old(self) }),
            name@ == "session_id"@ && good_session_id(value@) ==> *final(self) == (CreateTaskForm { session_id: Some(value), ..*old(self) }),
            name@ == "session_id"@ && !good_session_id(value@) ==> *final(self) == *old(self),
            name@ != "service_id"@ && name@ != "task_prompt"@ && name@ != "output_prompt"@ && name@ != "session_id"@ ==> *final(self) == *old(self),
    {
        proof {
            reveal_strlit("service_id");
            reveal_strlit("task_prompt");
            reveal_strlit("output_prompt");
            reveal_strlit("session_id");
            assert("service_id"@.len() == 10 && "service_id"@[2] == 'r');
            assert("task_prompt"@.len() == 11);
            assert("output_prompt"@.len() == 13);
            assert("session_id"@.len() == 10 && "session_id"@[2] == 's');
        }
        if str_eq(name, "service_id") {
            self.service_id = Some(value);
        } else if str_eq(name, "task_prompt") {
            self.task_prompt = Some(value);
        } else if str_eq(name, "output_prompt") {
            self.output_prompt = Some(value);
        } else if str_eq(name, "session_id") {
            if valid_session_id(value.as_str()) {
                self.session_id = Some(value);
            }
        }
    }

    /// The complete form; the first missing field among service_id,
    /// task_prompt and output_prompt is reported.
    pub fn finish(self) -> (res: Result<TaskFields, AppError>)
        ensures
            self.service_id is None ==> is_bad_request(res, "缺少 service_id 字段"@),
            self.service_id is Some && self.task_prompt is None ==> is_bad_request(res, "缺少 task_prompt 字段"@),
            self.service_id is Some && self.task_prompt is Some && self.output_prompt is None ==> is_bad_request(res, "缺少 output_prompt 字段"@),
            self.service_id is Some && self.task_prompt is Some && self.output_prompt is Some ==> res == Ok::<TaskFields, AppError>(TaskFields {
                service_id: self.service_id.unwrap(),
                task_prompt: self.task_prompt.unwrap(),
                output_prompt: self.output_prompt.unwrap(),
                session_id: self.session_id,
            }),
    {
        let service_id = match self.service_id {
            Some(v) => v,
            None => return Err(AppError::BadRequest(String::from_str("缺少 service_id 字段"))),
        };
        let task_prompt = match self.task_prompt {
            Some(v) => v,
            None => return Err(AppError::BadRequest(String::from_str("缺少 task_prompt 字段"))),
        };
        let output_prompt = match self.output_prompt {
            Some(v) => v,
            None => return Err(AppError::BadRequest(String::from_str("缺少 output_prompt 字段"))),
        };
        Ok(TaskFields { service_id, task_prompt, output_prompt, session_id: self.session_id })
    }
}

/// The name kept for an upload: its sanitized file name, or "unnamed" when
/// the part names no file.
pub fn upload_filename(raw: Option<&str>) -> (res: Result<String, AppError>)
    ensures
        answers(res, match raw {
            Some(n) => filename_check(n@),
            None => Ok("unnamed"@),
        }),
{
    match raw {
        Some(n) => sanitize_filename(n),
        None => Ok(String::from_str("unnamed")),
    }
}

/// One mebibyte.
pub open spec fn mib() -> int {
    1048576
}

/// The message of an upload that grew to `total` bytes, over the limit of
/// `max` bytes (both in whole MB).
pub open spec fn too_large_message(total: int, max: int) -> Seq<char> {
    "文件大小超过限制: "@ + decimal((total / mib()) as nat) + " > "@ + decimal((max / mib()) as nat) + " MB"@
}

/// Another chunk of `chunk` bytes of an upload that has `total` bytes so
/// far: the new total, or an error once it exceeds `max`.
pub fn add_chunk(total: usize, chunk: usize, max: usize) -> (res: Result<usize, AppError>)
    requires
        total + chunk <= usize::MAX,
    ensures
        total + chunk <= max ==> res == Ok::<usize, AppError>((total + chunk) as usize),
        total + chunk > max ==> is_bad_request(res, too_large_message(total + chunk, max as int)),
{
    let new_total = total + chunk;
    if new_total > max {
        let mut m = String::from_str("文件大小超过限制: ");
        m.append(u64_to_string((new_total / 1024 / 1024) as u64).as_str());
        m.append(" > ");
        m.append(u64_to_string((max / 1024 / 1024) as u64).as_str());
        m.append(" MB");
        assert(new_total / 1024 / 1024 == (new_total as int) / mib()) by (nonlinear_arith);
        assert(max / 1024 / 1024 == (max as int) / mib()) by (nonlinear_arith);
        return Err(AppError::BadRequest(m));
    }
    Ok(new_total)
}

/// An uploaded file, kept in a temporary place until its task exists.
#[derive(Debug, Clone)]
pub struct UploadedFile {
    pub filename: String,
    pub mime_type: Option<String>,
    pub size_bytes: i64,
}

/// Whether a user with `role` may use a service: it is public, the user is
/// an administrator, or the user was granted it.
pub open spec fn may_use(is_public: bool, role: Seq<char>, granted: bool) -> bool {
    is_public || is_admin_role(role) || granted
}

/// Whether `auth_user` may use `service`; `granted` tells whether a
/// permission row for the pair exists.
pub fn has_service_permission(service: &Service, auth_user: &AuthUser, granted: bool) -> (res: bool)
    ensures
        res == may_use(service.is_public, auth_user.role@, granted),
{
    service.is_public || role_is_admin(&auth_user.role) || granted
}

/// What task creation writes: the task (pending, its input without
/// files), one file record per upload, and the input with the files' ids
/// when there are uploads.
#[derive(Debug)]
pub struct CreateTaskPlan {
    pub task: Task,
    pub files: Vec<TaskFile>,
    pub final_input: Option<String>,
}

/// Whether `path` is `<task_id>/<uuid>` for a random version-4 UUID.
pub open spec fn stored_under(path: Seq<char>, task_id: Seq<char>) -> bool {
    exists|u: Seq<char>| #[trigger] is_hyphenated_uuid(u, '4') && path == task_id + "/"@ + u
}

/// The file record of upload `u` of task `task_id`.
pub open spec fn file_of_upload(f: TaskFile, u: UploadedFile, task_id: Seq<char>) -> bool {
    &&& is_hyphenated_uuid(f.id@, '4')
    &&& f.task_id@ == task_id
    &&& f.filename@ == u.filename@
    &&& f.mime_type == u.mime_type
    &&& f.size_bytes == u.size_bytes
    &&& stored_under(f.storage_path@, task_id)
    &&& f.created_by == FileCreatedBy::Client
}

/// The ids of file records.
pub open spec fn file_ids(files: Seq<TaskFile>) -> Seq<Seq<char>> {
    files.map_values(|f: TaskFile| f.id@)
}

/// Whether `p` creates, for the user `user_id`, the task that `fields`
/// describe with the files `uploads`.
pub open spec fn creates(p: CreateTaskPlan, user_id: Seq<char>, fields: TaskFields, uploads: Seq<UploadedFile>) -> bool {
    &&& is_hyphenated_uuid(p.task.id@, '4')
    &&& Task::fresh(p.task.id@, user_id, fields.service_id@, p.task.session_id@, Task { input: None, ..p.task })
    &&& p.task.input matches Some(i) && i@ == task_input_document(fields.task_prompt@, fields.output_prompt@, seq![])
    &&& match fields.session_id {
        Some(s) => p.task.session_id == s,
        None => is_hyphenated_uuid(p.task.session_id@, '4'),
    }
    &&& p.files@.len() == uploads.len()
    &&& forall|i: int| 0 <= i < uploads.len() ==> file_of_upload(#[trigger] p.files@[i], uploads[i], p.task.id@)
    &&& if uploads.len() == 0 {
        p.final_input is None
    } else {
        p.final_input matches Some(j) && j@ == task_input_document(fields.task_prompt@, fields.output_prompt@, file_ids(p.files@))
    }
}

/// The message for a task whose service does not exist.
pub open spec fn unknown_service_message(service_id: Seq<char>) -> Seq<char> {
    "服务 '"@ + service_id + "' 不存在"@
}

/// Task creation, once the form is complete. `service` is the requested
/// service's row, if it exists; `granted` tells whether the user holds a
/// permission for it. Without a session id a new random one is used.
pub fn plan_create_task(
    auth_user: &AuthUser,
    fields: TaskFields,
    service: Option<&Service>,
    granted: bool,
    uploads: &Vec<UploadedFile>,
) -> (res: Result<CreateTaskPlan, AppError>)
    ensures
        service is None ==> is_bad_request(res, unknown_service_message(fields.service_id@)),
        service matches Some(s) && !may_use(s.is_public, auth_user.role@, granted) ==> res
            == Err::<CreateTaskPlan, AppError>(AppError::Forbidden),
        service matches Some(s) && may_use(s.is_public, auth_user.role@, granted) ==> (res matches Ok(p)
            && creates(p, auth_user.user_id@, fields, uploads@)),
{
    let service = match service {
        None => {
            let mut m = String::from_str("服务 '");
            m.append(fields.service_id.as_str());
            m.append("' 不存在");
            return Err(AppError::BadRequest(m));
        },
        Some(s) => s,
    };
    if !has_service_permission(service, auth_user, granted) {
        return Err(AppError::Forbidden);
    }
    let session = match fields.session_id {
        Some(s) => s.clone(),
        None => new_v4_string(),
    };
    let task = Task::new(auth_user.user_id.as_str(), fields.service_id.as_str(), Some(session));
    let no_files: Vec<String> = Vec::new();
    proof {
        assert(texts(no_files@) =~= seq![]);
    }
    let input = task_input_json(fields.task_prompt.as_str(), fields.output_prompt.as_str(), &no_files);
    let task = task.with_input(input);
    let mut files: Vec<TaskFile> = Vec::new();
    let mut ids: Vec<String> = Vec::new();
    let mut i: usize = 0;
    while i < uploads.len()
        invariant
            i <= uploads@.len(),
            files@.len() == i,
            ids@.len() == i,
            forall|k: int| 0 <= k < i ==> file_of_upload(#[trigger] files@[k], uploads@[k], task.id@),
            forall|k: int| 0 <= k < i ==> (#[trigger] ids@[k])@ == files@[k].id@,
        decreases uploads@.len() - i,
    {
        let u = &uploads[i];
        let file_id = new_v4_string();
        let dir = concat(task.id.as_str(), "/");
        let path = concat(dir.as_str(), file_id.as_str());
        assert(stored_under(path@, task.id@));
        let f = TaskFile::new(
            task.id.as_str(),
            u.filename.as_str(),
            crate::text::clone_opt(&u.mime_type),
            u.size_bytes,
            path.as_str(),
            FileCreatedBy::Client,
        );
        ids.push(f.id.clone());
        files.push(f);
        i = i + 1;
    }
    let final_input = if ids.len() == 0 {
        None
    } else {
        assert(texts(ids@) =~= file_ids(files@));
        Some(task_input_json(fields.task_prompt.as_str(), fields.output_prompt.as_str(), &ids))
    };
    Ok(CreateTaskPlan { task, files, final_input })
}

/// Which of the user's tasks a list shows.
#[derive(Debug, Clone)]
pub enum TaskListFilter {
    /// Tasks in this status.
    Status(String),
    /// Tasks of this service.
    Service(String),
    /// All of them.
    All,
}

/// The query behind a task list, newest first.
#[derive(Debug, Clone)]
pub struct TaskListPlan {
    pub filter: TaskListFilter,
    pub limit: i64,
    pub offset: i64,
}

/// GET /tasks: a status filter wins over a service filter; 20 tasks from
/// offset 0 unless the query says otherwise.
pub fn plan_task_list(query: ListTasksQuery) -> (res: TaskListPlan)
    ensures
        res.limit == match query.limit {
            Some(l) => l,
            None => 20,
        },
        res.offset == match query.offset {
            Some(o) => o,
            None => 0,
        },
        res.filter == match query.status {
            Some(st) => TaskListFilter::Status(st),
            None => match query.service_id {
                Some(sid) => TaskListFilter::Service(sid),
                None => TaskListFilter::All,
            },
        },
{
    let limit = match query.limit {
        Some(l) => l,
        None => 20,
    };
    let offset = match query.offset {
        Some(o) => o,
        None => 0,
    };
    let filter = match query.status {
        Some(st) => TaskListFilter::Status(st),
        None => match query.service_id {
            Some(sid) => TaskListFilter::Service(sid),
            None => TaskListFilter::All,
        },
    };
    TaskListPlan { filter, limit, offset }
}

/// Whether a user may see a task: it is theirs, or they are an
/// administrator.
pub open spec fn may_see(task: Task, auth_user: AuthUser) -> bool {
    task.user_id@ == auth_user.user_id@ || is_admin_role(auth_user.role@)
}

/// The access rule for one task: it must exist and be visible to the user.
pub fn check_task_access(auth_user: &AuthUser, task: &Option<Task>) -> (res: Result<(), AppError>)
    ensures
        task is None ==> res == Err::<(), AppError>(AppError::NotFound),
        task matches Some(t) && !may_see(*t, *auth_user) ==> res == Err::<(), AppError>(AppError::Forbidden),
        task matches Some(t) && may_see(*t, *auth_user) ==> res is Ok,
{
    match task {
        None => Err(AppError::NotFound),
        Some(t) => {
            if str_eq(t.user_id.as_str(), auth_user.user_id.as_str()) || role_is_admin(&auth_user.role) {
                Ok(())
            } else {
                Err(AppError::Forbidden)
            }
        },
    }
}

/// GET /tasks/{id}. `task` is the task with that id, if it exists.
pub fn get_task(auth_user: &AuthUser, task: Option<Task>) -> (res: Result<TaskResponse, AppError>)
    ensures
        task is None ==> res == Err::<TaskResponse, AppError>(AppError::NotFound),
        task matches Some(t) && !may_see(t, *auth_user) ==> res == Err::<TaskResponse, AppError>(AppError::Forbidden),
        task matches Some(t) && may_see(t, *auth_user) ==> (res matches Ok(r) && r.shows(task.unwrap())),
{
    check_task_access(auth_user, &task)?;
    match task {
        Some(t) => Ok(TaskResponse::from_task(t)),
        None => Err(AppError::NotFound),
    }
}

/// The name of a status as `{:?}` writes it.
pub open spec fn status_debug_name(s: TaskStatus) -> Seq<char> {
    match s {
        TaskStatus::Pending => "Pending"@,
        TaskStatus::Running => "Running"@,
        TaskStatus::Completed => "Completed"@,
        TaskStatus::Failed => "Failed"@,
        TaskStatus::Cancelled => "Cancelled"@,
        TaskStatus::Cancelling => "Cancelling"@,
    }
}

fn status_debug_string(s: TaskStatus) -> (res: String)
    ensures
        res@ == status_debug_name(s),
{
    match s {
        TaskStatus::Pending => String::from_str("Pending"),
        TaskStatus::Running => String::from_str("Running"),
        TaskStatus::Completed => String::from_str("Completed"),
        TaskStatus::Failed => String::from_str("Failed"),
        TaskStatus::Cancelled => String::from_str("Cancelled"),
        TaskStatus::Cancelling => String::from_str("Cancelling"),
    }
}

/// The message for a task that cannot be cancelled in its status.
pub open spec fn not_cancellable_message(s: TaskStatus) -> Seq<char> {
    "当前状态 "@ + status_debug_name(s) + " 的任务无法取消"@
}

/// POST /tasks/{id}/cancel at time `now`. `task` is the task with that id,
/// if it exists. A pending task is cancelled at once, a running one waits
/// for its agent (`TaskView::client_cancel`); the result is the task as it
/// is to be stored.
pub fn cancel_task_at(auth_user: &AuthUser, task: Option<Task>, now: i64) -> (res: Result<Task, AppError>)
    ensures
        task is None ==> res == Err::<Task, AppError>(AppError::NotFound),
        task matches Some(t) && !may_see(t, *auth_user) ==> res == Err::<Task, AppError>(AppError::Forbidden),
        task matches Some(t) && may_see(t, *auth_user) && t@.client_cancel(now) is None ==> is_bad_request(res, not_cancellable_message(task.unwrap().status)),
        task matches Some(t) && may_see(t, *auth_user) && t@.client_cancel(now) is Some ==> (res matches Ok(nt) && nt@ == task.unwrap()@.client_cancel(now).unwrap()),
{
    check_task_access(auth_user, &task)?;
    let mut t = match task {
        Some(t) => t,
        None => return Err(AppError::NotFound),
    };
    if !t.status.can_cancel() {
        let mut m = String::from_str("当前状态 ");
        m.append(status_debug_string(t.status).as_str());
        m.append(" 的任务无法取消");
        return Err(AppError::BadRequest(m));
    }
    match t.status {
        TaskStatus::Pending => {
            t.status = TaskStatus::Cancelled;
            t.completed_at = Some(now);
        },
        _ => {
            t.status = TaskStatus::Cancelling;
            t.completed_at = None;
        },
    }
    Ok(t)
}

/// POST /tasks/{id}/cancel now (see `cancel_task_at`).
pub fn cancel_task(auth_user: &AuthUser, task: Option<Task>) -> (res: Result<Task, AppError>)
    ensures
        task is None ==> res == Err::<Task, AppError>(AppError::NotFound),
        task matches Some(t) && !may_see(t, *auth_user) ==> res == Err::<Task, AppError>(AppError::Forbidden),
        task matches Some(t) && may_see(t, *auth_user) && !(t.status is Pending || t.status is Running) ==> is_bad_request(res, not_cancellable_message(task.unwrap().status)),
        task matches Some(t) && may_see(t, *auth_user) && (t.status is Pending || t.status is Running) ==> (res matches Ok(nt) && exists|now: i64| nt@ == #[trigger] task.unwrap()@.client_cancel(now).unwrap()),
{
    let now = utc_now_millis();
    cancel_task_at(auth_user, task, now)
}

/// Whether `id` is among the texts of `v`.
pub open spec fn contains_text(v: Seq<String>, id: Seq<char>) -> bool {
    exists|i: int| 0 <= i < v.len() && (#[trigger] v[i])@ == id
}

/// Whether `id` is one of the strings of `v`.
pub fn vec_contains(v: &Vec<String>, id: &str) -> (res: bool)
    ensures
        res == contains_text(v@, id@),
{
    let mut i: usize = 0;
    while i < v.len()
        invariant
            i <= v@.len(),
            forall|k: int| 0 <= k < i ==> (#[trigger] v@[k])@ != id@,
        decreases v@.len() - i,
    {
        if str_eq(v[i].as_str(), id) {
            return true;
        }
        i = i + 1;
    }
    false
}

/// The line of service `s` in the list of a user with `role` who holds
/// permissions for the services `permitted`.
pub open spec fn lists(item: ServiceListItem, s: Service, role: Seq<char>, permitted: Seq<String>) -> bool {
    &&& item.id == s.id
    &&& item.name == s.name
    &&& item.description == s.description
    &&& item.agent_status == s.agent_status
    &&& item.registration_status == s.registration_status
    &&& item.agent_last_heartbeat == s.agent_last_heartbeat
    &&& item.access_type@ == (if s.is_public {
        "public"@
    } else {
        "restricted"@
    })
    &&& item.has_permission == may_use(s.is_public, role, contains_text(permitted, s.id@))
}

/// GET /services: every service, in the order given, with whether the user
/// may use it. `permitted` are the ids of the services the user was
/// granted.
pub fn service_list_items(services: &Vec<Service>, auth_user: &AuthUser, permitted: &Vec<String>) -> (res: Vec<ServiceListItem>)
    ensures
        res@.len() == services@.len(),
        forall|i: int| 0 <= i < services@.len() ==> lists(#[trigger] res@[i], services@[i], auth_user.role@, permitted@),
{
    let mut res: Vec<ServiceListItem> = Vec::new();
    let mut i: usize = 0;
    while i < services.len()
        invariant
            i <= services@.len(),
            res@.len() == i,
            forall|k: int| 0 <= k < i ==> lists(#[trigger] res@[k], services@[k], auth_user.role@, permitted@),
        decreases services@.len() - i,
    {
        let s = &services[i];
        let access_type = if s.is_public {
            String::from_str("public")
        } else {
            String::from_str("restricted")
        };
        let granted = vec_contains(permitted, s.id.as_str());
        let has_permission = has_service_permission(s, auth_user, granted);
        res.push(ServiceListItem {
            id: s.id.clone(),
            name: s.name.clone(),
            description: s.description.clone(),
            agent_status: s.agent_status,
            registration_status: s.registration_status.clone(),
            agent_last_heartbeat: s.agent_last_heartbeat,
            access_type,
            has_permission,
        });
        i = i + 1;
    }
    res
}

/// The access rule for one service: it must exist, and the user must be
/// allowed to use it (`granted`: a permission row exists).
pub fn check_service_access(auth_user: &AuthUser, service: Option<&Service>, granted: bool) -> (res: Result<(), AppError>)
    ensures
        service is None ==> res == Err::<(), AppError>(AppError::NotFound),
        service matches Some(s) && !may_use(s.is_public, auth_user.role@, granted) ==> res == Err::<(), AppError>(AppError::Forbidden),
        service matches Some(s) && may_use(s.is_public, auth_user.role@, granted) ==> res is Ok,
{
    match service {
        None => Err(AppError::NotFound),
        Some(s) => if has_service_permission(s, auth_user, granted) {
            Ok(())
        } else {
            Err(AppError::Forbidden)
        },
    }
}

/// The load of a service as a client sees it.
#[derive(Debug)]
pub struct ServiceLoadResponse {
    pub service_id: String,
    pub name: String,
    pub agent_status: String,
    pub capacity: i64,
    pub current_load: i64,
    /// Capacity minus load, never below zero.
    pub available_slots: i64,
    pub pending_tasks: i64,
    /// Tasks that occupy a slot (running or cancelling).
    pub running_tasks: i64,
    pub last_heartbeat: Option<i64>,
}

/// The load report of `service`, which has `pending` pending tasks and
/// `running` running or cancelling ones.
pub open spec fn reports_load(r: ServiceLoadResponse, service: Service, pending: i64, running: i64) -> bool {
    &&& r.service_id == service.id
    &&& r.name == service.name
    &&& r.agent_status@ == service.agent_status.name()
    &&& r.capacity == service.agent_capacity
    &&& r.current_load == service.agent_current_load
    &&& r.available_slots == service@.available_slots()
    &&& r.pending_tasks == pending
    &&& r.running_tasks == running
    &&& r.last_heartbeat == service.agent_last_heartbeat
}

/// GET /services/{service_id}/load. `service` is the service's row, if it
/// exists; `granted` tells whether the user holds a permission for it;
/// `pending` and `running` are its task counts.
pub fn get_service_load_handler(
    auth_user: &AuthUser,
    service: Option<Service>,
    granted: bool,
    pending: i64,
    running: i64,
) -> (res: Result<ServiceLoadResponse, AppError>)
    requires
        service is Some && may_use(service.unwrap().is_public, auth_user.role@, granted)
            ==> service.unwrap().agent_capacity - service.unwrap().agent_current_load <= i64::MAX,
    ensures
        service is None ==> res == Err::<ServiceLoadResponse, AppError>(AppError::NotFound),
        service matches Some(s) && !may_use(s.is_public, auth_user.role@, granted) ==> res == Err::<ServiceLoadResponse, AppError>(AppError::Forbidden),
        service matches Some(s) && may_use(s.is_public, auth_user.role@, granted) ==> (res matches Ok(r) && reports_load(r, service.unwrap(), pending, running)),
{
    let s = match service {
        None => return Err(AppError::NotFound),
        Some(s) => s,
    };
    check_service_access(auth_user, Some(&s), granted)?;
    let capacity = s.agent_capacity;
    let current_load = s.agent_current_load;
    let available_slots = if capacity >= current_load {
        capacity - current_load
    } else {
        0
    };
    let agent_status = s.agent_status.to_string();
    Ok(ServiceLoadResponse {
        service_id: s.id,
        name: s.name,
        agent_status,
        capacity,
        current_load,
        available_slots,
        pending_tasks: pending,
        running_tasks: running,
        last_heartbeat: s.agent_last_heartbeat,
    })
}

/// GET /services/{id}/usage, with the access rule of `check_service_access`.
pub fn get_service_usage(auth_user: &AuthUser, service: Option<Service>, granted: bool) -> (res: Result<ServiceUsageResponse, AppError>)
    ensures
        service is None ==> res == Err::<ServiceUsageResponse, AppError>(AppError::NotFound),
        service matches Some(s) && !may_use(s.is_public, auth_user.role@, granted) ==> res == Err::<ServiceUsageResponse, AppError>(AppError::Forbidden),
        service matches Some(s) && may_use(s.is_public, auth_user.role@, granted) ==> res == Ok::<ServiceUsageResponse, AppError>(ServiceUsageResponse {
            id: service.unwrap().id,
            name: service.unwrap().name,
            usage: service.unwrap().usage,
        }),
{
    let s = match service {
        None => return Err(AppError::NotFound),
        Some(s) => s,
    };
    check_service_access(auth_user, Some(&s), granted)?;
    Ok(ServiceUsageResponse { id: s.id, name: s.name, usage: s.usage })
}

/// POST /services/{service_id}/grant: an administrator grants a user a
/// restricted service. `service` is the service's row, if it exists;
/// `target_exists` tells whether the user exists.
pub fn check_grant(auth_user: &AuthUser, service: Option<&Service>, target_exists: bool) -> (res: Result<(), AppError>)
    ensures
        !is_admin_role(auth_user.role@) ==> res == Err::<(), AppError>(AppError::Forbidden),
        is_admin_role(auth_user.role@) && service is None ==> res == Err::<(), AppError>(AppError::NotFound),
        is_admin_role(auth_user.role@) && (service matches Some(s) && s.is_public) ==> is_bad_request(res, "公开服务无需授权"@),
        is_admin_role(auth_user.role@) && (service matches Some(s) && !s.is_public) && !target_exists ==> is_bad_request(res, "目标用户不存在"@),
        is_admin_role(auth_user.role@) && (service matches Some(s) && !s.is_public) && target_exists ==> res is Ok,
{
    if !role_is_admin(&auth_user.role) {
        return Err(AppError::Forbidden);
    }
    let s = match service {
        None => return Err(AppError::NotFound),
        Some(s) => s,
    };
    if s.is_public {
        return Err(AppError::BadRequest(String::from_str("公开服务无需授权")));
    }
    if !target_exists {
        return Err(AppError::BadRequest(String::from_str("目标用户不存在")));
    }
    Ok(())
}

/// What a registration stores and answers.
#[derive(Debug)]
pub struct Registration {
    /// The stored keyed hash of the new key.
    pub api_key_hash: String,
    /// The answer, with the plain key.
    pub response: UserResponse,
}

/// The message for a name that is taken at registration.
pub open spec fn name_exists_message(name: Seq<char>) -> Seq<char> {
    "用户名 '"@ + name + "' 已存在"@
}

/// POST /auth/register, for a `name` that `validate_username` accepted.
/// `name_taken` tells whether a user of that name exists; `secret_key` is
/// the server's key for hashing API keys. The new client gets a random id
/// and the key "ak_client_" followed by 32 random hex digits, of which only
/// the hash is stored.
pub fn register_user(name: &str, name_taken: bool, secret_key: Option<&str>) -> (res: Result<Registration, AppError>)
    ensures
        name_taken ==> is_conflict(res, name_exists_message(name@)),
        !name_taken && secret_key is None ==> (res matches Err(AppError::Internal(m)) && m@ == "secret_key 未配置"@),
        !name_taken && secret_key is Some ==> (res matches Ok(r) && {
            &&& is_hyphenated_uuid(r.response.id@, '4')
            &&& r.response.name@ == name@
            &&& r.response.api_key@.len() == 42
            &&& starts_with(r.response.api_key@, "ak_client_"@)
            &&& is_simple_uuid(r.response.api_key@.skip(10), '4')
            &&& r.response.role@ == "client"@
            &&& r.api_key_hash@ == api_key_hash(encode_utf8(secret_key.unwrap()@), encode_utf8(r.response.api_key@))
        }),
{
    if name_taken {
        let mut m = String::from_str("用户名 '");
        m.append(name);
        m.append("' 已存在");
        return Err(AppError::Conflict(m));
    }
    let user_id = new_v4_string();
    let key_tail = new_v4_simple_string();
    let api_key = concat("ak_client_", key_tail.as_str());
    proof {
        reveal_strlit("ak_client_");
        assert(api_key@.take(10) =~= "ak_client_"@);
        assert(api_key@.skip(10) =~= key_tail@);
    }
    let secret = match secret_key {
        Some(k) => k,
        None => return Err(AppError::Internal(String::from_str("secret_key 未配置"))),
    };
    let api_key_hash_text = hash_api_key(secret, api_key.as_str());
    let now = utc_now_millis();
    Ok(Registration {
        api_key_hash: api_key_hash_text,
        response: UserResponse {
            id: user_id,
            name: String::from_str(name),
            api_key,
            role: String::from_str("client"),
            created_at: now,
        },
    })
}

/// The message for a name that another user holds.
pub open spec fn name_used_message(name: Seq<char>) -> Seq<char> {
    "用户名 '"@ + name + "' 已被使用"@
}

/// PUT /profile, for a `name` that `validate_username` accepted:
/// `taken_by_other` tells whether another user holds it.
pub fn check_profile_name(name: &str, taken_by_other: bool) -> (res: Result<(), AppError>)
    ensures
        taken_by_other ==> is_conflict(res, name_used_message(name@)),
        !taken_by_other ==> res is Ok,
{
    if taken_by_other {
        let mut m = String::from_str("用户名 '");
        m.append(name);
        m.append("' 已被使用");
        return Err(AppError::Conflict(m));
    }
    Ok(())
}

/// The alerts of the status report, from the number of offline, online
/// and busy services and of pending and failed tasks.
pub open spec fn status_alert_texts(offline: i64, online: i64, busy: i64, pending: i64, failed: i64) -> Seq<Seq<char>> {
    let a: Seq<Seq<char>> = if offline > 0 {
        seq!["有 "@ + decimal_signed(offline as int) + " 个服务已离线"@]
    } else {
        seq![]
    };
    let b: Seq<Seq<char>> = if pending > 0 && online == 0 && busy == 0 {
        seq!["有 pending 任务但无可用服务"@]
    } else {
        seq![]
    };
    let c: Seq<Seq<char>> = if failed > 0 {
        seq!["有 "@ + decimal_signed(failed as int) + " 个任务失败"@]
    } else {
        seq![]
    };
    a + b + c
}

/// The alerts of GET /status: offline services, pending tasks that no
/// service can take, failed tasks.
pub fn status_alerts(offline: i64, online: i64, busy: i64, pending: i64, failed: i64) -> (res: Vec<String>)
    ensures
        texts(res@) == status_alert_texts(offline, online, busy, pending, failed),
{
    let mut res: Vec<String> = Vec::new();
    if offline > 0 {
        let mut m = String::from_str("有 ");
        m.append(i64_to_string(offline).as_str());
        m.append(" 个服务已离线");
        res.push(m);
    }
    if pending > 0 && online == 0 && busy == 0 {
        res.push(String::from_str("有 pending 任务但无可用服务"));
    }
    if failed > 0 {
        let mut m = String::from_str("有 ");
        m.append(i64_to_string(failed).as_str());
        m.append(" 个任务失败");
        res.push(m);
    }
    assert(texts(res@) =~= status_alert_texts(offline, online, busy, pending, failed));
    res
}

/// The counts that GET /status reports.
#[derive(Debug, Clone, Copy)]
pub struct StatusCounts {
    pub services_total: i64,
    pub online: i64,
    pub busy: i64,
    pub offline: i64,
    pub tasks_total: i64,
    pub pending: i64,
    pub running: i64,
    pub completed: i64,
    pub failed: i64,
}

/// The answer of GET /status: the HTTP status, the counts and the alerts.
#[derive(Debug)]
pub struct StatusSummary {
    pub http_status: u16,
    pub stats: Option<StatusCounts>,
    pub alerts: Vec<String>,
}

/// GET /status: 200 with the counts and their alerts when the database
/// answers (`counts` are then the counts read from it), 503 with no counts
/// and no alerts when it does not.
pub fn status_summary(db_healthy: bool, counts: Option<StatusCounts>) -> (res: StatusSummary)
    ensures
        res.http_status == (if db_healthy {
            200u16
        } else {
            503u16
        }),
        res.stats == (if db_healthy {
            counts
        } else {
            None
        }),
        texts(res.alerts@) == (match (db_healthy, counts) {
            (true, Some(c)) => status_alert_texts(c.offline, c.online, c.busy, c.pending, c.failed),
            _ => Seq::empty(),
        }),
{
    if !db_healthy {
        let alerts: Vec<String> = Vec::new();
        assert(texts(alerts@) =~= Seq::<Seq<char>>::empty());
        return StatusSummary { http_status: 503, stats: None, alerts };
    }
    match counts {
        Some(c) => StatusSummary {
            http_status: 200,
            stats: Some(c),
            alerts: status_alerts(c.offline, c.online, c.busy, c.pending, c.failed),
        },
        None => {
            let alerts: Vec<String> = Vec::new();
            assert(texts(alerts@) =~= Seq::<Seq<char>>::empty());
            StatusSummary { http_status: 200, stats: None, alerts }
        },
    }
}

} // verus!
