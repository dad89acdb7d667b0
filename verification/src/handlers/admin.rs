//! The admin API: users, their roles and permissions, and the task list
//! across users.

use vstd::prelude::*;
use crate::auth::AuthUser;
use crate::error::{is_bad_request, AppError};
use crate::models::service::UserPermissionResponse;
use crate::models::task::Task;
use crate::models::user::{UpdateUserRoleRequest, User, UserResponse};
use crate::text::{blank, str_eq, str_trim};

verus! {

/// Query parameters of the admin task list.
#[derive(Debug, Clone)]
pub struct AdminListTasksQuery {
    pub user_id: Option<String>,
    pub status: Option<String>,
    pub service_id: Option<String>,
    pub limit: Option<i64>,
    pub offset: Option<i64>,
}

/// The query behind the admin task list, newest first: the filters that
/// apply (each one matches its column exactly) and the page.
#[derive(Debug, Clone)]
pub struct AdminTaskListPlan {
    pub user_id: Option<String>,
    pub status: Option<String>,
    pub service_id: Option<String>,
    pub limit: i64,
    pub offset: i64,
}

/// A filter applies when it is given and not blank.
pub open spec fn filter_of(v: Option<String>) -> Option<String> {
    match v {
        Some(s) => if blank(s@) {
            None
        } else {
            Some(s)
        },
        None => None,
    }
}

/// The page size: 100 by default, at least 1 and at most 1000.
pub open spec fn page_limit(limit: Option<i64>) -> i64 {
    let l = match limit {
        Some(l) => l,
        None => 100,
    };
    if l < 1 {
        1
    } else if l > 1000 {
        1000
    } else {
        l
    }
}

/// The page offset: 0 by default, never negative.
pub open spec fn page_offset(offset: Option<i64>) -> i64 {
    let o = match offset {
        Some(o) => o,
        None => 0,
    };
    if o < 0 {
        0
    } else {
        o
    }
}

fn nonblank(v: Option<String>) -> (res: Option<String>)
    ensures
        res == filter_of(v),
{
    match v {
        Some(s) => if str_trim(s.as_str()).is_empty() {
            None
        } else {
            Some(s)
        },
        None => None,
    }
}

/// GET /admin/tasks: the filters and the page of the list.
pub fn plan_admin_task_list(query: AdminListTasksQuery) -> (res: AdminTaskListPlan)
    ensures
        res.user_id == filter_of(query.user_id),
        res.status == filter_of(query.status),
        res.service_id == filter_of(query.service_id),
        res.limit == page_limit(query.limit),
        res.offset == page_offset(query.offset),
{
    let l = match query.limit {
        Some(l) => l,
        None => 100,
    };
    let limit = if l < 1 {
        1
    } else if l > 1000 {
        1000
    } else {
        l
    };
    let o = match query.offset {
        Some(o) => o,
        None => 0,
    };
    let offset = if o < 0 {
        0
    } else {
        o
    };
    AdminTaskListPlan {
        user_id: nonblank(query.user_id),
        status: nonblank(query.status),
        service_id: nonblank(query.service_id),
        limit,
        offset,
    }
}

/// A task in the admin list, with the name of its user.
#[derive(Debug, Clone)]
pub struct AdminTaskResponse {
    pub id: String,
    pub user_id: String,
    pub user_name: Option<String>,
    pub service_id: String,
    pub status: String,
    pub input: Option<String>,
    pub output: Option<String>,
    pub error_message: Option<String>,
    pub session_id: String,
    pub retry_count: i64,
    pub created_at: i64,
    pub assigned_at: Option<i64>,
    pub started_at: Option<i64>,
    pub completed_at: Option<i64>,
}

impl AdminTaskResponse {
    /// The line of `task`, whose user is called `user_name` (if the user
    /// still exists).
    pub fn from_task(task: Task, user_name: Option<String>) -> (res: AdminTaskResponse)
        ensures
            res.id == task.id,
            res.user_id == task.user_id,
            res.user_name == user_name,
            res.service_id == task.service_id,
            res.status@ == task.status.name(),
            res.input == task.input,
            res.output == task.output,
            res.error_message == task.error_message,
            res.session_id == task.session_id,
            res.retry_count == task.retry_count,
            res.created_at == task.created_at,
            res.assigned_at == task.assigned_at,
            res.started_at == task.started_at,
            res.completed_at == task.completed_at,
    {
        let status = task.status.to_string();
        AdminTaskResponse {
            id: task.id,
            user_id: task.user_id,
            user_name,
            service_id: task.service_id,
            status,
            input: task.input,
            output: task.output,
            error_message: task.error_message,
            session_id: task.session_id,
            retry_count: task.retry_count,
            created_at: task.created_at,
            assigned_at: task.assigned_at,
            started_at: task.started_at,
            completed_at: task.completed_at,
        }
    }
}

/// GET /admin/users: every user, without keys, in the order given.
pub fn list_users(users: Vec<User>) -> (res: Vec<UserResponse>)
    ensures
        res@.len() == users@.len(),
        forall|i: int| 0 <= i < users@.len() ==> {
            let r = #[trigger] res@[i];
            &&& r.id == users@[i].id
            &&& r.name == users@[i].name
            &&& r.api_key@.len() == 0
            &&& r.role@ == users@[i].role.name()
            &&& r.created_at == users@[i].created_at
        },
{
    let mut res: Vec<UserResponse> = Vec::new();
    let mut i: usize = 0;
    while i < users.len()
        invariant
            i <= users@.len(),
            res@.len() == i,
            forall|k: int| 0 <= k < i ==> {
                let r = #[trigger] res@[k];
                &&& r.id == users@[k].id
                &&& r.name == users@[k].name
                &&& r.api_key@.len() == 0
                &&& r.role@ == users@[k].role.name()
                &&& r.created_at == users@[k].created_at
            },
        decreases users@.len() - i,
    {
        let u = &users[i];
        let copy = User {
            id: u.id.clone(),
            api_key: u.api_key.clone(),
            name: u.name.clone(),
            role: u.role,
            created_at: u.created_at,
        };
        res.push(UserResponse::from_user(copy));
        i = i + 1;
    }
    res
}

/// DELETE /admin/users/{id}: an administrator may not delete their own
/// account; `exists` tells whether the user exists.
pub fn delete_user(auth_user: &AuthUser, id: &str, exists: bool) -> (res: Result<(), AppError>)
    ensures
        auth_user.user_id@ == id@ ==> is_bad_request(res, "不能删除当前登录的管理员账户"@),
        auth_user.user_id@ != id@ && !exists ==> res == Err::<(), AppError>(AppError::NotFound),
        auth_user.user_id@ != id@ && exists ==> res is Ok,
{
    if str_eq(auth_user.user_id.as_str(), id) {
        return Err(AppError::BadRequest(String::from_str("不能删除当前登录的管理员账户")));
    }
    if !exists {
        return Err(AppError::NotFound);
    }
    Ok(())
}

/// PUT /admin/users/{id}/role: an administrator may not change their own
/// role. `user` is the user with that id, if any; the result is the user
/// with the new role, as it is to be stored.
pub fn update_user_role(auth_user: &AuthUser, id: &str, req: UpdateUserRoleRequest, user: Option<User>) -> (res: Result<User, AppError>)
    ensures
        auth_user.user_id@ == id@ ==> is_bad_request(res, "不能修改当前登录管理员的角色"@),
        auth_user.user_id@ != id@ && user is None ==> res == Err::<User, AppError>(AppError::NotFound),
        auth_user.user_id@ != id@ && user is Some ==> res == Ok::<User, AppError>(User { role: req.role, ..user.unwrap() }),
{
    if str_eq(auth_user.user_id.as_str(), id) {
        return Err(AppError::BadRequest(String::from_str("不能修改当前登录管理员的角色")));
    }
    match user {
        None => Err(AppError::NotFound),
        Some(u) => Ok(User { role: req.role, ..u }),
    }
}

/// GET /admin/users/{id}/permissions: the permissions of an existing user.
pub fn list_user_permissions(exists: bool, permissions: Vec<UserPermissionResponse>) -> (res: Result<Vec<UserPermissionResponse>, AppError>)
    ensures
        !exists ==> res == Err::<Vec<UserPermissionResponse>, AppError>(AppError::NotFound),
        exists ==> res == Ok::<Vec<UserPermissionResponse>, AppError>(permissions),
{
    if !exists {
        return Err(AppError::NotFound);
    }
    Ok(permissions)
}

/// DELETE /admin/services/{service_id}/users/{user_id}: both must exist.
pub fn revoke_service_permission(user_exists: bool, service_exists: bool) -> (res: Result<(), AppError>)
    ensures
        !(user_exists && service_exists) ==> res == Err::<(), AppError>(AppError::NotFound),
        user_exists && service_exists ==> res is Ok,
{
    if !user_exists || !service_exists {
        return Err(AppError::NotFound);
    }
    Ok(())
}

} // verus!
