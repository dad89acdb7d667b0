//! Tasks and their life cycle.

use vstd::prelude::*;
use crate::clock::utc_now_millis;
use crate::ids::{is_hyphenated_uuid, new_v4_string, now_v7_string};

verus! {

/// Status of a task.
#[derive(Debug, Clone, Copy, PartialEq, Eq, Structural)]
pub enum TaskStatus {
    /// Waiting for its agent to accept it.
    Pending,
    /// Accepted by its agent.
    Running,
    /// Finished successfully.
    Completed,
    /// Finished with an error.
    Failed,
    /// Cancelled.
    Cancelled,
    /// Cancellation requested while running; the agent has yet to stop it.
    Cancelling,
}

impl TaskStatus {
    /// Completed, failed and cancelled tasks are finished for good.
    pub open spec fn terminal(self) -> bool {
        self is Completed || self is Failed || self is Cancelled
    }

    /// The lowercase name under which the status is stored and shown.
    pub open spec fn name(self) -> Seq<char> {
        match self {
            TaskStatus::Pending => "pending"@,
            TaskStatus::Running => "running"@,
            TaskStatus::Completed => "completed"@,
            TaskStatus::Failed => "failed"@,
            TaskStatus::Cancelled => "cancelled"@,
            TaskStatus::Cancelling => "cancelling"@,
        }
    }

    /// Whether the status is terminal (completed, failed or cancelled).
    pub fn is_terminal(&self) -> (res: bool)
        ensures
            res == self.terminal(),
    {
        match self {
            TaskStatus::Completed | TaskStatus::Failed | TaskStatus::Cancelled => true,
            _ => false,
        }
    }

    /// Whether a client may cancel a task in this status (pending or running).
    pub fn can_cancel(&self) -> (res: bool)
        ensures
            res == (*self is Pending || *self is Running),
    {
        match self {
            TaskStatus::Pending | TaskStatus::Running => true,
            _ => false,
        }
    }

    /// Whether the status is `Cancelling`.
    pub fn is_cancelling(&self) -> (res: bool)
        ensures
            res == (*self is Cancelling),
    {
        match self {
            TaskStatus::Cancelling => true,
            _ => false,
        }
    }

    /// The lowercase name of the status.
    pub fn to_string(&self) -> (res: String)
        ensures
            res@ == self.name(),
    {
        match self {
            TaskStatus::Pending => String::from_str("pending"),
            TaskStatus::Running => String::from_str("running"),
            TaskStatus::Completed => String::from_str("completed"),
            TaskStatus::Failed => String::from_str("failed"),
            TaskStatus::Cancelled => String::from_str("cancelled"),
            TaskStatus::Cancelling => String::from_str("cancelling"),
        }
    }
}

impl Default for TaskStatus {
    /// New tasks are pending.
    fn default() -> (res: Self)
        ensures
            res == TaskStatus::Pending,
    {
        TaskStatus::Pending
    }
}

/// A task as the server stores it. Times are milliseconds since the Unix
/// epoch; `input` and `output` hold JSON text.
#[derive(Debug, Clone)]
pub struct Task {
    /// Task id (a random UUID).
    pub id: String,
    /// Id of the user who created the task.
    pub user_id: String,
    /// Id of the service (and agent) that runs the task.
    pub service_id: String,
    /// Current status.
    pub status: TaskStatus,
    /// Input document (JSON text).
    pub input: Option<String>,
    /// Output document (JSON text).
    pub output: Option<String>,
    /// Error message of a failed or aborted task.
    pub error_message: Option<String>,
    /// How often the task was put back in the queue.
    pub retry_count: i64,
    /// Session the task belongs to.
    pub session_id: String,
    /// Description of the expected output.
    pub output_format: Option<String>,
    /// Creation time.
    pub created_at: i64,
    /// Time the task was handed to an agent.
    pub assigned_at: Option<i64>,
    /// Time the agent started it.
    pub started_at: Option<i64>,
    /// Time it reached its final state.
    pub completed_at: Option<i64>,
}

impl Task {
    /// The task as `new` builds it, once its id, session and creation time
    /// are fixed.
    pub open spec fn fresh(
        id: Seq<char>,
        user_id: Seq<char>,
        service_id: Seq<char>,
        session_id: Seq<char>,
        t: Task,
    ) -> bool {
        &&& t.id@ == id
        &&& t.user_id@ == user_id
        &&& t.service_id@ == service_id
        &&& t.status == TaskStatus::Pending
        &&& t.input is None
        &&& t.output is None
        &&& t.error_message is None
        &&& t.retry_count == 0
        &&& t.session_id@ == session_id
        &&& t.output_format is None
        &&& t.assigned_at is None
        &&& t.started_at is None
        &&& t.completed_at is None
    }

    /// Creates a pending task with a random id. Without a session id a new
    /// time-ordered (version 7) UUID is used.
    pub fn new(user_id: &str, service_id: &str, session_id: Option<String>) -> (res: Task)
        ensures
            is_hyphenated_uuid(res.id@, '4'),
            Task::fresh(res.id@, user_id@, service_id@, res.session_id@, res),
            session_id matches Some(s) ==> res.session_id == s,
            session_id is None ==> is_hyphenated_uuid(res.session_id@, '7'),
    {
        let now = utc_now_millis();
        let session = match session_id {
            Some(s) => s,
            None => now_v7_string(),
        };
        Task {
            id: new_v4_string(),
            user_id: String::from_str(user_id),
            service_id: String::from_str(service_id),
            status: TaskStatus::Pending,
            input: None,
            output: None,
            error_message: None,
            retry_count: 0,
            session_id: session,
            output_format: None,
            created_at: now,
            assigned_at: None,
            started_at: None,
            completed_at: None,
        }
    }

    /// Sets the input document.
    pub fn with_input(self, input: String) -> (res: Task)
        ensures
            res == (Task { input: Some(input), ..self }),
    {
        let mut t = self;
        t.input = Some(input);
        t
    }

    /// Hands the task to a service: it runs there from now on.
    pub fn assign_to_service(&mut self, service_id: &str)
        ensures
            final(self).service_id@ == service_id@,
            final(self).assigned_at is Some,
            *final(self) == (Task {
                service_id: final(self).service_id,
                status: TaskStatus::Running,
                assigned_at: final(self).assigned_at,
                ..*old(self)
            }),
    {
        self.service_id = String::from_str(service_id);
        self.status = TaskStatus::Running;
        self.assigned_at = Some(utc_now_millis());
    }

    /// Marks the task as started.
    pub fn start(&mut self)
        ensures
            final(self).started_at is Some,
            *final(self) == (Task {
                status: TaskStatus::Running,
                started_at: final(self).started_at,
                ..*old(self)
            }),
    {
        self.status = TaskStatus::Running;
        self.started_at = Some(utc_now_millis());
    }

    /// Marks the task as completed with the given output.
    pub fn complete(&mut self, output: Option<String>)
        ensures
            final(self).completed_at is Some,
            *final(self) == (Task {
                status: TaskStatus::Completed,
                output: output,
                completed_at: final(self).completed_at,
                ..*old(self)
            }),
    {
        self.status = TaskStatus::Completed;
        self.output = output;
        self.completed_at = Some(utc_now_millis());
    }

    /// Marks the task as failed with the given message.
    pub fn fail(&mut self, error_message: &str)
        ensures
            final(self).completed_at is Some,
            final(self).error_message matches Some(m) && m@ == error_message@,
            *final(self) == (Task {
                status: TaskStatus::Failed,
                error_message: final(self).error_message,
                completed_at: final(self).completed_at,
                ..*old(self)
            }),
    {
        self.status = TaskStatus::Failed;
        self.error_message = Some(String::from_str(error_message));
        self.completed_at = Some(utc_now_millis());
    }

    /// Marks the task as cancelled.
    pub fn cancel(&mut self)
        ensures
            final(self).completed_at is Some,
            *final(self) == (Task {
                status: TaskStatus::Cancelled,
                completed_at: final(self).completed_at,
                ..*old(self)
            }),
    {
        self.status = TaskStatus::Cancelled;
        self.completed_at = Some(utc_now_millis());
    }

    /// A copy of the task.
    pub fn copy(&self) -> (res: Task)
        ensures
            res == *self,
    {
        Task {
            id: self.id.clone(),
            user_id: self.user_id.clone(),
            service_id: self.service_id.clone(),
            status: self.status,
            input: crate::text::clone_opt(&self.input),
            output: crate::text::clone_opt(&self.output),
            error_message: crate::text::clone_opt(&self.error_message),
            retry_count: self.retry_count,
            session_id: self.session_id.clone(),
            output_format: crate::text::clone_opt(&self.output_format),
            created_at: self.created_at,
            assigned_at: self.assigned_at,
            started_at: self.started_at,
            completed_at: self.completed_at,
        }
    }

    /// Counts one more retry.
    pub fn increment_retry(&mut self)
        requires
            old(self).retry_count < i64::MAX,
        ensures
            *final(self) == (Task { retry_count: (old(self).retry_count + 1) as i64, ..*old(self) }),
    {
        self.retry_count = self.retry_count + 1;
    }
}

/// The text of an optional string.
pub open spec fn opt_text(o: Option<String>) -> Option<Seq<char>> {
    match o {
        Some(s) => Some(s@),
        None => None,
    }
}

/// A task as a mathematical value.
pub struct TaskView {
    pub id: Seq<char>,
    pub user_id: Seq<char>,
    pub service_id: Seq<char>,
    pub status: TaskStatus,
    pub input: Option<Seq<char>>,
    pub output: Option<Seq<char>>,
    pub error_message: Option<Seq<char>>,
    pub retry_count: int,
    pub session_id: Seq<char>,
    pub output_format: Option<Seq<char>>,
    pub created_at: i64,
    pub assigned_at: Option<i64>,
    pub started_at: Option<i64>,
    pub completed_at: Option<i64>,
}

impl View for Task {
    type V = TaskView;

    open spec fn view(&self) -> TaskView {
        TaskView {
            id: self.id@,
            user_id: self.user_id@,
            service_id: self.service_id@,
            status: self.status,
            input: opt_text(self.input),
            output: opt_text(self.output),
            error_message: opt_text(self.error_message),
            retry_count: self.retry_count as int,
            session_id: self.session_id@,
            output_format: opt_text(self.output_format),
            created_at: self.created_at,
            assigned_at: self.assigned_at,
            started_at: self.started_at,
            completed_at: self.completed_at,
        }
    }
}

/// Message left on a cancelling task whose agent went offline.
pub open spec fn msg_offline_cancelled() -> Seq<char> {
    "Agent 离线，任务取消完成"@
}

/// Message left on a task that ran out of retries.
pub open spec fn msg_retries_exhausted() -> Seq<char> {
    "任务重试次数超过上限，无可用服务"@
}

/// Message left on tasks cancelled because their service was deleted.
pub open spec fn msg_service_deleted() -> Seq<char> {
    "Service was forcefully deleted by admin"@
}

/// How often a task whose agent disappears is put back in the queue before
/// it fails.
pub open spec fn max_retries() -> int {
    3
}

impl TaskView {
    /// Pending, running and cancelling tasks still occupy the system.
    pub open spec fn active(self) -> bool {
        self.status is Pending || self.status is Running || self.status is Cancelling
    }

    /// The agent of `service_id` accepts the task at time `now`: a pending
    /// task of that service starts running. `None`: nothing changes.
    pub open spec fn accept(self, service_id: Seq<char>, now: i64) -> Option<TaskView> {
        if self.status is Pending && self.service_id == service_id {
            Some(
                TaskView {
                    status: TaskStatus::Running,
                    assigned_at: Some(now),
                    started_at: Some(now),
                    ..self
                },
            )
        } else {
            None
        }
    }

    /// The agent of `service_id` reports the end of the task: a running or
    /// cancelling task of that service takes the reported status, output and
    /// error message.
    pub open spec fn finish(
        self,
        service_id: Seq<char>,
        status: TaskStatus,
        output: Option<Seq<char>>,
        error_message: Option<Seq<char>>,
        now: i64,
    ) -> Option<TaskView> {
        if (self.status is Running || self.status is Cancelling) && self.service_id == service_id {
            Some(TaskView { status, output, error_message, completed_at: Some(now), ..self })
        } else {
            None
        }
    }

    /// A client cancels the task: a pending task is cancelled at once, a
    /// running one waits for its agent (`Cancelling`, no completion time).
    pub open spec fn client_cancel(self, now: i64) -> Option<TaskView> {
        match self.status {
            TaskStatus::Pending => Some(
                TaskView { status: TaskStatus::Cancelled, completed_at: Some(now), ..self },
            ),
            TaskStatus::Running => Some(
                TaskView { status: TaskStatus::Cancelling, completed_at: None, ..self },
            ),
            _ => None,
        }
    }

    /// The agent of the task went offline: a cancelling task is cancelled, a
    /// running task goes back to the queue, or fails once it has been put
    /// back `max_retries()` times.
    pub open spec fn migrate(self, now: i64) -> Option<TaskView> {
        match self.status {
            TaskStatus::Cancelling => Some(
                TaskView {
                    status: TaskStatus::Cancelled,
                    error_message: Some(msg_offline_cancelled()),
                    completed_at: Some(now),
                    ..self
                },
            ),
            TaskStatus::Running => if self.retry_count >= max_retries() {
                Some(
                    TaskView {
                        status: TaskStatus::Failed,
                        error_message: Some(msg_retries_exhausted()),
                        completed_at: Some(now),
                        ..self
                    },
                )
            } else {
                Some(
                    TaskView {
                        status: TaskStatus::Pending,
                        assigned_at: None,
                        started_at: None,
                        retry_count: self.retry_count + 1,
                        ..self
                    },
                )
            },
            _ => None,
        }
    }

    /// The service of the task is deleted by force: an active task is
    /// cancelled.
    pub open spec fn force_cancel(self, now: i64) -> Option<TaskView> {
        if self.active() {
            Some(
                TaskView {
                    status: TaskStatus::Cancelled,
                    error_message: Some(msg_service_deleted()),
                    completed_at: Some(now),
                    ..self
                },
            )
        } else {
            None
        }
    }
}

/// The input of a task: what to do, what to return, and uploaded files.
#[derive(Debug, Clone)]
pub struct TaskInput {
    /// What the agent should do.
    pub task_prompt: String,
    /// The form of the answer.
    pub output_prompt: String,
    /// Ids of the uploaded input files, in upload order.
    pub input_files: Vec<String>,
}

impl Default for TaskInput {
    /// Empty prompts and no files.
    fn default() -> (res: Self)
        ensures
            res.task_prompt@.len() == 0,
            res.output_prompt@.len() == 0,
            res.input_files@.len() == 0,
    {
        TaskInput { task_prompt: String::new(), output_prompt: String::new(), input_files: Vec::new() }
    }
}

/// A task as the client API shows it (no user id).
#[derive(Debug)]
pub struct TaskResponse {
    pub id: String,
    pub service_id: String,
    pub status: String,
    pub input: Option<String>,
    pub output: Option<String>,
    pub error_message: Option<String>,
    pub session_id: String,
    pub retry_count: i64,
    pub created_at: i64,
    pub assigned_at: Option<i64>,
    pub started_at: Option<i64>,
    pub completed_at: Option<i64>,
}

impl TaskResponse {
    /// The response for a task: its fields, with the status by name.
    pub open spec fn shows(self, task: Task) -> bool {
        &&& self.id == task.id
        &&& self.service_id == task.service_id
        &&& self.status@ == task.status.name()
        &&& self.input == task.input
        &&& self.output == task.output
        &&& self.error_message == task.error_message
        &&& self.session_id == task.session_id
        &&& self.retry_count == task.retry_count
        &&& self.created_at == task.created_at
        &&& self.assigned_at == task.assigned_at
        &&& self.started_at == task.started_at
        &&& self.completed_at == task.completed_at
    }

    /// Builds the response for a task.
    pub fn from_task(task: Task) -> (res: TaskResponse)
        ensures
            res.shows(task),
    {
        let status = task.status.to_string();
        TaskResponse {
            id: task.id,
            service_id: task.service_id,
            status,
            input: task.input,
            output: task.output,
            error_message: task.error_message,
            session_id: task.session_id,
            retry_count: task.retry_count,
            created_at: task.created_at,
            assigned_at: task.assigned_at,
            started_at: task.started_at,
            completed_at: task.completed_at,
        }
    }
}

/// Query parameters of the client task list.
#[derive(Debug, Clone)]
pub struct ListTasksQuery {
    pub status: Option<String>,
    pub service_id: Option<String>,
    pub limit: Option<i64>,
    pub offset: Option<i64>,
}

} // verus!
