//! Files attached to tasks.

use vstd::prelude::*;
use crate::clock::utc_now_millis;
use crate::error::AppError;
use crate::ids::{is_hyphenated_uuid, new_v4_string};
use crate::paths::{climbs_out, path_join, path_starts_with, spec_path_join, spec_path_starts_with, walk_path};

verus! {

/// Who created a file.
#[derive(Debug, Clone, Copy, PartialEq, Eq, Structural)]
pub enum FileCreatedBy {
    /// Uploaded by a client with its task.
    Client,
    /// Produced by an agent.
    Agent,
}

impl FileCreatedBy {
    /// The lowercase name under which the creator is stored.
    pub open spec fn name(self) -> Seq<char> {
        match self {
            FileCreatedBy::Client => "client"@,
            FileCreatedBy::Agent => "agent"@,
        }
    }

    /// The lowercase name of the creator.
    pub fn to_string(&self) -> (res: String)
        ensures
            res@ == self.name(),
    {
        match self {
            FileCreatedBy::Client => String::from_str("client"),
            FileCreatedBy::Agent => String::from_str("agent"),
        }
    }
}

impl Default for FileCreatedBy {
    /// Files are client files unless said otherwise.
    fn default() -> (res: Self)
        ensures
            res == FileCreatedBy::Client,
    {
        FileCreatedBy::Client
    }
}

/// A stored file of a task. `storage_path` is relative to the storage root;
/// times are milliseconds since the Unix epoch.
#[derive(Debug, Clone)]
pub struct TaskFile {
    pub id: String,
    pub task_id: String,
    /// Original file name.
    pub filename: String,
    pub mime_type: Option<String>,
    pub size_bytes: i64,
    pub storage_path: String,
    pub created_by: FileCreatedBy,
    pub created_at: i64,
}

impl TaskFile {
    /// A new file record with a random id.
    pub fn new(
        task_id: &str,
        filename: &str,
        mime_type: Option<String>,
        size_bytes: i64,
        storage_path: &str,
        created_by: FileCreatedBy,
    ) -> (res: TaskFile)
        ensures
            is_hyphenated_uuid(res.id@, '4'),
            res.task_id@ == task_id@,
            res.filename@ == filename@,
            res.mime_type == mime_type,
            res.size_bytes == size_bytes,
            res.storage_path@ == storage_path@,
            res.created_by == created_by,
    {
        TaskFile {
            id: new_v4_string(),
            task_id: String::from_str(task_id),
            filename: String::from_str(filename),
            mime_type,
            size_bytes,
            storage_path: String::from_str(storage_path),
            created_by,
            created_at: utc_now_millis(),
        }
    }
}

impl TaskFile {
    /// A copy of the record.
    pub fn copy(&self) -> (res: TaskFile)
        ensures
            res == *self,
    {
        TaskFile {
            id: self.id.clone(),
            task_id: self.task_id.clone(),
            filename: self.filename.clone(),
            mime_type: crate::text::clone_opt(&self.mime_type),
            size_bytes: self.size_bytes,
            storage_path: self.storage_path.clone(),
            created_by: self.created_by,
            created_at: self.created_at,
        }
    }
}

impl TaskFile {
    /// Where the file lies under the storage root `canonical_base` (the
    /// root with its links resolved; `None` when it could not be resolved).
    /// The stored path is joined to the root; a result that does not start
    /// with the root, or that climbs above it with ".." once normalised, is
    /// refused, so no stored path leads out of the root.
    pub fn full_storage_path(&self, canonical_base: Option<&str>) -> (res: Result<String, AppError>)
        ensures
            canonical_base is None ==> (res matches Err(AppError::Internal(m)) && m@ == "无效的存储路径"@),
            canonical_base is Some && escapes(canonical_base.unwrap()@, self.storage_path@)
                ==> (res matches Err(AppError::Internal(m)) && m@ == "非法的文件路径"@),
            canonical_base is Some && !escapes(canonical_base.unwrap()@, self.storage_path@)
                ==> (res matches Ok(p) && p@ == spec_path_join(canonical_base.unwrap()@, self.storage_path@)),
    {
        let base = match canonical_base {
            Some(b) => b,
            None => return Err(AppError::Internal(String::from_str("无效的存储路径"))),
        };
        let full = path_join(base, self.storage_path.as_str());
        if !path_starts_with(full.as_str(), base) {
            return Err(AppError::Internal(String::from_str("非法的文件路径")));
        }
        let (base_depth, _) = walk_path(base);
        let (_, lowest) = walk_path(full.as_str());
        match lowest {
            Some(m) => {
                if m < base_depth {
                    return Err(AppError::Internal(String::from_str("非法的文件路径")));
                }
            },
            None => {},
        }
        Ok(full)
    }
}

/// Whether the stored path `sp` would lead away from the root `base`:
/// joined to the root it does not start with it, or it climbs above it.
pub open spec fn escapes(base: Seq<char>, sp: Seq<char>) -> bool {
    let full = spec_path_join(base, sp);
    !spec_path_starts_with(full, base) || climbs_out(full, base)
}

/// Answer to an upload.
#[derive(Debug)]
pub struct UploadFileResponse {
    pub file_id: String,
    pub filename: String,
    pub mime_type: Option<String>,
    pub size_bytes: i64,
    pub created_at: i64,
}

impl UploadFileResponse {
    /// The answer for a stored file.
    pub fn from_file(file: TaskFile) -> (res: UploadFileResponse)
        ensures
            res.file_id == file.id,
            res.filename == file.filename,
            res.mime_type == file.mime_type,
            res.size_bytes == file.size_bytes,
            res.created_at == file.created_at,
    {
        UploadFileResponse {
            file_id: file.id,
            filename: file.filename,
            mime_type: file.mime_type,
            size_bytes: file.size_bytes,
            created_at: file.created_at,
        }
    }
}

/// A file as the file API shows it (without its storage path).
#[derive(Debug)]
pub struct FileInfoResponse {
    pub id: String,
    pub task_id: String,
    pub filename: String,
    pub mime_type: Option<String>,
    pub size_bytes: i64,
    pub created_by: FileCreatedBy,
    pub created_at: i64,
}

impl FileInfoResponse {
    /// The description of a stored file.
    pub fn from_file(file: TaskFile) -> (res: FileInfoResponse)
        ensures
            res.id == file.id,
            res.task_id == file.task_id,
            res.filename == file.filename,
            res.mime_type == file.mime_type,
            res.size_bytes == file.size_bytes,
            res.created_by == file.created_by,
            res.created_at == file.created_at,
    {
        FileInfoResponse {
            id: file.id,
            task_id: file.task_id,
            filename: file.filename,
            mime_type: file.mime_type,
            size_bytes: file.size_bytes,
            created_by: file.created_by,
            created_at: file.created_at,
        }
    }
}

/// The files of a task.
#[derive(Debug)]
pub struct FileListResponse {
    pub files: Vec<FileInfoResponse>,
}

} // verus!
