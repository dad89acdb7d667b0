//! File upload and download: the upload form, who may reach a file, and
//! the headers of a download.

use vstd::prelude::*;
use crate::error::{is_bad_request, AppError};
use crate::handlers::client::{add_chunk, stored_under, too_large_message};
use crate::ids::{is_hyphenated_uuid, new_v4_string};
use crate::models::file::{FileCreatedBy, FileInfoResponse, FileListResponse, TaskFile};
use crate::models::task::Task;
use crate::text::{concat, str_eq};
use vstd::utf8::encode_utf8;

verus! {

/// A byte that percent-encoding keeps: an ASCII letter or digit, '-', '.',
/// '_' or '~'.
pub open spec fn url_safe(b: u8) -> bool {
    (48 <= b <= 57) || (65 <= b <= 90) || (97 <= b <= 122) || b == 45 || b == 46 || b == 95 || b
        == 126
}

/// An uppercase hexadecimal digit.
pub open spec fn upper_hex_digit(d: int) -> char {
    if d < 10 {
        (('0' as int) + d) as char
    } else {
        (('A' as int) + d - 10) as char
    }
}

/// Percent-encoding of `bytes`: each byte kept when it is safe, written as
/// '%' and two uppercase hex digits otherwise.
pub open spec fn percent_encoded(bytes: Seq<u8>) -> Seq<char>
    decreases bytes.len(),
{
    if bytes.len() == 0 {
        seq![]
    } else {
        let b = bytes.last();
        percent_encoded(bytes.drop_last()) + if url_safe(b) {
            seq![b as char]
        } else {
            seq!['%', upper_hex_digit(b as int / 16), upper_hex_digit(b as int % 16)]
        }
    }
}

/// `urlencoding::encode`: percent-encodes every byte of the UTF-8 text
/// except alphanumerics and '-', '_', '.', '~' (as its documentation says),
/// with uppercase hex digits (as its source writes them).
#[verifier::external_body]
fn url_encode(s: &str) -> (res: String)
    ensures
        res@ == percent_encoded(encode_utf8(s@)),
{
    urlencoding::encode(s).into_owned()
}

/// The headers of a file download.
#[derive(Debug, Clone)]
pub struct DownloadHeaders {
    pub content_type: String,
    pub content_disposition: String,
}

/// The `Content-Disposition` of a download of a file named `name`: an
/// attachment, with the plain name and its percent-encoded UTF-8 form.
pub open spec fn disposition(name: Seq<char>) -> Seq<char> {
    "attachment; filename=\""@ + name + "\"; filename*=UTF-8''"@ + percent_encoded(encode_utf8(name))
}

/// The headers of a download of `file`: its MIME type
/// ("application/octet-stream" when unknown) and an attachment
/// disposition.
pub fn download_headers(file: &TaskFile) -> (res: DownloadHeaders)
    ensures
        res.content_type@ == match file.mime_type {
            Some(m) => m@,
            None => "application/octet-stream"@,
        },
        res.content_disposition@ == disposition(file.filename@),
{
    let content_type = match &file.mime_type {
        Some(m) => m.clone(),
        None => String::from_str("application/octet-stream"),
    };
    let mut d = String::from_str("attachment; filename=\"");
    d.append(file.filename.as_str());
    d.append("\"; filename*=UTF-8''");
    d.append(url_encode(file.filename.as_str()).as_str());
    DownloadHeaders { content_type, content_disposition: d }
}

/// The upload form as it has arrived so far: the task id, the name and
/// type of the last file part, whether a file was received, and the bytes
/// received in all file parts.
#[derive(Debug, Clone)]
pub struct UploadForm {
    pub task_id: Option<String>,
    pub filename: Option<String>,
    pub mime_type: Option<String>,
    pub has_file: bool,
    pub total_size: usize,
}

impl UploadForm {
    /// A form before its first field.
    pub fn new() -> (res: UploadForm)
        ensures
            res.task_id is None,
            res.filename is None,
            res.mime_type is None,
            !res.has_file,
            res.total_size == 0,
    {
        UploadForm { task_id: None, filename: None, mime_type: None, has_file: false, total_size: 0 }
    }

    /// The "task_id" field.
    pub fn set_task_id(&mut self, value: String)
        ensures
            *final(self) == (UploadForm { task_id: Some(value), ..*old(self) }),
    {
        self.task_id = Some(value);
    }

    /// The start of a "file" part with its name and type. The task id must
    /// have come first; it is returned, so that the task can be checked
    /// before anything is written.
    pub fn begin_file(&mut self, filename: Option<String>, mime_type: Option<String>) -> (res:
        Result<String, AppError>)
        ensures
            *final(self) == (UploadForm { filename: filename, mime_type: mime_type, ..*old(self) }),
            old(self).task_id is None ==> is_bad_request(res, "字段顺序错误：task_id 必须在 file 之前"@),
            old(self).task_id matches Some(t) ==> res == Ok::<String, AppError>(t),
    {
        self.filename = filename;
        self.mime_type = mime_type;
        match &self.task_id {
            Some(t) => Ok(t.clone()),
            None => Err(
                AppError::BadRequest(String::from_str("字段顺序错误：task_id 必须在 file 之前")),
            ),
        }
    }

    /// Another chunk of `chunk` bytes of a file part, with the limit `max`
    /// on all the bytes of the form.
    pub fn add_chunk(&mut self, chunk: usize, max: usize) -> (res: Result<(), AppError>)
        requires
            old(self).total_size + chunk <= usize::MAX,
        ensures
            final(self).total_size == old(self).total_size + chunk,
            *final(self) == (UploadForm { total_size: final(self).total_size, ..*old(self) }),
            old(self).total_size + chunk <= max ==> res is Ok,
            old(self).total_size + chunk > max ==> is_bad_request(res, too_large_message(old(self).total_size + chunk, max as int)),
    {
        let total = self.total_size + chunk;
        let r = add_chunk(self.total_size, chunk, max);
        self.total_size = total;
        match r {
            Ok(_) => Ok(()),
            Err(e) => Err(e),
        }
    }

    /// A file part was received completely.
    pub fn file_done(&mut self)
        ensures
            *final(self) == (UploadForm { has_file: true, ..*old(self) }),
    {
        self.has_file = true;
    }

    /// The complete form: task id, file name ("unnamed" when the part gave
    /// none), type and size. A missing task id is reported before a missing
    /// file.
    pub fn finish(self) -> (res: Result<(String, String, Option<String>, usize), AppError>)
        ensures
            self.task_id is None ==> is_bad_request(res, "缺少 task_id 字段"@),
            self.task_id is Some && !self.has_file ==> is_bad_request(res, "缺少 file 字段"@),
            self.task_id is Some && self.has_file ==> (res matches Ok((t, n, m, size)) && t == self.task_id.unwrap()
                && n@ == (match self.filename {
                    Some(f) => f@,
                    None => "unnamed"@,
                }) && m == self.mime_type && size == self.total_size),
    {
        let task_id = match self.task_id {
            Some(t) => t,
            None => return Err(AppError::BadRequest(String::from_str("缺少 task_id 字段"))),
        };
        if !self.has_file {
            return Err(AppError::BadRequest(String::from_str("缺少 file 字段")));
        }
        let filename = match self.filename {
            Some(f) => f,
            None => String::from_str("unnamed"),
        };
        Ok((task_id, filename, self.mime_type, self.total_size))
    }
}

/// The task of an upload must exist, and belong to the uploading agent's
/// service when an agent uploads (`expected_service_id`).
pub fn check_upload_task(task: Option<&Task>, expected_service_id: Option<&str>) -> (res: Result<(), AppError>)
    ensures
        task is None ==> res == Err::<(), AppError>(AppError::NotFound),
        task matches Some(t) && (expected_service_id matches Some(sid) && t.service_id@ != sid@) ==> res == Err::<(), AppError>(AppError::Forbidden),
        task matches Some(t) && !(expected_service_id matches Some(sid) && t.service_id@ != sid@) ==> res is Ok,
{
    let t = match task {
        None => return Err(AppError::NotFound),
        Some(t) => t,
    };
    match expected_service_id {
        Some(sid) => if str_eq(t.service_id.as_str(), sid) {
            Ok(())
        } else {
            Err(AppError::Forbidden)
        },
        None => Ok(()),
    }
}

/// The record of an uploaded file of task `task_id`, stored under
/// `<task_id>/<random uuid>`.
pub fn upload_record(
    task_id: &str,
    filename: &str,
    mime_type: Option<String>,
    size: usize,
    created_by: FileCreatedBy,
) -> (res: TaskFile)
    requires
        size <= i64::MAX,
    ensures
        is_hyphenated_uuid(res.id@, '4'),
        res.task_id@ == task_id@,
        res.filename@ == filename@,
        res.mime_type == mime_type,
        res.size_bytes == size,
        stored_under(res.storage_path@, task_id@),
        res.created_by == created_by,
{
    let file_id = new_v4_string();
    let dir = concat(task_id, "/");
    let path = concat(dir.as_str(), file_id.as_str());
    assert(stored_under(path@, task_id@));
    TaskFile::new(task_id, filename, mime_type, size as i64, path.as_str(), created_by)
}

/// The access rule for an agent's file: the file and its task must exist,
/// and the task must belong to the agent's service.
pub fn verify_agent_file_access(file: Option<TaskFile>, task: Option<Task>, service_id: &str) -> (res: Result<(TaskFile, Task), AppError>)
    ensures
        file is None ==> res == Err::<(TaskFile, Task), AppError>(AppError::NotFound),
        file is Some && task is None ==> res == Err::<(TaskFile, Task), AppError>(AppError::NotFound),
        file is Some && (task matches Some(t) && t.service_id@ != service_id@) ==> res == Err::<(TaskFile, Task), AppError>(AppError::Forbidden),
        file is Some && (task matches Some(t) && t.service_id@ == service_id@) ==> res == Ok::<(TaskFile, Task), AppError>((file.unwrap(), task.unwrap())),
{
    let f = match file {
        None => return Err(AppError::NotFound),
        Some(f) => f,
    };
    let t = match task {
        None => return Err(AppError::NotFound),
        Some(t) => t,
    };
    if !str_eq(t.service_id.as_str(), service_id) {
        return Err(AppError::Forbidden);
    }
    Ok((f, t))
}

/// The file list of a task, in the order given.
pub fn file_list(files: Vec<TaskFile>) -> (res: FileListResponse)
    ensures
        res.files@.len() == files@.len(),
        forall|i: int| 0 <= i < files@.len() ==> {
            let r = #[trigger] res.files@[i];
            let f = files@[i];
            &&& r.id == f.id
            &&& r.task_id == f.task_id
            &&& r.filename == f.filename
            &&& r.mime_type == f.mime_type
            &&& r.size_bytes == f.size_bytes
            &&& r.created_by == f.created_by
            &&& r.created_at == f.created_at
        },
{
    let mut out: Vec<FileInfoResponse> = Vec::new();
    let mut i: usize = 0;
    while i < files.len()
        invariant
            i <= files@.len(),
            out@.len() == i,
            forall|k: int| 0 <= k < i ==> {
                let r = #[trigger] out@[k];
                let f = files@[k];
                &&& r.id == f.id
                &&& r.task_id == f.task_id
                &&& r.filename == f.filename
                &&& r.mime_type == f.mime_type
                &&& r.size_bytes == f.size_bytes
                &&& r.created_by == f.created_by
                &&& r.created_at == f.created_at
            },
        decreases files@.len() - i,
    {
        out.push(FileInfoResponse::from_file(files[i].copy()));
        i = i + 1;
    }
    FileListResponse { files: out }
}

} // verus!
