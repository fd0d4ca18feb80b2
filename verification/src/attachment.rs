//! Attachments: upload validation (size cap and extension allow-list),
//! the attachment entity and its in-memory store. Accepted files are
//! stored under a path built from the task and a freshly generated
//! identifier, never from the user-supplied name; the original filename
//! is kept as display metadata only.

use vstd::prelude::*;

use crate::error::DomainError;
use crate::fresh::{fresh_id, now_micros, uuid_string, uuid_text};
use crate::order::{listed_in_order, sort_in_order, ListOrder};
use crate::seqs::{lemma_filter_push, lemma_subrange_full, lemma_subrange_push};
use crate::text::{lower_of, spec_extension_of, extension_of, str_eq, to_lowercase};

verus! {

/// Upload size cap in bytes: ten mebibytes exactly.
pub const MAX_FILE_SIZE: i64 = 10 * 1024 * 1024;

/// The fixed allow-list of (lowercase) file extensions.
pub open spec fn spec_allowed_extension(s: Seq<char>) -> bool {
    ||| s == "pdf"@
    ||| s == "doc"@
    ||| s == "docx"@
    ||| s == "xls"@
    ||| s == "xlsx"@
    ||| s == "ppt"@
    ||| s == "pptx"@
    ||| s == "txt"@
    ||| s == "csv"@
    ||| s == "zip"@
    ||| s == "rar"@
    ||| s == "7z"@
    ||| s == "png"@
    ||| s == "jpg"@
    ||| s == "jpeg"@
    ||| s == "gif"@
    ||| s == "webp"@
    ||| s == "svg"@
    ||| s == "bmp"@
}

/// Whether the (already lowercase-folded) extension is in the
/// allow-list.
pub fn is_allowed_extension(ext: &str) -> (r: bool)
    ensures
        r == spec_allowed_extension(ext@),
{
    str_eq(ext, "pdf") || str_eq(ext, "doc") || str_eq(ext, "docx") || str_eq(ext, "xls")
        || str_eq(ext, "xlsx") || str_eq(ext, "ppt") || str_eq(ext, "pptx")
        || str_eq(ext, "txt") || str_eq(ext, "csv") || str_eq(ext, "zip")
        || str_eq(ext, "rar") || str_eq(ext, "7z") || str_eq(ext, "png")
        || str_eq(ext, "jpg") || str_eq(ext, "jpeg") || str_eq(ext, "gif")
        || str_eq(ext, "webp") || str_eq(ext, "svg") || str_eq(ext, "bmp")
}

/// Whether an upload of this size and filename is accepted: the payload
/// is at most `MAX_FILE_SIZE` bytes, and the lowercase folding of the
/// filename's extension is in the allow-list.
pub open spec fn spec_upload_accepted(filename: Seq<char>, size_bytes: int) -> bool {
    size_bytes <= MAX_FILE_SIZE && spec_allowed_extension(
        lower_of(spec_extension_of(filename)),
    )
}

/// A stored attachment record. `filename` is the generated on-disk
/// name; `original_filename` is display metadata; `storage_path` is
/// `{task}/{filename}`.
#[derive(Debug)]
pub struct Attachment {
    pub id: u128,
    pub task_id: u128,
    pub uploaded_by: u128,
    pub filename: String,
    pub original_filename: String,
    pub content_type: String,
    pub size_bytes: i64,
    pub storage_path: String,
    pub created_at: i64,
}

impl Attachment {
    pub fn new(
        task_id: u128,
        uploaded_by: u128,
        filename: String,
        original_filename: String,
        content_type: String,
        size_bytes: i64,
        storage_path: String,
    ) -> (r: Attachment)
        ensures
            r.task_id == task_id,
            r.uploaded_by == uploaded_by,
            r.filename == filename,
            r.original_filename == original_filename,
            r.content_type == content_type,
            r.size_bytes == size_bytes,
            r.storage_path == storage_path,
    {
        Attachment {
            id: fresh_id(),
            task_id,
            uploaded_by,
            filename,
            original_filename,
            content_type,
            size_bytes,
            storage_path,
            created_at: now_micros(),
        }
    }

    /// Whether the content type declares an image.
    pub fn is_image(&self) -> (r: bool)
        ensures
            r == (self.content_type@.len() >= "image/"@.len()
                && self.content_type@.subrange(0, "image/"@.len() as int) == "image/"@),
    {
        proof {
            reveal_strlit("image/");
        }
        let ct = self.content_type.as_str();
        if ct.unicode_len() < 6 {
            return false;
        }
        let prefix = ct.substring_char(0, 6);
        str_eq(prefix, "image/")
    }
}

impl Clone for Attachment {
    fn clone(&self) -> (r: Self)
        ensures
            r == *self,
    {
        Attachment {
            id: self.id,
            task_id: self.task_id,
            uploaded_by: self.uploaded_by,
            filename: self.filename.clone(),
            original_filename: self.original_filename.clone(),
            content_type: self.content_type.clone(),
            size_bytes: self.size_bytes,
            storage_path: self.storage_path.clone(),
            created_at: self.created_at,
        }
    }
}

/// Attachment listings come newest first, by creation time.
impl ListOrder for Attachment {
    open spec fn spec_le(&self, other: &Self) -> bool {
        self.created_at >= other.created_at
    }

    proof fn lemma_total(a: &Self, b: &Self) {
    }

    proof fn lemma_trans(a: &Self, b: &Self, c: &Self) {
    }

    fn le(&self, other: &Self) -> bool {
        self.created_at >= other.created_at
    }
}

/// Index of the attachment with the given identifier (meaningful only
/// when one exists; identifiers are unique in a well-formed store).
pub open spec fn attachment_idx(attachments: Seq<Attachment>, id: u128) -> int {
    choose|i: int| 0 <= i < attachments.len() && attachments[i].id == id
}

/// In a store with unique identifiers, a contained attachment with the
/// given identifier sits at `attachment_idx`.
pub proof fn lemma_attachment_at_idx(attachments: Seq<Attachment>, a: Attachment, id: u128)
    requires
        forall|i: int, j: int|
            0 <= i < j < attachments.len() ==> attachments[i].id != attachments[j].id,
        attachments.contains(a),
        a.id == id,
    ensures
        0 <= attachment_idx(attachments, id) < attachments.len(),
        attachments[attachment_idx(attachments, id)] == a,
{
    let k = choose|k: int| 0 <= k < attachments.len() && attachments[k] == a;
    assert(0 <= k < attachments.len() && attachments[k].id == id);
    let i = attachment_idx(attachments, id);
    assert(0 <= i < attachments.len() && attachments[i].id == id);
    if i != k {
        if i < k {
            assert(attachments[i].id != attachments[k].id);
        } else {
            assert(attachments[k].id != attachments[i].id);
        }
    }
}

/// In-memory attachment store. Identifiers are unique, as the primary
/// key makes them.
pub struct AttachmentRepository {
    pub attachments: Vec<Attachment>,
}

impl AttachmentRepository {
    /// Store invariant: no two attachments share an identifier.
    pub open spec fn wf(&self) -> bool {
        forall|i: int, j: int|
            0 <= i < j < self.attachments@.len()
                ==> self.attachments@[i].id != self.attachments@[j].id
    }

    pub open spec fn spec_has_attachment(&self, id: u128) -> bool {
        exists|i: int| 0 <= i < self.attachments@.len() && self.attachments@[i].id == id
    }

    pub fn new() -> (r: Self)
        ensures
            r.wf(),
            r.attachments@.len() == 0,
    {
        AttachmentRepository { attachments: Vec::new() }
    }

    pub fn find_by_id(&self, id: u128) -> (r: Option<Attachment>)
        ensures
            r is Some <==> self.spec_has_attachment(id),
            r matches Some(a) ==> a.id == id && self.attachments@.contains(a),
    {
        let n = self.attachments.len();
        let mut i: usize = 0;
        while i < n
            invariant
                i <= n,
                n == self.attachments@.len(),
                forall|j: int| 0 <= j < i ==> self.attachments@[j].id != id,
            decreases n - i,
        {
            if self.attachments[i].id == id {
                return Some(self.attachments[i].clone());
            }
            i = i + 1;
        }
        None
    }

    /// Attachments of the task, newest first.
    pub fn find_by_task(&self, task_id: u128) -> (r: Vec<Attachment>)
        ensures
            r@.to_multiset() == self.attachments@.filter(
                |a: Attachment| a.task_id == task_id,
            ).to_multiset(),
            listed_in_order(r@),
    {
        let ghost pred = |a: Attachment| a.task_id == task_id;
        let n = self.attachments.len();
        let mut out: Vec<Attachment> = Vec::new();
        let mut i: usize = 0;
        while i < n
            invariant
                i <= n,
                n == self.attachments@.len(),
                out@ == self.attachments@.subrange(0, i as int).filter(pred),
            decreases n - i,
        {
            if self.attachments[i].task_id == task_id {
                out.push(self.attachments[i].clone());
            }
            proof {
                lemma_subrange_push(self.attachments@, i as int);
                lemma_filter_push(
                    self.attachments@.subrange(0, i as int),
                    self.attachments@[i as int],
                    pred,
                );
            }
            i = i + 1;
        }
        proof {
            lemma_subrange_full(self.attachments@);
        }
        sort_in_order(out)
    }

    /// Inserts an attachment. A duplicate identifier is rejected as the
    /// primary key rejects it.
    pub fn create(&mut self, attachment: &Attachment) -> (r: Result<Attachment, DomainError>)
        requires
            old(self).wf(),
        ensures
            final(self).wf(),
            old(self).spec_has_attachment(attachment.id) ==> (r matches Err(e)
                && e matches DomainError::AlreadyExists(m)
                && m@ == "Resource already exists"@
                && final(self).attachments@ == old(self).attachments@),
            !old(self).spec_has_attachment(attachment.id) ==> (r matches Ok(a)
                && a == *attachment
                && final(self).attachments@ == old(self).attachments@.push(*attachment)),
    {
        let n = self.attachments.len();
        let mut i: usize = 0;
        while i < n
            invariant
                i <= n,
                n == self.attachments@.len(),
                forall|j: int| 0 <= j < i ==> self.attachments@[j].id != attachment.id,
            decreases n - i,
        {
            if self.attachments[i].id == attachment.id {
                return Err(DomainError::AlreadyExists(
                    String::from_str("Resource already exists"),
                ));
            }
            i = i + 1;
        }
        self.attachments.push(attachment.clone());
        Ok(attachment.clone())
    }

    /// Deletes the attachment with this identifier; deleting a missing
    /// one is not an error.
    pub fn delete(&mut self, id: u128) -> (r: Result<(), DomainError>)
        requires
            old(self).wf(),
        ensures
            final(self).wf(),
            r is Ok,
            !old(self).spec_has_attachment(id) ==> final(self).attachments@
                == old(self).attachments@,
            old(self).spec_has_attachment(id) ==> final(self).attachments@
                == old(self).attachments@.remove(attachment_idx(old(self).attachments@, id)),
    {
        let n = self.attachments.len();
        let mut i: usize = 0;
        while i < n
            invariant
                i <= n,
                n == self.attachments@.len(),
                self.attachments@ == old(self).attachments@,
                forall|j: int| 0 <= j < i ==> self.attachments@[j].id != id,
            decreases n - i,
        {
            if self.attachments[i].id == id {
                proof {
                    lemma_attachment_at_idx(self.attachments@, self.attachments@[i as int], id);
                }
                self.attachments.remove(i);
                proof {
                    assert forall|p: int, q: int|
                        0 <= p < q < self.attachments@.len() implies self.attachments@[p].id
                        != self.attachments@[q].id by {
                        let op: int = if p < i { p } else { p + 1 };
                        let oq: int = if q < i { q } else { q + 1 };
                        assert(self.attachments@[p] == old(self).attachments@[op]);
                        assert(self.attachments@[q] == old(self).attachments@[oq]);
                    }
                }
                return Ok(());
            }
            i = i + 1;
        }
        Ok(())
    }

    /// Deletes every attachment of the task; none matching is not an
    /// error.
    pub fn delete_by_task(&mut self, task_id: u128) -> (r: Result<(), DomainError>)
        requires
            old(self).wf(),
        ensures
            final(self).wf(),
            r is Ok,
            final(self).attachments@ == old(self).attachments@.filter(
                |a: Attachment| a.task_id != task_id,
            ),
    {
        let ghost pred = |a: Attachment| a.task_id != task_id;
        let n = self.attachments.len();
        let mut kept: Vec<Attachment> = Vec::new();
        let mut i: usize = 0;
        while i < n
            invariant
                i <= n,
                n == self.attachments@.len(),
                self.attachments@ == old(self).attachments@,
                kept@ == self.attachments@.subrange(0, i as int).filter(pred),
            decreases n - i,
        {
            if self.attachments[i].task_id != task_id {
                kept.push(self.attachments[i].clone());
            }
            proof {
                lemma_subrange_push(self.attachments@, i as int);
                lemma_filter_push(
                    self.attachments@.subrange(0, i as int),
                    self.attachments@[i as int],
                    pred,
                );
            }
            i = i + 1;
        }
        proof {
            lemma_subrange_full(old(self).attachments@);
        }
        self.attachments = kept;
        proof {
            crate::seqs::lemma_filter_unique_keys(
                old(self).attachments@,
                pred,
                |a: Attachment| a.id,
            );
        }
        Ok(())
    }
}

/// Attachment use cases: listing, fetch, validated upload and delete.
/// Writing payload bytes to disk and serving them back is I/O around
/// this service, not part of it.
pub struct AttachmentAppService {
    pub attachment_repository: AttachmentRepository,
}

impl AttachmentAppService {
    pub fn new(attachment_repository: AttachmentRepository) -> (r: Self)
        ensures
            r.attachment_repository == attachment_repository,
    {
        AttachmentAppService { attachment_repository }
    }

    pub fn get_task_attachments(&self, task_id: u128) -> (r: Result<
        Vec<Attachment>,
        DomainError,
    >)
        ensures
            r matches Ok(v) && v@.to_multiset()
                == self.attachment_repository.attachments@.filter(
                |a: Attachment| a.task_id == task_id,
            ).to_multiset(),
            r matches Ok(v) ==> listed_in_order(v@),
    {
        Ok(self.attachment_repository.find_by_task(task_id))
    }

    pub fn get_attachment(&self, id: u128) -> (r: Result<Attachment, DomainError>)
        ensures
            r is Ok <==> self.attachment_repository.spec_has_attachment(id),
            r matches Ok(a) ==> a.id == id
                && self.attachment_repository.attachments@.contains(a),
            r matches Err(e) ==> (e matches DomainError::NotFound(m)
                && m@ == "Attachment not found"@),
    {
        match self.attachment_repository.find_by_id(id) {
            Some(a) => Ok(a),
            None => Err(DomainError::NotFound(String::from_str("Attachment not found"))),
        }
    }

    /// Validates and records an upload: a payload over the size cap is
    /// rejected, as is a filename whose lowercase-folded extension is
    /// not in the allow-list. The record's on-disk name is built from a
    /// freshly generated identifier, never from the supplied name.
    pub fn upload_attachment(
        &mut self,
        task_id: u128,
        uploaded_by: u128,
        original_filename: String,
        content_type: String,
        data: &Vec<u8>,
    ) -> (r: Result<Attachment, DomainError>)
        requires
            old(self).attachment_repository.wf(),
        ensures
            final(self).attachment_repository.wf(),
            data@.len() > MAX_FILE_SIZE ==> (r matches Err(e)
                && e matches DomainError::ValidationError(m)
                && m@ == "File size exceeds maximum allowed size of 10 MB"@
                && final(self).attachment_repository.attachments@
                    == old(self).attachment_repository.attachments@),
            data@.len() <= MAX_FILE_SIZE && !spec_allowed_extension(
                lower_of(spec_extension_of(original_filename@)),
            ) ==> (r matches Err(e) && e is ValidationError
                && final(self).attachment_repository.attachments@
                    == old(self).attachment_repository.attachments@),
            spec_upload_accepted(original_filename@, data@.len() as int) ==> ((r matches Ok(a)
                ==> a.task_id == task_id && a.uploaded_by == uploaded_by
                && a.original_filename == original_filename
                && a.content_type == content_type
                && a.size_bytes == data@.len()
                && (exists|p: Seq<char>| a.filename@ == p + "."@ + lower_of(
                spec_extension_of(original_filename@),
            ))
                && a.storage_path@ == uuid_text(task_id) + "/"@ + a.filename@
                && final(self).attachment_repository.attachments@
                    == old(self).attachment_repository.attachments@.push(a))
                && (r matches Err(e) ==> e is AlreadyExists
                && final(self).attachment_repository.attachments@
                    == old(self).attachment_repository.attachments@)),
    {
        if data.len() > 10485760 {
            return Err(DomainError::ValidationError(
                String::from_str("File size exceeds maximum allowed size of 10 MB"),
            ));
        }
        let size_bytes: i64 = data.len() as i64;

        let extension = to_lowercase(extension_of(original_filename.as_str()));
        if !is_allowed_extension(extension.as_str()) {
            return Err(DomainError::ValidationError(
                String::from_str("File type is not allowed"),
            ));
        }

        let file_id = fresh_id();
        let filename = uuid_string(file_id).concat(".").concat(extension.as_str());
        let storage_path = uuid_string(task_id).concat("/").concat(filename.as_str());
        proof {
            assert(filename@ == uuid_text(file_id) + "."@ + extension@);
        }

        let attachment = Attachment::new(
            task_id,
            uploaded_by,
            filename,
            original_filename,
            content_type,
            size_bytes,
            storage_path,
        );
        self.attachment_repository.create(&attachment)
    }

    /// Removes the stored record of an attachment that exists.
    pub fn delete_attachment(&mut self, id: u128) -> (r: Result<(), DomainError>)
        requires
            old(self).attachment_repository.wf(),
        ensures
            final(self).attachment_repository.wf(),
            !old(self).attachment_repository.spec_has_attachment(id) ==> (r matches Err(e)
                && e matches DomainError::NotFound(m)
                && m@ == "Attachment not found"@
                && final(self).attachment_repository.attachments@
                    == old(self).attachment_repository.attachments@),
            old(self).attachment_repository.spec_has_attachment(id) ==> (r is Ok
                && final(self).attachment_repository.attachments@
                    == old(self).attachment_repository.attachments@.remove(
                attachment_idx(old(self).attachment_repository.attachments@, id),
            )),
    {
        match self.attachment_repository.find_by_id(id) {
            Some(_) => {},
            None => {
                return Err(DomainError::NotFound(String::from_str("Attachment not found")));
            },
        }
        self.attachment_repository.delete(id)
    }

    /// The stored relative path of an attachment that exists: where its
    /// bytes live under the upload directory.
    pub fn get_file_path(&self, id: u128) -> (r: Result<String, DomainError>)
        requires
            self.attachment_repository.wf(),
        ensures
            !self.attachment_repository.spec_has_attachment(id) ==> (r matches Err(e)
                && e matches DomainError::NotFound(m)
                && m@ == "Attachment not found"@),
            self.attachment_repository.spec_has_attachment(id) ==> (r matches Ok(p)
                && p@ == self.attachment_repository.attachments@[attachment_idx(
                self.attachment_repository.attachments@,
                id,
            )].storage_path@),
    {
        match self.attachment_repository.find_by_id(id) {
            Some(a) => {
                proof {
                    lemma_attachment_at_idx(self.attachment_repository.attachments@, a, id);
                }
                Ok(a.storage_path)
            },
            None => Err(DomainError::NotFound(String::from_str("Attachment not found"))),
        }
    }
}

} // verus!
