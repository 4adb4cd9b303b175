//! Uploaded files and what is recorded about them.

use crate::clock::now_millis;
use crate::ids::{new_uuid, uuid_text};
use crate::text::{chars_of, starts_with, str_eq};
use uuid::Uuid;
use vstd::prelude::*;
use vstd::string::{StrSliceExecFns, StringExecFns};

verus! {

#[verifier::external_type_specification]
#[verifier::external_body]
pub struct ExValue(serde_json::Value);

/// An uploaded file. Times are in milliseconds since the Unix epoch.
#[derive(Debug)]
pub struct FileMetadata {
    pub id: Uuid,
    pub user_id: Uuid,
    /// The name the file was uploaded under.
    pub filename: String,
    /// The name it is stored under: a fresh identifier, `_`, and `filename`.
    pub stored_filename: String,
    pub mime_type: String,
    pub size_bytes: i64,
    pub storage_path: String,
    pub file_hash: Option<String>,
    pub is_public: bool,
    pub download_count: i32,
    /// Free-form details about the file.
    pub metadata: Option<serde_json::Value>,
    pub created_at: i64,
    pub updated_at: i64,
    /// When the file stops being served, if ever.
    pub expires_at: Option<i64>,
}

/// The position of the last `c` in `s`, if any.
pub open spec fn last_index_of(s: Seq<char>, c: char) -> Option<int>
    decreases s.len(),
{
    if s.len() == 0 {
        None
    } else if s.last() == c {
        Some(s.len() - 1)
    } else {
        last_index_of(s.drop_last(), c)
    }
}

/// What follows the last `.` of a file name, if it has one.
pub open spec fn extension_of(name: Seq<char>) -> Option<Seq<char>> {
    match last_index_of(name, '.') {
        Some(i) => Some(name.subrange(i + 1, name.len() as int)),
        None => None,
    }
}

proof fn lemma_last_index_bounds(s: Seq<char>, c: char)
    ensures
        last_index_of(s, c) matches Some(i) ==> 0 <= i < s.len() && s[i] == c,
    decreases s.len(),
{
    if s.len() > 0 && s.last() != c {
        lemma_last_index_bounds(s.drop_last(), c);
    }
}

/// The MIME types counted as documents.
pub open spec fn document_type(mime: Seq<char>) -> bool {
    ||| mime == "application/pdf"@
    ||| mime == "application/msword"@
    ||| mime == "application/vnd.openxmlformats-officedocument.wordprocessingml.document"@
    ||| mime == "text/plain"@
}

impl FileMetadata {
    /// A private file of `user_id`, recorded at `now`, stored under a fresh name.
    pub fn new_at(user_id: Uuid, filename: String, mime_type: String, size_bytes: i64, storage_path: String, now: i64) -> (f: FileMetadata)
        ensures
            f.user_id == user_id,
            f.filename == filename,
            exists|prefix: Seq<char>| f.stored_filename@ == prefix + seq!['_'] + filename@,
            f.mime_type == mime_type,
            f.size_bytes == size_bytes,
            f.storage_path == storage_path,
            f.file_hash is None,
            !f.is_public,
            f.download_count == 0,
            f.metadata is None,
            f.created_at == now,
            f.updated_at == now,
            f.expires_at is None,
    {
        let mut stored = uuid_text(&new_uuid());
        let ghost prefix = stored@;
        stored.append("_");
        proof { reveal_strlit("_"); }
        stored.append(filename.as_str());
        assert(stored@ == prefix + seq!['_'] + filename@);
        FileMetadata {
            id: new_uuid(),
            user_id,
            filename,
            stored_filename: stored,
            mime_type,
            size_bytes,
            storage_path,
            file_hash: None,
            is_public: false,
            download_count: 0,
            metadata: None,
            created_at: now,
            updated_at: now,
            expires_at: None,
        }
    }

    /// A private file of `user_id`, recorded now, stored under a fresh name.
    pub fn new(user_id: Uuid, filename: String, mime_type: String, size_bytes: i64, storage_path: String) -> (f: FileMetadata)
        ensures
            f.user_id == user_id,
            f.filename == filename,
            exists|prefix: Seq<char>| f.stored_filename@ == prefix + seq!['_'] + filename@,
            f.mime_type == mime_type,
            f.size_bytes == size_bytes,
            f.storage_path == storage_path,
            f.file_hash is None,
            !f.is_public,
            f.download_count == 0,
            f.metadata is None,
            f.updated_at == f.created_at,
            f.expires_at is None,
    {
        FileMetadata::new_at(user_id, filename, mime_type, size_bytes, storage_path, now_millis())
    }

    /// Whether the file has an end and it is before `now`.
    pub fn is_expired_at(&self, now: i64) -> (r: bool)
        ensures
            r == (self.expires_at matches Some(t) && now > t),
    {
        match self.expires_at {
            Some(t) => now > t,
            None => false,
        }
    }

    /// Whether the file has an end and it has passed.
    pub fn is_expired(&self) -> (r: bool)
        ensures
            r ==> self.expires_at is Some,
    {
        self.is_expired_at(now_millis())
    }

    /// Counts one more download at `now`.
    pub fn increment_downloads_at(&mut self, now: i64)
        requires
            old(self).download_count < i32::MAX,
        ensures
            *final(self) == (FileMetadata {
                download_count: (old(self).download_count + 1) as i32,
                updated_at: now,
                ..*old(self)
            }),
    {
        self.download_count = self.download_count + 1;
        self.updated_at = now;
    }

    /// Counts one more download now.
    pub fn increment_downloads(&mut self)
        requires
            old(self).download_count < i32::MAX,
        ensures
            *final(self) == (FileMetadata {
                download_count: (old(self).download_count + 1) as i32,
                updated_at: final(self).updated_at,
                ..*old(self)
            }),
    {
        self.increment_downloads_at(now_millis());
    }

    /// Makes the file public at `now`.
    pub fn make_public_at(&mut self, now: i64)
        ensures
            *final(self) == (FileMetadata { is_public: true, updated_at: now, ..*old(self) }),
    {
        self.is_public = true;
        self.updated_at = now;
    }

    /// Makes the file public now.
    pub fn make_public(&mut self)
        ensures
            *final(self) == (FileMetadata { is_public: true, updated_at: final(self).updated_at, ..*old(self) }),
    {
        self.make_public_at(now_millis());
    }

    /// Makes the file private at `now`.
    pub fn make_private_at(&mut self, now: i64)
        ensures
            *final(self) == (FileMetadata { is_public: false, updated_at: now, ..*old(self) }),
    {
        self.is_public = false;
        self.updated_at = now;
    }

    /// Makes the file private now.
    pub fn make_private(&mut self)
        ensures
            *final(self) == (FileMetadata { is_public: false, updated_at: final(self).updated_at, ..*old(self) }),
    {
        self.make_private_at(now_millis());
    }

    /// What follows the last `.` of the file name, if it has one.
    pub fn extension(&self) -> (r: Option<&str>)
        ensures
            match r {
                Some(e) => extension_of(self.filename@) == Some(e@),
                None => extension_of(self.filename@) is None,
            },
    {
        let cs = chars_of(self.filename.as_str());
        let mut i: usize = cs.len();
        assert(cs@.take(i as int) =~= cs@);
        while i > 0
            invariant
                i <= cs@.len(),
                cs@ == self.filename@,
                last_index_of(self.filename@, '.') == last_index_of(cs@.take(i as int), '.'),
            decreases i,
        {
            assert(cs@.take(i as int).drop_last() =~= cs@.take(i - 1));
            if cs[i - 1] == '.' {
                proof { lemma_last_index_bounds(cs@, '.'); }
                return Some(self.filename.as_str().substring_char(i, cs.len()));
            }
            i = i - 1;
        }
        None
    }

    /// Whether the file is an image.
    pub fn is_image(&self) -> (r: bool)
        ensures
            r == "image/"@.is_prefix_of(self.mime_type@),
    {
        starts_with(self.mime_type.as_str(), "image/")
    }

    /// Whether the file is a video.
    pub fn is_video(&self) -> (r: bool)
        ensures
            r == "video/"@.is_prefix_of(self.mime_type@),
    {
        starts_with(self.mime_type.as_str(), "video/")
    }

    /// Whether the file is a PDF, a Word or a plain text document.
    pub fn is_document(&self) -> (r: bool)
        ensures
            r == document_type(self.mime_type@),
    {
        let m = self.mime_type.as_str();
        str_eq(m, "application/pdf") || str_eq(m, "application/msword") || str_eq(
            m,
            "application/vnd.openxmlformats-officedocument.wordprocessingml.document",
        ) || str_eq(m, "text/plain")
    }
}

/// The answer to an upload.
#[derive(Debug)]
pub struct FileUploadResponse {
    pub id: Uuid,
    pub filename: String,
    pub mime_type: String,
    pub size_bytes: i64,
    pub url: String,
    pub created_at: i64,
}

impl From<FileMetadata> for FileUploadResponse {
    fn from(metadata: FileMetadata) -> (r: FileUploadResponse) {
        FileUploadResponse {
            id: metadata.id,
            filename: metadata.filename,
            mime_type: metadata.mime_type,
            size_bytes: metadata.size_bytes,
            url: metadata.storage_path,
            created_at: metadata.created_at,
        }
    }
}

impl vstd::std_specs::convert::FromSpecImpl<FileMetadata> for FileUploadResponse {
    open spec fn obeys_from_spec() -> bool {
        true
    }

    open spec fn from_spec(metadata: FileMetadata) -> FileUploadResponse {
        FileUploadResponse {
            id: metadata.id,
            filename: metadata.filename,
            mime_type: metadata.mime_type,
            size_bytes: metadata.size_bytes,
            url: metadata.storage_path,
            created_at: metadata.created_at,
        }
    }
}

/// What a listing shows of a file.
#[derive(Debug)]
pub struct FileSummary {
    pub id: Uuid,
    pub filename: String,
    pub mime_type: String,
    pub size_bytes: i64,
    /// The size in B, KB, MB or GB.
    pub human_readable_size: String,
    pub is_public: bool,
    pub download_count: i32,
    pub created_at: i64,
}

/// A request for an address to upload a file to.
#[derive(Debug)]
pub struct SignedUploadRequest {
    pub filename: String,
    pub mime_type: String,
    pub size_bytes: i64,
}

/// The address to upload a file to, and until when it may be used.
#[derive(Debug)]
pub struct SignedUploadResponse {
    pub upload_url: String,
    pub file_id: Uuid,
    pub expires_at: i64,
}

} // verus!
