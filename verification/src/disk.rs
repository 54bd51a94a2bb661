//! The layout of the filesystem-backed store, and the decisions that its
//! operations make between one file access and the next.
//!
//! A store is rooted in a directory with three subdirectories, one for each
//! kind of thing it keeps. Reading and writing the files is left to the
//! caller: this module says which file an item lives in and what the files
//! that were read amount to.

use crate::error::RegistryError;
use crate::storage::{
    bytes_view, entry_view, ManifestEntry, ManifestEntryView, DEFAULT_MANIFEST_TYPE,
};
use crate::text::text_view;
use vstd::prelude::*;
use vstd::string::StringExecFns;

verus! {

/// One of the three subdirectories of a store's root.
#[derive(Clone, Copy, Debug, PartialEq, Eq, Structural)]
pub enum Directory {
    Manifests,
    Blobs,
    Uploads,
}

impl Directory {
    /// The name of the subdirectory.
    pub open spec fn spec_name(self) -> Seq<char> {
        match self {
            Directory::Manifests => "manifests"@,
            Directory::Blobs => "blobs"@,
            Directory::Uploads => "uploads"@,
        }
    }

    /// The name of the subdirectory.
    pub fn name(self) -> (name: &'static str)
        ensures
            name@ == self.spec_name(),
    {
        match self {
            Directory::Manifests => "manifests",
            Directory::Blobs => "blobs",
            Directory::Uploads => "uploads",
        }
    }
}

/// The place of a file below a store's root.
#[derive(Debug)]
pub struct StoredFile {
    pub directory: Directory,
    pub file_name: String,
}

/// The mathematical content of a [`StoredFile`].
pub struct StoredFileView {
    pub directory: Directory,
    pub file_name: Seq<char>,
}

impl View for StoredFile {
    type V = StoredFileView;

    open spec fn view(&self) -> StoredFileView {
        StoredFileView { directory: self.directory, file_name: self.file_name@ }
    }
}

/// `c`, or an underscore where `c` cannot stand in a file name.
pub open spec fn safe_char(c: char) -> char {
    if c == '/' || c == ':' {
        '_'
    } else {
        c
    }
}

/// `key` with every `/` and every `:` replaced by an underscore.
///
/// Two keys that differ only in these characters have the same sanitized
/// form, and so share a file: see [`lemma_sanitized_keys_collide`].
pub open spec fn sanitized(key: Seq<char>) -> Seq<char> {
    Seq::new(key.len(), |i: int| safe_char(key[i]))
}

/// Makes a key safe for use as a file name.
pub fn sanitize_key(key: &str) -> (name: String)
    ensures
        name@ == sanitized(key@),
{
    let mut name = String::new();
    for c in it: key.chars()
        invariant
            it.seq() == key@,
            name@ == sanitized(key@.subrange(0, it.index())),
    {
        let safe = if c == '/' || c == ':' {
            '_'
        } else {
            c
        };
        name.push(safe);
    }
    name
}

/// Keys that differ only in `/` and `:` share a file: the layout does not
/// tell them apart, and what is stored under one is found under the other.
pub proof fn lemma_sanitized_keys_collide(a: Seq<char>, b: Seq<char>)
    requires
        a.len() == b.len(),
        forall|i: int| 0 <= i < a.len() ==> safe_char(a[i]) == safe_char(b[i]),
    ensures
        sanitized(a) == sanitized(b),
{
}

/// Sanitizing keeps every key whose characters are all safe as it is, so
/// keys without `/` and `:` never share a file.
pub proof fn lemma_sanitized_keeps_safe_keys(key: Seq<char>)
    requires
        forall|i: int| 0 <= i < key.len() ==> key[i] != '/' && key[i] != ':',
    ensures
        sanitized(key) == key,
{
}

/// The file that holds the bytes of the manifest stored under `key`.
pub open spec fn manifest_file(key: Seq<char>) -> StoredFileView {
    StoredFileView { directory: Directory::Manifests, file_name: sanitized(key) + ".json"@ }
}

/// The sidecar file that holds the media type of the manifest stored under
/// `key`.
pub open spec fn manifest_meta_file(key: Seq<char>) -> StoredFileView {
    StoredFileView { directory: Directory::Manifests, file_name: sanitized(key) + ".meta"@ }
}

/// The file that holds the blob stored under `digest`.
pub open spec fn blob_file(digest: Seq<char>) -> StoredFileView {
    StoredFileView { directory: Directory::Blobs, file_name: sanitized(digest) }
}

/// The file that holds what the upload session `uuid` has gathered. The
/// identifier is used as it is.
pub open spec fn upload_file(uuid: Seq<char>) -> StoredFileView {
    StoredFileView { directory: Directory::Uploads, file_name: uuid }
}

proof fn lemma_same_suffix_cancels(a: Seq<char>, b: Seq<char>, suffix: Seq<char>)
    requires
        a + suffix == b + suffix,
    ensures
        a == b,
{
    assert((a + suffix).subrange(0, a.len() as int) =~= a);
    assert((b + suffix).subrange(0, b.len() as int) =~= b);
}

/// Two manifests share their data file exactly when their keys have the same
/// sanitized form, and then they share their sidecar too. The same holds of
/// the files of two blobs.
pub proof fn lemma_files_follow_sanitized_keys(a: Seq<char>, b: Seq<char>)
    ensures
        manifest_file(a) == manifest_file(b) <==> sanitized(a) == sanitized(b),
        manifest_meta_file(a) == manifest_meta_file(b) <==> sanitized(a) == sanitized(b),
        blob_file(a) == blob_file(b) <==> sanitized(a) == sanitized(b),
{
    if manifest_file(a) == manifest_file(b) {
        lemma_same_suffix_cancels(sanitized(a), sanitized(b), ".json"@);
    }
    if manifest_meta_file(a) == manifest_meta_file(b) {
        lemma_same_suffix_cancels(sanitized(a), sanitized(b), ".meta"@);
    }
}

/// The data file of one manifest is never the sidecar of another, whatever
/// their keys.
pub proof fn lemma_data_file_is_no_sidecar(a: Seq<char>, b: Seq<char>)
    ensures
        manifest_file(a) != manifest_meta_file(b),
{
    reveal_strlit(".json");
    reveal_strlit(".meta");
    let data = sanitized(a) + ".json"@;
    let meta = sanitized(b) + ".meta"@;
    if data == meta {
        // The two names end in different letters.
        assert(data[data.len() - 1] == 'n');
        assert(meta[meta.len() - 1] == 'a');
    }
}

/// Locates the file with the bytes of a manifest.
pub fn manifest_path(key: &str) -> (file: StoredFile)
    ensures
        file@ == manifest_file(key@),
{
    StoredFile { directory: Directory::Manifests, file_name: sanitize_key(key).concat(".json") }
}

/// Locates the sidecar file with the media type of a manifest.
pub fn manifest_meta_path(key: &str) -> (file: StoredFile)
    ensures
        file@ == manifest_meta_file(key@),
{
    StoredFile { directory: Directory::Manifests, file_name: sanitize_key(key).concat(".meta") }
}

/// Locates the file of a blob.
pub fn blob_path(digest: &str) -> (file: StoredFile)
    ensures
        file@ == blob_file(digest@),
{
    StoredFile { directory: Directory::Blobs, file_name: sanitize_key(digest) }
}

/// Locates the file of an upload session.
pub fn upload_path(uuid: &str) -> (file: StoredFile)
    ensures
        file@ == upload_file(uuid@),
{
    StoredFile { directory: Directory::Uploads, file_name: uuid.to_owned() }
}

/// The manifest that a data file and its sidecar amount to. Without the
/// data file there is no manifest, whatever the sidecar holds. Where the
/// sidecar is missing or cannot be read as text, the media type is the
/// default.
pub open spec fn manifest_from_files(data: Option<Seq<u8>>, meta: Option<Seq<char>>) -> Option<
    ManifestEntryView,
> {
    match data {
        Some(data) => Some(
            ManifestEntryView {
                data,
                content_type: match meta {
                    Some(content_type) => content_type,
                    None => DEFAULT_MANIFEST_TYPE@,
                },
            },
        ),
        None => None,
    }
}

/// Puts a manifest together from the contents of its data file and of its
/// sidecar, as far as each could be read.
pub fn read_manifest(data: Option<Vec<u8>>, meta: Option<String>) -> (entry: Option<ManifestEntry>)
    ensures
        entry_view(entry) == manifest_from_files(bytes_view(data), text_view(meta)),
{
    match data {
        Some(data) => {
            let content_type = match meta {
                Some(content_type) => content_type,
                None => DEFAULT_MANIFEST_TYPE.to_owned(),
            };
            Some(ManifestEntry { data, content_type })
        },
        None => None,
    }
}

/// What the file of the upload session `uuid` must hold after `data` was
/// appended, given what it held before: the old bytes followed by the new.
/// A session without a file is an error that names the session.
pub fn extend_upload(existing: Option<Vec<u8>>, uuid: &str, data: &[u8]) -> (result: Result<
    Vec<u8>,
    RegistryError,
>)
    ensures
        existing matches Some(gathered) ==> (result matches Ok(session) && session@ == gathered@
            + data@),
        existing is None ==> (result matches Err(RegistryError::UploadNotFound(id)) && id@
            == uuid@),
{
    match existing {
        Some(gathered) => {
            let mut session = gathered;
            session.extend_from_slice(data);
            Ok(session)
        },
        None => Err(RegistryError::UploadNotFound(uuid.to_owned())),
    }
}

} // verus!
