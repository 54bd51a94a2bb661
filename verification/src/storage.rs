//! The storage abstraction and its in-memory backend.

use crate::error::RegistryError;
use vstd::hash_map::StringHashMap;
use vstd::prelude::*;

verus! {

/// The media type of a manifest that came, or is found, without one.
pub const DEFAULT_MANIFEST_TYPE: &'static str =
    "application/vnd.docker.distribution.manifest.v2+json";

/// A stored manifest: its raw bytes and the media type it was uploaded with.
pub struct ManifestEntry {
    pub data: Vec<u8>,
    pub content_type: String,
}

/// The mathematical content of a [`ManifestEntry`].
pub struct ManifestEntryView {
    pub data: Seq<u8>,
    pub content_type: Seq<char>,
}

impl View for ManifestEntry {
    type V = ManifestEntryView;

    open spec fn view(&self) -> ManifestEntryView {
        ManifestEntryView { data: self.data@, content_type: self.content_type@ }
    }
}

impl Clone for ManifestEntry {
    fn clone(&self) -> (copy: Self)
        ensures
            copy@ == self@,
    {
        ManifestEntry { data: self.data.clone(), content_type: self.content_type.clone() }
    }
}

/// Everything a storage backend holds, as mathematical maps: manifests by key,
/// blobs by digest, and in-flight upload sessions by identifier.
#[verifier::ext_equal]
pub struct StorageState {
    pub manifests: Map<Seq<char>, ManifestEntryView>,
    pub blobs: Map<Seq<char>, Seq<u8>>,
    pub uploads: Map<Seq<char>, Seq<u8>>,
}

impl StorageState {
    /// The state of a backend that holds nothing.
    pub open spec fn empty() -> StorageState {
        StorageState { manifests: Map::empty(), blobs: Map::empty(), uploads: Map::empty() }
    }

    /// The manifest stored under `key`, if there is one.
    pub open spec fn manifest(self, key: Seq<char>) -> Option<ManifestEntryView> {
        if self.manifests.contains_key(key) {
            Some(self.manifests[key])
        } else {
            None
        }
    }

    /// The blob stored under `digest`, if there is one.
    pub open spec fn blob(self, digest: Seq<char>) -> Option<Seq<u8>> {
        if self.blobs.contains_key(digest) {
            Some(self.blobs[digest])
        } else {
            None
        }
    }

    /// The bytes gathered so far by the upload session `id`, if it exists.
    pub open spec fn upload(self, id: Seq<char>) -> Option<Seq<u8>> {
        if self.uploads.contains_key(id) {
            Some(self.uploads[id])
        } else {
            None
        }
    }

    /// This state with `entry` stored under `key`, replacing what was there.
    pub open spec fn with_manifest(self, key: Seq<char>, entry: ManifestEntryView) -> StorageState {
        StorageState { manifests: self.manifests.insert(key, entry), ..self }
    }

    /// This state with `data` stored under `digest`, replacing what was there.
    pub open spec fn with_blob(self, digest: Seq<char>, data: Seq<u8>) -> StorageState {
        StorageState { blobs: self.blobs.insert(digest, data), ..self }
    }

    /// This state with the session `id` holding exactly `data`.
    pub open spec fn with_upload(self, id: Seq<char>, data: Seq<u8>) -> StorageState {
        StorageState { uploads: self.uploads.insert(id, data), ..self }
    }

    /// This state with the session `id` gone.
    pub open spec fn without_upload(self, id: Seq<char>) -> StorageState {
        StorageState { uploads: self.uploads.remove(id), ..self }
    }

    /// This state after `data` was appended to the session `id`.
    pub open spec fn with_chunk(self, id: Seq<char>, data: Seq<u8>) -> StorageState
        recommends
            self.uploads.contains_key(id),
    {
        self.with_upload(id, self.uploads[id] + data)
    }

    /// `other` agrees with this state everywhere but, possibly, in the manifest
    /// stored under `key`.
    pub open spec fn same_but_manifest(self, other: StorageState, key: Seq<char>) -> bool {
        &&& other.manifests.remove(key) == self.manifests.remove(key)
        &&& other.blobs == self.blobs
        &&& other.uploads == self.uploads
    }

    /// `other` agrees with this state everywhere but, possibly, in the blob
    /// stored under `digest`.
    pub open spec fn same_but_blob(self, other: StorageState, digest: Seq<char>) -> bool {
        &&& other.manifests == self.manifests
        &&& other.blobs.remove(digest) == self.blobs.remove(digest)
        &&& other.uploads == self.uploads
    }

    /// `other` agrees with this state everywhere but, possibly, in the upload
    /// session `id`.
    pub open spec fn same_but_upload(self, other: StorageState, id: Seq<char>) -> bool {
        &&& other.manifests == self.manifests
        &&& other.blobs == self.blobs
        &&& other.uploads.remove(id) == self.uploads.remove(id)
    }
}

/// The content of an optional byte buffer.
pub open spec fn bytes_view(found: Option<Vec<u8>>) -> Option<Seq<u8>> {
    match found {
        Some(data) => Some(data@),
        None => None,
    }
}

/// The content of an optional manifest entry.
pub open spec fn entry_view(found: Option<ManifestEntry>) -> Option<ManifestEntryView> {
    match found {
        Some(entry) => Some(entry@),
        None => None,
    }
}

/// The capability interface of a storage backend.
///
/// A backend holds manifests, blobs and upload sessions; [`Storage::view`]
/// says which. Distinct keys name distinct items, and the three kinds of item
/// never touch one another. Every operation may fail with an I/O error from
/// the underlying medium unless the backend is [`Storage::infallible`]. A
/// failed operation leaves everything untouched except, possibly, the one key
/// it was working on, and asking for something that is not there is never a
/// failure.
///
/// The operations that change what is held take the backend by mutable
/// reference: sharing a backend among concurrent requests, and the locking
/// that this takes, is left to the caller.
pub trait Storage {
    /// What the backend holds.
    spec fn view(&self) -> StorageState;

    /// Whether the medium behind this kind of backend never reports a fault.
    spec fn infallible() -> bool;

    /// Stores `entry` under `key`, replacing any earlier entry.
    fn store_manifest(&mut self, key: String, entry: ManifestEntry) -> (result: Result<
        (),
        RegistryError,
    >)
        ensures
            result is Ok ==> final(self)@ == old(self)@.with_manifest(key@, entry@),
            result matches Err(e) ==> e is Io && old(self)@.same_but_manifest(final(self)@, key@),
            Self::infallible() ==> result is Ok,
    ;

    /// Looks up the manifest stored under `key`.
    fn get_manifest(&self, key: &str) -> (result: Result<Option<ManifestEntry>, RegistryError>)
        ensures
            result matches Ok(found) ==> entry_view(found) == self@.manifest(key@),
            result matches Err(e) ==> e is Io && self@.manifest(key@) is Some,
            Self::infallible() ==> result is Ok,
    ;

    /// Stores `data` under `digest`, replacing any earlier blob.
    fn store_blob(&mut self, digest: String, data: Vec<u8>) -> (result: Result<(), RegistryError>)
        ensures
            result is Ok ==> final(self)@ == old(self)@.with_blob(digest@, data@),
            result matches Err(e) ==> e is Io && old(self)@.same_but_blob(final(self)@, digest@),
            Self::infallible() ==> result is Ok,
    ;

    /// Looks up the blob stored under `digest`.
    fn get_blob(&self, digest: &str) -> (result: Result<Option<Vec<u8>>, RegistryError>)
        ensures
            result matches Ok(found) ==> bytes_view(found) == self@.blob(digest@),
            result matches Err(e) ==> e is Io && self@.blob(digest@) is Some,
            Self::infallible() ==> result is Ok,
    ;

    /// Opens the upload session `uuid` with no bytes in it. A session that
    /// already exists under that identifier starts over.
    fn create_upload(&mut self, uuid: String) -> (result: Result<(), RegistryError>)
        ensures
            result is Ok ==> final(self)@ == old(self)@.with_upload(uuid@, Seq::empty()),
            result matches Err(e) ==> e is Io && old(self)@.same_but_upload(final(self)@, uuid@),
            Self::infallible() ==> result is Ok,
    ;

    /// Appends `data` to the upload session `uuid`. A session that does not
    /// exist is an error, never a silent no-op.
    fn append_upload(&mut self, uuid: &str, data: &[u8]) -> (result: Result<(), RegistryError>)
        ensures
            result is Ok ==> old(self)@.upload(uuid@) is Some
                && final(self)@ == old(self)@.with_chunk(uuid@, data@),
            result is Err ==> old(self)@.same_but_upload(final(self)@, uuid@),
            old(self)@.upload(uuid@) is None ==> final(self)@ == old(self)@
                && (result matches Err(RegistryError::UploadNotFound(id)) && id@ == uuid@),
            old(self)@.upload(uuid@) is Some ==> (result matches Err(e) ==> e is Io),
            Self::infallible() && old(self)@.upload(uuid@) is Some ==> result is Ok,
    ;

    /// Ends the upload session `uuid`: hands back the bytes it gathered and
    /// forgets it. Where no such session exists there is nothing to hand
    /// back, however often that is asked.
    fn finish_upload(&mut self, uuid: &str) -> (result: Result<Option<Vec<u8>>, RegistryError>)
        ensures
            result matches Ok(found) ==> bytes_view(found) == old(self)@.upload(uuid@)
                && final(self)@ == old(self)@.without_upload(uuid@),
            result matches Err(e) ==> e is Io && old(self)@.upload(uuid@) is Some
                && old(self)@.same_but_upload(final(self)@, uuid@),
            Self::infallible() ==> result is Ok,
    ;
}

/// The volatile backend: three independent maps held for as long as the value
/// lives. It never reports a fault.
pub struct MemoryStorage {
    manifests: StringHashMap<ManifestEntry>,
    blobs: StringHashMap<Vec<u8>>,
    uploads: StringHashMap<Vec<u8>>,
}

impl MemoryStorage {
    /// A backend that holds nothing.
    pub fn new() -> (storage: Self)
        ensures
            storage@ == StorageState::empty(),
    {
        MemoryStorage {
            manifests: StringHashMap::new(),
            blobs: StringHashMap::new(),
            uploads: StringHashMap::new(),
        }
    }
}

impl Default for MemoryStorage {
    fn default() -> (storage: Self)
        ensures
            storage@ == StorageState::empty(),
    {
        MemoryStorage::new()
    }
}

impl Storage for MemoryStorage {
    closed spec fn view(&self) -> StorageState {
        StorageState {
            manifests: self.manifests@.map_values(|entry: ManifestEntry| entry@),
            blobs: self.blobs@.map_values(|data: Vec<u8>| data@),
            uploads: self.uploads@.map_values(|data: Vec<u8>| data@),
        }
    }

    open spec fn infallible() -> bool {
        true
    }

    fn store_manifest(&mut self, key: String, entry: ManifestEntry) -> (result: Result<
        (),
        RegistryError,
    >) {
        self.manifests.insert(key, entry);
        Ok(())
    }

    fn get_manifest(&self, key: &str) -> (result: Result<Option<ManifestEntry>, RegistryError>) {
        match self.manifests.get(key) {
            Some(entry) => Ok(Some(entry.clone())),
            None => Ok(None),
        }
    }

    fn store_blob(&mut self, digest: String, data: Vec<u8>) -> (result: Result<(), RegistryError>) {
        self.blobs.insert(digest, data);
        Ok(())
    }

    fn get_blob(&self, digest: &str) -> (result: Result<Option<Vec<u8>>, RegistryError>) {
        match self.blobs.get(digest) {
            Some(data) => Ok(Some(data.clone())),
            None => Ok(None),
        }
    }

    fn create_upload(&mut self, uuid: String) -> (result: Result<(), RegistryError>) {
        let session: Vec<u8> = Vec::new();
        self.uploads.insert(uuid, session);
        Ok(())
    }

    fn append_upload(&mut self, uuid: &str, data: &[u8]) -> (result: Result<(), RegistryError>) {
        match self.uploads.get(uuid) {
            Some(gathered) => {
                // The map hands out no mutable access: the session is rebuilt.
                let mut session = gathered.clone();
                session.extend_from_slice(data);
                self.uploads.insert(uuid.to_owned(), session);
                assert(self@ =~~= old(self)@.with_chunk(uuid@, data@));
                Ok(())
            },
            None => Err(RegistryError::UploadNotFound(uuid.to_owned())),
        }
    }

    fn finish_upload(&mut self, uuid: &str) -> (result: Result<Option<Vec<u8>>, RegistryError>) {
        let found = match self.uploads.get(uuid) {
            Some(gathered) => Some(gathered.clone()),
            None => None,
        };
        self.uploads.remove(uuid);
        Ok(found)
    }
}

} // verus!
