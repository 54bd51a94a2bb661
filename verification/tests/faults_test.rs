use registry_testkit::digest::content_digest;
use registry_testkit::handlers::{
    check_blob, check_manifest, finish_upload, get_blob, get_manifest, put_manifest,
    start_upload, start_upload_with_id, upload_chunk,
};
use registry_testkit::http::{HeaderField, Response, Status};
use registry_testkit::storage::StorageState;
use registry_testkit::{ManifestEntry, MemoryStorage, RegistryError, Storage};
use std::io::{Error, ErrorKind};

/// A backend that keeps everything in memory and reports a fault wherever it
/// is told to.
struct Faulty {
    inner: MemoryStorage,
    manifest_writes_left: usize,
    blob_writes_fail: bool,
    reads_fail: bool,
    uploads_fail: bool,
}

impl Faulty {
    fn new() -> Self {
        Faulty {
            inner: MemoryStorage::new(),
            manifest_writes_left: usize::MAX,
            blob_writes_fail: false,
            reads_fail: false,
            uploads_fail: false,
        }
    }
}

fn fault<T>() -> Result<T, RegistryError> {
    Err(RegistryError::Io(Error::new(ErrorKind::Other, "fault")))
}

impl Storage for Faulty {
    // The two descriptions of a backend serve proofs only: nothing calls them.
    fn view(&self) -> StorageState {
        unreachable!()
    }

    fn infallible() -> bool {
        false
    }

    fn store_manifest(&mut self, key: String, entry: ManifestEntry) -> Result<(), RegistryError> {
        if self.manifest_writes_left == 0 {
            return fault();
        }
        self.manifest_writes_left -= 1;
        self.inner.store_manifest(key, entry)
    }

    fn get_manifest(&self, key: &str) -> Result<Option<ManifestEntry>, RegistryError> {
        if self.reads_fail {
            return fault();
        }
        self.inner.get_manifest(key)
    }

    fn store_blob(&mut self, digest: String, data: Vec<u8>) -> Result<(), RegistryError> {
        if self.blob_writes_fail {
            return fault();
        }
        self.inner.store_blob(digest, data)
    }

    fn get_blob(&self, digest: &str) -> Result<Option<Vec<u8>>, RegistryError> {
        if self.reads_fail {
            return fault();
        }
        self.inner.get_blob(digest)
    }

    fn create_upload(&mut self, uuid: String) -> Result<(), RegistryError> {
        if self.uploads_fail {
            return fault();
        }
        self.inner.create_upload(uuid)
    }

    fn append_upload(&mut self, uuid: &str, data: &[u8]) -> Result<(), RegistryError> {
        if self.uploads_fail {
            return fault();
        }
        self.inner.append_upload(uuid, data)
    }

    fn finish_upload(&mut self, uuid: &str) -> Result<Option<Vec<u8>>, RegistryError> {
        if self.uploads_fail {
            return fault();
        }
        self.inner.finish_upload(uuid)
    }
}

fn headers(resp: &Response) -> Vec<(&str, &str)> {
    resp.headers.iter().map(|h| (h.name.as_str(), h.value.as_str())).collect()
}

#[test]
fn a_backend_without_faults_behaves_like_memory() {
    let mut storage = Faulty::new();
    let put = put_manifest(&mut storage, "r", "v1", HeaderField::Absent, b"m");
    assert_eq!(put.status, Status::Created);
    assert_eq!(get_manifest(&storage, "r", "v1").body, b"m".to_vec());
    assert_eq!(get_manifest(&storage, "r", &content_digest(b"m")).body, b"m".to_vec());
}

#[test]
fn put_manifest_whose_first_write_fails_is_a_server_error() {
    let mut storage = Faulty::new();
    storage.manifest_writes_left = 0;
    let resp = put_manifest(&mut storage, "r", "v1", HeaderField::Text("t".to_string()), b"m");
    assert_eq!(resp.status, Status::ServerError);
    assert_eq!(resp.status.code(), 500);
    assert_eq!(
        headers(&resp),
        vec![("Location", ""), ("Content-Type", ""), ("Docker-Content-Digest", "")]
    );
    assert_eq!(storage.inner.get_manifest("r:v1").unwrap().map(|e| e.data), None);
    let digest_key = format!("r:{}", content_digest(b"m"));
    assert!(storage.inner.get_manifest(&digest_key).unwrap().is_none());
}

#[test]
fn put_manifest_whose_second_write_fails_is_still_created() {
    let mut storage = Faulty::new();
    storage.manifest_writes_left = 1;
    let resp = put_manifest(&mut storage, "r", "v1", HeaderField::Text("t".to_string()), b"m");
    let digest = content_digest(b"m");
    assert_eq!(resp.status, Status::Created);
    assert_eq!(
        headers(&resp),
        vec![
            ("Location", "/v2/r/manifests/v1"),
            ("Content-Type", "t"),
            ("Docker-Content-Digest", digest.as_str()),
        ]
    );
    let by_reference = get_manifest(&storage, "r", "v1");
    assert_eq!(by_reference.status, Status::Success);
    assert_eq!(by_reference.body, b"m".to_vec());
    let by_digest = get_manifest(&storage, "r", &digest);
    assert_eq!(by_digest.status, Status::NotFound);
}

#[test]
fn finish_upload_whose_store_fails_is_a_server_error_and_consumes_the_session() {
    let mut storage = Faulty::new();
    start_upload_with_id(&mut storage, "r", "u".to_string());
    upload_chunk(&mut storage, "r", "u".to_string(), b"abc");
    storage.blob_writes_fail = true;
    let resp =
        finish_upload(&mut storage, "r", "u", None, HeaderField::Absent, HeaderField::Absent, b"d");
    assert_eq!(resp.status, Status::ServerError);
    assert_eq!(headers(&resp), vec![("Location", ""), ("Docker-Content-Digest", "")]);
    assert!(storage.inner.get_blob(&content_digest(b"abcd")).unwrap().is_none());
    storage.blob_writes_fail = false;
    let again =
        finish_upload(&mut storage, "r", "u", None, HeaderField::Absent, HeaderField::Absent, b"d");
    assert_eq!(again.status, Status::NotFound);
}

#[test]
fn finish_upload_whose_session_cannot_be_read_is_a_server_error() {
    let mut storage = Faulty::new();
    start_upload_with_id(&mut storage, "r", "u".to_string());
    upload_chunk(&mut storage, "r", "u".to_string(), b"abc");
    storage.uploads_fail = true;
    let resp =
        finish_upload(&mut storage, "r", "u", None, HeaderField::Absent, HeaderField::Absent, b"d");
    assert_eq!(resp.status, Status::ServerError);
    assert_eq!(resp.status.code(), 500);
    assert_eq!(headers(&resp), vec![("Location", ""), ("Docker-Content-Digest", "")]);
    assert!(storage.inner.get_blob(&content_digest(b"abcd")).unwrap().is_none());
    storage.uploads_fail = false;
    assert_eq!(storage.inner.finish_upload("u").unwrap(), Some(b"abc".to_vec()));
}

#[test]
fn finish_upload_without_a_session_is_not_found_on_a_backend_that_can_fail() {
    let mut storage = Faulty::new();
    let resp =
        finish_upload(&mut storage, "r", "u", None, HeaderField::Absent, HeaderField::Absent, b"d");
    assert_eq!(resp.status, Status::NotFound);
    assert_eq!(headers(&resp), vec![("Location", ""), ("Docker-Content-Digest", "")]);
    assert!(storage.inner.get_blob(&content_digest(b"d")).unwrap().is_none());
}

#[test]
fn start_upload_on_a_failing_backend_is_a_server_error() {
    let mut storage = Faulty::new();
    storage.uploads_fail = true;
    let resp = start_upload(&mut storage, "r");
    assert_eq!(resp.status, Status::ServerError);
    assert_eq!(headers(&resp), vec![("Location", "")]);
    let resp = start_upload_with_id(&mut storage, "r", "u".to_string());
    assert_eq!(resp.status, Status::ServerError);
    storage.uploads_fail = false;
    assert_eq!(storage.inner.finish_upload("u").unwrap(), None);
}

#[test]
fn upload_chunk_on_a_failing_backend_is_a_server_error() {
    let mut storage = Faulty::new();
    start_upload_with_id(&mut storage, "r", "u".to_string());
    storage.uploads_fail = true;
    let resp = upload_chunk(&mut storage, "r", "u".to_string(), b"abc");
    assert_eq!(resp.status, Status::ServerError);
    assert_eq!(resp.status.code(), 500);
    assert_eq!(headers(&resp), vec![("Location", ""), ("Range", ""), ("Docker-Upload-UUID", "")]);
    storage.uploads_fail = false;
    assert_eq!(storage.inner.finish_upload("u").unwrap(), Some(Vec::new()));
}

#[test]
fn upload_chunk_without_a_session_is_not_found_on_a_backend_that_can_fail() {
    let mut storage = Faulty::new();
    let resp = upload_chunk(&mut storage, "r", "u".to_string(), b"abc");
    assert_eq!(resp.status, Status::NotFound);
    assert_eq!(headers(&resp), vec![("Location", ""), ("Range", ""), ("Docker-Upload-UUID", "")]);
}

#[test]
fn lookups_on_a_failing_backend_are_not_found() {
    let mut storage = Faulty::new();
    storage.store_blob("d".to_string(), vec![1, 2, 3]).unwrap();
    put_manifest(&mut storage, "r", "v1", HeaderField::Absent, b"m");
    storage.reads_fail = true;
    let resp = check_blob(&storage, "d");
    assert_eq!(resp.status, Status::NotFound);
    assert_eq!(headers(&resp), vec![("Content-Length", "0")]);
    let resp = get_blob(&storage, "d");
    assert_eq!(resp.status, Status::NotFound);
    assert!(resp.body.is_empty());
    let resp = get_manifest(&storage, "r", "v1");
    assert_eq!(resp.status, Status::NotFound);
    assert_eq!(headers(&resp), vec![("Content-Type", "text/plain")]);
    let resp = check_manifest(&storage, "r", "v1");
    assert_eq!(resp.status, Status::NotFound);
    assert_eq!(headers(&resp), vec![("Content-Type", ""), ("Docker-Content-Digest", "")]);
    storage.reads_fail = false;
    assert_eq!(check_blob(&storage, "d").status, Status::Success);
    assert_eq!(check_manifest(&storage, "r", "v1").status, Status::Success);
}
