use registry_testkit::{ManifestEntry, MemoryStorage, RegistryError, Storage};

fn entry(data: &[u8], content_type: &str) -> ManifestEntry {
    ManifestEntry { data: data.to_vec(), content_type: content_type.to_string() }
}

#[test]
fn new_storage_holds_nothing() {
    let storage = MemoryStorage::new();
    assert!(storage.get_blob("sha256:abc").unwrap().is_none());
    assert!(storage.get_manifest("repo:latest").unwrap().is_none());
    let storage = MemoryStorage::default();
    assert!(storage.get_blob("").unwrap().is_none());
}

#[test]
fn stored_blob_is_found_unchanged() {
    let mut storage = MemoryStorage::new();
    let data = vec![0u8, 1, 2, 255, 254, 0];
    storage.store_blob("sha256:one".to_string(), data.clone()).unwrap();
    assert_eq!(storage.get_blob("sha256:one").unwrap(), Some(data));
}

#[test]
fn stored_empty_blob_is_found_and_empty() {
    let mut storage = MemoryStorage::new();
    storage.store_blob("d".to_string(), Vec::new()).unwrap();
    assert_eq!(storage.get_blob("d").unwrap(), Some(Vec::new()));
}

#[test]
fn blobs_are_kept_apart_by_digest() {
    let mut storage = MemoryStorage::new();
    storage.store_blob("a".to_string(), vec![1]).unwrap();
    storage.store_blob("b".to_string(), vec![2]).unwrap();
    assert_eq!(storage.get_blob("a").unwrap(), Some(vec![1]));
    assert_eq!(storage.get_blob("b").unwrap(), Some(vec![2]));
    assert_eq!(storage.get_blob("c").unwrap(), None);
    assert_eq!(storage.get_blob("A").unwrap(), None);
}

#[test]
fn keys_that_differ_only_in_separators_are_kept_apart_in_memory() {
    let mut storage = MemoryStorage::new();
    storage.store_blob("a/b".to_string(), vec![1]).unwrap();
    assert_eq!(storage.get_blob("a:b").unwrap(), None);
    assert_eq!(storage.get_blob("a_b").unwrap(), None);
    assert_eq!(storage.get_blob("a/b").unwrap(), Some(vec![1]));
}

#[test]
fn storing_the_same_blob_twice_changes_nothing() {
    let mut storage = MemoryStorage::new();
    storage.store_blob("d".to_string(), vec![1, 2, 3]).unwrap();
    let first = storage.get_blob("d").unwrap();
    storage.store_blob("d".to_string(), vec![1, 2, 3]).unwrap();
    assert_eq!(storage.get_blob("d").unwrap(), first);
    assert_eq!(storage.get_blob("d").unwrap(), Some(vec![1, 2, 3]));
}

#[test]
fn storing_other_bytes_under_a_digest_overwrites() {
    let mut storage = MemoryStorage::new();
    storage.store_blob("d".to_string(), vec![1, 2, 3]).unwrap();
    storage.store_blob("d".to_string(), vec![9]).unwrap();
    assert_eq!(storage.get_blob("d").unwrap(), Some(vec![9]));
}

#[test]
fn the_three_maps_are_independent() {
    let mut storage = MemoryStorage::new();
    storage.store_blob("k".to_string(), vec![1]).unwrap();
    storage.store_manifest("k".to_string(), entry(&[2], "t")).unwrap();
    storage.create_upload("k".to_string()).unwrap();
    storage.append_upload("k", &[3]).unwrap();
    assert_eq!(storage.get_blob("k").unwrap(), Some(vec![1]));
    let manifest = storage.get_manifest("k").unwrap().unwrap();
    assert_eq!(manifest.data, vec![2]);
    assert_eq!(storage.finish_upload("k").unwrap(), Some(vec![3]));
    assert_eq!(storage.get_blob("k").unwrap(), Some(vec![1]));
    assert_eq!(storage.get_manifest("k").unwrap().unwrap().data, vec![2]);
}

#[test]
fn stored_manifest_is_found_with_its_media_type() {
    let mut storage = MemoryStorage::new();
    storage.store_manifest("repo:latest".to_string(), entry(b"{}", "application/json")).unwrap();
    let found = storage.get_manifest("repo:latest").unwrap().unwrap();
    assert_eq!(found.data, b"{}".to_vec());
    assert_eq!(found.content_type, "application/json");
    assert!(storage.get_manifest("repo:other").unwrap().is_none());
}

#[test]
fn storing_a_manifest_again_replaces_it() {
    let mut storage = MemoryStorage::new();
    storage.store_manifest("k".to_string(), entry(b"one", "a")).unwrap();
    storage.store_manifest("k".to_string(), entry(b"two", "b")).unwrap();
    let found = storage.get_manifest("k").unwrap().unwrap();
    assert_eq!(found.data, b"two".to_vec());
    assert_eq!(found.content_type, "b");
}

#[test]
fn cloned_entry_equals_its_source() {
    let source = entry(&[1, 2, 3], "text/x");
    let copy = source.clone();
    assert_eq!(copy.data, source.data);
    assert_eq!(copy.content_type, source.content_type);
}

#[test]
fn created_upload_is_empty() {
    let mut storage = MemoryStorage::new();
    storage.create_upload("u".to_string()).unwrap();
    assert_eq!(storage.finish_upload("u").unwrap(), Some(Vec::new()));
}

#[test]
fn appended_chunks_are_gathered_in_order() {
    let mut storage = MemoryStorage::new();
    storage.create_upload("u".to_string()).unwrap();
    storage.append_upload("u", &[1, 2]).unwrap();
    storage.append_upload("u", &[]).unwrap();
    storage.append_upload("u", &[3]).unwrap();
    storage.append_upload("u", &[4, 5, 6]).unwrap();
    assert_eq!(storage.finish_upload("u").unwrap(), Some(vec![1, 2, 3, 4, 5, 6]));
}

#[test]
fn append_to_an_unknown_upload_is_an_error() {
    let mut storage = MemoryStorage::new();
    match storage.append_upload("missing", &[1]) {
        Err(RegistryError::UploadNotFound(id)) => assert_eq!(id, "missing"),
        other => panic!("unexpected result {:?}", other),
    }
    assert_eq!(storage.finish_upload("missing").unwrap(), None);
}

#[test]
fn append_does_not_create_a_session() {
    let mut storage = MemoryStorage::new();
    storage.create_upload("a".to_string()).unwrap();
    assert!(storage.append_upload("b", &[1]).is_err());
    assert_eq!(storage.finish_upload("b").unwrap(), None);
    assert_eq!(storage.finish_upload("a").unwrap(), Some(Vec::new()));
}

#[test]
fn finish_consumes_the_session() {
    let mut storage = MemoryStorage::new();
    storage.create_upload("u".to_string()).unwrap();
    storage.append_upload("u", &[7]).unwrap();
    assert_eq!(storage.finish_upload("u").unwrap(), Some(vec![7]));
    assert_eq!(storage.finish_upload("u").unwrap(), None);
    assert!(matches!(storage.append_upload("u", &[8]), Err(RegistryError::UploadNotFound(_))));
}

#[test]
fn finish_of_an_unknown_upload_yields_nothing() {
    let mut storage = MemoryStorage::new();
    assert_eq!(storage.finish_upload("never").unwrap(), None);
}

#[test]
fn creating_an_upload_again_starts_it_over() {
    let mut storage = MemoryStorage::new();
    storage.create_upload("u".to_string()).unwrap();
    storage.append_upload("u", &[1, 2, 3]).unwrap();
    storage.create_upload("u".to_string()).unwrap();
    storage.append_upload("u", &[4]).unwrap();
    assert_eq!(storage.finish_upload("u").unwrap(), Some(vec![4]));
}

#[test]
fn sessions_are_kept_apart_by_identifier() {
    let mut storage = MemoryStorage::new();
    storage.create_upload("a".to_string()).unwrap();
    storage.create_upload("b".to_string()).unwrap();
    storage.append_upload("a", &[1]).unwrap();
    storage.append_upload("b", &[2]).unwrap();
    storage.append_upload("a", &[3]).unwrap();
    assert_eq!(storage.finish_upload("a").unwrap(), Some(vec![1, 3]));
    assert_eq!(storage.finish_upload("b").unwrap(), Some(vec![2]));
}
