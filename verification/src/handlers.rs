//! The protocol handlers: what the registry answers to each request, and what
//! it stores while doing so.
//!
//! Every handler comes in two layers. The handler itself takes the storage
//! backend and the plain values of the request, and its contract relates the
//! backend before and after to the response. Beneath it stand the decisions it
//! is made of, each a function from what the backend answered to what the
//! registry does next, so that a caller that has to wait for its backend
//! between two steps can take the steps one by one.
//!
//! Wherever a function takes a repository `name`, it takes it as the request
//! carries it and strips the leading separator itself.

pub mod blobs;
pub mod manifests;
pub mod uploads;

pub use blobs::{check_blob, get_blob, respond_check_blob, respond_get_blob};
pub use manifests::{
    check_manifest, get_manifest, make_manifest_key, manifest_content_type, next_manifest_step,
    plan_put_manifest, put_manifest, respond_check_manifest, respond_get_manifest, ManifestPlan,
    ManifestStep,
};
pub use uploads::{
    assemble_upload, finish_upload, next_finish_step, resolve_digest, respond_finish_upload,
    respond_start_upload, respond_upload_chunk, respond_upload_missing, start_upload,
    start_upload_with_id, upload_chunk, FinishStep,
};

use crate::error::RegistryError;
use crate::storage::{bytes_view, entry_view, ManifestEntry, ManifestEntryView};
use vstd::prelude::*;
use vstd::string::StrSliceExecFns;

verus! {

/// `name` without its leading path separator, if it has one.
pub open spec fn stripped(name: Seq<char>) -> Seq<char> {
    if name.len() > 0 && name[0] == '/' {
        name.subrange(1, name.len() as int)
    } else {
        name
    }
}

/// Strips a single leading path separator from a repository name. Nothing
/// else about the name is normalised.
pub fn strip_leading_slash<'a>(s: &'a str) -> (rest: &'a str)
    ensures
        rest@ == stripped(s@),
{
    let len = s.unicode_len();
    if len > 0 && s.get_char(0) == '/' {
        s.substring_char(1, len)
    } else {
        s
    }
}

/// What a lookup yielded, a fault counting as absence.
pub open spec fn found_bytes(lookup: Result<Option<Vec<u8>>, RegistryError>) -> Option<Seq<u8>> {
    match lookup {
        Ok(found) => bytes_view(found),
        Err(_) => None,
    }
}

/// What a manifest lookup yielded, a fault counting as absence.
pub open spec fn found_entry(lookup: Result<Option<ManifestEntry>, RegistryError>) -> Option<
    ManifestEntryView,
> {
    match lookup {
        Ok(found) => entry_view(found),
        Err(_) => None,
    }
}

/// The body of the answer to a version check.
#[derive(Debug)]
pub struct ApiVersion {
    pub version: String,
}

/// `GET /v2/`: the version of the protocol that the registry speaks. The
/// answer is always the same.
pub fn api_version() -> (answer: ApiVersion)
    ensures
        answer.version@ == "registry/2.0"@,
{
    ApiVersion { version: "registry/2.0".to_owned() }
}

} // verus!
