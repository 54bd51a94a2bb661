//! Blob existence and retrieval.
//!
//! A blob is addressed by its digest alone: the repository that a request
//! names plays no part in finding it.

use crate::error::RegistryError;
use crate::handlers::found_bytes;
use crate::http::{Response, ResponseView, Status};
use crate::storage::Storage;
use crate::text::{decimal, decimal_string};
use vstd::prelude::*;

verus! {

/// The response to a check for a blob: its length where it is stored,
/// not-found with a length of zero where it is not.
pub open spec fn check_blob_response(found: Option<Seq<u8>>) -> ResponseView {
    match found {
        Some(data) => ResponseView::bare(Status::Success, Seq::empty()).with_header(
            "Content-Length"@,
            decimal(data.len()),
        ),
        None => ResponseView::bare(Status::NotFound, Seq::empty()).with_header(
            "Content-Length"@,
            decimal(0),
        ),
    }
}

/// Answers a check for a blob from what the backend found.
pub fn respond_check_blob(lookup: Result<Option<Vec<u8>>, RegistryError>) -> (resp: Response)
    ensures
        resp@ == check_blob_response(found_bytes(lookup)),
{
    match lookup {
        Ok(Some(blob)) => Response::new(Status::Success, Vec::new()).with_header(
            "Content-Length",
            decimal_string(blob.len()),
        ),
        _ => Response::new(Status::NotFound, Vec::new()).with_header(
            "Content-Length",
            decimal_string(0),
        ),
    }
}

/// `HEAD /v2/{name}/blobs/{digest}`: checks for a blob. Only a backend that
/// can fail may answer not-found for a blob that is stored.
pub fn check_blob<S: Storage>(storage: &S, digest: &str) -> (resp: Response)
    ensures
        ({
            ||| resp@ == check_blob_response(storage@.blob(digest@))
            ||| !S::infallible() && resp@ == check_blob_response(None)
        }),
{
    respond_check_blob(storage.get_blob(digest))
}

/// The response to a request for a blob: its bytes where it is stored,
/// not-found with an empty body where it is not.
pub open spec fn get_blob_response(found: Option<Seq<u8>>) -> ResponseView {
    match found {
        Some(data) => ResponseView::bare(Status::Success, data),
        None => ResponseView::bare(Status::NotFound, Seq::empty()),
    }
}

/// Answers a request for a blob from what the backend found.
pub fn respond_get_blob(lookup: Result<Option<Vec<u8>>, RegistryError>) -> (resp: Response)
    ensures
        resp@ == get_blob_response(found_bytes(lookup)),
{
    match lookup {
        Ok(Some(blob)) => Response::new(Status::Success, blob),
        _ => Response::new(Status::NotFound, Vec::new()),
    }
}

/// `GET /v2/{name}/blobs/{digest}`: fetches a blob. Only a backend that can
/// fail may answer not-found for a blob that is stored.
pub fn get_blob<S: Storage>(storage: &S, digest: &str) -> (resp: Response)
    ensures
        ({
            ||| resp@ == get_blob_response(storage@.blob(digest@))
            ||| !S::infallible() && resp@ == get_blob_response(None)
        }),
{
    respond_get_blob(storage.get_blob(digest))
}

} // verus!
