//! Manifest upload, retrieval and check.

use crate::digest::{content_digest, digest_of};
use crate::error::RegistryError;
use crate::handlers::{found_entry, strip_leading_slash, stripped};
use crate::http::{HeaderField, HeaderFieldView, Response, ResponseView, Status};
use crate::storage::{
    ManifestEntry, ManifestEntryView, Storage, StorageState, DEFAULT_MANIFEST_TYPE,
};
use vstd::prelude::*;
use vstd::slice::slice_to_vec;
use vstd::string::StringExecFns;

verus! {

/// The key under which the manifest `reference` of the repository `repo` is
/// stored; `reference` is a tag or a digest.
pub open spec fn manifest_key(repo: Seq<char>, reference: Seq<char>) -> Seq<char> {
    repo + ":"@ + reference
}

fn join_key(repo: &str, reference: &str) -> (key: String)
    ensures
        key@ == manifest_key(repo@, reference@),
{
    String::from_str(repo).concat(":").concat(reference)
}

/// Builds the storage key of a manifest from the repository name as the
/// request carries it.
pub fn make_manifest_key(name: &str, reference: &str) -> (key: String)
    ensures
        key@ == manifest_key(stripped(name@), reference@),
{
    join_key(strip_leading_slash(name), reference)
}

/// Where a manifest can be fetched once it is stored.
pub open spec fn manifest_location(repo: Seq<char>, reference: Seq<char>) -> Seq<char> {
    "/v2/"@ + repo + "/manifests/"@ + reference
}

/// The media type a manifest is stored with: the text of the request's
/// `Content-Type` header, or the default where the header is missing or is
/// not text.
pub open spec fn content_type_of(header: HeaderFieldView) -> Seq<char> {
    match header.text() {
        Some(text) => text,
        None => DEFAULT_MANIFEST_TYPE@,
    }
}

/// Determines the media type a manifest is stored with.
pub fn manifest_content_type(header: HeaderField) -> (content_type: String)
    ensures
        content_type@ == content_type_of(header@),
{
    match header {
        HeaderField::Text(text) => text,
        _ => DEFAULT_MANIFEST_TYPE.to_owned(),
    }
}

/// The response to a manifest that was stored.
pub open spec fn manifest_created(
    repo: Seq<char>,
    reference: Seq<char>,
    content_type: Seq<char>,
    digest: Seq<char>,
) -> ResponseView {
    ResponseView::bare(Status::Created, Seq::empty()).with_header(
        "Location"@,
        manifest_location(repo, reference),
    ).with_header("Content-Type"@, content_type).with_header("Docker-Content-Digest"@, digest)
}

/// The response to a manifest that could not be stored: the three headers
/// are there and empty.
pub open spec fn manifest_rejected() -> ResponseView {
    ResponseView::bare(Status::ServerError, Seq::empty()).with_header(
        "Location"@,
        Seq::empty(),
    ).with_header("Content-Type"@, Seq::empty()).with_header(
        "Docker-Content-Digest"@,
        Seq::empty(),
    )
}

fn created_response(repo: &str, reference: &str, content_type: String, digest: String) -> (resp:
    Response)
    ensures
        resp@ == manifest_created(repo@, reference@, content_type@, digest@),
{
    let location = String::from_str("/v2/").concat(repo).concat("/manifests/").concat(reference);
    Response::new(Status::Created, Vec::new()).with_header("Location", location).with_header(
        "Content-Type",
        content_type,
    ).with_header("Docker-Content-Digest", digest)
}

fn rejected_response() -> (resp: Response)
    ensures
        resp@ == manifest_rejected(),
{
    Response::new(Status::ServerError, Vec::new()).with_header(
        "Location",
        String::new(),
    ).with_header("Content-Type", String::new()).with_header(
        "Docker-Content-Digest",
        String::new(),
    )
}

/// A manifest upload, worked out before the backend is asked for anything:
/// the entry, the two keys it goes under, and the answer that a successful
/// first write earns.
pub struct ManifestPlan {
    /// The key made of the repository and the reference the client chose.
    pub key: String,
    /// The key made of the repository and the digest of the body.
    pub digest_key: String,
    /// The entry that goes under both keys.
    pub entry: ManifestEntry,
    /// The answer to a first write that succeeded.
    pub created: Response,
}

/// Whether `plan` is the plan of the manifest upload with these inputs.
pub open spec fn plans_upload(
    plan: ManifestPlan,
    name: Seq<char>,
    reference: Seq<char>,
    content_type_header: HeaderFieldView,
    body: Seq<u8>,
) -> bool {
    let repo = stripped(name);
    let content_type = content_type_of(content_type_header);
    let digest = digest_of(body);
    &&& plan.key@ == manifest_key(repo, reference)
    &&& plan.digest_key@ == manifest_key(repo, digest)
    &&& plan.entry@ == ManifestEntryView { data: body, content_type }
    &&& plan.created@ == manifest_created(repo, reference, content_type, digest)
}

/// Works out a manifest upload: the media type from the request's header or
/// the default, the digest from the raw body, and the two keys from the
/// repository name without its leading separator.
pub fn plan_put_manifest(
    name: &str,
    reference: &str,
    content_type_header: HeaderField,
    body: &[u8],
) -> (plan: ManifestPlan)
    ensures
        plans_upload(plan, name@, reference@, content_type_header@, body@),
{
    let repo = strip_leading_slash(name);
    let content_type = manifest_content_type(content_type_header);
    let digest = content_digest(body);
    let key = join_key(repo, reference);
    let digest_key = join_key(repo, digest.as_str());
    let entry = ManifestEntry { data: slice_to_vec(body), content_type: content_type.clone() };
    let created = created_response(repo, reference, content_type, digest);
    ManifestPlan { key, digest_key, entry, created }
}

/// What is to be done once the backend has answered the first write of a
/// manifest upload.
pub enum ManifestStep {
    /// Store `entry` under `key` as well and, whatever comes of that, answer
    /// with `created`.
    StoreCopy { key: String, entry: ManifestEntry, created: Response },
    /// Answer right away.
    Respond(Response),
}

/// Decides how a manifest upload goes on after its first write. A first
/// write that failed ends the upload with a server error. One that succeeded
/// is followed by the write under the digest key, whose own outcome no longer
/// matters to the client: the copy under the reference is the one that
/// counts.
pub fn next_manifest_step(plan: ManifestPlan, stored: &Result<(), RegistryError>) -> (step:
    ManifestStep)
    ensures
        stored is Ok ==> (step matches ManifestStep::StoreCopy { key, entry, created } && key@
            == plan.digest_key@ && entry@ == plan.entry@ && created@ == plan.created@),
        stored is Err ==> (step matches ManifestStep::Respond(resp) && resp@
            == manifest_rejected()),
{
    match stored {
        Ok(_) => ManifestStep::StoreCopy {
            key: plan.digest_key,
            entry: plan.entry,
            created: plan.created,
        },
        Err(_) => ManifestStep::Respond(rejected_response()),
    }
}

/// What uploading a manifest does. The entry is stored twice: under the
/// reference the client chose and under the digest of the body. The first
/// write decides the answer. On a backend that can fail, the second write may
/// fail after a first that succeeded: the answer is still created, and what
/// is stored under the digest key is then unknown.
pub open spec fn put_manifest_spec(
    reliable: bool,
    pre: StorageState,
    name: Seq<char>,
    reference: Seq<char>,
    content_type_header: HeaderFieldView,
    body: Seq<u8>,
    post: StorageState,
    resp: ResponseView,
) -> bool {
    let repo = stripped(name);
    let content_type = content_type_of(content_type_header);
    let digest = digest_of(body);
    let entry = ManifestEntryView { data: body, content_type };
    let tagged = pre.with_manifest(manifest_key(repo, reference), entry);
    let created = manifest_created(repo, reference, content_type, digest);
    ||| resp == created && post == tagged.with_manifest(manifest_key(repo, digest), entry)
    ||| !reliable && resp == created && tagged.same_but_manifest(post, manifest_key(repo, digest))
    ||| !reliable && resp == manifest_rejected() && pre.same_but_manifest(
        post,
        manifest_key(repo, reference),
    )
}

/// Whether a manifest upload left the entry under both of its keys: the
/// reference the client chose and the digest of the body.
pub open spec fn both_keys_written(
    pre: StorageState,
    name: Seq<char>,
    reference: Seq<char>,
    content_type_header: HeaderFieldView,
    body: Seq<u8>,
    post: StorageState,
) -> bool {
    let repo = stripped(name);
    let content_type = content_type_of(content_type_header);
    let entry = ManifestEntryView { data: body, content_type };
    post == pre.with_manifest(manifest_key(repo, reference), entry).with_manifest(
        manifest_key(repo, digest_of(body)),
        entry,
    )
}

/// `PUT /v2/{name}/manifests/{reference}`: stores a manifest.
pub fn put_manifest<S: Storage>(
    storage: &mut S,
    name: &str,
    reference: &str,
    content_type_header: HeaderField,
    body: &[u8],
) -> (resp: Response)
    ensures
        put_manifest_spec(
            S::infallible(),
            old(storage)@,
            name@,
            reference@,
            content_type_header@,
            body@,
            final(storage)@,
            resp@,
        ),
{
    let plan = plan_put_manifest(name, reference, content_type_header, body);
    let stored = storage.store_manifest(plan.key.clone(), plan.entry.clone());
    match next_manifest_step(plan, &stored) {
        ManifestStep::StoreCopy { key, entry, created } => {
            let _ = storage.store_manifest(key, entry);
            created
        },
        ManifestStep::Respond(resp) => resp,
    }
}

/// The response to a request for a manifest: its bytes and media type where
/// it is stored, not-found as plain text where it is not.
pub open spec fn get_manifest_response(found: Option<ManifestEntryView>) -> ResponseView {
    match found {
        Some(entry) => ResponseView::bare(Status::Success, entry.data).with_header(
            "Content-Type"@,
            entry.content_type,
        ),
        None => ResponseView::bare(Status::NotFound, Seq::empty()).with_header(
            "Content-Type"@,
            "text/plain"@,
        ),
    }
}

/// Answers a request for a manifest from what the backend found.
pub fn respond_get_manifest(lookup: Result<Option<ManifestEntry>, RegistryError>) -> (resp:
    Response)
    ensures
        resp@ == get_manifest_response(found_entry(lookup)),
{
    match lookup {
        Ok(Some(entry)) => Response::new(Status::Success, entry.data).with_header(
            "Content-Type",
            entry.content_type,
        ),
        _ => Response::new(Status::NotFound, Vec::new()).with_header(
            "Content-Type",
            "text/plain".to_owned(),
        ),
    }
}

/// `GET /v2/{name}/manifests/{reference}`: fetches a manifest by the key the
/// client names. Only a backend that can fail may answer not-found for a
/// manifest that is stored.
pub fn get_manifest<S: Storage>(storage: &S, name: &str, reference: &str) -> (resp: Response)
    ensures
        ({
            let found = storage@.manifest(manifest_key(stripped(name@), reference@));
            ||| resp@ == get_manifest_response(found)
            ||| !S::infallible() && resp@ == get_manifest_response(None)
        }),
{
    let key = make_manifest_key(name, reference);
    respond_get_manifest(storage.get_manifest(key.as_str()))
}

/// The response to a check for a manifest: where it is stored, its media
/// type and the digest of the bytes that are stored now; where it is not,
/// not-found with both headers empty.
pub open spec fn check_manifest_response(found: Option<ManifestEntryView>) -> ResponseView {
    match found {
        Some(entry) => ResponseView::bare(Status::Success, Seq::empty()).with_header(
            "Content-Type"@,
            entry.content_type,
        ).with_header("Docker-Content-Digest"@, digest_of(entry.data)),
        None => ResponseView::bare(Status::NotFound, Seq::empty()).with_header(
            "Content-Type"@,
            Seq::empty(),
        ).with_header("Docker-Content-Digest"@, Seq::empty()),
    }
}

/// Answers a check for a manifest from what the backend found. The digest is
/// computed from the stored bytes each time.
pub fn respond_check_manifest(lookup: Result<Option<ManifestEntry>, RegistryError>) -> (resp:
    Response)
    ensures
        resp@ == check_manifest_response(found_entry(lookup)),
{
    match lookup {
        Ok(Some(entry)) => {
            let digest = content_digest(entry.data.as_slice());
            Response::new(Status::Success, Vec::new()).with_header(
                "Content-Type",
                entry.content_type,
            ).with_header("Docker-Content-Digest", digest)
        },
        _ => Response::new(Status::NotFound, Vec::new()).with_header(
            "Content-Type",
            String::new(),
        ).with_header("Docker-Content-Digest", String::new()),
    }
}

/// `HEAD /v2/{name}/manifests/{reference}`: checks for a manifest by the key
/// the client names. Only a backend that can fail may answer not-found for a
/// manifest that is stored.
pub fn check_manifest<S: Storage>(storage: &S, name: &str, reference: &str) -> (resp: Response)
    ensures
        ({
            let found = storage@.manifest(manifest_key(stripped(name@), reference@));
            ||| resp@ == check_manifest_response(found)
            ||| !S::infallible() && resp@ == check_manifest_response(None)
        }),
{
    let key = make_manifest_key(name, reference);
    respond_check_manifest(storage.get_manifest(key.as_str()))
}

} // verus!
