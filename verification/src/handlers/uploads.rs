//! The three phases of a chunked blob upload: start, chunk, finish.

use crate::digest::{content_digest, digest_of};
use crate::error::RegistryError;
use crate::handlers::{strip_leading_slash, stripped};
use crate::http::{HeaderField, HeaderFieldView, Response, ResponseView, Status};
use crate::storage::{Storage, StorageState};
use crate::text::{decimal, decimal_string, text_view};
use vstd::prelude::*;
use vstd::string::StringExecFns;

verus! {

/// Where the chunks of the upload session `id` are sent, and where the upload
/// is finished.
pub open spec fn upload_location(repo: Seq<char>, id: Seq<char>) -> Seq<char> {
    "/v2/"@ + repo + "/blobs/uploads/"@ + id
}

fn make_upload_location(repo: &str, id: &str) -> (location: String)
    ensures
        location@ == upload_location(repo@, id@),
{
    String::from_str("/v2/").concat(repo).concat("/blobs/uploads/").concat(id)
}

/// The response to an upload that was started under the identifier `id`.
pub open spec fn upload_started(repo: Seq<char>, id: Seq<char>) -> ResponseView {
    ResponseView::bare(Status::Accepted, Seq::empty()).with_header(
        "Location"@,
        upload_location(repo, id),
    )
}

/// The response to an upload that could not be started: the location is
/// empty.
pub open spec fn upload_not_started() -> ResponseView {
    ResponseView::bare(Status::ServerError, Seq::empty()).with_header("Location"@, Seq::empty())
}

/// Answers a starting request once the backend has said whether it opened
/// the session `id`.
pub fn respond_start_upload(name: &str, id: &str, created: &Result<(), RegistryError>) -> (resp:
    Response)
    ensures
        created is Ok ==> resp@ == upload_started(stripped(name@), id@),
        created is Err ==> resp@ == upload_not_started(),
{
    match created {
        Ok(_) => Response::new(Status::Accepted, Vec::new()).with_header(
            "Location",
            make_upload_location(strip_leading_slash(name), id),
        ),
        Err(_) => Response::new(Status::ServerError, Vec::new()).with_header(
            "Location",
            String::new(),
        ),
    }
}

/// What starting an upload under the identifier `id` does: the session is
/// opened empty, replacing any session of that name. Only a backend that can
/// fail may answer with a server error.
pub open spec fn start_upload_spec(
    reliable: bool,
    pre: StorageState,
    name: Seq<char>,
    id: Seq<char>,
    post: StorageState,
    resp: ResponseView,
) -> bool {
    ||| resp == upload_started(stripped(name), id) && post == pre.with_upload(id, Seq::empty())
    ||| !reliable && resp == upload_not_started() && pre.same_but_upload(post, id)
}

/// Starts an upload session under an identifier that the caller has drawn.
pub fn start_upload_with_id<S: Storage>(storage: &mut S, name: &str, id: String) -> (resp: Response)
    ensures
        start_upload_spec(S::infallible(), old(storage)@, name@, id@, final(storage)@, resp@),
{
    let created = storage.create_upload(id.clone());
    respond_start_upload(name, id.as_str(), &created)
}

/// Draws a session identifier with `uuid::Uuid::new_v4` and writes it out
/// with its `Display`. The identifier is random, so nothing is claimed of it.
/// `new_v4` gives up, and the program with it, only where the system has no
/// random bytes to hand out.
#[verifier::external_body]
fn random_upload_id() -> (id: String) {
    uuid::Uuid::new_v4().to_string()
}

/// `POST /v2/{name}/blobs/uploads/`: starts an upload session under a fresh
/// random identifier, which the response's location carries.
pub fn start_upload<S: Storage>(storage: &mut S, name: &str) -> (resp: Response)
    ensures
        exists|id: Seq<char>| #[trigger]
            start_upload_spec(S::infallible(), old(storage)@, name@, id, final(storage)@, resp@),
{
    let id = random_upload_id();
    let resp = start_upload_with_id(storage, name, id);
    resp
}

/// The byte range that a chunk of `len` bytes is reported to cover: from zero
/// to its own last byte. The range describes the chunk alone, not what the
/// session has gathered so far; an empty chunk reports `0-0`.
pub open spec fn chunk_range(len: nat) -> Seq<char> {
    "0-"@ + decimal(
        if len == 0 {
            0
        } else {
            (len - 1) as nat
        },
    )
}

/// The response to a chunk that was appended to its session.
pub open spec fn upload_continued(repo: Seq<char>, id: Seq<char>, len: nat) -> ResponseView {
    ResponseView::bare(Status::Accepted, Seq::empty()).with_header(
        "Location"@,
        upload_location(repo, id),
    ).with_header("Range"@, chunk_range(len)).with_header("Docker-Upload-UUID"@, id)
}

/// The response to a chunk for which there is no session: the three headers
/// are there and empty.
pub open spec fn upload_unknown() -> ResponseView {
    ResponseView::bare(Status::NotFound, Seq::empty()).with_header(
        "Location"@,
        Seq::empty(),
    ).with_header("Range"@, Seq::empty()).with_header("Docker-Upload-UUID"@, Seq::empty())
}

/// The response to a chunk that the backend failed to append to a session
/// that exists: a server error, with the three headers there and empty.
pub open spec fn upload_interrupted() -> ResponseView {
    ResponseView::bare(Status::ServerError, Seq::empty()).with_header(
        "Location"@,
        Seq::empty(),
    ).with_header("Range"@, Seq::empty()).with_header("Docker-Upload-UUID"@, Seq::empty())
}

fn refused_chunk(status: Status) -> (resp: Response)
    ensures
        status == Status::NotFound ==> resp@ == upload_unknown(),
        status == Status::ServerError ==> resp@ == upload_interrupted(),
{
    Response::new(status, Vec::new()).with_header("Location", String::new()).with_header(
        "Range",
        String::new(),
    ).with_header("Docker-Upload-UUID", String::new())
}

/// Answers a chunk of `len` bytes once the backend has said whether it
/// appended it. A session that is not there is answered with not-found, a
/// fault of the storage medium with a server error.
pub fn respond_upload_chunk(
    name: &str,
    uuid: String,
    len: usize,
    appended: &Result<(), RegistryError>,
) -> (resp: Response)
    ensures
        appended is Ok ==> resp@ == upload_continued(stripped(name@), uuid@, len as nat),
        appended matches Err(RegistryError::UploadNotFound(_)) ==> resp@ == upload_unknown(),
        appended matches Err(RegistryError::Io(_)) ==> resp@ == upload_interrupted(),
{
    match appended {
        Ok(_) => {
            let end: usize = if len == 0 {
                0
            } else {
                len - 1
            };
            let range = String::from_str("0-").concat(decimal_string(end).as_str());
            Response::new(Status::Accepted, Vec::new()).with_header(
                "Location",
                make_upload_location(strip_leading_slash(name), uuid.as_str()),
            ).with_header("Range", range).with_header("Docker-Upload-UUID", uuid)
        },
        Err(RegistryError::UploadNotFound(_)) => refused_chunk(Status::NotFound),
        Err(RegistryError::Io(_)) => refused_chunk(Status::ServerError),
    }
}

/// What sending a chunk does. Without a session nothing changes and the
/// answer is not-found. With one, the chunk is appended to it. Only a backend
/// that can fail has one more outcome: the chunk could not be appended, and
/// the answer is a server error.
pub open spec fn upload_chunk_spec(
    reliable: bool,
    pre: StorageState,
    name: Seq<char>,
    uuid: Seq<char>,
    body: Seq<u8>,
    post: StorageState,
    resp: ResponseView,
) -> bool {
    match pre.upload(uuid) {
        None => resp == upload_unknown() && post == pre,
        Some(_) => {
            ||| resp == upload_continued(stripped(name), uuid, body.len()) && post
                == pre.with_chunk(uuid, body)
            ||| !reliable && resp == upload_interrupted() && pre.same_but_upload(post, uuid)
        },
    }
}

/// `PATCH /v2/{name}/blobs/uploads/{uuid}`: appends a chunk to an upload
/// session.
pub fn upload_chunk<S: Storage>(storage: &mut S, name: &str, uuid: String, body: &[u8]) -> (resp:
    Response)
    ensures
        upload_chunk_spec(
            S::infallible(),
            old(storage)@,
            name@,
            uuid@,
            body@,
            final(storage)@,
            resp@,
        ),
        old(storage)@.upload(uuid@) is None ==> resp@ == upload_unknown() && final(storage)@
            == old(storage)@,
{
    let appended = storage.append_upload(uuid.as_str(), body);
    respond_upload_chunk(name, uuid, body.len(), &appended)
}

/// Where a blob can be fetched once it is stored.
pub open spec fn blob_location(repo: Seq<char>, digest: Seq<char>) -> Seq<char> {
    "/v2/"@ + repo + "/blobs/"@ + digest
}

/// The digest that the client supplied with a finishing request, if any: the
/// `digest` query parameter first; failing that, the `digest` header or, where
/// the request has none, the `Docker-Content-Digest` header. A header that is
/// there but is not text supplies nothing.
pub open spec fn supplied_digest(
    query: Option<Seq<char>>,
    digest_header: HeaderFieldView,
    docker_header: HeaderFieldView,
) -> Option<Seq<char>> {
    match query {
        Some(digest) => Some(digest),
        None => match digest_header {
            HeaderFieldView::Absent => docker_header.text(),
            _ => digest_header.text(),
        },
    }
}

/// The digest under which the assembled bytes `data` are stored: the one the
/// client supplied or, where it supplied none, the digest of `data`.
pub open spec fn resolved_digest(
    query: Option<Seq<char>>,
    digest_header: HeaderFieldView,
    docker_header: HeaderFieldView,
    data: Seq<u8>,
) -> Seq<char> {
    match supplied_digest(query, digest_header, docker_header) {
        Some(digest) => digest,
        None => digest_of(data),
    }
}

/// Determines the digest under which an assembled upload is stored.
pub fn resolve_digest(
    query: Option<String>,
    digest_header: HeaderField,
    docker_header: HeaderField,
    data: &[u8],
) -> (digest: String)
    ensures
        digest@ == resolved_digest(text_view(query), digest_header@, docker_header@, data@),
{
    match query {
        Some(digest) => digest,
        None => {
            let chosen = match digest_header {
                HeaderField::Absent => docker_header,
                other => other,
            };
            match chosen {
                HeaderField::Text(digest) => digest,
                _ => content_digest(data),
            }
        },
    }
}

/// Joins what the consumed session held with the body of the finishing
/// request: the gathered bytes first, the trailing body last.
pub fn assemble_upload(gathered: Vec<u8>, body: &[u8]) -> (data: Vec<u8>)
    ensures
        data@ == gathered@ + body@,
{
    let mut data = gathered;
    data.extend_from_slice(body);
    data
}

/// The response to a finished upload: the blob is stored under `digest`.
pub open spec fn upload_finished(repo: Seq<char>, digest: Seq<char>) -> ResponseView {
    ResponseView::bare(Status::Created, Seq::empty()).with_header(
        "Location"@,
        blob_location(repo, digest),
    ).with_header("Docker-Content-Digest"@, digest)
}

/// The response to an upload that could not be finished: both headers are
/// there and empty.
pub open spec fn upload_unfinished(status: Status) -> ResponseView {
    ResponseView::bare(status, Seq::empty()).with_header("Location"@, Seq::empty()).with_header(
        "Docker-Content-Digest"@,
        Seq::empty(),
    )
}

fn unfinished(status: Status) -> (resp: Response)
    ensures
        resp@ == upload_unfinished(status),
{
    Response::new(status, Vec::new()).with_header("Location", String::new()).with_header(
        "Docker-Content-Digest",
        String::new(),
    )
}

/// Answers a finishing request for which there is no session.
pub fn respond_upload_missing() -> (resp: Response)
    ensures
        resp@ == upload_unfinished(Status::NotFound),
{
    unfinished(Status::NotFound)
}

/// Answers a finishing request once the backend has said whether it stored
/// the blob: created where it did, a server error where it did not.
pub fn respond_finish_upload(
    name: &str,
    digest: String,
    stored: &Result<(), RegistryError>,
) -> (resp: Response)
    ensures
        stored is Ok ==> resp@ == upload_finished(stripped(name@), digest@),
        stored is Err ==> resp@ == upload_unfinished(Status::ServerError),
{
    match stored {
        Ok(_) => {
            let location = String::from_str("/v2/").concat(strip_leading_slash(name)).concat(
                "/blobs/",
            ).concat(digest.as_str());
            Response::new(Status::Created, Vec::new()).with_header(
                "Location",
                location,
            ).with_header("Docker-Content-Digest", digest)
        },
        Err(_) => unfinished(Status::ServerError),
    }
}

/// What is to be done once the backend has answered for the session of a
/// finishing request.
pub enum FinishStep {
    /// Store `data` under `digest`, then answer by how that went.
    StoreBlob { digest: String, data: Vec<u8> },
    /// Answer right away.
    Respond(Response),
}

/// Decides how a finishing request goes on after its session was asked for.
/// With the session's bytes in hand, the assembled blob is to be stored under
/// the resolved digest. Where there is no such session the answer is
/// not-found; where the backend failed to hand the session over it is a
/// server error. In neither case is anything stored.
pub fn next_finish_step(
    session: Result<Option<Vec<u8>>, RegistryError>,
    query_digest: Option<String>,
    digest_header: HeaderField,
    docker_header: HeaderField,
    body: &[u8],
) -> (step: FinishStep)
    ensures
        session matches Ok(Some(gathered)) ==> (step matches FinishStep::StoreBlob {
            digest,
            data,
        } && data@ == gathered@ + body@ && digest@ == resolved_digest(
            text_view(query_digest),
            digest_header@,
            docker_header@,
            gathered@ + body@,
        )),
        session matches Ok(None) ==> (step matches FinishStep::Respond(resp) && resp@
            == upload_unfinished(Status::NotFound)),
        session is Err ==> (step matches FinishStep::Respond(resp) && resp@ == upload_unfinished(
            Status::ServerError,
        )),
{
    match session {
        Ok(Some(gathered)) => {
            let data = assemble_upload(gathered, body);
            let digest =
                resolve_digest(query_digest, digest_header, docker_header, data.as_slice());
            FinishStep::StoreBlob { digest, data }
        },
        Ok(None) => FinishStep::Respond(respond_upload_missing()),
        Err(_) => FinishStep::Respond(unfinished(Status::ServerError)),
    }
}

/// What finishing an upload does. Without a session nothing changes and the
/// answer is not-found. With one, the session is consumed and its bytes,
/// followed by the request body, are stored under the resolved digest. Only a
/// backend that can fail has the two other outcomes, both answered with a
/// server error: the session was consumed and the blob could not be stored,
/// or the session could not be handed over in the first place.
pub open spec fn finish_upload_spec(
    reliable: bool,
    pre: StorageState,
    name: Seq<char>,
    uuid: Seq<char>,
    query: Option<Seq<char>>,
    digest_header: HeaderFieldView,
    docker_header: HeaderFieldView,
    body: Seq<u8>,
    post: StorageState,
    resp: ResponseView,
) -> bool {
    match pre.upload(uuid) {
        None => resp == upload_unfinished(Status::NotFound) && post == pre,
        Some(gathered) => {
            let data = gathered + body;
            let digest = resolved_digest(query, digest_header, docker_header, data);
            let consumed = pre.without_upload(uuid);
            ||| resp == upload_finished(stripped(name), digest) && post == consumed.with_blob(
                digest,
                data,
            )
            ||| !reliable && resp == upload_unfinished(Status::ServerError)
                && consumed.same_but_blob(post, digest)
            ||| !reliable && resp == upload_unfinished(Status::ServerError)
                && pre.same_but_upload(post, uuid)
        },
    }
}

/// `PUT /v2/{name}/blobs/uploads/{uuid}`: finishes an upload session.
pub fn finish_upload<S: Storage>(
    storage: &mut S,
    name: &str,
    uuid: &str,
    query_digest: Option<String>,
    digest_header: HeaderField,
    docker_header: HeaderField,
    body: &[u8],
) -> (resp: Response)
    ensures
        finish_upload_spec(
            S::infallible(),
            old(storage)@,
            name@,
            uuid@,
            text_view(query_digest),
            digest_header@,
            docker_header@,
            body@,
            final(storage)@,
            resp@,
        ),
        old(storage)@.upload(uuid@) is None ==> resp@ == upload_unfinished(Status::NotFound)
            && final(storage)@ == old(storage)@,
{
    let session = storage.finish_upload(uuid);
    proof {
        if old(storage)@.upload(uuid@) is None {
            assert(old(storage)@.without_upload(uuid@) =~~= old(storage)@);
        }
    }
    match next_finish_step(session, query_digest, digest_header, docker_header, body) {
        FinishStep::Respond(resp) => resp,
        FinishStep::StoreBlob { digest, data } => {
            let stored = storage.store_blob(digest.clone(), data);
            respond_finish_upload(name, digest, &stored)
        },
    }
}

} // verus!
