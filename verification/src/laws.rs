//! What holds of the registry across several requests.
//!
//! Each law is stated over the same descriptions that the contracts of the
//! storage operations and of the handlers use, so it holds of every backend
//! that keeps the storage contract.

use crate::digest::digest_of;
use crate::handlers::blobs::get_blob_response;
use crate::handlers::manifests::{
    both_keys_written, check_manifest_response, content_type_of, get_manifest_response,
    manifest_created, manifest_key, put_manifest_spec,
};
use crate::handlers::stripped;
use crate::handlers::uploads::{
    finish_upload_spec, resolved_digest, start_upload_spec, supplied_digest, upload_chunk_spec,
    upload_finished, upload_unfinished,
};
use crate::http::{HeaderFieldView, ResponseView, Status};
use crate::storage::{ManifestEntryView, StorageState};
use vstd::prelude::*;

verus! {

/// Round trip: a blob that was stored is found under the digest it was
/// stored under, with its bytes unchanged, and a request for it is answered
/// with exactly these bytes.
pub proof fn lemma_blob_round_trip(state: StorageState, digest: Seq<char>, data: Seq<u8>)
    ensures
        state.with_blob(digest, data).blob(digest) == Some(data),
        get_blob_response(state.with_blob(digest, data).blob(digest)) == ResponseView::bare(
            Status::Success,
            data,
        ),
{
}

/// Storing a blob touches nothing but the blob of that digest.
pub proof fn lemma_store_blob_frame(
    state: StorageState,
    digest: Seq<char>,
    data: Seq<u8>,
    other: Seq<char>,
)
    requires
        other != digest,
    ensures
        state.with_blob(digest, data).blob(other) == state.blob(other),
        state.with_blob(digest, data).manifests == state.manifests,
        state.with_blob(digest, data).uploads == state.uploads,
{
}

/// Idempotence: storing the same bytes under the same digest a second time
/// changes nothing.
pub proof fn lemma_store_blob_idempotent(state: StorageState, digest: Seq<char>, data: Seq<u8>)
    ensures
        state.with_blob(digest, data).with_blob(digest, data) == state.with_blob(digest, data),
{
}

/// Last write wins: storing other bytes under a digest that is taken
/// replaces the blob, as if the earlier write had never happened. This is
/// intended: a digest is trusted to name its content.
pub proof fn lemma_store_blob_overwrites(
    state: StorageState,
    digest: Seq<char>,
    first: Seq<u8>,
    second: Seq<u8>,
)
    ensures
        state.with_blob(digest, first).with_blob(digest, second).blob(digest) == Some(second),
        state.with_blob(digest, first).with_blob(digest, second) == state.with_blob(
            digest,
            second,
        ),
{
}

/// Two references of one repository have the same key only if they are the
/// same reference.
pub proof fn lemma_manifest_key_injective(repo: Seq<char>, a: Seq<char>, b: Seq<char>)
    requires
        manifest_key(repo, a) == manifest_key(repo, b),
    ensures
        a == b,
{
    // Both keys begin with the repository and the colon: the reference is
    // what is left of each.
    let start = (repo + ":"@).len() as int;
    assert(manifest_key(repo, a).subrange(start, start + a.len()) =~= a);
    assert(manifest_key(repo, b).subrange(start, start + b.len()) =~= b);
    assert(manifest_key(repo, a).len() == start + a.len());
    assert(manifest_key(repo, b).len() == start + b.len());
}

/// A reference that does not begin as a digest does is not the digest of
/// any manifest: a tag never stands in the way of the digest key.
pub proof fn lemma_tag_is_no_digest(reference: Seq<char>, body: Seq<u8>)
    requires
        reference.len() < 7 || reference.subrange(0, 7) != "sha256:"@,
    ensures
        reference != digest_of(body),
{
    reveal_strlit("sha256:");
    assert(digest_of(body).subrange(0, 7) =~= "sha256:"@);
}

/// After a manifest upload was answered with created, a request for the
/// same reference is answered with the uploaded bytes and media type, and a
/// check with the digest of the uploaded bytes.
///
/// The one case left out is an upload under the manifest's own digest whose
/// second write failed: both writes then went to one key, and what the
/// failed one left there is unknown.
pub proof fn lemma_put_manifest_then_get(
    reliable: bool,
    pre: StorageState,
    name: Seq<char>,
    reference: Seq<char>,
    content_type_header: HeaderFieldView,
    body: Seq<u8>,
    post: StorageState,
    resp: ResponseView,
)
    requires
        put_manifest_spec(reliable, pre, name, reference, content_type_header, body, post, resp),
        resp.status == Status::Created,
        reference != digest_of(body) || both_keys_written(
            pre,
            name,
            reference,
            content_type_header,
            body,
            post,
        ),
    ensures
        get_manifest_response(post.manifest(manifest_key(stripped(name), reference)))
            == ResponseView::bare(Status::Success, body).with_header(
            "Content-Type"@,
            content_type_of(content_type_header),
        ),
        check_manifest_response(post.manifest(manifest_key(stripped(name), reference)))
            == ResponseView::bare(Status::Success, Seq::empty()).with_header(
            "Content-Type"@,
            content_type_of(content_type_header),
        ).with_header("Docker-Content-Digest"@, digest_of(body)),
{
    let repo = stripped(name);
    let key = manifest_key(repo, reference);
    let digest_key = manifest_key(repo, digest_of(body));
    let content_type = content_type_of(content_type_header);
    let entry = ManifestEntryView { data: body, content_type };
    if key == digest_key {
        lemma_manifest_key_injective(repo, reference, digest_of(body));
    }
    let tagged = pre.with_manifest(key, entry);
    if post != tagged.with_manifest(digest_key, entry) {
        // The second write failed, and it went to another key: the entry
        // under the reference is as the first write left it.
        assert(key != digest_key);
        assert(post.manifests.remove(digest_key).contains_key(key));
        assert(post.manifests.remove(digest_key)[key] == entry);
    }
}

/// On a backend that never fails, every manifest upload leaves the entry
/// under both of its keys.
pub proof fn lemma_reliable_put_writes_both_keys(
    pre: StorageState,
    name: Seq<char>,
    reference: Seq<char>,
    content_type_header: HeaderFieldView,
    body: Seq<u8>,
    post: StorageState,
    resp: ResponseView,
)
    requires
        put_manifest_spec(true, pre, name, reference, content_type_header, body, post, resp),
    ensures
        resp.status == Status::Created,
        both_keys_written(pre, name, reference, content_type_header, body, post),
{
}

/// After a manifest upload that left the entry under both of its keys, a
/// request for the manifest by its digest is answered with the uploaded
/// bytes and media type.
pub proof fn lemma_put_manifest_then_get_by_digest(
    pre: StorageState,
    name: Seq<char>,
    reference: Seq<char>,
    content_type_header: HeaderFieldView,
    body: Seq<u8>,
    post: StorageState,
)
    requires
        both_keys_written(pre, name, reference, content_type_header, body, post),
    ensures
        get_manifest_response(post.manifest(manifest_key(stripped(name), digest_of(body))))
            == ResponseView::bare(Status::Success, body).with_header(
            "Content-Type"@,
            content_type_of(content_type_header),
        ),
{
}

/// On a backend that never fails, every manifest upload is answered with
/// created, and from then on:
/// - a request for the reference is answered with the uploaded bytes and
///   media type;
/// - a check of the reference is answered with the media type and with the
///   digest of the uploaded bytes, the very digest that the upload's own
///   answer carried;
/// - a request for the manifest by that digest is answered as the request
///   for the reference is.
pub proof fn lemma_reliable_put_manifest_then_get(
    pre: StorageState,
    name: Seq<char>,
    reference: Seq<char>,
    content_type_header: HeaderFieldView,
    body: Seq<u8>,
    post: StorageState,
    resp: ResponseView,
)
    requires
        put_manifest_spec(true, pre, name, reference, content_type_header, body, post, resp),
    ensures
        ({
            let repo = stripped(name);
            let content_type = content_type_of(content_type_header);
            let by_reference = get_manifest_response(
                post.manifest(manifest_key(repo, reference)),
            );
            let by_digest = get_manifest_response(
                post.manifest(manifest_key(repo, digest_of(body))),
            );
            let checked = check_manifest_response(post.manifest(manifest_key(repo, reference)));
            &&& resp == manifest_created(repo, reference, content_type, digest_of(body))
            &&& by_reference == ResponseView::bare(Status::Success, body).with_header(
                "Content-Type"@,
                content_type,
            )
            &&& checked == ResponseView::bare(Status::Success, Seq::empty()).with_header(
                "Content-Type"@,
                content_type,
            ).with_header("Docker-Content-Digest"@, digest_of(body))
            &&& checked.headers[1] == resp.headers[2]
            &&& by_digest == by_reference
        }),
{
    lemma_reliable_put_writes_both_keys(
        pre,
        name,
        reference,
        content_type_header,
        body,
        post,
        resp,
    );
    lemma_put_manifest_then_get(
        true,
        pre,
        name,
        reference,
        content_type_header,
        body,
        post,
        resp,
    );
    lemma_put_manifest_then_get_by_digest(pre, name, reference, content_type_header, body, post);
}

/// The chunks of an upload, joined in the order they were sent.
pub open spec fn joined(chunks: Seq<Seq<u8>>) -> Seq<u8>
    decreases chunks.len(),
{
    if chunks.len() == 0 {
        Seq::empty()
    } else {
        joined(chunks.drop_last()) + chunks.last()
    }
}

/// A run of chunk requests to the session `id`, each answered with
/// accepted: `states[i]` is what the backend held before the `i`-th chunk
/// and `states[i + 1]` what it held after.
pub open spec fn chunks_accepted(
    reliable: bool,
    states: Seq<StorageState>,
    name: Seq<char>,
    id: Seq<char>,
    chunks: Seq<Seq<u8>>,
    responses: Seq<ResponseView>,
) -> bool {
    &&& states.len() == chunks.len() + 1
    &&& responses.len() == chunks.len()
    &&& forall|i: int|
        0 <= i < chunks.len() ==> #[trigger] responses[i].status == Status::Accepted
            && upload_chunk_spec(
            reliable,
            states[i],
            name,
            id,
            chunks[i],
            states[i + 1],
            responses[i],
        )
}

proof fn lemma_chunks_gathered(
    reliable: bool,
    states: Seq<StorageState>,
    name: Seq<char>,
    id: Seq<char>,
    chunks: Seq<Seq<u8>>,
    responses: Seq<ResponseView>,
    k: int,
)
    requires
        chunks_accepted(reliable, states, name, id, chunks, responses),
        states[0].upload(id) == Some(Seq::<u8>::empty()),
        0 <= k <= chunks.len(),
    ensures
        states[k].upload(id) == Some(joined(chunks.take(k))),
    decreases k,
{
    if k > 0 {
        lemma_chunks_gathered(reliable, states, name, id, chunks, responses, k - 1);
        // The last of the first `k` chunks was accepted, so it was appended
        // to what the chunks before it had gathered.
        assert(responses[k - 1].status == Status::Accepted);
        assert(chunks.take(k).drop_last() =~= chunks.take(k - 1));
    }
}

/// Chunked upload: a start, any number of chunks and a finish, each
/// answered with success, store a blob that is the chunks joined in order
/// and followed by the body of the finishing request. The blob stands under
/// the digest that the finishing request resolved to, and the session is
/// gone.
pub proof fn lemma_chunked_upload_assembles(
    reliable: bool,
    before: StorageState,
    states: Seq<StorageState>,
    name: Seq<char>,
    id: Seq<char>,
    started: ResponseView,
    chunks: Seq<Seq<u8>>,
    responses: Seq<ResponseView>,
    query: Option<Seq<char>>,
    digest_header: HeaderFieldView,
    docker_header: HeaderFieldView,
    tail: Seq<u8>,
    after: StorageState,
    finished: ResponseView,
)
    requires
        start_upload_spec(reliable, before, name, id, states[0], started),
        started.status == Status::Accepted,
        chunks_accepted(reliable, states, name, id, chunks, responses),
        finish_upload_spec(
            reliable,
            states.last(),
            name,
            id,
            query,
            digest_header,
            docker_header,
            tail,
            after,
            finished,
        ),
        finished.status == Status::Created,
    ensures
        ({
            let data = joined(chunks) + tail;
            let digest = resolved_digest(query, digest_header, docker_header, data);
            &&& finished == upload_finished(stripped(name), digest)
            &&& after.blob(digest) == Some(data)
            &&& after.upload(id) is None
        }),
{
    lemma_chunks_gathered(reliable, states, name, id, chunks, responses, chunks.len() as int);
    assert(chunks.take(chunks.len() as int) =~= chunks);
}

/// An upload is finished at most once: after a finish that was answered
/// with created, a second finish of the same session is answered with
/// not-found and changes nothing.
pub proof fn lemma_upload_finishes_once(
    reliable: bool,
    before: StorageState,
    name: Seq<char>,
    id: Seq<char>,
    query: Option<Seq<char>>,
    digest_header: HeaderFieldView,
    docker_header: HeaderFieldView,
    body: Seq<u8>,
    between: StorageState,
    first: ResponseView,
    again: Seq<u8>,
    after: StorageState,
    second: ResponseView,
)
    requires
        finish_upload_spec(
            reliable,
            before,
            name,
            id,
            query,
            digest_header,
            docker_header,
            body,
            between,
            first,
        ),
        first.status == Status::Created,
        finish_upload_spec(
            reliable,
            between,
            name,
            id,
            query,
            digest_header,
            docker_header,
            again,
            after,
            second,
        ),
    ensures
        second == upload_unfinished(Status::NotFound),
        after == between,
{
}

/// A run of chunk requests to the session `id`, whatever their answers:
/// `states[i]` is what the backend held before the `i`-th chunk and
/// `states[i + 1]` what it held after.
pub open spec fn chunks_sent(
    reliable: bool,
    states: Seq<StorageState>,
    name: Seq<char>,
    id: Seq<char>,
    chunks: Seq<Seq<u8>>,
    responses: Seq<ResponseView>,
) -> bool {
    &&& states.len() == chunks.len() + 1
    &&& responses.len() == chunks.len()
    &&& forall|i: int|
        0 <= i < chunks.len() ==> #[trigger] upload_chunk_spec(
            reliable,
            states[i],
            name,
            id,
            chunks[i],
            states[i + 1],
            responses[i],
        )
}

proof fn lemma_reliable_chunks_are_accepted(
    states: Seq<StorageState>,
    name: Seq<char>,
    id: Seq<char>,
    chunks: Seq<Seq<u8>>,
    responses: Seq<ResponseView>,
    k: int,
)
    requires
        chunks_sent(true, states, name, id, chunks, responses),
        states[0].upload(id) is Some,
        0 <= k <= chunks.len(),
    ensures
        states[k].upload(id) is Some,
        forall|i: int| 0 <= i < k ==> (#[trigger] responses[i]).status == Status::Accepted,
    decreases k,
{
    if k > 0 {
        lemma_reliable_chunks_are_accepted(states, name, id, chunks, responses, k - 1);
        // The session was there before the last of the first `k` chunks, so
        // a backend that never fails appended it.
        let i = k - 1;
        assert(upload_chunk_spec(
            true,
            states[i],
            name,
            id,
            chunks[i],
            states[i + 1],
            responses[i],
        ));
    }
}

/// Chunked upload on a backend that never fails: a start, any number of
/// chunks and a finish, with nothing else touching the session in between,
/// are each answered with success, and the blob that is stored is the chunks
/// joined in order and followed by the body of the finishing request, with
/// no byte lost or repeated. Where the finishing request supplies no digest,
/// the blob stands under the digest of its own bytes.
pub proof fn lemma_reliable_chunked_upload_assembles(
    before: StorageState,
    states: Seq<StorageState>,
    name: Seq<char>,
    id: Seq<char>,
    started: ResponseView,
    chunks: Seq<Seq<u8>>,
    responses: Seq<ResponseView>,
    query: Option<Seq<char>>,
    digest_header: HeaderFieldView,
    docker_header: HeaderFieldView,
    tail: Seq<u8>,
    after: StorageState,
    finished: ResponseView,
)
    requires
        start_upload_spec(true, before, name, id, states[0], started),
        chunks_sent(true, states, name, id, chunks, responses),
        finish_upload_spec(
            true,
            states.last(),
            name,
            id,
            query,
            digest_header,
            docker_header,
            tail,
            after,
            finished,
        ),
    ensures
        started.status == Status::Accepted,
        forall|i: int|
            0 <= i < chunks.len() ==> (#[trigger] responses[i]).status == Status::Accepted,
        ({
            let data = joined(chunks) + tail;
            let digest = resolved_digest(query, digest_header, docker_header, data);
            &&& finished == upload_finished(stripped(name), digest)
            &&& after.blob(digest) == Some(data)
            &&& after.upload(id) is None
            &&& supplied_digest(query, digest_header, docker_header) is None ==> digest
                == digest_of(data)
        }),
{
    let n = chunks.len() as int;
    lemma_reliable_chunks_are_accepted(states, name, id, chunks, responses, n);
    assert(chunks_accepted(true, states, name, id, chunks, responses));
    lemma_chunked_upload_assembles(
        true,
        before,
        states,
        name,
        id,
        started,
        chunks,
        responses,
        query,
        digest_header,
        docker_header,
        tail,
        after,
        finished,
    );
}

} // verus!
