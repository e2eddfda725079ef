//! What the upload engine does over a whole request: which chunks it uploads, under
//! which part numbers, and how the upload ends.

use vstd::prelude::*;
use crate::backend::{
    BackendCallView, BackendOutputView, CompletedPartView, ReplyView, numbered_from_one,
};
use crate::env::S3ConfigView;
use crate::error::BackendErrorView;
use crate::key::{ResolvedTargetView, resolve_target};
use crate::metadata::{ObjectMetadataView, metadata_from_headers};
use crate::protocol::{ActionView, EventView, error_response, unexpected_event};
use crate::routes::{HandlerView, RequestView, handler_step, put_handler};
use crate::run::{
    BodyEventView, RunView, after_call, outcome_response, responded, run, run_from,
    starved,
};
use crate::upload::{
    PART_SIZE, UploadSessionView, UploadView, abandon, abort_call, begin_upload, complete_call,
    create_call, part_call, proceed, store_empty_call, stream_failure, upload_step, with_part,
};

verus! {

/// The bytes of a body that arrives in the given pieces.
pub open spec fn concat(pieces: Seq<Seq<u8>>) -> Seq<u8>
    decreases pieces.len(),
{
    if pieces.len() == 0 {
        Seq::empty()
    } else {
        pieces[0] + concat(pieces.drop_first())
    }
}

/// What reading a body gives that arrives whole in the given pieces: each piece in
/// turn, and then the end.
pub open spec fn whole_body(pieces: Seq<Seq<u8>>) -> Seq<BodyEventView> {
    Seq::new(
        pieces.len() + 1,
        |i: int|
            if i < pieces.len() {
                BodyEventView::Piece(pieces[i])
            } else {
                BodyEventView::End
            },
    )
}

/// The chunks into which a body is cut: each of `size` bytes, but for the last, which
/// holds what is left. No bytes give no chunk.
pub open spec fn chunks(data: Seq<u8>, size: nat) -> Seq<Seq<u8>>
    decreases data.len(),
{
    if size == 0 || data.len() == 0 {
        Seq::empty()
    } else if data.len() <= size {
        seq![data]
    } else {
        seq![data.take(size as int)] + chunks(data.skip(size as int), size)
    }
}

/// The run of one last call, after which the response tells how that call ended.
pub open spec fn last_call(call: BackendCallView, replies: Seq<ReplyView>) -> RunView {
    if replies.len() == 0 {
        after_call(call, starved())
    } else {
        after_call(call, responded(outcome_response(replies[0])))
    }
}

/// The run of an abort after `error`: the abort is called, and the response reports
/// `error`, whatever the reply to the abort is.
pub open spec fn aborted(
    session: UploadSessionView,
    error: BackendErrorView,
    replies: Seq<ReplyView>,
) -> RunView {
    if replies.len() == 0 {
        after_call(abort_call(session), starved())
    } else {
        after_call(abort_call(session), responded(error_response(error)))
    }
}

/// The run that uploads `bodies`, one part each, in order, and then completes the
/// session. Each part is stored under the tag that the backend replies with. At the
/// first part that fails, the session is aborted instead, and the failure reported.
pub open spec fn upload_of(
    session: UploadSessionView,
    bodies: Seq<Seq<u8>>,
    replies: Seq<ReplyView>,
) -> RunView
    decreases bodies.len(),
{
    if bodies.len() == 0 {
        last_call(complete_call(session), replies)
    } else if replies.len() == 0 {
        after_call(part_call(session, bodies[0]), starved())
    } else {
        after_call(
            part_call(session, bodies[0]),
            match replies[0] {
                Ok(BackendOutputView::PartUploaded { e_tag }) => upload_of(
                    with_part(session, e_tag),
                    bodies.drop_first(),
                    replies.drop_first(),
                ),
                Ok(_) => aborted(session, unexpected_event(), replies.drop_first()),
                Err(error) => aborted(session, error, replies.drop_first()),
            },
        )
    }
}

/// The first chunk of a body is its first `size` bytes, or all of it if it has no more,
/// and the other chunks are the chunks of the rest.
pub proof fn lemma_chunks_first(data: Seq<u8>, size: nat)
    requires
        size > 0,
        data.len() > 0,
    ensures
        chunks(data, size).len() > 0,
        chunks(data, size)[0] == data.take(if data.len() <= size { data.len() as int } else { size as int }),
        chunks(data, size).drop_first() == chunks(
            data.skip(if data.len() <= size { data.len() as int } else { size as int }),
            size,
        ),
{
    if data.len() <= size {
        assert(data.take(data.len() as int) =~= data);
        assert(chunks(data.skip(data.len() as int), size) =~= Seq::empty());
        assert(chunks(data, size).drop_first() =~= Seq::empty());
    } else {
        assert(chunks(data, size).drop_first() =~= chunks(data.skip(size as int), size));
    }
}

/// The run of the abort that follows a failure.
proof fn lemma_run_abort(
    upload: UploadView,
    error: BackendErrorView,
    body: Seq<BodyEventView>,
    replies: Seq<ReplyView>,
)
    ensures
        run(
            HandlerView::Put(abandon(upload, error).0),
            abandon(upload, error).1,
            body,
            replies,
        ) == aborted(upload.session, error, replies),
{
    reveal_with_fuel(run, 3);
}

/// From any point at which no call is in flight, the engine uploads the chunks of what
/// is buffered and what is still to come, one part each, and then completes the upload.
proof fn lemma_engine_uploads_chunks(
    upload: UploadView,
    ended: bool,
    pieces: Seq<Seq<u8>>,
    body: Seq<BodyEventView>,
    replies: Seq<ReplyView>,
)
    requires
        upload.chunk_size > 0,
        !ended ==> body == whole_body(pieces),
        ended ==> pieces.len() == 0,
        upload.session.parts.len() > 0 || (upload.buffer + concat(pieces)).len() > 0,
    ensures
        run(HandlerView::Put(proceed(upload, ended).0), proceed(upload, ended).1, body, replies)
            == upload_of(
            upload.session,
            chunks(upload.buffer + concat(pieces), upload.chunk_size),
            replies,
        ),
    decreases replies.len(), (if ended { 0 } else { pieces.len() + 1 }),
{
    reveal_with_fuel(run, 2);
    let size = upload.chunk_size;
    let data = upload.buffer + concat(pieces);
    let next = proceed(upload, ended);
    if upload.buffer.len() >= size || (ended && upload.buffer.len() > 0) {
        // A part goes out: the first chunk of the data.
        let cut: int = if upload.buffer.len() >= size { size as int } else { upload.buffer.len() as int };
        let part = upload.buffer.take(cut);
        let rest = upload.buffer.skip(cut);
        lemma_chunks_first(data, size);
        if ended {
            assert(concat(pieces) =~= Seq::empty());
            assert(data =~= upload.buffer);
        }
        assert(chunks(data, size)[0] =~= part);
        let first: int = if data.len() <= size { data.len() as int } else { size as int };
        assert(data.skip(first) =~= rest + concat(pieces));
        if upload.buffer.len() < size {
            assert(rest =~= Seq::empty());
        }
        assert(next.1 == ActionView::Call(part_call(upload.session, part)));
        if replies.len() > 0 {
            match replies[0] {
                Ok(BackendOutputView::PartUploaded { e_tag }) => {
                    let stored = UploadView { session: with_part(upload.session, e_tag), ..next.0 };
                    assert(stored.buffer == rest);
                    lemma_engine_uploads_chunks(stored, ended, pieces, body, replies.drop_first());
                    assert(handler_step(HandlerView::Put(next.0), EventView::Reply(replies[0])) == (
                        HandlerView::Put(proceed(stored, ended).0),
                        proceed(stored, ended).1,
                    ));
                },
                Ok(_) => {
                    lemma_run_abort(next.0, unexpected_event(), body, replies.drop_first());
                },
                Err(error) => {
                    lemma_run_abort(next.0, error, body, replies.drop_first());
                },
            }
        }
    } else if !ended {
        // The engine reads on.
        assert(body.len() > 0);
        if pieces.len() > 0 {
            let grown = UploadView { buffer: upload.buffer + pieces[0], ..next.0 };
            assert(body.drop_first() =~= whole_body(pieces.drop_first()));
            assert(grown.buffer + concat(pieces.drop_first()) =~= data);
            lemma_engine_uploads_chunks(grown, false, pieces.drop_first(), body.drop_first(), replies);
            assert(body[0] == BodyEventView::Piece(pieces[0]));
        } else {
            assert(body[0] == BodyEventView::End);
            assert(concat(pieces) =~= Seq::empty());
            lemma_engine_uploads_chunks(next.0, true, pieces, body.drop_first(), replies);
        }
    } else {
        // Nothing is left to upload: the upload is completed.
        assert(data =~= Seq::empty());
        assert(chunks(data, size) =~= Seq::empty());
        reveal_with_fuel(run, 3);
    }
}

/// The replies of a backend that stores one part after the other under the given tags.
pub open spec fn part_replies(e_tags: Seq<Seq<char>>) -> Seq<ReplyView> {
    Seq::new(
        e_tags.len(),
        |i: int|
            Ok::<BackendOutputView, BackendErrorView>(
                BackendOutputView::PartUploaded { e_tag: e_tags[i] },
            ),
    )
}

/// The parts stored under the given tags, numbered in order from `first`.
pub open spec fn stored_parts(first: int, e_tags: Seq<Seq<char>>) -> Seq<CompletedPartView> {
    Seq::new(e_tags.len(), |i: int| CompletedPartView { part_number: first + i, e_tag: e_tags[i] })
}

/// The call that uploads `body` to the session as the part with the given number.
pub open spec fn numbered_part_call(
    session: UploadSessionView,
    number: int,
    body: Seq<u8>,
) -> BackendCallView {
    BackendCallView::UploadPart {
        bucket: session.bucket,
        key: session.key,
        upload_id: session.upload_id,
        part_number: number,
        body,
    }
}

/// The reply of a backend that has opened an upload under `upload_id`.
pub open spec fn created_reply(upload_id: Seq<char>) -> ReplyView {
    Ok(BackendOutputView::UploadCreated { upload_id })
}

/// The session of an upload to `target` that the backend has opened under `upload_id`,
/// before any part is stored.
pub open spec fn opened_session(
    target: ResolvedTargetView,
    metadata: ObjectMetadataView,
    upload_id: Seq<char>,
) -> UploadSessionView {
    UploadSessionView {
        bucket: target.bucket,
        key: target.key,
        upload_id,
        metadata,
        parts: Seq::empty(),
    }
}

/// The handler that an upload runs in, at its start.
pub open spec fn upload_handler(started: (UploadView, ActionView)) -> (HandlerView, ActionView) {
    (HandlerView::Put(started.0), started.1)
}

/// The handler of a PUT is an upload to the object that the path addresses, with the
/// metadata that the headers describe, in chunks of `PART_SIZE` bytes.
pub proof fn law_put_is_an_upload(config: S3ConfigView, request: RequestView)
    ensures
        put_handler(config, request) == upload_handler(
            begin_upload(
                resolve_target(config, request.path),
                metadata_from_headers(request.headers),
                PART_SIZE as nat,
            ),
        ),
        PART_SIZE == 5 * 1024 * 1024,
{
}

/// When every part is stored, `upload_of` makes one call for each body, numbered on
/// from the parts that the session holds, then completes the session with all parts
/// in order, and answers by how the completion ended.
proof fn lemma_upload_of_all_stored(
    session: UploadSessionView,
    bodies: Seq<Seq<u8>>,
    e_tags: Seq<Seq<char>>,
    last: ReplyView,
)
    requires
        e_tags.len() == bodies.len(),
    ensures
        ({
            let r = upload_of(session, bodies, part_replies(e_tags) + seq![last]);
            &&& r.calls.len() == bodies.len() as int + 1
            &&& forall|i: int|
                0 <= i < bodies.len() ==> #[trigger] r.calls[i] == numbered_part_call(
                    session,
                    session.parts.len() as int + 1 + i,
                    bodies[i],
                )
            &&& r.calls[bodies.len() as int] == complete_call(
                UploadSessionView {
                    parts: session.parts + stored_parts(session.parts.len() as int + 1, e_tags),
                    ..session
                },
            )
            &&& r.response == Some(outcome_response(last))
        }),
    decreases bodies.len(),
{
    let replies = part_replies(e_tags) + seq![last];
    let r = upload_of(session, bodies, replies);
    if bodies.len() == 0 {
        assert(replies[0] == last);
        assert(session.parts + stored_parts(session.parts.len() as int + 1, e_tags) =~= session.parts);
    } else {
        assert(replies[0] == part_replies(e_tags)[0]);
        let next = with_part(session, e_tags[0]);
        assert(replies.drop_first() =~= part_replies(e_tags.drop_first()) + seq![last]);
        lemma_upload_of_all_stored(next, bodies.drop_first(), e_tags.drop_first(), last);
        let rest = upload_of(next, bodies.drop_first(), replies.drop_first());
        assert(r == after_call(part_call(session, bodies[0]), rest));
        assert forall|i: int| 0 <= i < bodies.len() implies #[trigger] r.calls[i]
            == numbered_part_call(session, session.parts.len() as int + 1 + i, bodies[i]) by {
            if i > 0 {
                assert(r.calls[i] == rest.calls[i - 1]);
                assert(bodies.drop_first()[i - 1] == bodies[i]);
            }
        }
        assert(r.calls[bodies.len() as int] == rest.calls[bodies.len() as int - 1]);
        assert(next.parts + stored_parts(next.parts.len() as int + 1, e_tags.drop_first()) =~= session.parts
            + stored_parts(session.parts.len() as int + 1, e_tags));
    }
}

/// When a part fails after some were stored, `upload_of` makes one call for each part
/// up to the one that fails, then aborts the session, and reports the failure of the
/// part, whatever the reply to the abort is.
proof fn lemma_upload_of_part_failed(
    session: UploadSessionView,
    bodies: Seq<Seq<u8>>,
    e_tags: Seq<Seq<char>>,
    error: BackendErrorView,
    abort_reply: ReplyView,
)
    requires
        e_tags.len() < bodies.len(),
    ensures
        ({
            let r = upload_of(
                session,
                bodies,
                part_replies(e_tags) + seq![Err(error), abort_reply],
            );
            &&& r.calls.len() == e_tags.len() as int + 2
            &&& forall|i: int|
                0 <= i <= e_tags.len() ==> #[trigger] r.calls[i] == numbered_part_call(
                    session,
                    session.parts.len() as int + 1 + i,
                    bodies[i],
                )
            &&& r.calls[e_tags.len() as int + 1] == abort_call(session)
            &&& r.response == Some(error_response(error))
        }),
    decreases bodies.len(),
{
    let replies = part_replies(e_tags) + seq![Err(error), abort_reply];
    let r = upload_of(session, bodies, replies);
    if e_tags.len() == 0 {
        assert(replies[0] == Err::<BackendOutputView, BackendErrorView>(error));
        assert(replies.drop_first().len() > 0);
    } else {
        assert(replies[0] == part_replies(e_tags)[0]);
        let next = with_part(session, e_tags[0]);
        assert(replies.drop_first() =~= part_replies(e_tags.drop_first()) + seq![
            Err(error),
            abort_reply,
        ]);
        lemma_upload_of_part_failed(
            next,
            bodies.drop_first(),
            e_tags.drop_first(),
            error,
            abort_reply,
        );
        let rest = upload_of(next, bodies.drop_first(), replies.drop_first());
        assert(r == after_call(part_call(session, bodies[0]), rest));
        assert forall|i: int| 0 <= i <= e_tags.len() implies #[trigger] r.calls[i]
            == numbered_part_call(session, session.parts.len() as int + 1 + i, bodies[i]) by {
            if i > 0 {
                assert(r.calls[i] == rest.calls[i - 1]);
                assert(bodies.drop_first()[i - 1] == bodies[i]);
            }
        }
        assert(r.calls[e_tags.len() as int + 1] == rest.calls[e_tags.len() as int]);
    }
}

/// The run of a PUT whose upload the backend has opened, for a body of at least one
/// byte: the engine opens the upload, and then behaves as `upload_of` on the chunks of
/// the body, whatever the backend replies to the parts.
pub proof fn law_put_uploads_the_chunks_of_the_body(
    target: ResolvedTargetView,
    metadata: ObjectMetadataView,
    chunk_size: nat,
    pieces: Seq<Seq<u8>>,
    upload_id: Seq<char>,
    replies: Seq<ReplyView>,
)
    requires
        chunk_size > 0,
        concat(pieces).len() > 0,
    ensures
        run_from(
            upload_handler(begin_upload(target, metadata, chunk_size)),
            whole_body(pieces),
            seq![created_reply(upload_id)] + replies,
        ) == after_call(
            create_call(opened_session(target, metadata, upload_id)),
            upload_of(
                opened_session(target, metadata, upload_id),
                chunks(concat(pieces), chunk_size),
                replies,
            ),
        ),
{
    reveal_with_fuel(run, 2);
    let started = begin_upload(target, metadata, chunk_size);
    let all = seq![created_reply(upload_id)] + replies;
    assert(all[0] == created_reply(upload_id));
    assert(all.drop_first() =~= replies);
    let opened = upload_step(started.0, EventView::Reply(all[0])).0;
    assert(opened.session == opened_session(target, metadata, upload_id));
    assert(proceed(opened, false) == (opened, ActionView::ReadBody));
    assert(opened.buffer + concat(pieces) =~= concat(pieces));
    lemma_engine_uploads_chunks(opened, false, pieces, whole_body(pieces), replies);
    assert(create_call(started.0.session) == create_call(
        opened_session(target, metadata, upload_id),
    ));
}

/// A PUT with a body of at least one byte, against a backend that stores every part:
/// after opening the upload, the engine uploads the chunks of the body, one part each,
/// in the order of the body, numbered 1, 2, 3, ...; it then completes the upload once,
/// with all the parts in that order, each with its number and the tag it was stored
/// under; and the response tells how the completion ended. No other call is made.
pub proof fn law_put_stores_every_chunk(
    target: ResolvedTargetView,
    metadata: ObjectMetadataView,
    chunk_size: nat,
    pieces: Seq<Seq<u8>>,
    upload_id: Seq<char>,
    e_tags: Seq<Seq<char>>,
    last: ReplyView,
)
    requires
        chunk_size > 0,
        concat(pieces).len() > 0,
        e_tags.len() == chunks(concat(pieces), chunk_size).len(),
    ensures
        ({
            let session = opened_session(target, metadata, upload_id);
            let bodies = chunks(concat(pieces), chunk_size);
            let r = run_from(
                upload_handler(begin_upload(target, metadata, chunk_size)),
                whole_body(pieces),
                seq![created_reply(upload_id)] + part_replies(e_tags) + seq![last],
            );
            &&& r.calls.len() == bodies.len() as int + 2
            &&& r.calls[0] == create_call(session)
            &&& forall|i: int|
                0 <= i < bodies.len() ==> #[trigger] r.calls[i + 1] == numbered_part_call(
                    session,
                    i + 1,
                    bodies[i],
                )
            &&& r.calls[bodies.len() as int + 1] == complete_call(
                UploadSessionView { parts: stored_parts(1, e_tags), ..session },
            )
            &&& numbered_from_one(stored_parts(1, e_tags))
            &&& r.response == Some(outcome_response(last))
            &&& bodies.len() == (concat(pieces).len() + chunk_size - 1) / (chunk_size as int)
            &&& forall|j: int|
                0 <= j < r.calls.len() ==> {
                    &&& (#[trigger] r.calls[j]) is CreateMultipartUpload <==> j == 0
                    &&& r.calls[j] is UploadPart <==> 1 <= j <= bodies.len()
                    &&& r.calls[j] is CompleteMultipartUpload <==> j == bodies.len() + 1
                }
        }),
{
    let session = opened_session(target, metadata, upload_id);
    let bodies = chunks(concat(pieces), chunk_size);
    law_chunks_cut_the_body(concat(pieces), chunk_size);
    let replies = part_replies(e_tags) + seq![last];
    assert(seq![created_reply(upload_id)] + part_replies(e_tags) + seq![last] =~= seq![
        created_reply(upload_id),
    ] + replies);
    law_put_uploads_the_chunks_of_the_body(target, metadata, chunk_size, pieces, upload_id, replies);
    lemma_upload_of_all_stored(session, bodies, e_tags, last);
    let inner = upload_of(session, bodies, replies);
    let r = after_call(create_call(session), inner);
    assert forall|i: int| 0 <= i < bodies.len() implies #[trigger] r.calls[i + 1]
        == numbered_part_call(session, i + 1, bodies[i]) by {
        assert(r.calls[i + 1] == inner.calls[i]);
    }
    assert(r.calls[bodies.len() as int + 1] == inner.calls[bodies.len() as int]);
    assert(session.parts + stored_parts(session.parts.len() as int + 1, e_tags) =~= stored_parts(1, e_tags));
    assert forall|j: int| 0 <= j < r.calls.len() implies {
        &&& (#[trigger] r.calls[j]) is CreateMultipartUpload <==> j == 0
        &&& r.calls[j] is UploadPart <==> 1 <= j <= bodies.len()
        &&& r.calls[j] is CompleteMultipartUpload <==> j == bodies.len() + 1
    } by {
        if 1 <= j <= bodies.len() {
            assert(r.calls[(j - 1) + 1] == numbered_part_call(session, (j - 1) + 1, bodies[j - 1]));
        }
    }
}

/// A PUT one of whose parts fails, after any number of parts were stored: the engine
/// makes no further upload; it aborts the upload, once; and the response reports the
/// failure of the part, in the category of its kind, whatever the reply to the abort
/// is. The upload is never completed.
pub proof fn law_put_aborts_when_a_part_fails(
    target: ResolvedTargetView,
    metadata: ObjectMetadataView,
    chunk_size: nat,
    pieces: Seq<Seq<u8>>,
    upload_id: Seq<char>,
    e_tags: Seq<Seq<char>>,
    error: BackendErrorView,
    abort_reply: ReplyView,
)
    requires
        chunk_size > 0,
        concat(pieces).len() > 0,
        e_tags.len() < chunks(concat(pieces), chunk_size).len(),
    ensures
        ({
            let session = opened_session(target, metadata, upload_id);
            let bodies = chunks(concat(pieces), chunk_size);
            let r = run_from(
                upload_handler(begin_upload(target, metadata, chunk_size)),
                whole_body(pieces),
                seq![created_reply(upload_id)] + part_replies(e_tags) + seq![
                    Err(error),
                    abort_reply,
                ],
            );
            &&& r.calls.len() == e_tags.len() as int + 3
            &&& r.calls[0] == create_call(session)
            &&& forall|i: int|
                0 <= i <= e_tags.len() ==> #[trigger] r.calls[i + 1] == numbered_part_call(
                    session,
                    i + 1,
                    bodies[i],
                )
            &&& r.calls[e_tags.len() as int + 2] == abort_call(session)
            &&& r.response == Some(error_response(error))
            &&& forall|j: int|
                0 <= j < r.calls.len() ==> {
                    &&& (#[trigger] r.calls[j]) is AbortMultipartUpload <==> j == e_tags.len() + 2
                    &&& !(r.calls[j] is CompleteMultipartUpload)
                }
        }),
{
    let session = opened_session(target, metadata, upload_id);
    let bodies = chunks(concat(pieces), chunk_size);
    let replies = part_replies(e_tags) + seq![Err(error), abort_reply];
    assert(seq![created_reply(upload_id)] + part_replies(e_tags) + seq![Err(error), abort_reply]
        =~= seq![created_reply(upload_id)] + replies);
    law_put_uploads_the_chunks_of_the_body(target, metadata, chunk_size, pieces, upload_id, replies);
    lemma_upload_of_part_failed(session, bodies, e_tags, error, abort_reply);
    let inner = upload_of(session, bodies, replies);
    let r = after_call(create_call(session), inner);
    assert forall|i: int| 0 <= i <= e_tags.len() implies #[trigger] r.calls[i + 1]
        == numbered_part_call(session, i + 1, bodies[i]) by {
        assert(r.calls[i + 1] == inner.calls[i]);
    }
    assert(r.calls[e_tags.len() as int + 2] == inner.calls[e_tags.len() as int + 1]);
    assert forall|j: int| 0 <= j < r.calls.len() implies {
        &&& (#[trigger] r.calls[j]) is AbortMultipartUpload <==> j == e_tags.len() + 2
        &&& !(r.calls[j] is CompleteMultipartUpload)
    } by {
        if 1 <= j <= e_tags.len() + 1 {
            assert(r.calls[(j - 1) + 1] == numbered_part_call(session, (j - 1) + 1, bodies[j - 1]));
        }
    }
}

/// The run that discards an upload and stores an empty object in its place: the abort,
/// then the store, whatever the reply to the abort is; the response tells how the store
/// ended.
pub open spec fn discard_run(session: UploadSessionView, replies: Seq<ReplyView>) -> RunView {
    if replies.len() == 0 {
        after_call(abort_call(session), starved())
    } else {
        after_call(abort_call(session), last_call(store_empty_call(session), replies.drop_first()))
    }
}

/// From any point at which no part is stored and no byte has arrived or will arrive,
/// the engine discards the upload and stores an empty object.
proof fn lemma_engine_discards_empty_upload(
    upload: UploadView,
    ended: bool,
    pieces: Seq<Seq<u8>>,
    body: Seq<BodyEventView>,
    replies: Seq<ReplyView>,
)
    requires
        upload.chunk_size > 0,
        !ended ==> body == whole_body(pieces),
        ended ==> pieces.len() == 0,
        upload.session.parts.len() == 0,
        (upload.buffer + concat(pieces)).len() == 0,
    ensures
        run(HandlerView::Put(proceed(upload, ended).0), proceed(upload, ended).1, body, replies)
            == discard_run(upload.session, replies),
    decreases (if ended { 0 } else { pieces.len() + 1 }),
{
    let next = proceed(upload, ended);
    if !ended {
        reveal_with_fuel(run, 2);
        if pieces.len() > 0 {
            let grown = UploadView { buffer: upload.buffer + pieces[0], ..next.0 };
            assert(body.drop_first() =~= whole_body(pieces.drop_first()));
            assert(grown.buffer + concat(pieces.drop_first()) =~= upload.buffer + concat(pieces));
            lemma_engine_discards_empty_upload(
                grown,
                false,
                pieces.drop_first(),
                body.drop_first(),
                replies,
            );
            assert(body[0] == BodyEventView::Piece(pieces[0]));
        } else {
            assert(body[0] == BodyEventView::End);
            lemma_engine_discards_empty_upload(next.0, true, pieces, body.drop_first(), replies);
        }
    } else {
        reveal_with_fuel(run, 4);
        if replies.len() > 1 {
            assert(replies.drop_first()[0] == replies[1]);
        }
    }
}

/// A PUT with a body of no bytes, in however many pieces it arrives: the engine opens
/// the upload, aborts it, and stores an empty object directly, with the metadata of the
/// request. It uploads no part and never completes the upload. The response tells how
/// the store ended, whatever the reply to the abort was.
pub proof fn law_put_of_empty_body_stores_empty_object(
    target: ResolvedTargetView,
    metadata: ObjectMetadataView,
    chunk_size: nat,
    pieces: Seq<Seq<u8>>,
    upload_id: Seq<char>,
    abort_reply: ReplyView,
    store_reply: ReplyView,
)
    requires
        chunk_size > 0,
        concat(pieces).len() == 0,
    ensures
        run_from(
            upload_handler(begin_upload(target, metadata, chunk_size)),
            whole_body(pieces),
            seq![created_reply(upload_id), abort_reply, store_reply],
        ) == (RunView {
            calls: seq![
                create_call(opened_session(target, metadata, upload_id)),
                abort_call(opened_session(target, metadata, upload_id)),
                store_empty_call(opened_session(target, metadata, upload_id)),
            ],
            response: Some(outcome_response(store_reply)),
        }),
        store_empty_call(opened_session(target, metadata, upload_id))
            == (BackendCallView::PutObject {
            bucket: target.bucket,
            key: target.key,
            body: Seq::empty(),
            metadata,
        }),
{
    reveal_with_fuel(run, 2);
    let started = begin_upload(target, metadata, chunk_size);
    let session = opened_session(target, metadata, upload_id);
    let all = seq![created_reply(upload_id), abort_reply, store_reply];
    let replies = seq![abort_reply, store_reply];
    assert(all.drop_first() =~= replies);
    let opened = upload_step(started.0, EventView::Reply(all[0])).0;
    assert(opened.session == session);
    assert(proceed(opened, false) == (opened, ActionView::ReadBody));
    assert(opened.buffer + concat(pieces) =~= concat(pieces));
    lemma_engine_discards_empty_upload(opened, false, pieces, whole_body(pieces), replies);
    assert(replies.drop_first()[0] == store_reply);
    let r = run_from(upload_handler(started), whole_body(pieces), all);
    assert(r.calls =~= seq![create_call(session), abort_call(session), store_empty_call(session)]);
}

/// A PUT whose upload the backend does not open ends there: no other call is made, and
/// the response reports the failure.
pub proof fn law_put_ends_when_upload_is_not_opened(
    target: ResolvedTargetView,
    metadata: ObjectMetadataView,
    chunk_size: nat,
    body: Seq<BodyEventView>,
    error: BackendErrorView,
    replies: Seq<ReplyView>,
)
    ensures
        run_from(
            upload_handler(begin_upload(target, metadata, chunk_size)),
            body,
            seq![Err(error)] + replies,
        ) == (RunView {
            calls: seq![
                BackendCallView::CreateMultipartUpload {
                    bucket: target.bucket,
                    key: target.key,
                    metadata,
                },
            ],
            response: Some(error_response(error)),
        }),
{
    reveal_with_fuel(run, 3);
    let started = begin_upload(target, metadata, chunk_size);
    let all = seq![Err::<BackendOutputView, BackendErrorView>(error)] + replies;
    assert(all[0] == Err::<BackendOutputView, BackendErrorView>(error));
    let r = run_from(upload_handler(started), body, all);
    assert(r.calls =~= seq![started.1->Call_0]);
}

/// When the body cannot be read to its end, the engine aborts the upload at once, with
/// no further part, and reports an internal failure, whatever the reply to the abort is.
pub proof fn law_put_aborts_when_body_breaks(
    upload: UploadView,
    body: Seq<BodyEventView>,
    replies: Seq<ReplyView>,
)
    requires
        upload.phase is Reading,
        body.len() > 0,
        body[0] is Failed,
    ensures
        run(HandlerView::Put(upload), ActionView::ReadBody, body, replies) == aborted(
            upload.session,
            stream_failure(),
            replies,
        ),
        error_response(stream_failure()).status == crate::protocol::Status::Error(
            crate::error::ErrorCategory::Internal,
        ),
{
    reveal_with_fuel(run, 2);
    lemma_run_abort(upload, stream_failure(), body.drop_first(), replies);
}

/// What reading a body gives that breaks after the given pieces: each piece in turn,
/// and then the failure.
pub open spec fn broken_body(pieces: Seq<Seq<u8>>) -> Seq<BodyEventView> {
    Seq::new(
        pieces.len() + 1,
        |i: int|
            if i < pieces.len() {
                BodyEventView::Piece(pieces[i])
            } else {
                BodyEventView::Failed
            },
    )
}

/// The full chunks of what has arrived of a body: each of `size` bytes, in order. What
/// is left over, short of a chunk, is none of them.
pub open spec fn full_chunks(data: Seq<u8>, size: nat) -> Seq<Seq<u8>>
    decreases data.len(),
{
    if size == 0 || data.len() < size {
        Seq::empty()
    } else {
        seq![data.take(size as int)] + full_chunks(data.skip(size as int), size)
    }
}

/// The run that uploads `bodies`, one part each, in order, and then aborts the session
/// because the body has broken. At the first part that fails, the session is aborted
/// there, and that failure reported. The session is never completed.
pub open spec fn upload_until_break(
    session: UploadSessionView,
    bodies: Seq<Seq<u8>>,
    replies: Seq<ReplyView>,
) -> RunView
    decreases bodies.len(),
{
    if bodies.len() == 0 {
        aborted(session, stream_failure(), replies)
    } else if replies.len() == 0 {
        after_call(part_call(session, bodies[0]), starved())
    } else {
        after_call(
            part_call(session, bodies[0]),
            match replies[0] {
                Ok(BackendOutputView::PartUploaded { e_tag }) => upload_until_break(
                    with_part(session, e_tag),
                    bodies.drop_first(),
                    replies.drop_first(),
                ),
                Ok(_) => aborted(session, unexpected_event(), replies.drop_first()),
                Err(error) => aborted(session, error, replies.drop_first()),
            },
        )
    }
}

/// From any point at which no call is in flight and the body has not ended, if the body
/// breaks after the pieces that are still to come, the engine uploads the full chunks of
/// what is buffered and what comes, one part each, and then aborts the upload.
proof fn lemma_engine_uploads_until_break(
    upload: UploadView,
    pieces: Seq<Seq<u8>>,
    body: Seq<BodyEventView>,
    replies: Seq<ReplyView>,
)
    requires
        upload.chunk_size > 0,
        body == broken_body(pieces),
    ensures
        run(HandlerView::Put(proceed(upload, false).0), proceed(upload, false).1, body, replies)
            == upload_until_break(
            upload.session,
            full_chunks(upload.buffer + concat(pieces), upload.chunk_size),
            replies,
        ),
    decreases replies.len(), pieces.len(),
{
    reveal_with_fuel(run, 2);
    let size = upload.chunk_size;
    let data = upload.buffer + concat(pieces);
    let next = proceed(upload, false);
    if upload.buffer.len() >= size {
        let part = upload.buffer.take(size as int);
        let rest = upload.buffer.skip(size as int);
        assert(data.take(size as int) =~= part);
        assert(data.skip(size as int) =~= rest + concat(pieces));
        let full = full_chunks(data, size);
        assert(full[0] == part);
        assert(full.drop_first() =~= full_chunks(rest + concat(pieces), size));
        assert(next.1 == ActionView::Call(part_call(upload.session, part)));
        if replies.len() > 0 {
            match replies[0] {
                Ok(BackendOutputView::PartUploaded { e_tag }) => {
                    let stored = UploadView { session: with_part(upload.session, e_tag), ..next.0 };
                    assert(stored.buffer == rest);
                    lemma_engine_uploads_until_break(stored, pieces, body, replies.drop_first());
                    assert(handler_step(HandlerView::Put(next.0), EventView::Reply(replies[0])) == (
                        HandlerView::Put(proceed(stored, false).0),
                        proceed(stored, false).1,
                    ));
                },
                Ok(_) => {
                    lemma_run_abort(next.0, unexpected_event(), body, replies.drop_first());
                },
                Err(error) => {
                    lemma_run_abort(next.0, error, body, replies.drop_first());
                },
            }
        }
    } else {
        assert(body.len() > 0);
        if pieces.len() > 0 {
            let grown = UploadView { buffer: upload.buffer + pieces[0], ..next.0 };
            assert(body.drop_first() =~= broken_body(pieces.drop_first()));
            assert(grown.buffer + concat(pieces.drop_first()) =~= data);
            lemma_engine_uploads_until_break(grown, pieces.drop_first(), body.drop_first(), replies);
            assert(body[0] == BodyEventView::Piece(pieces[0]));
        } else {
            assert(body[0] == BodyEventView::Failed);
            assert(concat(pieces) =~= Seq::empty());
            assert(data =~= upload.buffer);
            assert(full_chunks(data, size) =~= Seq::empty());
            lemma_run_abort(next.0, stream_failure(), body.drop_first(), replies);
        }
    }
}

/// When every part is stored, `upload_until_break` makes one call for each body,
/// numbered on from the parts that the session holds, then aborts the session, and
/// reports the broken body, whatever the reply to the abort is.
proof fn lemma_upload_until_break_all_stored(
    session: UploadSessionView,
    bodies: Seq<Seq<u8>>,
    e_tags: Seq<Seq<char>>,
    abort_reply: ReplyView,
)
    requires
        e_tags.len() == bodies.len(),
    ensures
        ({
            let r = upload_until_break(session, bodies, part_replies(e_tags) + seq![abort_reply]);
            &&& r.calls.len() == bodies.len() as int + 1
            &&& forall|i: int|
                0 <= i < bodies.len() ==> #[trigger] r.calls[i] == numbered_part_call(
                    session,
                    session.parts.len() as int + 1 + i,
                    bodies[i],
                )
            &&& r.calls[bodies.len() as int] == abort_call(session)
            &&& r.response == Some(error_response(stream_failure()))
        }),
    decreases bodies.len(),
{
    let replies = part_replies(e_tags) + seq![abort_reply];
    let r = upload_until_break(session, bodies, replies);
    if bodies.len() == 0 {
        assert(replies.len() > 0);
    } else {
        assert(replies[0] == part_replies(e_tags)[0]);
        let next = with_part(session, e_tags[0]);
        assert(replies.drop_first() =~= part_replies(e_tags.drop_first()) + seq![abort_reply]);
        lemma_upload_until_break_all_stored(
            next,
            bodies.drop_first(),
            e_tags.drop_first(),
            abort_reply,
        );
        let rest = upload_until_break(next, bodies.drop_first(), replies.drop_first());
        assert(r == after_call(part_call(session, bodies[0]), rest));
        assert forall|i: int| 0 <= i < bodies.len() implies #[trigger] r.calls[i]
            == numbered_part_call(session, session.parts.len() as int + 1 + i, bodies[i]) by {
            if i > 0 {
                assert(r.calls[i] == rest.calls[i - 1]);
                assert(bodies.drop_first()[i - 1] == bodies[i]);
            }
        }
        assert(r.calls[bodies.len() as int] == rest.calls[bodies.len() as int - 1]);
    }
}

/// The full chunks of a body are as many as the chunk size goes into its length, and
/// the one at index `i` holds the bytes from `i * size` up to `(i + 1) * size`.
pub proof fn law_full_chunks_cut_the_body(data: Seq<u8>, size: nat)
    requires
        size > 0,
    ensures
        full_chunks(data, size).len() == data.len() as int / (size as int),
        forall|i: int|
            0 <= i < full_chunks(data, size).len() ==> #[trigger] full_chunks(data, size)[i]
                == data.subrange(i * size, (i + 1) * size),
    decreases data.len(),
{
    let len = data.len() as int;
    let sz = size as int;
    if len < sz {
        assert(len / sz == 0) by (nonlinear_arith)
            requires
                0 <= len < sz,
        ;
    } else {
        let rest = data.skip(sz);
        law_full_chunks_cut_the_body(rest, size);
        assert(len / sz == (len - sz) / sz + 1) by (nonlinear_arith)
            requires
                len >= sz,
                sz > 0,
        ;
        let all = full_chunks(data, size);
        let tail = full_chunks(rest, size);
        assert(all =~= seq![data.take(sz)] + tail);
        assert forall|i: int| 0 <= i < all.len() implies #[trigger] all[i] == data.subrange(
            i * size,
            (i + 1) * size,
        ) by {
            if i == 0 {
                assert(0 * sz == 0);
                assert((0 + 1) * sz == sz) by (nonlinear_arith);
                assert(data.take(sz) =~= data.subrange(0, sz));
            } else {
                let j = i - 1;
                assert(all[i] == tail[j]);
                assert(j * sz + sz == i * sz) by (nonlinear_arith)
                    requires
                        j == i - 1,
                ;
                assert((j + 1) * sz + sz == (i + 1) * sz) by (nonlinear_arith)
                    requires
                        j == i - 1,
                ;
                assert(j * sz >= 0) by (nonlinear_arith)
                    requires
                        j >= 0,
                        sz > 0,
                ;
                assert((j + 1) * sz <= rest.len()) by (nonlinear_arith)
                    requires
                        0 <= j < (len - sz) / sz,
                        rest.len() == len - sz,
                        sz > 0,
                ;
                assert(rest.subrange(j * sz, (j + 1) * sz) =~= data.subrange(i * sz, (i + 1) * sz));
            }
        }
    }
}

/// A PUT whose body breaks after some pieces, against a backend that stores every part:
/// after opening the upload, the engine uploads the full chunks of what arrived, one
/// part each, numbered 1, 2, 3, ...; what is left over, short of a chunk, is not
/// uploaded; the engine then aborts the upload, once; and the response reports an
/// internal failure, whatever the reply to the abort is. The upload is never completed,
/// and no object is stored in its place.
pub proof fn law_put_of_broken_body_aborts(
    target: ResolvedTargetView,
    metadata: ObjectMetadataView,
    chunk_size: nat,
    pieces: Seq<Seq<u8>>,
    upload_id: Seq<char>,
    e_tags: Seq<Seq<char>>,
    abort_reply: ReplyView,
)
    requires
        chunk_size > 0,
        e_tags.len() == full_chunks(concat(pieces), chunk_size).len(),
    ensures
        ({
            let session = opened_session(target, metadata, upload_id);
            let bodies = full_chunks(concat(pieces), chunk_size);
            let r = run_from(
                upload_handler(begin_upload(target, metadata, chunk_size)),
                broken_body(pieces),
                seq![created_reply(upload_id)] + part_replies(e_tags) + seq![abort_reply],
            );
            &&& bodies.len() == concat(pieces).len() as int / (chunk_size as int)
            &&& r.calls.len() == bodies.len() as int + 2
            &&& r.calls[0] == create_call(session)
            &&& forall|i: int|
                0 <= i < bodies.len() ==> #[trigger] r.calls[i + 1] == numbered_part_call(
                    session,
                    i + 1,
                    bodies[i],
                )
            &&& r.calls[bodies.len() as int + 1] == abort_call(session)
            &&& r.response == Some(error_response(stream_failure()))
            &&& error_response(stream_failure()).status == crate::protocol::Status::Error(
                crate::error::ErrorCategory::Internal,
            )
            &&& forall|j: int|
                0 <= j < r.calls.len() ==> {
                    &&& (#[trigger] r.calls[j]) is AbortMultipartUpload <==> j == bodies.len() + 1
                    &&& !(r.calls[j] is CompleteMultipartUpload)
                    &&& !(r.calls[j] is PutObject)
                }
        }),
{
    reveal_with_fuel(run, 2);
    let started = begin_upload(target, metadata, chunk_size);
    let session = opened_session(target, metadata, upload_id);
    let bodies = full_chunks(concat(pieces), chunk_size);
    law_full_chunks_cut_the_body(concat(pieces), chunk_size);
    let replies = part_replies(e_tags) + seq![abort_reply];
    let all = seq![created_reply(upload_id)] + part_replies(e_tags) + seq![abort_reply];
    assert(all =~= seq![created_reply(upload_id)] + replies);
    assert(all[0] == created_reply(upload_id));
    assert(all.drop_first() =~= replies);
    let opened = upload_step(started.0, EventView::Reply(all[0])).0;
    assert(opened.session == session);
    assert(proceed(opened, false) == (opened, ActionView::ReadBody));
    assert(opened.buffer + concat(pieces) =~= concat(pieces));
    lemma_engine_uploads_until_break(opened, pieces, broken_body(pieces), replies);
    lemma_upload_until_break_all_stored(session, bodies, e_tags, abort_reply);
    let inner = upload_until_break(session, bodies, replies);
    let r = run_from(upload_handler(started), broken_body(pieces), all);
    assert(r == after_call(create_call(session), inner));
    assert forall|i: int| 0 <= i < bodies.len() implies #[trigger] r.calls[i + 1]
        == numbered_part_call(session, i + 1, bodies[i]) by {
        assert(r.calls[i + 1] == inner.calls[i]);
    }
    assert(r.calls[bodies.len() as int + 1] == inner.calls[bodies.len() as int]);
    assert forall|j: int| 0 <= j < r.calls.len() implies {
        &&& (#[trigger] r.calls[j]) is AbortMultipartUpload <==> j == bodies.len() + 1
        &&& !(r.calls[j] is CompleteMultipartUpload)
        &&& !(r.calls[j] is PutObject)
    } by {
        if 1 <= j <= bodies.len() {
            assert(r.calls[(j - 1) + 1] == numbered_part_call(session, (j - 1) + 1, bodies[j - 1]));
        }
    }
}

/// The chunks of a body are its bytes, cut at every multiple of the chunk size: there
/// are as many as the size goes into the length, rounded up, and the chunk at index `i`
/// holds the bytes from `i * size` up to `(i + 1) * size`, or up to the end of the body
/// where that comes first.
pub proof fn law_chunks_cut_the_body(data: Seq<u8>, size: nat)
    requires
        size > 0,
    ensures
        chunks(data, size).len() == (data.len() + size - 1) / (size as int),
        forall|i: int|
            0 <= i < chunks(data, size).len() ==> #[trigger] chunks(data, size)[i]
                == data.subrange(
                i * size,
                if (i + 1) * size <= data.len() {
                    (i + 1) * size
                } else {
                    data.len() as int
                },
            ),
    decreases data.len(),
{
    let len = data.len() as int;
    let sz = size as int;
    if len == 0 {
        assert((len + sz - 1) / sz == 0) by (nonlinear_arith)
            requires
                len == 0,
                sz > 0,
        ;
    } else if len <= sz {
        assert((len + sz - 1) / sz == 1) by (nonlinear_arith)
            requires
                0 < len <= sz,
        ;
        assert(0 * sz == 0);
        assert((0 + 1) * sz == sz) by (nonlinear_arith);
        assert(data.subrange(0, len) =~= data);
    } else {
        let rest = data.skip(sz);
        law_chunks_cut_the_body(rest, size);
        assert((len + sz - 1) / sz == (len - sz + sz - 1) / sz + 1) by (nonlinear_arith)
            requires
                len > sz,
                sz > 0,
        ;
        let all = chunks(data, size);
        let tail = chunks(rest, size);
        assert(all =~= seq![data.take(sz)] + tail);
        assert forall|i: int| 0 <= i < all.len() implies #[trigger] all[i] == data.subrange(
            i * size,
            if (i + 1) * size <= data.len() {
                (i + 1) * size
            } else {
                data.len() as int
            },
        ) by {
            if i == 0 {
                assert(0 * sz == 0);
                assert((0 + 1) * sz == sz) by (nonlinear_arith);
                assert(data.take(sz) =~= data.subrange(0, sz));
            } else {
                let j = i - 1;
                assert(all[i] == tail[j]);
                assert(j * sz + sz == i * sz) by (nonlinear_arith)
                    requires
                        j == i - 1,
                ;
                assert((j + 1) * sz + sz == (i + 1) * sz) by (nonlinear_arith)
                    requires
                        j == i - 1,
                ;
                assert(j * sz >= 0) by (nonlinear_arith)
                    requires
                        j >= 0,
                        sz > 0,
                ;
                let hi_tail = if (j + 1) * sz <= rest.len() {
                    (j + 1) * sz
                } else {
                    rest.len() as int
                };
                let hi = if (i + 1) * sz <= len {
                    (i + 1) * sz
                } else {
                    len
                };
                assert(hi == hi_tail + sz);
                assert(tail.len() == (rest.len() + sz - 1) / sz);
                assert(j * sz < rest.len()) by (nonlinear_arith)
                    requires
                        0 <= j < (rest.len() + sz - 1) / sz,
                        sz > 0,
                ;
                assert(rest.subrange(j * sz, hi_tail) =~= data.subrange(i * sz, hi));
            }
        }
    }
}

} // verus!
