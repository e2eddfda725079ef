//! What a handler does from its start to its response, stated over whole runs.
//!
//! A run pairs a handler with an environment: the request body, as the events that
//! reading it gives, and the backend, as the replies that its successive calls get.
//! `run` plays the handler against that environment, and gives the backend calls that
//! were made, in order, and the response. The laws of this module say what every run of
//! a kind looks like.

use vstd::prelude::*;
use crate::backend::{BackendCallView, BackendOutputView, ReplyView, is_read_only};
use crate::env::S3ConfigView;
use crate::error::{BackendErrorView, ErrorCategory, ErrorKind};
use crate::key::resolve_key;
use crate::protocol::{
    ActionView, EventView, ResponseView, error_response, failure_response, object_response,
    ok_response,
};
use crate::routes::{
    HandlerView, RequestView, copy_handler, delete_handler, get_handler, handler_step,
    head_handler, index_handler, is_finished, move_handler, object_not_found_response,
};
use crate::transfer::{
    copy_call, delete_source_call, destination_key, encoded_key, invalid_destination_response,
    source_locator,
};

verus! {

/// What reading the request body once can give.
pub enum BodyEventView {
    /// The next piece of the body.
    Piece(Seq<u8>),
    /// The end of the body.
    End,
    /// A failure to read on.
    Failed,
}

/// The event that tells a handler what reading the body gave.
pub open spec fn body_event(read: BodyEventView) -> EventView {
    match read {
        BodyEventView::Piece(bytes) => EventView::Body(bytes),
        BodyEventView::End => EventView::BodyEnd,
        BodyEventView::Failed => EventView::BodyFailed,
    }
}

/// What came of a run: the backend calls that were made, in order, and the response, if
/// the run got as far as one.
pub struct RunView {
    pub calls: Seq<BackendCallView>,
    pub response: Option<ResponseView>,
}

/// A run that begins with `call` and goes on as `rest`.
pub open spec fn after_call(call: BackendCallView, rest: RunView) -> RunView {
    RunView { calls: seq![call] + rest.calls, response: rest.response }
}

/// A run that ends with a response and without a further call.
pub open spec fn responded(response: ResponseView) -> RunView {
    RunView { calls: Seq::empty(), response: Some(response) }
}

/// A run that stops, without a further call, for want of an event.
pub open spec fn starved() -> RunView {
    RunView { calls: Seq::empty(), response: None }
}

/// Plays a handler, which has just asked for `action`, against an environment. Each
/// read of the body gives the next of `body`, and each backend call gets the next of
/// `replies`. The run ends with the handler's response, or where the environment has
/// nothing more to give.
pub open spec fn run(
    handler: HandlerView,
    action: ActionView,
    body: Seq<BodyEventView>,
    replies: Seq<ReplyView>,
) -> RunView
    decreases body.len() + replies.len(),
{
    match action {
        ActionView::Respond(response) => responded(response),
        ActionView::ReadBody => if body.len() == 0 {
            starved()
        } else {
            let next = handler_step(handler, body_event(body[0]));
            run(next.0, next.1, body.drop_first(), replies)
        },
        ActionView::Call(call) => if replies.len() == 0 {
            after_call(call, starved())
        } else {
            let next = handler_step(handler, EventView::Reply(replies[0]));
            after_call(call, run(next.0, next.1, body, replies.drop_first()))
        },
    }
}

/// The run of a handler from its start.
pub open spec fn run_from(
    started: (HandlerView, ActionView),
    body: Seq<BodyEventView>,
    replies: Seq<ReplyView>,
) -> RunView {
    run(started.0, started.1, body, replies)
}

/// The response that tells how a call that only had to succeed has ended.
pub open spec fn outcome_response(reply: ReplyView) -> ResponseView {
    match reply {
        Ok(_) => ok_response(),
        Err(error) => error_response(error),
    }
}

/// A HEAD makes one backend call, a `HeadObject`, whatever the environment does: it
/// never makes a call that changes what the backend stores.
pub proof fn law_head_only_reads(
    config: S3ConfigView,
    request: RequestView,
    body: Seq<BodyEventView>,
    replies: Seq<ReplyView>,
)
    ensures
        run_from(head_handler(config, request), body, replies).calls == seq![
            BackendCallView::HeadObject {
                bucket: config.bucket,
                key: resolve_key(config.prefix, request.path),
            },
        ],
        forall|i: int|
            0 <= i < run_from(head_handler(config, request), body, replies).calls.len()
                ==> is_read_only(
                #[trigger] run_from(head_handler(config, request), body, replies).calls[i],
            ),
{
    reveal_with_fuel(run, 4);
    let started = head_handler(config, request);
    let r = run_from(started, body, replies);
    if replies.len() > 0 {
        let next = handler_step(started.0, EventView::Reply(replies[0]));
        assert(next.1 is Respond);
        assert(run(next.0, next.1, body, replies.drop_first()).calls =~= Seq::empty());
    }
    assert(r.calls =~= seq![started.1->Call_0]);
}

/// A HEAD of an object that the backend has answers with the object's metadata as
/// headers and without a body; a HEAD that fails answers with the failure.
pub proof fn law_head_response(
    config: S3ConfigView,
    request: RequestView,
    body: Seq<BodyEventView>,
    replies: Seq<ReplyView>,
)
    requires
        replies.len() > 0,
    ensures
        run_from(head_handler(config, request), body, replies).response == Some(
            match replies[0] {
                Ok(BackendOutputView::Object { metadata, has_body }) => object_response(
                    metadata,
                    false,
                ),
                Ok(_) => error_response(crate::protocol::unexpected_event()),
                Err(error) => error_response(error),
            },
        ),
{
    reveal_with_fuel(run, 4);
    let started = head_handler(config, request);
    let next = handler_step(started.0, EventView::Reply(replies[0]));
    assert(next.1 is Respond);
}

/// A GET makes one backend call, a `GetObject`, and answers by what came back: the
/// object with its metadata as headers and its content as body; not found where the
/// object has no content; and the failure where the call failed. So a GET of an object
/// that does not exist is answered as not found, and not as an internal error.
pub proof fn law_get_response(
    config: S3ConfigView,
    request: RequestView,
    body: Seq<BodyEventView>,
    replies: Seq<ReplyView>,
)
    requires
        replies.len() > 0,
    ensures
        run_from(get_handler(config, request), body, replies).calls == seq![
            BackendCallView::GetObject {
                bucket: config.bucket,
                key: resolve_key(config.prefix, request.path),
            },
        ],
        run_from(get_handler(config, request), body, replies).response == Some(
            match replies[0] {
                Ok(BackendOutputView::Object { metadata, has_body }) => if has_body {
                    object_response(metadata, true)
                } else {
                    object_not_found_response()
                },
                Ok(_) => error_response(crate::protocol::unexpected_event()),
                Err(error) => error_response(error),
            },
        ),
        forall|message: Seq<char>|
            replies[0] == Err::<BackendOutputView, BackendErrorView>(
                BackendErrorView { kind: ErrorKind::NoSuchKey, message },
            ) ==> run_from(get_handler(config, request), body, replies).response == Some(
                failure_response(ErrorCategory::NotFound, message),
            ),
{
    reveal_with_fuel(run, 4);
    let started = get_handler(config, request);
    let next = handler_step(started.0, EventView::Reply(replies[0]));
    assert(next.1 is Respond);
    let r = run_from(started, body, replies);
    assert(r.calls =~= seq![started.1->Call_0]);
}

/// A DELETE makes one backend call, a `DeleteObject` of the object that the path
/// addresses, and answers by how it ended.
pub proof fn law_delete_run(
    config: S3ConfigView,
    request: RequestView,
    body: Seq<BodyEventView>,
    replies: Seq<ReplyView>,
)
    requires
        replies.len() > 0,
    ensures
        run_from(delete_handler(config, request), body, replies) == (RunView {
            calls: seq![
                BackendCallView::DeleteObject {
                    bucket: config.bucket,
                    key: resolve_key(config.prefix, request.path),
                },
            ],
            response: Some(outcome_response(replies[0])),
        }),
{
    reveal_with_fuel(run, 4);
    let started = delete_handler(config, request);
    let next = handler_step(started.0, EventView::Reply(replies[0]));
    assert(next.1 is Respond);
    let r = run_from(started, body, replies);
    assert(r.calls =~= seq![started.1->Call_0]);
}

/// A request for the index is answered as not implemented, without a backend call.
pub proof fn law_index_run(body: Seq<BodyEventView>, replies: Seq<ReplyView>)
    ensures
        run_from(index_handler(), body, replies) == responded(
            crate::protocol::not_implemented_response(),
        ),
{
    reveal_with_fuel(run, 4);
}

/// A COPY or MOVE without a destination, or with one that cannot be read, is refused as
/// a bad request, and makes no backend call.
pub proof fn law_transfer_without_destination(
    config: S3ConfigView,
    request: RequestView,
    body: Seq<BodyEventView>,
    replies: Seq<ReplyView>,
)
    requires
        destination_key(request.headers.destination) is None,
    ensures
        run_from(copy_handler(config, request), body, replies) == responded(
            invalid_destination_response(),
        ),
        run_from(move_handler(config, request), body, replies) == responded(
            invalid_destination_response(),
        ),
        invalid_destination_response().status == crate::protocol::Status::Error(
            ErrorCategory::BadRequest,
        ),
{
    reveal_with_fuel(run, 4);
}

/// The call with which a COPY or MOVE of the object behind `request` copies it.
pub open spec fn transfer_copy_call(config: S3ConfigView, request: RequestView) -> BackendCallView {
    copy_call(
        config.bucket,
        encoded_key(source_locator(config.bucket, resolve_key(config.prefix, request.path))),
        destination_key(request.headers.destination)->0,
    )
}

/// A COPY with a destination makes one backend call, the copy, and answers by how it
/// ended.
pub proof fn law_copy_run(
    config: S3ConfigView,
    request: RequestView,
    body: Seq<BodyEventView>,
    replies: Seq<ReplyView>,
)
    requires
        destination_key(request.headers.destination) is Some,
        replies.len() > 0,
    ensures
        run_from(copy_handler(config, request), body, replies) == (RunView {
            calls: seq![transfer_copy_call(config, request)],
            response: Some(outcome_response(replies[0])),
        }),
{
    reveal_with_fuel(run, 4);
    let started = copy_handler(config, request);
    let next = handler_step(started.0, EventView::Reply(replies[0]));
    assert(next.1 is Respond);
    let r = run_from(started, body, replies);
    assert(r.calls =~= seq![started.1->Call_0]);
}

/// A MOVE whose copy fails makes no other call than the copy: the source is not
/// deleted, and the response reports the failure of the copy.
pub proof fn law_move_keeps_source_when_copy_fails(
    config: S3ConfigView,
    request: RequestView,
    body: Seq<BodyEventView>,
    replies: Seq<ReplyView>,
)
    requires
        destination_key(request.headers.destination) is Some,
        replies.len() > 0,
        replies[0] is Err,
    ensures
        run_from(move_handler(config, request), body, replies) == (RunView {
            calls: seq![transfer_copy_call(config, request)],
            response: Some(error_response(replies[0]->Err_0)),
        }),
{
    reveal_with_fuel(run, 4);
    let started = move_handler(config, request);
    let next = handler_step(started.0, EventView::Reply(replies[0]));
    assert(next.1 is Respond);
    let r = run_from(started, body, replies);
    assert(r.calls =~= seq![started.1->Call_0]);
}

/// A MOVE whose copy succeeds then deletes the source, the object that the path of the
/// request addresses, and answers by how the deletion ended. When the deletion fails,
/// the response reports that failure, and nothing is done about the copy.
pub proof fn law_move_deletes_source_after_copy(
    config: S3ConfigView,
    request: RequestView,
    body: Seq<BodyEventView>,
    replies: Seq<ReplyView>,
)
    requires
        destination_key(request.headers.destination) is Some,
        replies.len() > 1,
        replies[0] is Ok,
    ensures
        run_from(move_handler(config, request), body, replies) == (RunView {
            calls: seq![
                transfer_copy_call(config, request),
                delete_source_call(config.bucket, resolve_key(config.prefix, request.path)),
            ],
            response: Some(outcome_response(replies[1])),
        }),
{
    reveal_with_fuel(run, 4);
    let started = move_handler(config, request);
    let copied = handler_step(started.0, EventView::Reply(replies[0]));
    let rest = replies.drop_first();
    assert(rest[0] == replies[1]);
    let deleted = handler_step(copied.0, EventView::Reply(rest[0]));
    assert(deleted.1 is Respond);
    let r = run_from(started, body, replies);
    assert(r.calls =~= seq![started.1->Call_0, copied.1->Call_0]);
}

/// In every run of a MOVE, a `DeleteObject` is only ever the second call, after a copy
/// that has succeeded.
pub proof fn law_move_never_deletes_before_copy(
    config: S3ConfigView,
    request: RequestView,
    body: Seq<BodyEventView>,
    replies: Seq<ReplyView>,
    i: int,
)
    requires
        0 <= i < run_from(move_handler(config, request), body, replies).calls.len(),
        run_from(move_handler(config, request), body, replies).calls[i] is DeleteObject,
    ensures
        i == 1,
        run_from(move_handler(config, request), body, replies).calls[0] is CopyObject,
        replies.len() > 0 && replies[0] is Ok,
{
    reveal_with_fuel(run, 4);
    let started = move_handler(config, request);
    let r = run_from(started, body, replies);
    if destination_key(request.headers.destination) is None {
        law_transfer_without_destination(config, request, body, replies);
    } else if replies.len() == 0 {
        assert(r.calls =~= seq![started.1->Call_0]);
    } else if replies[0] is Err {
        law_move_keeps_source_when_copy_fails(config, request, body, replies);
    } else {
        let copied = handler_step(started.0, EventView::Reply(replies[0]));
        let rest = replies.drop_first();
        if rest.len() == 0 {
            assert(r.calls =~= seq![started.1->Call_0, copied.1->Call_0]);
        } else {
            law_move_deletes_source_after_copy(config, request, body, replies);
        }
    }
}

/// A step ends with a response exactly when it leaves the handler finished, and a
/// handler that is finished stays so.
pub proof fn law_response_finishes_the_handler(handler: HandlerView, event: EventView)
    ensures
        handler_step(handler, event).1 is Respond <==> is_finished(handler_step(handler, event).0),
        is_finished(handler) ==> is_finished(handler_step(handler, event).0),
{
}

} // verus!
