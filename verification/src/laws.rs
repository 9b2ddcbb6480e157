//! What holds of every upload, proved from the transition function.
use vstd::prelude::*;
use crate::error::UploadError;
use crate::progress::{advance, decoded, run, EventView, Progress, STATUS_OK};
use crate::resource::{lemma_paths_distinct, Resource};
use crate::response::{joined, verdict};
use crate::target::spec_target;

verus! {

/// The target of a request is the endpoint, unchanged, followed by the path
/// of the resource and nothing more; so the targets of two resources at one
/// endpoint differ exactly when the resources do.
pub proof fn lemma_target_shape(endpoint: Seq<char>, a: Resource, b: Resource)
    ensures
        spec_target(endpoint, a).len() == endpoint.len() + a.spec_path().len(),
        spec_target(endpoint, a).subrange(0, endpoint.len() as int) == endpoint,
        spec_target(endpoint, a).skip(endpoint.len() as int) == a.spec_path(),
        spec_target(endpoint, a) == spec_target(endpoint, b) <==> a == b,
{
    let ta = spec_target(endpoint, a);
    let tb = spec_target(endpoint, b);
    assert(ta.subrange(0, endpoint.len() as int) =~= endpoint);
    assert(ta.skip(endpoint.len() as int) =~= a.spec_path());
    assert(tb.skip(endpoint.len() as int) =~= b.spec_path());
    lemma_paths_distinct(a, b);
}

/// The body chunks of a response as the events that report them.
pub open spec fn chunk_events(chunks: Seq<Seq<u8>>) -> Seq<EventView> {
    Seq::new(chunks.len(), |i: int| EventView::Chunk(chunks[i]))
}

/// The outcome of a complete response as the state an upload ends in.
pub open spec fn verdict_state(v: Result<Seq<char>, UploadError>) -> Progress {
    match v {
        Ok(id) => Progress::Succeeded(id),
        Err(e) => Progress::Failed(e),
    }
}

/// Running two runs of events one after the other is running them joined.
pub proof fn lemma_run_concat(p: Progress, first: Seq<EventView>, second: Seq<EventView>)
    ensures
        run(p, first + second) == run(run(p, first), second),
    decreases second.len(),
{
    if second.len() == 0 {
        assert(first + second =~= first);
    } else {
        lemma_run_concat(p, first, second.drop_last());
        assert((first + second).drop_last() =~= first + second.drop_last());
        assert((first + second).last() == second.last());
    }
}

/// A single event takes one step.
pub proof fn lemma_run_one(p: Progress, e: EventView)
    ensures
        run(p, seq![e]) == advance(p, e),
{
    assert(seq![e].drop_last() =~= Seq::<EventView>::empty());
    assert(run(p, seq![e].drop_last()) == p);
}

/// An upload that has its outcome keeps it, whatever is reported afterwards:
/// the four ends are final and exclude one another.
pub proof fn lemma_outcome_is_final(p: Progress, events: Seq<EventView>)
    requires
        p.is_terminal(),
    ensures
        run(p, events) == p,
    decreases events.len(),
{
    if events.len() > 0 {
        lemma_outcome_is_final(p, events.drop_last());
    }
}

/// The reports that can settle an upload: a head with a status other than
/// 200, the end of the body, and a transport failure.
pub open spec fn settles(e: EventView) -> bool {
    match e {
        EventView::Head(code) => code != STATUS_OK,
        EventView::Chunk(_) => false,
        EventView::End => true,
        EventView::Failure(_) => true,
    }
}

/// An upload stays pending for as long as nothing that can settle it is
/// reported: without such a report it has no outcome, however long it waits
/// and whatever else arrives.
pub proof fn lemma_pending_until_settled(p: Progress, events: Seq<EventView>)
    requires
        !p.is_terminal(),
        forall|i: int| 0 <= i < events.len() ==> !settles(#[trigger] events[i]),
    ensures
        !run(p, events).is_terminal(),
    decreases events.len(),
{
    if events.len() > 0 {
        lemma_pending_until_settled(p, events.drop_last());
    }
}

/// A status other than 200 fails the upload with that status, and nothing
/// reported afterwards, no body of any content, changes or decodes anything.
pub proof fn lemma_status_rejected(code: u16, rest: Seq<EventView>)
    requires
        code != STATUS_OK,
    ensures
        run(Progress::InFlight, seq![EventView::Head(code)] + rest) == Progress::Failed(
            UploadError::Status(code),
        ),
{
    let head = seq![EventView::Head(code)];
    lemma_run_concat(Progress::InFlight, head, rest);
    lemma_run_one(Progress::InFlight, EventView::Head(code));
    lemma_outcome_is_final(Progress::Failed(UploadError::Status(code)), rest);
}

/// A transport failure fails every upload that is not yet done, with the
/// cause that was reported, and that outcome stays.
pub proof fn lemma_transport_failure(p: Progress, cause: hyper::Error, rest: Seq<EventView>)
    requires
        !p.is_terminal(),
    ensures
        run(p, seq![EventView::Failure(cause)] + rest) == Progress::Failed(
            UploadError::Transport(cause),
        ),
{
    let failure = seq![EventView::Failure(cause)];
    lemma_run_concat(p, failure, rest);
    lemma_run_one(p, EventView::Failure(cause));
    lemma_outcome_is_final(Progress::Failed(UploadError::Transport(cause)), rest);
}

/// Chunks are collected in the order they arrive, behind what was already
/// there.
pub proof fn lemma_body_collected(body: Seq<u8>, chunks: Seq<Seq<u8>>)
    ensures
        run(Progress::Receiving(body), chunk_events(chunks)) == Progress::Receiving(
            body + joined(chunks),
        ),
    decreases chunks.len(),
{
    if chunks.len() == 0 {
        assert(body + joined(chunks) =~= body);
    } else {
        lemma_body_collected(body, chunks.drop_last());
        assert(chunk_events(chunks).drop_last() =~= chunk_events(chunks.drop_last()));
        assert(chunk_events(chunks).last() == EventView::Chunk(chunks.last()));
        assert((body + joined(chunks.drop_last())) + chunks.last() =~= body + joined(chunks));
    }
}

/// Step by step or all at once is the same: an upload that is told of a
/// response head, then of the body's chunks, then of its end, finishes in
/// the outcome that the response as a whole has, however the body was cut
/// into chunks. Later reports change nothing.
pub proof fn lemma_response_decides(status: u16, chunks: Seq<Seq<u8>>, rest: Seq<EventView>)
    ensures
        run(
            Progress::InFlight,
            seq![EventView::Head(status)] + chunk_events(chunks) + seq![EventView::End] + rest,
        ) == verdict_state(verdict(status, joined(chunks))),
{
    let head = seq![EventView::Head(status)];
    let end = seq![EventView::End];
    let tail = chunk_events(chunks) + end + rest;
    assert(head + chunk_events(chunks) + end + rest =~= head + tail);
    if status != STATUS_OK {
        lemma_status_rejected(status, tail);
    } else {
        let open = Progress::Receiving(Seq::<u8>::empty());
        lemma_run_concat(Progress::InFlight, head, tail);
        lemma_run_one(Progress::InFlight, EventView::Head(status));
        assert(tail =~= chunk_events(chunks) + (end + rest));
        lemma_run_concat(open, chunk_events(chunks), end + rest);
        lemma_body_collected(Seq::<u8>::empty(), chunks);
        assert(Seq::<u8>::empty() + joined(chunks) =~= joined(chunks));
        let full = Progress::Receiving(joined(chunks));
        lemma_run_concat(full, end, rest);
        lemma_run_one(full, EventView::End);
        assert(decoded(joined(chunks)).is_terminal());
        lemma_outcome_is_final(decoded(joined(chunks)), rest);
    }
}

/// The events of one upload picked out of a shared stream, in their order.
/// Each event of the stream carries the number of the upload it is about.
pub open spec fn events_of(stream: Seq<(nat, EventView)>, upload: nat) -> Seq<EventView>
    decreases stream.len(),
{
    if stream.len() == 0 {
        Seq::empty()
    } else if stream.last().0 == upload {
        events_of(stream.drop_last(), upload).push(stream.last().1)
    } else {
        events_of(stream.drop_last(), upload)
    }
}

/// The states of a set of uploads in flight at once, after a shared stream
/// of events in which each event moves the upload it names.
pub open spec fn run_all(uploads: Map<nat, Progress>, stream: Seq<(nat, EventView)>) -> Map<
    nat,
    Progress,
>
    decreases stream.len(),
{
    if stream.len() == 0 {
        uploads
    } else {
        let before = run_all(uploads, stream.drop_last());
        let (upload, event) = stream.last();
        if before.dom().contains(upload) {
            before.insert(upload, advance(before[upload], event))
        } else {
            before
        }
    }
}

/// Uploads in flight at once do not touch one another: however their events
/// interleave, each upload ends where its own events alone would take it.
pub proof fn lemma_uploads_independent(
    uploads: Map<nat, Progress>,
    stream: Seq<(nat, EventView)>,
    upload: nat,
)
    requires
        uploads.dom().contains(upload),
    ensures
        run_all(uploads, stream).dom() == uploads.dom(),
        run_all(uploads, stream)[upload] == run(uploads[upload], events_of(stream, upload)),
    decreases stream.len(),
{
    if stream.len() > 0 {
        lemma_uploads_independent(uploads, stream.drop_last(), upload);
        let before = run_all(uploads, stream.drop_last());
        let (other, event) = stream.last();
        if before.dom().contains(other) {
            assert(before.insert(other, advance(before[other], event)).dom() =~= before.dom());
        }
        if other == upload {
            let mine = events_of(stream.drop_last(), upload);
            assert(mine.push(event).drop_last() =~= mine);
        }
    }
}

} // verus!
