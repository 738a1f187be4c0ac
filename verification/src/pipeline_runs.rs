//! Whole runs of the pipeline: what a series of events leads to.

use crate::models::StatusView;
use crate::pipeline::{
    unexpected_event, PipelineActionView, PipelineEventView, PipelineView, Stage,
};
use vstd::prelude::*;

verus! {

/// An event and the time, in seconds since 1970, at which it is handled.
pub struct Timed {
    pub event: PipelineEventView,
    pub now: u64,
}

/// The state that `start` has come to after `events`, in order.
pub open spec fn state_after(start: PipelineView, events: Seq<Timed>) -> PipelineView
    decreases events.len(),
{
    if events.len() == 0 {
        start
    } else {
        state_after(start, events.drop_last()).advance(events.last().event, events.last().now).0
    }
}

/// The action that answers the last of `events`.
pub open spec fn last_action(start: PipelineView, events: Seq<Timed>) -> PipelineActionView
    recommends
        events.len() > 0,
{
    state_after(start, events.drop_last()).advance(events.last().event, events.last().now).1
}

/// Whether, during `events`, an upload that the run had asked for ended
/// well, so that the object store came to hold the file.
pub open spec fn uploaded(start: PipelineView, events: Seq<Timed>) -> bool
    decreases events.len(),
{
    events.len() > 0 && (uploaded(start, events.drop_last()) || (state_after(
        start,
        events.drop_last(),
    ).stage == Stage::Uploading && events.last().event matches PipelineEventView::Uploaded(Ok(_))))
}

/// How many of the actions that answered `events` ask the store to delete
/// the uploaded object.
pub open spec fn clean_ups(start: PipelineView, events: Seq<Timed>) -> nat
    decreases events.len(),
{
    if events.len() == 0 {
        0
    } else if last_action(start, events) is Clean {
        clean_ups(start, events.drop_last()) + 1
    } else {
        clean_ups(start, events.drop_last())
    }
}

/// What the store answers to the request to delete the object does not
/// change how the run ends, nor anything else.
pub proof fn lemma_clean_up_answer_is_ignored(
    state: PipelineView,
    first: Option<Seq<char>>,
    second: Option<Seq<char>>,
    now: u64,
    later: u64,
)
    requires
        state.stage == Stage::Cleaning,
    ensures
        state.advance(PipelineEventView::Cleaned(first), now) == state.advance(
            PipelineEventView::Cleaned(second),
            later,
        ),
        state.failure is None ==> state.advance(PipelineEventView::Cleaned(first), now).1
            == PipelineActionView::Exit(Ok(())),
{
}

/// While the object store holds the file, no event ends the run: the run
/// goes on to its next stage, or it asks the store to delete the object,
/// by the bucket and key under which it was uploaded.
pub proof fn lemma_no_exit_while_object_held(state: PipelineView, event: PipelineEventView, now: u64)
    requires
        state.holds_object(),
    ensures
        ({
            let (next, action) = state.advance(event, now);
            &&& !(action is Exit)
            &&& next.key == state.key && next.bucket == state.bucket
            &&& next.holds_object() || (next.stage == Stage::Cleaning && action
                == PipelineActionView::Clean { bucket: state.bucket, key: state.key })
        }),
{
}

spec fn counts_agree(state: PipelineView, uploaded: bool, cleaned: nat) -> bool {
    &&& !uploaded ==> cleaned == 0 && (state.stage == Stage::Validating || state.stage
        == Stage::Connecting || state.stage == Stage::Uploading || state.stage == Stage::Done)
    &&& uploaded ==> {
        &&& state.holds_object() || state.stage == Stage::Cleaning || state.stage == Stage::Done
        &&& state.holds_object() ==> cleaned == 0
        &&& !state.holds_object() ==> cleaned == 1
    }
}

proof fn lemma_run_counts_agree(start: PipelineView, events: Seq<Timed>)
    requires
        start.stage == Stage::Validating,
    ensures
        counts_agree(state_after(start, events), uploaded(start, events), clean_ups(start, events)),
    decreases events.len(),
{
    if events.len() > 0 {
        lemma_run_counts_agree(start, events.drop_last());
    }
}

/// A run that ends after the object store came to hold the file has asked
/// the store exactly once to delete it; a run during which no upload ended
/// well has never asked.
pub proof fn lemma_clean_up_before_exit(start: PipelineView, events: Seq<Timed>)
    requires
        start.stage == Stage::Validating,
        events.len() > 0,
        last_action(start, events) is Exit,
    ensures
        uploaded(start, events) ==> clean_ups(start, events) == 1,
        !uploaded(start, events) ==> clean_ups(start, events) == 0,
{
    lemma_run_counts_agree(start, events);
    lemma_run_counts_agree(start, events.drop_last());
}

/// The events of a run in which every stage succeeds: the file is valid,
/// the account usable, the upload ends at `location`, the job is taken and
/// completes with its transcript at `uri`, the transcript `transcript` is
/// fetched and delivered, and the store answers the request to delete the
/// object with `complaint`.
pub open spec fn smooth_run(
    location: Seq<char>,
    uri: Seq<char>,
    transcript: Seq<char>,
    complaint: Option<Seq<char>>,
    times: Seq<u64>,
) -> Seq<Timed>
    recommends
        times.len() == 8,
{
    seq![
        Timed { event: PipelineEventView::Validated(Ok(())), now: times[0] },
        Timed { event: PipelineEventView::Connected(Ok(())), now: times[1] },
        Timed { event: PipelineEventView::Uploaded(Ok(location)), now: times[2] },
        Timed { event: PipelineEventView::Submitted(Ok(())), now: times[3] },
        Timed { event: PipelineEventView::Polled(Ok(StatusView::Completed(uri))), now: times[4] },
        Timed { event: PipelineEventView::Fetched(Ok(transcript)), now: times[5] },
        Timed { event: PipelineEventView::Delivered(Ok(())), now: times[6] },
        Timed { event: PipelineEventView::Cleaned(complaint), now: times[7] },
    ]
}

/// A run in which every stage succeeds ends well, also when the store
/// fails to delete the object.
pub proof fn lemma_failed_clean_up_keeps_success(
    start: PipelineView,
    location: Seq<char>,
    uri: Seq<char>,
    transcript: Seq<char>,
    complaint: Option<Seq<char>>,
    times: Seq<u64>,
)
    requires
        start.stage == Stage::Validating,
        start.failure is None,
        times.len() == 8,
    ensures
        last_action(start, smooth_run(location, uri, transcript, complaint, times))
            == PipelineActionView::Exit(Ok(())),
{
    let events = smooth_run(location, uri, transcript, complaint, times);
    let e7 = events.drop_last();
    let e6 = e7.drop_last();
    let e5 = e6.drop_last();
    let e4 = e5.drop_last();
    let e3 = e4.drop_last();
    let e2 = e3.drop_last();
    let e1 = e2.drop_last();
    let e0 = e1.drop_last();
    assert(e0.len() == 0);
    assert(state_after(start, e0) == start);
    assert(state_after(start, e1).stage == Stage::Connecting);
    assert(state_after(start, e2).stage == Stage::Uploading);
    assert(state_after(start, e3).stage == Stage::Submitting);
    assert(state_after(start, e4).stage == Stage::Polling);
    assert(state_after(start, e5).stage == Stage::Fetching);
    assert(state_after(start, e6).stage == Stage::Delivering);
    assert(state_after(start, e7).stage == Stage::Cleaning);
    assert(state_after(start, e7).failure is None);
}

/// A run that is done stays done.
pub proof fn lemma_done_is_final(state: PipelineView, event: PipelineEventView, now: u64)
    requires
        state.stage == Stage::Done,
    ensures
        state.advance(event, now) == (state, PipelineActionView::Exit(Err(unexpected_event()))),
{
}

/// How far a run has come: the number of its stage in the order of the
/// stages.
pub open spec fn progress(stage: Stage) -> nat {
    match stage {
        Stage::Validating => 0,
        Stage::Connecting => 1,
        Stage::Uploading => 2,
        Stage::Submitting => 3,
        Stage::Polling => 4,
        Stage::Fetching => 5,
        Stage::Delivering => 6,
        Stage::Cleaning => 7,
        Stage::Done => 8,
    }
}

/// Every event takes a run that is not done to a later stage.
pub proof fn lemma_every_event_advances(state: PipelineView, event: PipelineEventView, now: u64)
    requires
        state.stage != Stage::Done,
    ensures
        progress(state.advance(event, now).0.stage) > progress(state.stage),
{
}

/// A run ends: after eight events, whatever they are, it is done.
pub proof fn lemma_run_ends(start: PipelineView, events: Seq<Timed>)
    ensures
        progress(state_after(start, events).stage) >= progress(start.stage),
        events.len() + progress(start.stage) >= 8 ==> state_after(start, events).stage
            == Stage::Done,
        progress(state_after(start, events).stage) >= events.len() + progress(start.stage)
            || state_after(start, events).stage == Stage::Done,
    decreases events.len(),
{
    if events.len() > 0 {
        lemma_run_ends(start, events.drop_last());
        let before = state_after(start, events.drop_last());
        if before.stage != Stage::Done {
            lemma_every_event_advances(before, events.last().event, events.last().now);
        }
    }
}

} // verus!
