//! Whole runs of the chunked upload: what a series of events leads to.

use crate::aws::multipart::{lemma_step_keeps_wf, MultipartPhase, MultipartView};
use crate::aws::s3::{UploadActionView, UploadEventView};
use crate::error::ErrorView;
use vstd::prelude::*;

verus! {

/// The state that `start` has come to after `events`, in order.
pub open spec fn state_after(start: MultipartView, events: Seq<UploadEventView>) -> MultipartView
    decreases events.len(),
{
    if events.len() == 0 {
        start
    } else {
        state_after(start, events.drop_last()).step(events.last()).0
    }
}

/// The action that answers the last of `events`.
pub open spec fn last_action(
    start: MultipartView,
    events: Seq<UploadEventView>,
) -> UploadActionView
    recommends
        events.len() > 0,
{
    state_after(start, events.drop_last()).step(events.last()).1
}

/// Whether `event` reports, in `state`, that the part in flight was stored,
/// with its tag.
pub open spec fn stores_part(state: MultipartView, event: UploadEventView) -> bool {
    &&& state.phase == MultipartPhase::Sending
    &&& event matches UploadEventView::PartStored(Some(tag))
    &&& tag.len() > 0
}

/// Whether the last of `events` reports that the part in flight was
/// stored, with its tag.
pub open spec fn part_stored(start: MultipartView, events: Seq<UploadEventView>) -> bool
    recommends
        events.len() > 0,
{
    stores_part(state_after(start, events.drop_last()), events.last())
}

/// The bytes that the store has taken during `events`: the bodies of the
/// parts that it stored, one after the other.
pub open spec fn stored_bytes(start: MultipartView, events: Seq<UploadEventView>) -> Seq<u8>
    decreases events.len(),
{
    if events.len() == 0 {
        Seq::empty()
    } else if part_stored(start, events) {
        stored_bytes(start, events.drop_last()) + state_after(start, events.drop_last()).chunk
    } else {
        stored_bytes(start, events.drop_last())
    }
}

/// How many of the actions that answered `events` ask for the session to
/// be aborted.
pub open spec fn aborts(start: MultipartView, events: Seq<UploadEventView>) -> nat
    decreases events.len(),
{
    if events.len() == 0 {
        0
    } else if last_action(start, events).aborts() {
        aborts(start, events.drop_last()) + 1
    } else {
        aborts(start, events.drop_last())
    }
}

/// How many of the actions that answered `events` ask for the parts to be
/// assembled.
pub open spec fn completions(start: MultipartView, events: Seq<UploadEventView>) -> nat
    decreases events.len(),
{
    if events.len() == 0 {
        0
    } else if last_action(start, events) is CompleteSession {
        completions(start, events.drop_last()) + 1
    } else {
        completions(start, events.drop_last())
    }
}

/// Whether, during `events`, the store refused a part that was in flight.
pub open spec fn part_refused(start: MultipartView, events: Seq<UploadEventView>) -> bool
    decreases events.len(),
{
    events.len() > 0 && (part_refused(start, events.drop_last()) || (state_after(
        start,
        events.drop_last(),
    ).phase == MultipartPhase::Sending && events.last() is PartRefused))
}

/// Whether, during `events`, the store took a part that was in flight
/// and gave no tag for it.
pub open spec fn part_untagged(start: MultipartView, events: Seq<UploadEventView>) -> bool
    decreases events.len(),
{
    events.len() > 0 && (part_untagged(start, events.drop_last()) || (state_after(
        start,
        events.drop_last(),
    ).phase == MultipartPhase::Sending && events.last() is PartStored && !stores_part(
        state_after(start, events.drop_last()),
        events.last(),
    )))
}

/// Whether `event`, if it answers a read in `state`, is what reading the
/// file `data` gives there: the bytes that follow those already read, and
/// none only at the end of the file.
pub open spec fn reads_file(state: MultipartView, event: UploadEventView, data: Seq<u8>) -> bool {
    (state.phase == MultipartPhase::Reading && event is Data) ==> {
        let bytes = event->Data_0;
        let position = state.bytes_read() as int;
        &&& position + bytes.len() <= data.len()
        &&& bytes == data.subrange(position, position + bytes.len())
        &&& bytes.len() == 0 ==> position == data.len()
    }
}

/// Whether every read during `events` gave what reading the file `data`
/// gives.
pub open spec fn reads_file_throughout(
    start: MultipartView,
    events: Seq<UploadEventView>,
    data: Seq<u8>,
) -> bool
    decreases events.len(),
{
    events.len() == 0 || (reads_file_throughout(start, events.drop_last(), data) && reads_file(
        state_after(start, events.drop_last()),
        events.last(),
        data,
    ))
}

/// The least number of parts of `part_size` bytes that hold `size` bytes.
pub open spec fn parts_needed(size: nat, part_size: nat) -> nat {
    ((size + part_size - 1) / (part_size as int)) as nat
}

/// Every stored part is full.
pub open spec fn all_parts_full(state: MultipartView) -> bool {
    state.session.parts.len() * state.part_size == state.session.offset
}

/// Every stored part but the last is full, and the last is short.
pub open spec fn last_part_short(state: MultipartView) -> bool {
    &&& state.session.parts.len() >= 1
    &&& (state.session.parts.len() - 1) * state.part_size < state.session.offset
    &&& state.session.offset < state.session.parts.len() * state.part_size
}

/// What holds between an upload under way, the bytes `stored` so far, and
/// the file `data` that it reads.
pub open spec fn follows_file(state: MultipartView, stored: Seq<u8>, data: Seq<u8>) -> bool {
    &&& state.wf()
    &&& state.phase != MultipartPhase::Done ==> {
        &&& stored.len() == state.session.offset
        &&& state.bytes_read() <= data.len()
        &&& stored + state.chunk == data.subrange(0, state.bytes_read() as int)
        &&& all_parts_full(state) || (state.session.offset == data.len() && last_part_short(
            state,
        ))
        &&& state.chunk.len() > 0 ==> all_parts_full(state)
        &&& (state.phase == MultipartPhase::Sending && state.chunk.len() < state.part_size)
            ==> state.bytes_read() == data.len()
        &&& (state.phase == MultipartPhase::Completing || state.phase
            == MultipartPhase::Aborting) ==> state.session.offset == data.len()
    }
}

proof fn lemma_next_multiple(n: nat, p: nat)
    ensures
        (n + 1) * p == n * p + p,
{
    assert((n + 1) * p == n * p + p) by (nonlinear_arith);
}

proof fn lemma_step_follows_file(
    state: MultipartView,
    stored: Seq<u8>,
    data: Seq<u8>,
    event: UploadEventView,
)
    requires
        follows_file(state, stored, data),
        reads_file(state, event, data),
    ensures
        follows_file(
            state.step(event).0,
            if stores_part(state, event) {
                stored + state.chunk
            } else {
                stored
            },
            data,
        ),
{
    lemma_step_keeps_wf(state, event);
    let next = state.step(event).0;
    let n = state.session.parts.len();
    let p = state.part_size;
    match state.phase {
        MultipartPhase::Creating => {},
        MultipartPhase::Opening => {},
        MultipartPhase::Reading => {
            if event is Data {
                let bytes = event->Data_0;
                if bytes.len() > 0 && bytes.len() <= p - state.chunk.len() {
                    let position = state.bytes_read() as int;
                    assert(stored + (state.chunk + bytes) =~= data.subrange(
                        0,
                        position + bytes.len(),
                    )) by {
                        assert(stored + state.chunk == data.subrange(0, position));
                        assert(bytes == data.subrange(position, position + bytes.len()));
                        assert forall|i: int| 0 <= i < position + bytes.len() implies (stored + (
                        state.chunk + bytes))[i] == data[i] by {
                            if i < position {
                                assert((stored + state.chunk)[i] == data.subrange(0, position)[i]);
                            } else {
                                assert(bytes[i - position] == data.subrange(
                                    position,
                                    position + bytes.len(),
                                )[i - position]);
                            }
                        }
                    }
                }
            }
        },
        MultipartPhase::Sending => {
            if stores_part(state, event) {
                lemma_next_multiple(n, p);
                assert((stored + state.chunk) + Seq::<u8>::empty() =~= stored + state.chunk);
                assert(next.session.parts.len() == n + 1);
            }
        },
        MultipartPhase::Completing => {},
        MultipartPhase::Aborting => {},
        MultipartPhase::Done => {},
    }
}

proof fn lemma_run_follows_file(
    start: MultipartView,
    events: Seq<UploadEventView>,
    data: Seq<u8>,
)
    requires
        start.wf(),
        start.phase == MultipartPhase::Creating,
        start.session.parts.len() == 0,
        start.session.offset == 0,
        reads_file_throughout(start, events, data),
    ensures
        follows_file(state_after(start, events), stored_bytes(start, events), data),
    decreases events.len(),
{
    if events.len() == 0 {
        assert(Seq::<u8>::empty() + start.chunk =~= data.subrange(0, 0));
        assert(0 * start.part_size == 0) by (nonlinear_arith);
    } else {
        lemma_run_follows_file(start, events.drop_last(), data);
        lemma_step_follows_file(
            state_after(start, events.drop_last()),
            stored_bytes(start, events.drop_last()),
            data,
            events.last(),
        );
    }
}

proof fn lemma_parts_needed(size: nat, part_size: nat, count: nat)
    requires
        part_size > 0,
        count >= 1,
        (count - 1) * part_size < size,
        size <= count * part_size,
    ensures
        parts_needed(size, part_size) == count,
{
    let total = size + part_size - 1;
    assert(count * part_size <= total < (count + 1) * part_size) by (nonlinear_arith)
        requires
            part_size > 0,
            count >= 1,
            (count - 1) * part_size < size,
            size <= count * part_size,
            total == size + part_size - 1,
    ;
    vstd::arithmetic::div_mod::lemma_div_multiples_vanish_fancy(
        count as int,
        total - count * part_size,
        part_size as int,
    );
    assert(count * part_size + (total - count * part_size) == total);
}

/// A chunked upload that read the file `data` and ended well has stored
/// as many parts as the file needs, numbered 1, 2, 3, ... without a gap;
/// the bytes that the store took are the file's, in order; and the bytes
/// counted, by the session and by the progress tracker, are as many as
/// the file holds.
pub proof fn lemma_chunked_upload_covers_file(
    start: MultipartView,
    events: Seq<UploadEventView>,
    data: Seq<u8>,
)
    requires
        start.wf(),
        start.phase == MultipartPhase::Creating,
        start.session.parts.len() == 0,
        start.session.offset == 0,
        events.len() > 0,
        reads_file_throughout(start, events, data),
        last_action(start, events) matches UploadActionView::Finish(Ok(_)),
    ensures
        ({
            let end = state_after(start, events);
            &&& end.session.parts.len() == parts_needed(data.len(), start.part_size)
            &&& forall|i: int|
                0 <= i < end.session.parts.len() ==> (#[trigger] end.session.parts[i]).part_number
                    == i + 1
            &&& stored_bytes(start, events) == data
            &&& end.session.offset == data.len()
            &&& end.tracker.bytes_uploaded == data.len()
        }),
{
    let before = state_after(start, events.drop_last());
    let stored = stored_bytes(start, events.drop_last());
    lemma_run_follows_file(start, events.drop_last(), data);
    lemma_part_size_is_kept(start, events.drop_last());
    lemma_step_keeps_wf(before, events.last());
    assert(before.phase == MultipartPhase::Completing);
    let end = state_after(start, events);
    assert(end.session == before.session);
    assert(stored_bytes(start, events) == stored);
    assert(stored =~= data) by {
        assert(stored + before.chunk == data.subrange(0, before.bytes_read() as int));
        assert(before.chunk.len() == 0);
        assert(stored + before.chunk =~= stored);
        assert(data.subrange(0, data.len() as int) =~= data);
    }
    let n = before.session.parts.len();
    let p = before.part_size;
    if all_parts_full(before) {
        lemma_next_multiple((n - 1) as nat, p);
    }
    lemma_parts_needed(data.len(), p, n);
}

/// The part size does not change during a run.
pub proof fn lemma_part_size_is_kept(start: MultipartView, events: Seq<UploadEventView>)
    ensures
        state_after(start, events).part_size == start.part_size,
    decreases events.len(),
{
    if events.len() > 0 {
        lemma_part_size_is_kept(start, events.drop_last());
    }
}

/// What holds between an upload under way and the count of what it has
/// asked the store for.
spec fn counts_agree(state: MultipartView, refused: bool, aborted: nat, completed: nat) -> bool {
    &&& refused ==> state.phase == MultipartPhase::Done && aborted == 1 && completed == 0
    &&& (!refused && (state.phase == MultipartPhase::Creating || state.phase
        == MultipartPhase::Opening || state.phase == MultipartPhase::Reading || state.phase
        == MultipartPhase::Sending)) ==> aborted == 0 && completed == 0
}

proof fn lemma_run_counts_agree(start: MultipartView, events: Seq<UploadEventView>)
    requires
        start.phase == MultipartPhase::Creating,
    ensures
        counts_agree(
            state_after(start, events),
            part_refused(start, events) || part_untagged(start, events),
            aborts(start, events),
            completions(start, events),
        ),
    decreases events.len(),
{
    if events.len() > 0 {
        lemma_run_counts_agree(start, events.drop_last());
    }
}

/// When the store refuses a part, the session is aborted exactly once and
/// the store is never asked to assemble the parts: not before the refusal,
/// and not after it, whatever else the upload is told.
pub proof fn lemma_refused_part_aborts_once(start: MultipartView, events: Seq<UploadEventView>)
    requires
        start.phase == MultipartPhase::Creating,
        part_refused(start, events),
    ensures
        aborts(start, events) == 1,
        completions(start, events) == 0,
        state_after(start, events).phase == MultipartPhase::Done,
{
    lemma_run_counts_agree(start, events);
}

/// When the store takes a part and gives no tag for it, the session is
/// aborted exactly once and the store is never asked to assemble the
/// parts.
pub proof fn lemma_untagged_part_aborts_once(start: MultipartView, events: Seq<UploadEventView>)
    requires
        start.phase == MultipartPhase::Creating,
        part_untagged(start, events),
    ensures
        aborts(start, events) == 1,
        completions(start, events) == 0,
        state_after(start, events).phase == MultipartPhase::Done,
{
    lemma_run_counts_agree(start, events);
}

/// Whether, during `events`, the store opened the session and named it.
pub open spec fn session_opened(start: MultipartView, events: Seq<UploadEventView>) -> bool
    decreases events.len(),
{
    events.len() > 0 && (session_opened(start, events.drop_last()) || (state_after(
        start,
        events.drop_last(),
    ).phase == MultipartPhase::Creating && events.last() matches UploadEventView::SessionCreated(
        Some(_),
    )))
}

/// Whether, during `events`, the upload ended well.
pub open spec fn succeeded(start: MultipartView, events: Seq<UploadEventView>) -> bool
    decreases events.len(),
{
    events.len() > 0 && (succeeded(start, events.drop_last()) || last_action(
        start,
        events,
    ) matches UploadActionView::Finish(Ok(_)))
}

/// What holds between an upload under way, whether its session was opened,
/// whether it ended well, and how often it asked for the abort.
spec fn ends_agree(state: MultipartView, opened: bool, succeeded: bool, aborted: nat) -> bool {
    &&& !opened ==> aborted == 0 && !succeeded && (state.phase == MultipartPhase::Creating
        || state.phase == MultipartPhase::Done)
    &&& opened ==> match state.phase {
        MultipartPhase::Creating => false,
        MultipartPhase::Aborting => aborted == 1 && !succeeded,
        MultipartPhase::Done => (succeeded && aborted == 0) || (!succeeded && aborted == 1),
        _ => aborted == 0 && !succeeded,
    }
}

proof fn lemma_run_ends_agree(start: MultipartView, events: Seq<UploadEventView>)
    requires
        start.phase == MultipartPhase::Creating,
    ensures
        ends_agree(
            state_after(start, events),
            session_opened(start, events),
            succeeded(start, events),
            aborts(start, events),
        ),
    decreases events.len(),
{
    if events.len() > 0 {
        lemma_run_ends_agree(start, events.drop_last());
    }
}

/// An upload that fails after the store has opened its session asks for
/// the abort of that session exactly once, whatever made it fail; an upload
/// that ends well never asks for it, and neither does one whose session
/// was never opened. No session is left open by an upload that is done.
pub proof fn lemma_failed_upload_aborts_once(start: MultipartView, events: Seq<UploadEventView>)
    requires
        start.phase == MultipartPhase::Creating,
        state_after(start, events).phase == MultipartPhase::Done,
    ensures
        session_opened(start, events) && !succeeded(start, events) ==> aborts(start, events) == 1,
        succeeded(start, events) ==> session_opened(start, events) && aborts(start, events) == 0,
        !session_opened(start, events) ==> aborts(start, events) == 0,
{
    lemma_run_ends_agree(start, events);
}

/// The action that waits for its answer after `events`: at first the
/// request for a session, then the action that answered the last event.
pub open spec fn pending_action(
    start: MultipartView,
    events: Seq<UploadEventView>,
) -> UploadActionView {
    if events.len() == 0 {
        UploadActionView::CreateSession
    } else {
        last_action(start, events)
    }
}

/// Whether `event` is what a willing store and a readable file answer to
/// `action`: the session is opened and named, the file is opened, a read
/// returns no more than was asked for, a part is stored and tagged, the
/// parts are assembled.
pub open spec fn accepts(action: UploadActionView, event: UploadEventView) -> bool {
    match action {
        UploadActionView::CreateSession => event matches UploadEventView::SessionCreated(Some(_)),
        UploadActionView::OpenSource => event is SourceOpened,
        UploadActionView::Read { max } => event is Data && event->Data_0.len() <= max,
        UploadActionView::UploadPart { .. } => event is PartStored && event->PartStored_0 is Some
            && event->PartStored_0->0.len() > 0,
        UploadActionView::CompleteSession { .. } => event is SessionCompleted,
        _ => false,
    }
}

/// Whether every one of `events` is what a willing store and a readable
/// file answer to the action that waited for it.
pub open spec fn accepted_throughout(start: MultipartView, events: Seq<UploadEventView>) -> bool
    decreases events.len(),
{
    events.len() == 0 || (accepted_throughout(start, events.drop_last()) && accepts(
        pending_action(start, events.drop_last()),
        events.last(),
    ))
}

/// An upper bound on the events that an upload of the file `data` still
/// takes from `state`, if all goes well: three for every byte not yet read,
/// and a few more by the phase.
pub open spec fn effort_left(state: MultipartView, data: Seq<u8>) -> int {
    let unread = data.len() - state.bytes_read();
    match state.phase {
        MultipartPhase::Creating => 3 * unread + 4,
        MultipartPhase::Opening => 3 * unread + 3,
        MultipartPhase::Reading => 3 * unread + 2 + if state.chunk.len() > 0 {
            2int
        } else {
            0int
        },
        MultipartPhase::Sending => 3 * unread + 3,
        MultipartPhase::Completing => 1,
        MultipartPhase::Aborting => 0,
        MultipartPhase::Done => 0,
    }
}

/// Whether `action` is the request that an upload in `state` waits to
/// have answered while all goes well, or, for an upload that is done, the
/// report of its success at `location`.
pub open spec fn on_course(
    state: MultipartView,
    action: UploadActionView,
    location: Seq<char>,
) -> bool {
    match state.phase {
        MultipartPhase::Creating => action is CreateSession,
        MultipartPhase::Opening => action is OpenSource,
        MultipartPhase::Reading => action == (UploadActionView::Read {
            max: (state.part_size - state.chunk.len()) as nat,
        }),
        MultipartPhase::Sending => action is UploadPart,
        MultipartPhase::Completing => action is CompleteSession,
        MultipartPhase::Aborting => false,
        MultipartPhase::Done => action == UploadActionView::Finish(
            Ok::<Seq<char>, ErrorView>(location),
        ),
    }
}

proof fn lemma_parts_fit(count: nat, part_size: nat, size: nat)
    requires
        part_size > 0,
        count * part_size < size,
    ensures
        count < parts_needed(size, part_size),
{
    let total = (size + part_size - 1) as int;
    let needed = total / (part_size as int);
    vstd::arithmetic::div_mod::lemma_fundamental_div_mod(total, part_size as int);
    vstd::arithmetic::div_mod::lemma_mod_pos_bound(total, part_size as int);
    assert(count < needed) by (nonlinear_arith)
        requires
            part_size > 0,
            count * part_size < size,
            total == size + part_size - 1,
            total == part_size * needed + total % (part_size as int),
            0 <= total % (part_size as int) < part_size,
    {
        if count >= needed {
            assert(count * part_size >= needed * part_size);
        }
    }
}

proof fn lemma_accepted_step(
    state: MultipartView,
    action: UploadActionView,
    stored: Seq<u8>,
    data: Seq<u8>,
    event: UploadEventView,
    location: Seq<char>,
)
    requires
        follows_file(state, stored, data),
        on_course(state, action, location),
        state.location() == location,
        state.phase != MultipartPhase::Done,
        accepts(action, event),
        reads_file(state, event, data),
        0 < data.len() <= u64::MAX,
        parts_needed(data.len(), state.part_size) <= i32::MAX,
    ensures
        on_course(state.step(event).0, state.step(event).1, location),
        state.step(event).0.location() == location,
        state.step(event).0.part_size == state.part_size,
        effort_left(state.step(event).0, data) < effort_left(state, data),
        0 <= effort_left(state.step(event).0, data),
{
    let p = state.part_size;
    let n = state.session.parts.len();
    match state.phase {
        MultipartPhase::Reading => {
            let bytes = event->Data_0;
            if bytes.len() == 0 {
                if state.chunk.len() > 0 {
                    lemma_parts_fit(n, p, data.len());
                } else {
                    assert(n > 0) by {
                        if all_parts_full(state) {
                            assert(n * p == state.session.offset);
                            if n == 0 {
                                assert(0 * p == 0) by (nonlinear_arith);
                            }
                        }
                    }
                }
            } else {
                assert(all_parts_full(state));
                if state.chunk.len() + bytes.len() == p {
                    lemma_parts_fit(n, p, data.len());
                }
            }
        },
        _ => {},
    }
}

/// With a store that accepts every request and a file that can be read,
/// a chunked upload ends well. However the bytes of the file `data` are
/// dealt out over the reads, as long as every event is such an answer: the
/// upload asks for no abort and reports no failure; what it asks for next
/// is a request that such a store can answer, until it is done; it is done
/// after no more events than [`effort_left`] counts at the start; and when
/// it is done, its last action reports success at the object's location.
/// The file must hold a byte, and no more parts than can be numbered.
pub proof fn lemma_accepting_store_ends_well(
    start: MultipartView,
    events: Seq<UploadEventView>,
    data: Seq<u8>,
)
    requires
        start.wf(),
        start.phase == MultipartPhase::Creating,
        start.session.parts.len() == 0,
        start.session.offset == 0,
        0 < data.len() <= u64::MAX,
        parts_needed(data.len(), start.part_size) <= i32::MAX,
        accepted_throughout(start, events),
        reads_file_throughout(start, events, data),
    ensures
        on_course(state_after(start, events), pending_action(start, events), start.location()),
        events.len() + effort_left(state_after(start, events), data) <= effort_left(start, data),
        0 <= effort_left(state_after(start, events), data),
        aborts(start, events) == 0,
        !part_refused(start, events),
        state_after(start, events).phase == MultipartPhase::Done <==> pending_action(
            start,
            events,
        ) == UploadActionView::Finish(Ok::<Seq<char>, ErrorView>(start.location())),
    decreases events.len(),
{
    if events.len() > 0 {
        let earlier = events.drop_last();
        lemma_accepting_store_ends_well(start, earlier, data);
        lemma_run_follows_file(start, earlier, data);
        lemma_part_size_is_kept(start, earlier);
        lemma_location_is_kept(start, earlier);
        let state = state_after(start, earlier);
        let action = pending_action(start, earlier);
        lemma_accepted_step(
            state,
            action,
            stored_bytes(start, earlier),
            data,
            events.last(),
            start.location(),
        );
    }
}

/// The object's location does not change during a run.
pub proof fn lemma_location_is_kept(start: MultipartView, events: Seq<UploadEventView>)
    ensures
        state_after(start, events).location() == start.location(),
    decreases events.len(),
{
    if events.len() > 0 {
        lemma_location_is_kept(start, events.drop_last());
    }
}

/// What a willing store and a readable file answer to `action`: the whole
/// of what a read asked for, as far as the file `data` goes.
pub open spec fn willing_answer(
    state: MultipartView,
    action: UploadActionView,
    data: Seq<u8>,
) -> UploadEventView {
    match action {
        UploadActionView::CreateSession => UploadEventView::SessionCreated(Some(seq!['s'])),
        UploadActionView::OpenSource => UploadEventView::SourceOpened,
        UploadActionView::Read { max } => {
            let from = state.bytes_read() as int;
            let to = if from + max <= data.len() {
                from + max
            } else {
                data.len() as int
            };
            UploadEventView::Data(data.subrange(from, to))
        },
        UploadActionView::UploadPart { .. } => UploadEventView::PartStored(Some(seq!['t'])),
        _ => UploadEventView::SessionCompleted,
    }
}

/// An upload that is on course and not done can go on: there is an answer
/// that a willing store and a readable file give to what it asks for.
pub proof fn lemma_upload_can_go_on(
    state: MultipartView,
    action: UploadActionView,
    stored: Seq<u8>,
    data: Seq<u8>,
    location: Seq<char>,
)
    requires
        follows_file(state, stored, data),
        on_course(state, action, location),
        state.phase != MultipartPhase::Done,
    ensures
        accepts(action, willing_answer(state, action, data)),
        reads_file(state, willing_answer(state, action, data), data),
{
}

proof fn lemma_run_goes_on_to_the_end(
    start: MultipartView,
    events: Seq<UploadEventView>,
    data: Seq<u8>,
) -> (whole: Seq<UploadEventView>)
    requires
        start.wf(),
        start.phase == MultipartPhase::Creating,
        start.session.parts.len() == 0,
        start.session.offset == 0,
        0 < data.len() <= u64::MAX,
        parts_needed(data.len(), start.part_size) <= i32::MAX,
        accepted_throughout(start, events),
        reads_file_throughout(start, events, data),
        state_after(start, events).phase != MultipartPhase::Done,
    ensures
        whole.len() > 0,
        accepted_throughout(start, whole),
        reads_file_throughout(start, whole, data),
        last_action(start, whole) == UploadActionView::Finish(
            Ok::<Seq<char>, ErrorView>(start.location()),
        ),
    decreases effort_left(state_after(start, events), data),
{
    lemma_accepting_store_ends_well(start, events, data);
    lemma_run_follows_file(start, events, data);
    lemma_part_size_is_kept(start, events);
    lemma_location_is_kept(start, events);
    let state = state_after(start, events);
    let action = pending_action(start, events);
    let stored = stored_bytes(start, events);
    let event = willing_answer(state, action, data);
    lemma_upload_can_go_on(state, action, stored, data, start.location());
    lemma_accepted_step(state, action, stored, data, event, start.location());
    let longer = events.push(event);
    assert(longer.drop_last() =~= events);
    assert(longer.last() == event);
    assert(accepted_throughout(start, longer));
    assert(reads_file_throughout(start, longer, data));
    assert(state_after(start, longer) == state.step(event).0);
    lemma_accepting_store_ends_well(start, longer, data);
    if state_after(start, longer).phase == MultipartPhase::Done {
        longer
    } else {
        lemma_run_goes_on_to_the_end(start, longer, data)
    }
}

/// There is a run in which the upload of the file `data` ends well: the
/// one in which the store accepts every request and every read returns
/// all that was asked for, as far as the file goes.
pub proof fn lemma_willing_run_ends_well(start: MultipartView, data: Seq<u8>) -> (whole: Seq<
    UploadEventView,
>)
    requires
        start.wf(),
        start.phase == MultipartPhase::Creating,
        start.session.parts.len() == 0,
        start.session.offset == 0,
        0 < data.len() <= u64::MAX,
        parts_needed(data.len(), start.part_size) <= i32::MAX,
    ensures
        whole.len() > 0,
        accepted_throughout(start, whole),
        reads_file_throughout(start, whole, data),
        last_action(start, whole) == UploadActionView::Finish(
            Ok::<Seq<char>, ErrorView>(start.location()),
        ),
{
    lemma_run_goes_on_to_the_end(start, Seq::empty(), data)
}

} // verus!
