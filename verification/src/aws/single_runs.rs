//! Whole runs of the single-request upload: what a series of events leads
//! to.

use crate::aws::s3::{UploadActionView, UploadEventView};
use crate::aws::single::{
    lemma_simple_step_keeps_wf, SimplePhase, SimpleView, READ_CHUNK_SIZE,
    SMALL_FILE_PAUSE_MILLIS,
};
use crate::error::ErrorView;
use vstd::prelude::*;

verus! {

/// The state that `start` has come to after `events`, in order.
pub open spec fn state_after(start: SimpleView, events: Seq<UploadEventView>) -> SimpleView
    decreases events.len(),
{
    if events.len() == 0 {
        start
    } else {
        state_after(start, events.drop_last()).step(events.last()).0
    }
}

/// The action that answers the last of `events`.
pub open spec fn last_action(start: SimpleView, events: Seq<UploadEventView>) -> UploadActionView
    recommends
        events.len() > 0,
{
    state_after(start, events.drop_last()).step(events.last()).1
}

/// The bodies of the requests to store the object that were made during
/// `events`, in order.
pub open spec fn put_bodies(start: SimpleView, events: Seq<UploadEventView>) -> Seq<Seq<u8>>
    decreases events.len(),
{
    if events.len() == 0 {
        Seq::empty()
    } else if last_action(start, events) is PutObject {
        put_bodies(start, events.drop_last()).push(last_action(start, events)->PutObject_body)
    } else {
        put_bodies(start, events.drop_last())
    }
}

/// Whether `event`, if it answers a read in `state`, is what reading the
/// file `data` gives there: the bytes that follow those already read, and
/// none only at the end of the file.
pub open spec fn reads_file(state: SimpleView, event: UploadEventView, data: Seq<u8>) -> bool {
    (state.phase == SimplePhase::Reading && event is Data) ==> {
        let bytes = event->Data_0;
        let position = state.buffer.len() as int;
        &&& position + bytes.len() <= data.len()
        &&& bytes == data.subrange(position, position + bytes.len())
        &&& bytes.len() == 0 ==> position == data.len()
    }
}

/// Whether every read during `events` gave what reading the file `data`
/// gives.
pub open spec fn reads_file_throughout(
    start: SimpleView,
    events: Seq<UploadEventView>,
    data: Seq<u8>,
) -> bool
    decreases events.len(),
{
    events.len() == 0 || (reads_file_throughout(start, events.drop_last(), data) && reads_file(
        state_after(start, events.drop_last()),
        events.last(),
        data,
    ))
}

/// What holds between an upload under way, the requests `puts` made so
/// far, and the file `data` that it reads.
pub open spec fn follows_file(state: SimpleView, puts: Seq<Seq<u8>>, data: Seq<u8>) -> bool {
    &&& state.wf()
    &&& state.collecting() ==> {
        &&& state.buffer.len() <= data.len()
        &&& state.buffer == data.subrange(0, state.buffer.len() as int)
        &&& puts.len() == 0
    }
    &&& state.phase == SimplePhase::Storing ==> {
        &&& state.tracker.bytes_uploaded == data.len()
        &&& puts == seq![data]
    }
}

proof fn lemma_run_follows_file(start: SimpleView, events: Seq<UploadEventView>, data: Seq<u8>)
    requires
        start.wf(),
        start.phase == SimplePhase::Opening,
        start.buffer.len() == 0,
        reads_file_throughout(start, events, data),
    ensures
        follows_file(state_after(start, events), put_bodies(start, events), data),
    decreases events.len(),
{
    if events.len() == 0 {
        assert(start.buffer =~= data.subrange(0, 0));
    } else {
        let earlier = events.drop_last();
        let state = state_after(start, earlier);
        let event = events.last();
        lemma_run_follows_file(start, earlier, data);
        lemma_simple_step_keeps_wf(state, event);
        if state.phase == SimplePhase::Reading && event is Data {
            let bytes = event->Data_0;
            let position = state.buffer.len() as int;
            if bytes.len() == 0 {
                assert(state.buffer =~= data);
                assert(put_bodies(start, events) =~= seq![data]);
            } else {
                assert(state.buffer + bytes =~= data.subrange(0, position + bytes.len())) by {
                    assert(bytes == data.subrange(position, position + bytes.len()));
                    assert forall|i: int| 0 <= i < position + bytes.len() implies (state.buffer
                        + bytes)[i] == data[i] by {
                        if i < position {
                            assert(state.buffer[i] == data.subrange(0, position)[i]);
                        } else {
                            assert(bytes[i - position] == data.subrange(
                                position,
                                position + bytes.len(),
                            )[i - position]);
                        }
                    }
                }
            }
        }
    }
}

/// A single-request upload that read the file `data` and ended well has
/// asked the store exactly once to take the object, with the file's bytes
/// as its body; and the bytes counted by the progress tracker are as many
/// as the file holds.
pub proof fn lemma_simple_upload_covers_file(
    start: SimpleView,
    events: Seq<UploadEventView>,
    data: Seq<u8>,
)
    requires
        start.wf(),
        start.phase == SimplePhase::Opening,
        start.buffer.len() == 0,
        events.len() > 0,
        reads_file_throughout(start, events, data),
        last_action(start, events) matches UploadActionView::Finish(Ok(_)),
    ensures
        put_bodies(start, events) == seq![data],
        state_after(start, events).tracker.bytes_uploaded == data.len(),
{
    lemma_run_follows_file(start, events.drop_last(), data);
}

/// The action that waits for its answer after `events`: at first the
/// request to open the file, then the action that answered the last event.
pub open spec fn pending_action(start: SimpleView, events: Seq<UploadEventView>) -> UploadActionView {
    if events.len() == 0 {
        UploadActionView::OpenSource
    } else {
        last_action(start, events)
    }
}

/// Whether `event` is what a willing store and a readable file answer to
/// `action`: the file is opened, a read returns no more than was asked
/// for, a pause ends, the object is stored.
pub open spec fn accepts(action: UploadActionView, event: UploadEventView) -> bool {
    match action {
        UploadActionView::OpenSource => event is SourceOpened,
        UploadActionView::Read { max } => event is Data && event->Data_0.len() <= max,
        UploadActionView::Pause { .. } => event is PauseElapsed,
        UploadActionView::PutObject { .. } => event is ObjectStored,
        _ => false,
    }
}

/// Whether every one of `events` is what a willing store and a readable
/// file answer to the action that waited for it.
pub open spec fn accepted_throughout(start: SimpleView, events: Seq<UploadEventView>) -> bool
    decreases events.len(),
{
    events.len() == 0 || (accepted_throughout(start, events.drop_last()) && accepts(
        pending_action(start, events.drop_last()),
        events.last(),
    ))
}

/// An upper bound on the events that an upload of the file `data` still
/// takes from `state`, if all goes well: two for every byte not yet read,
/// and a few more by the phase.
pub open spec fn effort_left(state: SimpleView, data: Seq<u8>) -> int {
    let unread = data.len() - state.buffer.len();
    match state.phase {
        SimplePhase::Opening => 2 * unread + 3,
        SimplePhase::Reading => 2 * unread + 2,
        SimplePhase::Pausing => 2 * unread + 3,
        SimplePhase::Storing => 1,
        SimplePhase::Done => 0,
    }
}

/// Whether `action` is the request that an upload in `state` waits to
/// have answered while all goes well, or, for an upload that is done, the
/// report of its success at `location`.
pub open spec fn on_course(
    state: SimpleView,
    action: UploadActionView,
    data: Seq<u8>,
    location: Seq<char>,
) -> bool {
    match state.phase {
        SimplePhase::Opening => action is OpenSource,
        SimplePhase::Reading => action == (UploadActionView::Read { max: READ_CHUNK_SIZE as nat }),
        SimplePhase::Pausing => action == (UploadActionView::Pause {
            millis: SMALL_FILE_PAUSE_MILLIS as nat,
        }),
        SimplePhase::Storing => action == (UploadActionView::PutObject { body: data }),
        SimplePhase::Done => action == UploadActionView::Finish(
            Ok::<Seq<char>, ErrorView>(location),
        ),
    }
}

proof fn lemma_accepted_step(
    state: SimpleView,
    action: UploadActionView,
    puts: Seq<Seq<u8>>,
    data: Seq<u8>,
    event: UploadEventView,
    location: Seq<char>,
)
    requires
        follows_file(state, puts, data),
        on_course(state, action, data, location),
        state.location() == location,
        state.phase != SimplePhase::Done,
        accepts(action, event),
        reads_file(state, event, data),
        data.len() <= usize::MAX,
    ensures
        on_course(state.step(event).0, state.step(event).1, data, location),
        state.step(event).0.location() == location,
        effort_left(state.step(event).0, data) < effort_left(state, data),
        0 <= effort_left(state.step(event).0, data),
{
    if state.phase == SimplePhase::Reading {
        let bytes = event->Data_0;
        if bytes.len() == 0 {
            assert(state.buffer =~= data);
        }
    }
}

/// The object's location does not change during a run.
pub proof fn lemma_location_is_kept(start: SimpleView, events: Seq<UploadEventView>)
    ensures
        state_after(start, events).location() == start.location(),
    decreases events.len(),
{
    if events.len() > 0 {
        lemma_location_is_kept(start, events.drop_last());
    }
}

/// With a store that takes the object and a file that can be read, a
/// single-request upload ends well. However the bytes of the file `data`
/// are dealt out over the reads, as long as every event is such an answer:
/// the upload reports no failure; what it asks for next is a request that
/// can be answered, until it is done; it is done after no more events than
/// [`effort_left`] counts at the start; and when it is done, its last
/// action reports success at the object's location. The file must fit in
/// memory.
pub proof fn lemma_accepting_store_ends_well(
    start: SimpleView,
    events: Seq<UploadEventView>,
    data: Seq<u8>,
)
    requires
        start.wf(),
        start.phase == SimplePhase::Opening,
        start.buffer.len() == 0,
        data.len() <= usize::MAX,
        accepted_throughout(start, events),
        reads_file_throughout(start, events, data),
    ensures
        on_course(
            state_after(start, events),
            pending_action(start, events),
            data,
            start.location(),
        ),
        events.len() + effort_left(state_after(start, events), data) <= effort_left(start, data),
        0 <= effort_left(state_after(start, events), data),
        state_after(start, events).phase == SimplePhase::Done <==> pending_action(start, events)
            == UploadActionView::Finish(Ok::<Seq<char>, ErrorView>(start.location())),
    decreases events.len(),
{
    if events.len() > 0 {
        let earlier = events.drop_last();
        lemma_accepting_store_ends_well(start, earlier, data);
        lemma_run_follows_file(start, earlier, data);
        lemma_location_is_kept(start, earlier);
        lemma_accepted_step(
            state_after(start, earlier),
            pending_action(start, earlier),
            put_bodies(start, earlier),
            data,
            events.last(),
            start.location(),
        );
    }
}

/// What a willing store and a readable file answer to `action`: the whole
/// of what a read asked for, as far as the file `data` goes.
pub open spec fn willing_answer(
    state: SimpleView,
    action: UploadActionView,
    data: Seq<u8>,
) -> UploadEventView {
    match action {
        UploadActionView::OpenSource => UploadEventView::SourceOpened,
        UploadActionView::Read { max } => {
            let from = state.buffer.len() as int;
            let to = if from + max <= data.len() {
                from + max
            } else {
                data.len() as int
            };
            UploadEventView::Data(data.subrange(from, to))
        },
        UploadActionView::Pause { .. } => UploadEventView::PauseElapsed,
        _ => UploadEventView::ObjectStored,
    }
}

/// An upload that is on course and not done can go on: there is an answer
/// that a willing store and a readable file give to what it asks for.
pub proof fn lemma_upload_can_go_on(
    state: SimpleView,
    action: UploadActionView,
    puts: Seq<Seq<u8>>,
    data: Seq<u8>,
    location: Seq<char>,
)
    requires
        follows_file(state, puts, data),
        on_course(state, action, data, location),
        state.phase != SimplePhase::Done,
    ensures
        accepts(action, willing_answer(state, action, data)),
        reads_file(state, willing_answer(state, action, data), data),
{
}

proof fn lemma_run_goes_on_to_the_end(
    start: SimpleView,
    events: Seq<UploadEventView>,
    data: Seq<u8>,
) -> (whole: Seq<UploadEventView>)
    requires
        start.wf(),
        start.phase == SimplePhase::Opening,
        start.buffer.len() == 0,
        data.len() <= usize::MAX,
        accepted_throughout(start, events),
        reads_file_throughout(start, events, data),
        state_after(start, events).phase != SimplePhase::Done,
    ensures
        whole.len() > 0,
        accepted_throughout(start, whole),
        reads_file_throughout(start, whole, data),
        last_action(start, whole) == UploadActionView::Finish(
            Ok::<Seq<char>, ErrorView>(start.location()),
        ),
    decreases effort_left(state_after(start, events), data),
{
    lemma_accepting_store_ends_well(start, events, data);
    lemma_run_follows_file(start, events, data);
    lemma_location_is_kept(start, events);
    let state = state_after(start, events);
    let action = pending_action(start, events);
    let puts = put_bodies(start, events);
    let event = willing_answer(state, action, data);
    lemma_upload_can_go_on(state, action, puts, data, start.location());
    lemma_accepted_step(state, action, puts, data, event, start.location());
    let longer = events.push(event);
    assert(longer.drop_last() =~= events);
    assert(longer.last() == event);
    assert(accepted_throughout(start, longer));
    assert(reads_file_throughout(start, longer, data));
    assert(state_after(start, longer) == state.step(event).0);
    lemma_accepting_store_ends_well(start, longer, data);
    if state_after(start, longer).phase == SimplePhase::Done {
        longer
    } else {
        lemma_run_goes_on_to_the_end(start, longer, data)
    }
}

/// There is a run in which the upload of the file `data` ends well: the
/// one in which the store takes the object and every read returns all that
/// was asked for, as far as the file goes.
pub proof fn lemma_willing_run_ends_well(start: SimpleView, data: Seq<u8>) -> (whole: Seq<
    UploadEventView,
>)
    requires
        start.wf(),
        start.phase == SimplePhase::Opening,
        start.buffer.len() == 0,
        data.len() <= usize::MAX,
    ensures
        whole.len() > 0,
        accepted_throughout(start, whole),
        reads_file_throughout(start, whole, data),
        last_action(start, whole) == UploadActionView::Finish(
            Ok::<Seq<char>, ErrorView>(start.location()),
        ),
{
    lemma_run_goes_on_to_the_end(start, Seq::empty(), data)
}

} // verus!
