//! Whole runs of the poller: what a series of replies leads to.

use crate::aws::transcribe::{
    check_failed, timed_out, JobStatus, PollState, PollStepView, StatusReplyView, MAX_ATTEMPTS,
};
use crate::error::ErrorView;
use crate::models::StatusView;
use vstd::prelude::*;

verus! {

/// What polling has come to after a series of replies.
pub struct PollRun {
    /// The waits made, in seconds, in order.
    pub waits: Seq<u64>,
    /// The status checks made.
    pub attempts: nat,
    /// How polling ended, if it has.
    pub outcome: Option<Result<StatusView, ErrorView>>,
}

/// Polling from `state` on, where the checks are answered by `replies` in
/// order. Replies that come after polling has ended are not looked at.
pub open spec fn poll_run(state: PollState, replies: Seq<StatusReplyView>) -> PollRun
    decreases replies.len(),
{
    if replies.len() == 0 {
        PollRun { waits: Seq::empty(), attempts: 0, outcome: None }
    } else {
        match state.step(replies[0]) {
            PollStepView::Done(result) => PollRun {
                waits: Seq::empty(),
                attempts: 1,
                outcome: Some(result),
            },
            PollStepView::Wait { seconds, next } => {
                let rest = poll_run(next, replies.drop_first());
                PollRun {
                    waits: seq![seconds] + rest.waits,
                    attempts: rest.attempts + 1,
                    outcome: rest.outcome,
                }
            },
        }
    }
}

/// The wait after the `k`-th check of a job that is still running: 5, 10
/// and 20 seconds after the first three checks, 30 seconds after each
/// later one.
pub open spec fn backoff(k: nat) -> u64 {
    if k <= 1 {
        5
    } else if k == 2 {
        10
    } else if k == 3 {
        20
    } else {
        30
    }
}

/// The waits after the checks `from`, `from + 1`, ... of a job that is
/// still running, `count` of them.
pub open spec fn backoffs(from: nat, count: nat) -> Seq<u64> {
    Seq::new(count, |i: int| backoff((from + i) as nat))
}

/// A reply that shows the job still running.
pub open spec fn still_running(reply: StatusReplyView) -> bool {
    reply matches StatusReplyView::Job(report) && report.status == Some(JobStatus::InProgress)
}

/// The state before check `k` of a job that every earlier check found
/// running.
pub open spec fn state_before(k: nat) -> PollState {
    PollState { attempt: k as u32, interval: backoff(k) }
}

proof fn lemma_run_from(k: nat, replies: Seq<StatusReplyView>)
    requires
        1 <= k <= MAX_ATTEMPTS,
        forall|i: int| 0 <= i < replies.len() ==> still_running(#[trigger] replies[i]),
    ensures
        replies.len() <= MAX_ATTEMPTS - k ==> poll_run(state_before(k), replies) == (PollRun {
            waits: backoffs(k, replies.len()),
            attempts: replies.len(),
            outcome: None,
        }),
        replies.len() > MAX_ATTEMPTS - k ==> poll_run(state_before(k), replies) == (PollRun {
            waits: backoffs(k, (MAX_ATTEMPTS - k) as nat),
            attempts: (MAX_ATTEMPTS - k + 1) as nat,
            outcome: Some(Err(timed_out())),
        }),
    decreases replies.len(),
{
    let state = state_before(k);
    if replies.len() == 0 {
        assert(backoffs(k, 0) =~= Seq::<u64>::empty());
    } else {
        assert(still_running(replies[0]));
        if k < MAX_ATTEMPTS {
            let rest = replies.drop_first();
            assert forall|i: int| 0 <= i < rest.len() implies still_running(
                #[trigger] rest[i],
            ) by {
                assert(rest[i] == replies[i + 1]);
            }
            lemma_run_from(k + 1, rest);
            assert(state.step(replies[0]) == PollStepView::Wait {
                seconds: backoff(k),
                next: state_before(k + 1),
            });
            if replies.len() <= MAX_ATTEMPTS - k {
                assert(seq![backoff(k)] + backoffs(k + 1, rest.len()) =~= backoffs(
                    k,
                    replies.len(),
                ));
            } else {
                assert(seq![backoff(k)] + backoffs(k + 1, (MAX_ATTEMPTS - k - 1) as nat)
                    =~= backoffs(k, (MAX_ATTEMPTS - k) as nat));
            }
        } else {
            assert(state.step(replies[0]) == PollStepView::Done(Err(timed_out())));
            assert(backoffs(k, 0) =~= Seq::<u64>::empty());
        }
    }
}

/// A job that never leaves the running state is checked exactly 120
/// times, with waits of 5, 10, 20, 30, 30, ... seconds between the checks,
/// and polling then ends with the time-out error. Before the 120th reply,
/// polling has not ended.
pub proof fn lemma_backoff_until_timeout(replies: Seq<StatusReplyView>)
    requires
        forall|i: int| 0 <= i < replies.len() ==> still_running(#[trigger] replies[i]),
    ensures
        replies.len() < 120 ==> poll_run(PollState::initial(), replies) == (PollRun {
            waits: backoffs(1, replies.len()),
            attempts: replies.len(),
            outcome: None,
        }),
        replies.len() >= 120 ==> poll_run(PollState::initial(), replies) == (PollRun {
            waits: backoffs(1, 119),
            attempts: 120,
            outcome: Some(Err(timed_out())),
        }),
{
    assert(PollState::initial() == state_before(1));
    lemma_run_from(1, replies);
}

/// A reply that reports the job as failed ends polling with a result, not
/// an error: the failed status with the service's reason.
pub proof fn lemma_failed_job_is_a_result(state: PollState, reply: StatusReplyView)
    requires
        reply matches StatusReplyView::Job(report) && report.status == Some(JobStatus::Failed)
            && report.failure_reason is Some,
    ensures
        state.step(reply) == PollStepView::Done(
            Ok(StatusView::Failed(reply->Job_0.failure_reason->0)),
        ),
{
}

/// A reply that reports the job as completed without saying where the
/// transcript is ends polling with an error.
pub proof fn lemma_completed_needs_location(state: PollState, reply: StatusReplyView)
    requires
        reply matches StatusReplyView::Job(report) && report.status == Some(JobStatus::Completed)
            && report.transcript_uri is None,
    ensures
        state.step(reply) matches PollStepView::Done(Err(_)),
{
}

/// The time-out is a failure of its own kind. Polling ends with an error
/// of that kind exactly when the last check allowed found the job still
/// running; a failed status check, a job that is missing, of unknown state
/// or completed without a transcript each end it with an error of the
/// kind of the transcription service, and a failed job is no error at all.
pub proof fn lemma_time_out_is_its_own_kind(
    state: PollState,
    reply: StatusReplyView,
    why: Seq<char>,
)
    ensures
        timed_out() is Timeout,
        check_failed(why) is Transcribe,
        timed_out() != check_failed(why),
        (state.step(reply) matches PollStepView::Done(Err(error)) && error is Timeout) <==> (
        still_running(reply) && state.attempt >= MAX_ATTEMPTS),
        (state.step(reply) matches PollStepView::Done(Err(error)) && error is Timeout)
            ==> state.step(reply) == PollStepView::Done(Err(timed_out())),
        (state.step(reply) matches PollStepView::Done(Err(error)) && !still_running(reply))
            ==> state.step(reply)->Done_0->Err_0 is Transcribe,
        reply is Unreachable ==> state.step(reply) == PollStepView::Done(
            Err(check_failed(reply->Unreachable_0)),
        ),
{
}

/// A valid poller state: the check about to be made is one of the 120
/// allowed.
pub open spec fn within_limit(state: PollState) -> bool {
    1 <= state.attempt <= MAX_ATTEMPTS
}

/// Polling ends: whatever the service answers, no more than 120 status
/// checks are made from the start, and once as many replies are in as
/// checks are left, polling has ended.
pub proof fn lemma_polling_ends(state: PollState, replies: Seq<StatusReplyView>)
    requires
        within_limit(state),
    ensures
        poll_run(state, replies).attempts <= MAX_ATTEMPTS - state.attempt + 1,
        poll_run(state, replies).attempts <= replies.len(),
        poll_run(state, replies).waits.len() + 1 == poll_run(state, replies).attempts
            || poll_run(state, replies).waits.len() == poll_run(state, replies).attempts,
        replies.len() > MAX_ATTEMPTS - state.attempt ==> poll_run(state, replies).outcome is Some,
    decreases replies.len(),
{
    if replies.len() > 0 {
        match state.step(replies[0]) {
            PollStepView::Done(_) => {},
            PollStepView::Wait { seconds, next } => {
                lemma_polling_ends(next, replies.drop_first());
            },
        }
    }
}

} // verus!
