//! Properties of the submission engine, proved over its model: exhaustion of
//! the retry budget, immediate return on fatal errors, the backoff schedule,
//! and rejection of unconfirmed sends.

use vstd::arithmetic::mul::lemma_mul_inequality;
use vstd::arithmetic::power2::{lemma2_to64, lemma2_to64_rest, lemma_pow2_strictly_increases, pow2};
use vstd::prelude::*;

use crate::error::{retriable, ErrorModel};
use crate::text::{has_substring, occurs_at};
use crate::transaction_service::{
    event_fits, init_model, next_attempt, not_confirmed_message, spec_step, wf, EventModel,
    PhaseModel, SubmissionModel, BASE_BACKOFF_MS,
};

verus! {

/// The state after feeding a sequence of events to the machine, first event
/// first.
pub open spec fn run(s: SubmissionModel, events: Seq<EventModel>) -> SubmissionModel
    decreases events.len(),
{
    if events.len() == 0 {
        s
    } else {
        run(spec_step(s, events[0]), events.drop_first())
    }
}

/// The driver's events for one failed attempt after the first: the backoff
/// sleep elapses, the reference fetch succeeds, the send fails with `msg`.
pub open spec fn retry_attempt_events(msg: Seq<char>) -> Seq<EventModel> {
    seq![
        EventModel::Waited,
        EventModel::ReferenceFetched(Ok(())),
        EventModel::SendFinished(Err(msg)),
    ]
}

/// The events of the failed attempts after the first, one triple per message.
pub open spec fn retry_trace(msgs: Seq<Seq<char>>) -> Seq<EventModel>
    decreases msgs.len(),
{
    if msgs.len() == 0 {
        Seq::empty()
    } else {
        retry_attempt_events(msgs[0]) + retry_trace(msgs.drop_first())
    }
}

/// The full driver trace of a submission whose reference fetches all succeed
/// and whose sends all fail: the first attempt has no backoff, each further
/// attempt is a backoff, a fetch and a failed send.
pub open spec fn always_failing_trace(msgs: Seq<Seq<char>>) -> Seq<EventModel>
    recommends
        msgs.len() >= 1,
{
    seq![EventModel::ReferenceFetched(Ok(())), EventModel::SendFinished(Err(msgs[0]))]
        + retry_trace(msgs.drop_first())
}

/// How many send outcomes a trace reports.
pub open spec fn send_count(events: Seq<EventModel>) -> nat
    decreases events.len(),
{
    if events.len() == 0 {
        0
    } else {
        (if events[0] is SendFinished {
            1nat
        } else {
            0nat
        }) + send_count(events.drop_first())
    }
}

/// A step taken on a well-formed state with a fitting event yields a
/// well-formed state.
pub proof fn lemma_step_preserves_wf(s: SubmissionModel, e: EventModel)
    requires
        wf(s),
        event_fits(s, e),
    ensures
        wf(spec_step(s, e)),
{
}

proof fn lemma_run_concat(s: SubmissionModel, a: Seq<EventModel>, b: Seq<EventModel>)
    ensures
        run(s, a + b) == run(run(s, a), b),
    decreases a.len(),
{
    if a.len() == 0 {
        assert(a + b =~= b);
    } else {
        assert((a + b)[0] == a[0]);
        assert((a + b).drop_first() =~= a.drop_first() + b);
        lemma_run_concat(spec_step(s, a[0]), a.drop_first(), b);
    }
}

proof fn lemma_send_count_concat(a: Seq<EventModel>, b: Seq<EventModel>)
    ensures
        send_count(a + b) == send_count(a) + send_count(b),
    decreases a.len(),
{
    if a.len() == 0 {
        assert(a + b =~= b);
    } else {
        assert((a + b)[0] == a[0]);
        assert((a + b).drop_first() =~= a.drop_first() + b);
        lemma_send_count_concat(a.drop_first(), b);
    }
}

proof fn lemma_send_count_attempt(msg: Seq<char>)
    ensures
        send_count(retry_attempt_events(msg)) == 1,
{
    let e_ref = EventModel::ReferenceFetched(Ok(()));
    let e_send = EventModel::SendFinished(Err(msg));
    let evs = retry_attempt_events(msg);
    let e2 = seq![e_ref, e_send];
    let e1 = seq![e_send];
    let e0 = Seq::<EventModel>::empty();
    assert(evs[0] == EventModel::Waited);
    assert(evs.drop_first() =~= e2);
    assert(e2[0] == e_ref);
    assert(e2.drop_first() =~= e1);
    assert(e1[0] == e_send);
    assert(e1.drop_first() =~= e0);
    assert(send_count(e0) == 0);
    assert(send_count(e1) == 1);
    assert(send_count(e2) == 1);
    assert(send_count(evs) == 1);
}

proof fn lemma_send_count_retry_trace(msgs: Seq<Seq<char>>)
    ensures
        send_count(retry_trace(msgs)) == msgs.len(),
    decreases msgs.len(),
{
    if msgs.len() == 0 {
    } else {
        lemma_send_count_concat(retry_attempt_events(msgs[0]), retry_trace(msgs.drop_first()));
        lemma_send_count_attempt(msgs[0]);
        lemma_send_count_retry_trace(msgs.drop_first());
    }
}

proof fn lemma_retry_trace_exhausts(s: SubmissionModel, msgs: Seq<Seq<char>>)
    requires
        wf(s),
        (s.phase is Waiting),
        2 <= s.attempt,
        s.attempt + msgs.len() == s.max_retries + 2,
        forall|i: int| 0 <= i < msgs.len() ==> retriable(ErrorModel::Send(#[trigger] msgs[i])),
    ensures
        run(s, retry_trace(msgs)) == (SubmissionModel {
            attempt: s.max_retries + 2,
            phase: PhaseModel::Finished(Err(ErrorModel::MaxRetriesExceeded)),
            ..s
        }),
    decreases msgs.len(),
{
    assert(s.attempt <= s.max_retries + 1);
    assert(msgs.len() >= 1);
    let evs = retry_attempt_events(msgs[0]);
    let rest = retry_trace(msgs.drop_first());
    assert(retry_trace(msgs) == evs + rest);
    lemma_run_concat(s, evs, rest);

    let t1 = SubmissionModel { phase: PhaseModel::FetchingReference, ..s };
    let t2 = SubmissionModel { phase: PhaseModel::Sending, ..s };
    assert(retriable(ErrorModel::Send(msgs[0])));
    let t3 = next_attempt(t2);
    let e_ref = EventModel::ReferenceFetched(Ok(()));
    let e_send = EventModel::SendFinished(Err(msgs[0]));
    let e2 = seq![e_ref, e_send];
    let e1 = seq![e_send];
    let e0 = Seq::<EventModel>::empty();
    assert(evs[0] == EventModel::Waited);
    assert(evs.drop_first() =~= e2);
    assert(e2[0] == e_ref);
    assert(e2.drop_first() =~= e1);
    assert(e1[0] == e_send);
    assert(e1.drop_first() =~= e0);
    assert(spec_step(s, EventModel::Waited) == t1);
    assert(spec_step(t1, e_ref) == t2);
    assert(spec_step(t2, e_send) == t3);
    assert(run(t3, e0) == t3);
    assert(run(t2, e1) == t3);
    assert(run(t1, e2) == t3);
    assert(run(s, evs) == t3);

    if msgs.len() == 1 {
        assert(s.attempt == s.max_retries + 1);
        assert(t3 == SubmissionModel {
            attempt: s.max_retries + 2,
            phase: PhaseModel::Finished(Err(ErrorModel::MaxRetriesExceeded)),
            ..s
        });
        assert(msgs.drop_first().len() == 0);
        assert(run(t3, rest) == t3);
    } else {
        assert(s.attempt + 1 <= s.max_retries + 1);
        assert(t3.phase is Waiting);
        assert(wf(t3));
        assert forall|i: int| 0 <= i < msgs.drop_first().len() implies retriable(
            ErrorModel::Send(#[trigger] msgs.drop_first()[i]),
        ) by {
            assert(msgs.drop_first()[i] == msgs[i + 1]);
        }
        lemma_retry_trace_exhausts(t3, msgs.drop_first());
    }
}

/// For every retry ceiling `R`, a submission whose sends always fail with a
/// retriable error performs exactly `R + 1` sends and then returns
/// `MaxRetriesExceeded`.
pub proof fn lemma_always_retriable_exhausts_budget(max_retries: u32, msgs: Seq<Seq<char>>)
    requires
        msgs.len() == max_retries + 1,
        forall|i: int| 0 <= i < msgs.len() ==> retriable(ErrorModel::Send(#[trigger] msgs[i])),
    ensures
        run(init_model(max_retries as int), always_failing_trace(msgs)) == (SubmissionModel {
            max_retries: max_retries as int,
            attempt: max_retries + 2,
            phase: PhaseModel::Finished(Err(ErrorModel::MaxRetriesExceeded)),
        }),
        send_count(always_failing_trace(msgs)) == max_retries + 1,
{
    let s0 = init_model(max_retries as int);
    let prefix = seq![
        EventModel::ReferenceFetched(Ok(())),
        EventModel::SendFinished(Err(msgs[0])),
    ];
    let rest = retry_trace(msgs.drop_first());
    assert(always_failing_trace(msgs) == prefix + rest);
    lemma_run_concat(s0, prefix, rest);

    let t1 = SubmissionModel { phase: PhaseModel::Sending, ..s0 };
    assert(retriable(ErrorModel::Send(msgs[0])));
    let t2 = next_attempt(t1);
    let e_ref = EventModel::ReferenceFetched(Ok(()));
    let e_send = EventModel::SendFinished(Err(msgs[0]));
    let e1 = seq![e_send];
    let e0 = Seq::<EventModel>::empty();
    assert(prefix[0] == e_ref);
    assert(prefix.drop_first() =~= e1);
    assert(e1[0] == e_send);
    assert(e1.drop_first() =~= e0);
    assert(spec_step(s0, e_ref) == t1);
    assert(spec_step(t1, e_send) == t2);
    assert(run(t2, e0) == t2);
    assert(run(t1, e1) == t2);
    assert(run(s0, prefix) == t2);

    if max_retries == 0 {
        assert(t2 == SubmissionModel {
            max_retries: max_retries as int,
            attempt: max_retries + 2,
            phase: PhaseModel::Finished(Err(ErrorModel::MaxRetriesExceeded)),
        });
        assert(msgs.drop_first().len() == 0);
        assert(run(t2, rest) == t2);
    } else {
        assert(t2.attempt == 2);
        assert(t2.phase is Waiting);
        assert(wf(t2));
        assert forall|i: int| 0 <= i < msgs.drop_first().len() implies retriable(
            ErrorModel::Send(#[trigger] msgs.drop_first()[i]),
        ) by {
            assert(msgs.drop_first()[i] == msgs[i + 1]);
        }
        lemma_retry_trace_exhausts(t2, msgs.drop_first());
    }

    lemma_send_count_concat(prefix, rest);
    lemma_send_count_retry_trace(msgs.drop_first());
    assert(send_count(e0) == 0);
    assert(send_count(e1) == 1);
    assert(send_count(prefix) == 1);
}

/// A fatal (non-retriable) send failure ends the submission at once with
/// that very error: no further attempt is scheduled.
pub proof fn lemma_fatal_send_is_terminal(s: SubmissionModel, msg: Seq<char>)
    requires
        (s.phase is Sending),
        !retriable(ErrorModel::Send(msg)),
    ensures
        spec_step(s, EventModel::SendFinished(Err(msg))) == (SubmissionModel {
            phase: PhaseModel::Finished(Err(ErrorModel::Send(msg))),
            ..s
        }),
{
}

/// A fatal confirmation failure likewise ends the submission at once.
pub proof fn lemma_fatal_confirmation_is_terminal(s: SubmissionModel, msg: Seq<char>)
    requires
        (s.phase is Confirming),
        !retriable(ErrorModel::Confirmation(msg)),
    ensures
        spec_step(s, EventModel::ConfirmFinished(Err(msg))) == (SubmissionModel {
            phase: PhaseModel::Finished(Err(ErrorModel::Confirmation(msg))),
            ..s
        }),
{
}

/// The error kinds outside the classification table's retriable rows are
/// never retriable, whatever their detail.
pub proof fn lemma_fatal_kinds_never_retriable(detail: Seq<char>)
    ensures
        !retriable(ErrorModel::InvalidInstruction(detail)),
        !retriable(ErrorModel::InsufficientFunds),
        !retriable(ErrorModel::Other(detail)),
        !retriable(ErrorModel::MaxRetriesExceeded),
{
}

/// The backoff scheduled before attempt `k` is exactly
/// `BASE_BACKOFF_MS * 2^(k-2)` milliseconds, for every attempt the doubling
/// schedule keeps within the machine word (`k <= 57`); beyond that it
/// saturates at `u64::MAX`.
pub proof fn lemma_backoff_before_attempt(s: SubmissionModel, msg: Seq<char>)
    requires
        wf(s),
        (s.phase is Sending),
        retriable(ErrorModel::Send(msg)),
        s.attempt + 1 <= s.max_retries + 1,
        s.attempt + 1 <= 57,
    ensures
        spec_step(s, EventModel::SendFinished(Err(msg))) == (SubmissionModel {
            attempt: s.attempt + 1,
            phase: PhaseModel::Waiting(BASE_BACKOFF_MS * pow2((s.attempt - 1) as nat)),
            ..s
        }),
{
    let e = (s.attempt - 1) as nat;
    lemma2_to64();
    lemma2_to64_rest();
    if e < 55 {
        lemma_pow2_strictly_increases(e, 55);
    }
    assert(pow2(e) <= pow2(55));
    lemma_mul_inequality(pow2(e) as int, pow2(55) as int, BASE_BACKOFF_MS as int);
}

/// A send whose confirmation query answers `true` ends the submission with
/// that signature: the only successful outcome.
pub proof fn lemma_confirmed_is_success(s: SubmissionModel, sig: Seq<u8>)
    requires
        s.phase == PhaseModel::Confirming(sig),
    ensures
        spec_step(s, EventModel::ConfirmFinished(Ok(true))) == (SubmissionModel {
            phase: PhaseModel::Finished(Ok(sig)),
            ..s
        }),
{
}

/// The fixed not-confirmed detail matches no retriable substring.
pub proof fn lemma_not_confirmed_is_fatal()
    ensures
        !retriable(ErrorModel::Confirmation(not_confirmed_message())),
{
    let t = not_confirmed_message();
    let p1 = "timeout"@;
    let p2 = "connection closed"@;
    reveal_strlit("Transaction was not confirmed");
    reveal_strlit("timeout");
    reveal_strlit("connection closed");
    assert(t.len() == 29 && p1.len() == 7 && p2.len() == 17);
    assert forall|i: int| !occurs_at(t, p1, i) by {
        if 0 <= i && i + p1.len() <= t.len() {
            let sub = t.subrange(i, i + p1.len() as int);
            if sub == p1 {
                if i == 0 {
                    assert(sub[0] == t[0]);
                    assert(t[0] != p1[0]);
                    assert(false);
                } else if i == 1 {
                    assert(sub[0] == t[1]);
                    assert(t[1] != p1[0]);
                    assert(false);
                } else if i == 2 {
                    assert(sub[0] == t[2]);
                    assert(t[2] != p1[0]);
                    assert(false);
                } else if i == 3 {
                    assert(sub[0] == t[3]);
                    assert(t[3] != p1[0]);
                    assert(false);
                } else if i == 4 {
                    assert(sub[0] == t[4]);
                    assert(t[4] != p1[0]);
                    assert(false);
                } else if i == 5 {
                    assert(sub[0] == t[5]);
                    assert(t[5] != p1[0]);
                    assert(false);
                } else if i == 6 {
                    assert(sub[0] == t[6]);
                    assert(t[6] != p1[0]);
                    assert(false);
                } else if i == 7 {
                    assert(sub[2] == t[9]);
                    assert(t[9] != p1[2]);
                    assert(false);
                } else if i == 8 {
                    assert(sub[0] == t[8]);
                    assert(t[8] != p1[0]);
                    assert(false);
                } else if i == 9 {
                    assert(sub[0] == t[9]);
                    assert(t[9] != p1[0]);
                    assert(false);
                } else if i == 10 {
                    assert(sub[0] == t[10]);
                    assert(t[10] != p1[0]);
                    assert(false);
                } else if i == 11 {
                    assert(sub[0] == t[11]);
                    assert(t[11] != p1[0]);
                    assert(false);
                } else if i == 12 {
                    assert(sub[0] == t[12]);
                    assert(t[12] != p1[0]);
                    assert(false);
                } else if i == 13 {
                    assert(sub[0] == t[13]);
                    assert(t[13] != p1[0]);
                    assert(false);
                } else if i == 14 {
                    assert(sub[0] == t[14]);
                    assert(t[14] != p1[0]);
                    assert(false);
                } else if i == 15 {
                    assert(sub[0] == t[15]);
                    assert(t[15] != p1[0]);
                    assert(false);
                } else if i == 16 {
                    assert(sub[0] == t[16]);
                    assert(t[16] != p1[0]);
                    assert(false);
                } else if i == 17 {
                    assert(sub[0] == t[17]);
                    assert(t[17] != p1[0]);
                    assert(false);
                } else if i == 18 {
                    assert(sub[1] == t[19]);
                    assert(t[19] != p1[1]);
                    assert(false);
                } else if i == 19 {
                    assert(sub[0] == t[19]);
                    assert(t[19] != p1[0]);
                    assert(false);
                } else if i == 20 {
                    assert(sub[0] == t[20]);
                    assert(t[20] != p1[0]);
                    assert(false);
                } else if i == 21 {
                    assert(sub[0] == t[21]);
                    assert(t[21] != p1[0]);
                    assert(false);
                } else {
                    assert(i == 22);
                    assert(sub[0] == t[22]);
                    assert(t[22] != p1[0]);
                    assert(false);
                }
            }
        }
    }
    assert(!has_substring(t, p1));
    assert forall|i: int| !occurs_at(t, p2, i) by {
        if 0 <= i && i + p2.len() <= t.len() {
            let sub = t.subrange(i, i + p2.len() as int);
            if sub == p2 {
                if i == 0 {
                    assert(sub[0] == t[0]);
                    assert(t[0] != p2[0]);
                    assert(false);
                } else if i == 1 {
                    assert(sub[0] == t[1]);
                    assert(t[1] != p2[0]);
                    assert(false);
                } else if i == 2 {
                    assert(sub[0] == t[2]);
                    assert(t[2] != p2[0]);
                    assert(false);
                } else if i == 3 {
                    assert(sub[0] == t[3]);
                    assert(t[3] != p2[0]);
                    assert(false);
                } else if i == 4 {
                    assert(sub[0] == t[4]);
                    assert(t[4] != p2[0]);
                    assert(false);
                } else if i == 5 {
                    assert(sub[0] == t[5]);
                    assert(t[5] != p2[0]);
                    assert(false);
                } else if i == 6 {
                    assert(sub[1] == t[7]);
                    assert(t[7] != p2[1]);
                    assert(false);
                } else if i == 7 {
                    assert(sub[0] == t[7]);
                    assert(t[7] != p2[0]);
                    assert(false);
                } else if i == 8 {
                    assert(sub[0] == t[8]);
                    assert(t[8] != p2[0]);
                    assert(false);
                } else if i == 9 {
                    assert(sub[0] == t[9]);
                    assert(t[9] != p2[0]);
                    assert(false);
                } else if i == 10 {
                    assert(sub[0] == t[10]);
                    assert(t[10] != p2[0]);
                    assert(false);
                } else if i == 11 {
                    assert(sub[0] == t[11]);
                    assert(t[11] != p2[0]);
                    assert(false);
                } else {
                    assert(i == 12);
                    assert(sub[0] == t[12]);
                    assert(t[12] != p2[0]);
                    assert(false);
                }
            }
        }
    }
    assert(!has_substring(t, p2));
}

/// A successful send whose confirmation query answers `false` ends the
/// submission with `ConfirmationError("Transaction was not confirmed")`:
/// neither a success nor a retry.
pub proof fn lemma_unconfirmed_is_terminal(s: SubmissionModel, sig: Seq<u8>)
    requires
        s.phase == PhaseModel::Confirming(sig),
    ensures
        spec_step(s, EventModel::ConfirmFinished(Ok(false))) == (SubmissionModel {
            phase: PhaseModel::Finished(
                Err(ErrorModel::Confirmation(not_confirmed_message())),
            ),
            ..s
        }),
{
    lemma_not_confirmed_is_fatal();
}

} // verus!

