//! What holds of every device-code attempt, whatever the provider and
//! the user do.

use vstd::prelude::*;
use crate::auth::device::{
    DeviceActionView, DeviceEventView, DeviceFlowView, DeviceStage, PollOutcomeView,
};
use crate::auth::model::FlowErrorView;

verus! {

/// The attempt after all of `events`, fed in order, and every action the
/// steps handed out, in order.
pub open spec fn run(flow: DeviceFlowView, events: Seq<DeviceEventView>) -> (
    DeviceFlowView,
    Seq<DeviceActionView>,
)
    decreases events.len(),
{
    if events.len() == 0 {
        (flow, Seq::empty())
    } else {
        let (next, first) = flow.step(events[0]);
        let (last, rest) = run(next, events.drop_first());
        (last, first + rest)
    }
}

/// How many of `actions` are polls.
pub open spec fn poll_count(actions: Seq<DeviceActionView>) -> nat
    decreases actions.len(),
{
    if actions.len() == 0 {
        0
    } else {
        let head: nat = if actions[0] is Poll {
            1
        } else {
            0
        };
        head + poll_count(actions.drop_first())
    }
}

/// `rounds` times over: the sleep runs out, and the provider answers
/// the poll with "pending".
pub open spec fn pending_rounds(rounds: nat) -> Seq<DeviceEventView>
    decreases rounds,
{
    if rounds == 0 {
        Seq::empty()
    } else {
        seq![
            DeviceEventView::IntervalElapsed,
            DeviceEventView::Polled(PollOutcomeView::Pending),
        ] + pending_rounds((rounds - 1) as nat)
    }
}

/// `pending` fruitless rounds, then a round in which the provider
/// answers `last`.
pub open spec fn poll_script(pending: nat, last: PollOutcomeView) -> Seq<DeviceEventView> {
    pending_rounds(pending) + seq![
        DeviceEventView::IntervalElapsed,
        DeviceEventView::Polled(last),
    ]
}

/// Polls in two runs of actions add up.
pub proof fn lemma_poll_count_concat(a: Seq<DeviceActionView>, b: Seq<DeviceActionView>)
    ensures
        poll_count(a + b) == poll_count(a) + poll_count(b),
    decreases a.len(),
{
    if a.len() == 0 {
        assert(a + b =~= b);
    } else {
        assert((a + b).drop_first() =~= a.drop_first() + b);
        lemma_poll_count_concat(a.drop_first(), b);
    }
}

/// Running over two scripts in a row is running over the first and then,
/// from where that ended, over the second.
pub proof fn lemma_run_concat(
    flow: DeviceFlowView,
    first: Seq<DeviceEventView>,
    second: Seq<DeviceEventView>,
)
    ensures
        run(flow, first + second) == (
            run(run(flow, first).0, second).0,
            run(flow, first).1 + run(run(flow, first).0, second).1,
        ),
    decreases first.len(),
{
    if first.len() == 0 {
        assert(first + second =~= second);
        assert(Seq::<DeviceActionView>::empty() + run(flow, second).1 =~= run(flow, second).1);
    } else {
        let (next, head) = flow.step(first[0]);
        assert((first + second).drop_first() =~= first.drop_first() + second);
        lemma_run_concat(next, first.drop_first(), second);
        let mid = run(next, first.drop_first());
        let end = run(mid.0, second);
        assert(head + (mid.1 + end.1) =~= (head + mid.1) + end.1);
    }
}

/// An attempt that is asleep is asleep again after any number of
/// fruitless rounds, is otherwise unchanged, and has polled once in each.
pub proof fn lemma_pending_rounds(flow: DeviceFlowView, rounds: nat)
    requires
        flow.stage == DeviceStage::Sleeping,
    ensures
        run(flow, pending_rounds(rounds)).0 == flow,
        poll_count(run(flow, pending_rounds(rounds)).1) == rounds,
    decreases rounds,
{
    if rounds > 0 {
        let round = seq![
            DeviceEventView::IntervalElapsed,
            DeviceEventView::Polled(PollOutcomeView::Pending),
        ];
        let rest = pending_rounds((rounds - 1) as nat);
        lemma_one_round(flow, PollOutcomeView::Pending);
        assert(flow.at(DeviceStage::Polling).at(DeviceStage::Sleeping) == flow);
        assert(run(flow, round).0 == flow);
        assert(run(flow, round).1 =~= seq![
            flow.poll(),
            DeviceActionView::Sleep(flow.delay_secs),
        ]);
        lemma_run_concat(flow, round, rest);
        lemma_pending_rounds(flow, (rounds - 1) as nat);
        lemma_poll_count_concat(run(flow, round).1, run(flow, rest).1);
        lemma_poll_count_two(flow.poll(), DeviceActionView::Sleep(flow.delay_secs));
    }
}

/// The poll count of two given actions.
proof fn lemma_poll_count_two(a: DeviceActionView, b: DeviceActionView)
    ensures
        poll_count(seq![a, b]) == (if a is Poll { 1nat } else { 0nat }) + (if b is Poll { 1nat } else { 0nat }),
        poll_count(seq![a]) == (if a is Poll { 1nat } else { 0nat }),
{
    assert(seq![a, b].drop_first() =~= seq![b]);
    assert(seq![b].drop_first() =~= Seq::<DeviceActionView>::empty());
    assert(seq![a].drop_first() =~= Seq::<DeviceActionView>::empty());
    reveal_with_fuel(poll_count, 3);
}

/// One round from an attempt that is asleep: the poll goes out first,
/// and the provider's answer decides the rest.
pub proof fn lemma_one_round(flow: DeviceFlowView, answer: PollOutcomeView)
    requires
        flow.stage == DeviceStage::Sleeping,
    ensures
        run(flow, seq![DeviceEventView::IntervalElapsed, DeviceEventView::Polled(answer)]) == (
            flow.at(DeviceStage::Polling).step(DeviceEventView::Polled(answer)).0,
            seq![flow.poll()] + flow.at(DeviceStage::Polling).step(
                DeviceEventView::Polled(answer),
            ).1,
        ),
{
    let script = seq![DeviceEventView::IntervalElapsed, DeviceEventView::Polled(answer)];
    let polling = flow.at(DeviceStage::Polling);
    let tail = script.drop_first();
    assert(tail =~= seq![DeviceEventView::Polled(answer)]);
    assert(tail.drop_first() =~= Seq::<DeviceEventView>::empty());
    reveal_with_fuel(run, 3);
    let answered = polling.step(DeviceEventView::Polled(answer));
    assert(answered.1 + Seq::<DeviceActionView>::empty() =~= answered.1);
}

/// An attempt that has ended stays ended: whatever is reported to it
/// afterwards, it does not change and asks for nothing.
pub proof fn ended_attempt_is_inert(flow: DeviceFlowView, events: Seq<DeviceEventView>)
    requires
        flow.stage == DeviceStage::Done,
    ensures
        run(flow, events) == (flow, Seq::<DeviceActionView>::empty()),
    decreases events.len(),
{
    if events.len() > 0 {
        ended_attempt_is_inert(flow, events.drop_first());
        assert(Seq::<DeviceActionView>::empty() + Seq::<DeviceActionView>::empty()
            =~= Seq::<DeviceActionView>::empty());
    }
}

/// Where the provider answers "pending" `pending` times and then
/// "complete", an attempt that is asleep polls exactly `pending + 1`
/// times, reports the login, ends with success as its last action, and
/// does nothing for whatever is reported to it later.
pub proof fn polls_until_complete(
    flow: DeviceFlowView,
    pending: nat,
    later: Seq<DeviceEventView>,
)
    requires
        flow.stage == DeviceStage::Sleeping,
    ensures
        run(flow, poll_script(pending, PollOutcomeView::Complete) + later) == run(
            flow,
            poll_script(pending, PollOutcomeView::Complete),
        ),
        run(flow, poll_script(pending, PollOutcomeView::Complete)).0 == flow.at(DeviceStage::Done),
        poll_count(run(flow, poll_script(pending, PollOutcomeView::Complete)).1) == pending + 1,
        run(flow, poll_script(pending, PollOutcomeView::Complete)).1.last()
            == DeviceActionView::Finish(Ok(())),
{
    let answer = PollOutcomeView::Complete;
    let ending = seq![DeviceActionView::ReportLoggedIn, DeviceActionView::Finish(Ok(()))];
    lemma_script(flow, pending, answer, later);
    lemma_poll_count_two(DeviceActionView::ReportLoggedIn, DeviceActionView::Finish(Ok(())));
    let all = run(flow, poll_script(pending, answer)).1;
    assert(all == run(flow, pending_rounds(pending)).1 + (seq![flow.poll()] + ending));
    assert(all.last() == ending[1]);
}

/// Where the provider answers "pending" `pending` times and then fails
/// with `message`, an attempt that is asleep polls exactly `pending + 1`
/// times, ends with the provider's error as its last action, and does
/// nothing (so polls no more) for whatever is reported to it later.
pub proof fn polls_until_error(
    flow: DeviceFlowView,
    pending: nat,
    message: Seq<char>,
    later: Seq<DeviceEventView>,
)
    requires
        flow.stage == DeviceStage::Sleeping,
    ensures
        run(flow, poll_script(pending, PollOutcomeView::Error(message)) + later) == run(
            flow,
            poll_script(pending, PollOutcomeView::Error(message)),
        ),
        run(flow, poll_script(pending, PollOutcomeView::Error(message))).0 == flow.at(
            DeviceStage::Done,
        ),
        poll_count(run(flow, poll_script(pending, PollOutcomeView::Error(message))).1) == pending
            + 1,
        run(flow, poll_script(pending, PollOutcomeView::Error(message))).1.last()
            == DeviceActionView::Finish(Err(FlowErrorView::ProviderError(message))),
{
    let answer = PollOutcomeView::Error(message);
    let finish = DeviceActionView::Finish(Err(FlowErrorView::ProviderError(message)));
    lemma_script(flow, pending, answer, later);
    lemma_poll_count_two(finish, finish);
    let all = run(flow, poll_script(pending, answer)).1;
    assert(all == run(flow, pending_rounds(pending)).1 + (seq![flow.poll()] + seq![finish]));
    assert(all.last() == seq![finish][0]);
}

/// Where the user interrupts a sleep, the attempt ends as cancelled at
/// once: its only action is to finish, and no poll goes out then or for
/// anything reported to it later.
pub proof fn cancelled_sleep_polls_no_more(flow: DeviceFlowView, later: Seq<DeviceEventView>)
    requires
        flow.stage == DeviceStage::Sleeping,
    ensures
        run(flow, seq![DeviceEventView::Cancelled] + later) == (
            flow.at(DeviceStage::Done),
            seq![DeviceActionView::Finish(Err(FlowErrorView::Cancelled))],
        ),
        poll_count(run(flow, seq![DeviceEventView::Cancelled] + later).1) == 0,
{
    let cancel = seq![DeviceEventView::Cancelled];
    let finish = DeviceActionView::Finish(Err(FlowErrorView::Cancelled));
    assert(cancel.drop_first() =~= Seq::<DeviceEventView>::empty());
    reveal_with_fuel(run, 2);
    assert(run(flow, cancel).1 =~= seq![finish]);
    lemma_run_concat(flow, cancel, later);
    ended_attempt_is_inert(flow.at(DeviceStage::Done), later);
    assert(seq![finish] + Seq::<DeviceActionView>::empty() =~= seq![finish]);
    lemma_poll_count_two(finish, finish);
}

/// A script of fruitless rounds and one answered round, from an attempt
/// that is asleep, when the answer ends the attempt.
proof fn lemma_script(
    flow: DeviceFlowView,
    pending: nat,
    answer: PollOutcomeView,
    later: Seq<DeviceEventView>,
)
    requires
        flow.stage == DeviceStage::Sleeping,
        !(answer is Pending),
    ensures
        run(flow, poll_script(pending, answer) + later) == run(flow, poll_script(pending, answer)),
        run(flow, poll_script(pending, answer)).0 == flow.at(DeviceStage::Done),
        run(flow, poll_script(pending, answer)).1 == run(flow, pending_rounds(pending)).1 + (
            seq![flow.poll()] + flow.at(DeviceStage::Polling).step(
                DeviceEventView::Polled(answer),
            ).1),
        poll_count(run(flow, poll_script(pending, answer)).1) == pending + 1 + poll_count(
            flow.at(DeviceStage::Polling).step(DeviceEventView::Polled(answer)).1,
        ),
{
    let round = seq![DeviceEventView::IntervalElapsed, DeviceEventView::Polled(answer)];
    let answered = flow.at(DeviceStage::Polling).step(DeviceEventView::Polled(answer));
    lemma_pending_rounds(flow, pending);
    lemma_one_round(flow, answer);
    lemma_run_concat(flow, pending_rounds(pending), round);
    assert(answered.0 == flow.at(DeviceStage::Done));
    lemma_run_concat(flow, poll_script(pending, answer), later);
    ended_attempt_is_inert(flow.at(DeviceStage::Done), later);
    let all = run(flow, poll_script(pending, answer)).1;
    assert(all + Seq::<DeviceActionView>::empty() =~= all);
    lemma_poll_count_concat(run(flow, pending_rounds(pending)).1, seq![flow.poll()] + answered.1);
    lemma_poll_count_concat(seq![flow.poll()], answered.1);
    lemma_poll_count_two(flow.poll(), flow.poll());
}

} // verus!
