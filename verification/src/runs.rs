//! Whole runs of the worker: what holds of every sequence of events that a
//! worker is stepped through, from its start.

use crate::http::is_success_code;
use crate::protocol::{generation_failure, RequestView};
use crate::worker::{rejection_message, step_spec, ActionView, EventView, StateView};
use vstd::prelude::*;

verus! {

/// Where a worker stands that started idle and took one step on each of
/// `events`, in order.
pub open spec fn state_after(voices: Map<Seq<char>, Seq<char>>, events: Seq<EventView>) -> StateView
    decreases events.len(),
{
    if events.len() == 0 {
        StateView::AwaitingRequest
    } else {
        step_spec(voices, state_after(voices, events.drop_last()), events.last()).0
    }
}

/// The action that the step on `events[i]` asked for.
pub open spec fn action_at(
    voices: Map<Seq<char>, Seq<char>>,
    events: Seq<EventView>,
    i: int,
) -> ActionView {
    step_spec(voices, state_after(voices, events.take(i)), events[i]).1
}

/// A request has been posted and its outcome is not yet on its way.
pub open spec fn in_flight(state: StateView) -> bool {
    state is AwaitingReply || state is ReadingAudio || state is ReadingRejection || state is Saving
}

/// The event reports on what the state waits for.
pub open spec fn in_turn(state: StateView, event: EventView) -> bool {
    match state {
        StateView::AwaitingRequest => event is Inbound,
        StateView::AwaitingReply { .. } => event is Reply,
        StateView::ReadingAudio { .. } => event is Audio,
        StateView::ReadingRejection { .. } => event is ErrorText,
        StateView::Saving => event is Saved,
        StateView::Delivering => event is Delivered,
        StateView::Stopped => false,
    }
}

/// The state after `m` events comes from the state after `m - 1` events by
/// the step on the last of them.
proof fn lemma_last_step(voices: Map<Seq<char>, Seq<char>>, events: Seq<EventView>, m: int)
    requires
        0 < m <= events.len(),
    ensures
        state_after(voices, events.take(m)) == step_spec(
            voices,
            state_after(voices, events.take(m - 1)),
            events[m - 1],
        ).0,
        action_at(voices, events, m - 1) == step_spec(
            voices,
            state_after(voices, events.take(m - 1)),
            events[m - 1],
        ).1,
{
    assert(events.take(m).drop_last() =~= events.take(m - 1));
    assert(events.take(m).last() == events[m - 1]);
}

/// While a request is in flight, the step that posted it lies behind, and
/// nothing was posted or delivered since.
proof fn lemma_flight_began(
    voices: Map<Seq<char>, Seq<char>>,
    events: Seq<EventView>,
    m: int,
) -> (i: int)
    requires
        0 <= m <= events.len(),
        in_flight(state_after(voices, events.take(m))),
    ensures
        0 <= i < m,
        action_at(voices, events, i) is Post,
        events[i] matches EventView::Inbound(Some(_)),
        forall|n: int|
            i < n < m ==> !(#[trigger] action_at(voices, events, n) is Post) && !(action_at(
                voices,
                events,
                n,
            ) is Deliver),
    decreases m,
{
    if m == 0 {
        assert(events.take(0) =~= Seq::<EventView>::empty());
        0
    } else {
        lemma_last_step(voices, events, m);
        if action_at(voices, events, m - 1) is Post {
            m - 1
        } else {
            lemma_flight_began(voices, events, m - 1)
        }
    }
}

/// As long as nothing is delivered after a request was posted, the request
/// stays in flight, unless the worker has ended.
proof fn lemma_flight_lasts(
    voices: Map<Seq<char>, Seq<char>>,
    events: Seq<EventView>,
    i: int,
    m: int,
)
    requires
        0 <= i < m <= events.len(),
        action_at(voices, events, i) is Post,
        forall|n: int| i < n < m ==> !(#[trigger] action_at(voices, events, n) is Deliver),
    ensures
        in_flight(state_after(voices, events.take(m))) || state_after(voices, events.take(m))
            is Stopped,
    decreases m,
{
    lemma_last_step(voices, events, m);
    if m > i + 1 {
        lemma_flight_lasts(voices, events, i, m - 1);
        assert(!(action_at(voices, events, m - 1) is Deliver));
    }
}

/// Every outcome answers one request. Before the step that delivers an
/// outcome lies the step that received and posted a request, and between
/// the two nothing else was posted or delivered. So no outcome comes before
/// a request does, and no request gets two.
pub proof fn outcome_answers_one_request(
    voices: Map<Seq<char>, Seq<char>>,
    events: Seq<EventView>,
    k: int,
) -> (i: int)
    requires
        0 <= k < events.len(),
        action_at(voices, events, k) is Deliver,
    ensures
        0 <= i < k,
        action_at(voices, events, i) is Post,
        events[i] matches EventView::Inbound(Some(_)),
        forall|n: int|
            i < n < k ==> !(#[trigger] action_at(voices, events, n) is Post) && !(action_at(
                voices,
                events,
                n,
            ) is Deliver),
{
    lemma_flight_began(voices, events, k)
}

/// Requests are never interleaved: between the posting of one request and
/// the posting of the next, the outcome of the first is delivered.
pub proof fn requests_do_not_interleave(
    voices: Map<Seq<char>, Seq<char>>,
    events: Seq<EventView>,
    i: int,
    j: int,
) -> (k: int)
    requires
        0 <= i < j < events.len(),
        action_at(voices, events, i) is Post,
        action_at(voices, events, j) is Post,
    ensures
        i < k < j,
        action_at(voices, events, k) is Deliver,
{
    if forall|n: int| i < n < j ==> !(#[trigger] action_at(voices, events, n) is Deliver) {
        lemma_flight_lasts(voices, events, i, j);
        assert(false);
    }
    choose|n: int| i < n < j && #[trigger] action_at(voices, events, n) is Deliver
}

/// A success is reported only for a file that was written. The three steps
/// before the one that delivers a success are those of one request: it was
/// posted, the body of the response was read, and exactly these bytes were
/// written to the path that the request named; the write was reported as
/// done.
pub proof fn success_means_saved(
    voices: Map<Seq<char>, Seq<char>>,
    events: Seq<EventView>,
    k: int,
) -> (request: RequestView)
    requires
        0 <= k < events.len(),
        action_at(voices, events, k) matches ActionView::Deliver(Ok(_)),
    ensures
        k >= 3,
        events[k - 3] == EventView::Inbound(Some(request)),
        action_at(voices, events, k - 3) is Post,
        action_at(voices, events, k - 2) is ReadAudio,
        events[k - 1] matches EventView::Audio(Ok(audio)) && action_at(voices, events, k - 1)
            == (ActionView::Save { path: request.output_path, audio }),
        events[k] matches EventView::Saved(Ok(_)),
{
    assert(state_after(voices, events.take(k)) is Saving);
    if k == 0 {
        assert(events.take(0) =~= Seq::<EventView>::empty());
    }
    lemma_last_step(voices, events, k);
    assert(state_after(voices, events.take(k - 1)) is ReadingAudio);
    if k == 1 {
        assert(events.take(0) =~= Seq::<EventView>::empty());
    }
    lemma_last_step(voices, events, k - 1);
    assert(state_after(voices, events.take(k - 2)) is AwaitingReply);
    if k == 2 {
        assert(events.take(0) =~= Seq::<EventView>::empty());
    }
    lemma_last_step(voices, events, k - 2);
    assert(state_after(voices, events.take(k - 3)) is AwaitingRequest);
    events[k - 3]->Inbound_0->Some_0
}

/// The first step from `from` on that delivers an outcome, where one does.
proof fn lemma_first_delivery(
    voices: Map<Seq<char>, Seq<char>>,
    events: Seq<EventView>,
    from: int,
    known: int,
) -> (k: int)
    requires
        0 <= from <= known < events.len(),
        action_at(voices, events, known) is Deliver,
    ensures
        from <= k <= known,
        action_at(voices, events, k) is Deliver,
        forall|n: int| from <= n < k ==> !(#[trigger] action_at(voices, events, n) is Deliver),
    decreases known - from,
{
    if action_at(voices, events, from) is Deliver {
        from
    } else {
        lemma_first_delivery(voices, events, from + 1, known)
    }
}

/// The file of one request is written before the next request goes out.
/// Between the posting of a request and the posting of the next one, the
/// outcome of the first is delivered, once; and where that outcome is a
/// success, the audio was written to the path of the first request one step
/// before, which is two steps after that request was posted.
pub proof fn file_is_written_before_the_next_request(
    voices: Map<Seq<char>, Seq<char>>,
    events: Seq<EventView>,
    i: int,
    j: int,
) -> (k: int)
    requires
        0 <= i < j < events.len(),
        action_at(voices, events, i) is Post,
        action_at(voices, events, j) is Post,
    ensures
        i < k < j,
        action_at(voices, events, k) is Deliver,
        forall|n: int| i < n < k ==> !(#[trigger] action_at(voices, events, n) is Deliver),
        action_at(voices, events, k) matches ActionView::Deliver(Ok(_)) ==> {
            &&& k == i + 3
            &&& events[i] matches EventView::Inbound(Some(request))
            &&& action_at(voices, events, i + 2) matches ActionView::Save { path, .. }
            &&& path == request.output_path
        },
{
    let some = requests_do_not_interleave(voices, events, i, j);
    let k = lemma_first_delivery(voices, events, i + 1, some);
    let posted = outcome_answers_one_request(voices, events, k);
    if i < posted {
        let between = requests_do_not_interleave(voices, events, i, posted);
        assert(!(action_at(voices, events, between) is Deliver));
    }
    if posted < i {
        assert(!(action_at(voices, events, i) is Post));
    }
    assert(posted == i);
    if action_at(voices, events, k) matches ActionView::Deliver(Ok(_)) {
        let request = success_means_saved(voices, events, k);
        if k - 3 < i {
            assert(action_at(voices, events, i) is Post);
        }
        if i < k - 3 {
            assert(!(action_at(voices, events, k - 3) is Post));
        }
    }
    k
}

/// Every request is answered. When each action is carried out and reported
/// in turn, the outcome of a posted request is delivered within the next
/// three steps, and once only.
pub proof fn every_request_is_answered(
    voices: Map<Seq<char>, Seq<char>>,
    events: Seq<EventView>,
    i: int,
) -> (k: int)
    requires
        0 <= i,
        i + 3 < events.len(),
        action_at(voices, events, i) is Post,
        forall|n: int|
            i < n <= i + 3 ==> in_turn(
                #[trigger] state_after(voices, events.take(n)),
                events[n],
            ),
    ensures
        i < k <= i + 3,
        action_at(voices, events, k) is Deliver,
        forall|n: int|
            i < n <= i + 3 && n != k ==> !(#[trigger] action_at(voices, events, n) is Deliver),
{
    lemma_last_step(voices, events, i + 1);
    lemma_last_step(voices, events, i + 2);
    lemma_last_step(voices, events, i + 3);
    lemma_last_step(voices, events, i + 4);
    assert(in_turn(state_after(voices, events.take(i + 1)), events[i + 1]));
    assert(in_turn(state_after(voices, events.take(i + 2)), events[i + 2]));
    assert(in_turn(state_after(voices, events.take(i + 3)), events[i + 3]));
    if action_at(voices, events, i + 1) is Deliver {
        i + 1
    } else if action_at(voices, events, i + 2) is Deliver {
        i + 2
    } else {
        i + 3
    }
}

/// A response that reports no success ends in an error whose text is the
/// body of the response as it came; where the body is empty, a fixed note
/// stands in its place. The worker stays usable.
pub proof fn rejection_reports_the_body(
    voices: Map<Seq<char>, Seq<char>>,
    output_path: Seq<char>,
    status: u16,
    body: Seq<char>,
)
    requires
        !is_success_code(status),
    ensures
        ({
            let (reading, read) = step_spec(
                voices,
                StateView::AwaitingReply { output_path },
                EventView::Reply(Ok(status)),
            );
            let (delivering, deliver) = step_spec(voices, reading, EventView::ErrorText(Some(body)));
            &&& read is ReadErrorText
            &&& delivering is Delivering
            &&& deliver matches ActionView::Deliver(Err(error))
            &&& !error.fatal
            &&& !error.acknowledged
            &&& error.message == rejection_message(Some(body))
            &&& body.len() > 0 ==> error.message == body
            &&& body.len() == 0 ==> error.message == "(response was empty)"@
        }),
{
}

/// A request that gets no response, because the connection failed or the
/// time ran out, ends at once in an error that carries the description of
/// the failure and leaves the worker usable.
pub proof fn transport_failure_is_reported(
    voices: Map<Seq<char>, Seq<char>>,
    output_path: Seq<char>,
    description: Seq<char>,
)
    ensures
        step_spec(
            voices,
            StateView::AwaitingReply { output_path },
            EventView::Reply(Err(description)),
        ) == (StateView::Delivering, ActionView::Deliver(Err(generation_failure(description)))),
        generation_failure(description).message == description,
        !generation_failure(description).fatal,
{
}

} // verus!
