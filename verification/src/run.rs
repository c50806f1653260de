//! Whole runs of a download: what holds of every sequence of events that the
//! machine can be told of, one after the other, and of its answers to them.

use vstd::prelude::*;
use crate::download::{
    action_for, awaits, next_state, start, ActionView, DownloadView, EventView, Phase,
};
use crate::error::DownloadErrorView;
use crate::progress::{lemma_position_monotonic, position_after};

verus! {

/// The state reached from `state` once `events` have been reported in order.
pub open spec fn state_after(state: DownloadView, events: Seq<EventView>) -> DownloadView
    decreases events.len(),
{
    if events.len() == 0 {
        state
    } else {
        next_state(state_after(state, events.drop_last()), events.last())
    }
}

/// The answers to `events`, in order, of a download that was in `state`.
pub open spec fn actions_of(state: DownloadView, events: Seq<EventView>) -> Seq<ActionView>
    decreases events.len(),
{
    if events.len() == 0 {
        Seq::empty()
    } else {
        actions_of(state, events.drop_last()).push(
            action_for(state_after(state, events.drop_last()), events.last()),
        )
    }
}

/// Whether each of `events` is what the download is waiting for when it is
/// reported, beginning in `state`.
pub open spec fn admissible(state: DownloadView, events: Seq<EventView>) -> bool
    decreases events.len(),
{
    events.len() == 0 || {
        &&& admissible(state, events.drop_last())
        &&& awaits(state_after(state, events.drop_last()).phase, events.last())
    }
}

/// The chunks that the stream delivered, in order.
pub open spec fn chunks(events: Seq<EventView>) -> Seq<Seq<u8>>
    decreases events.len(),
{
    if events.len() == 0 {
        Seq::empty()
    } else {
        match events.last() {
            EventView::Chunk { bytes } => chunks(events.drop_last()).push(bytes),
            _ => chunks(events.drop_last()),
        }
    }
}

/// The chunks handed over for writing, in order.
pub open spec fn writes(actions: Seq<ActionView>) -> Seq<Seq<u8>>
    decreases actions.len(),
{
    if actions.len() == 0 {
        Seq::empty()
    } else {
        match actions.last() {
            ActionView::Write { bytes } => writes(actions.drop_last()).push(bytes),
            _ => writes(actions.drop_last()),
        }
    }
}

/// The positions that the display was moved to, in order.
pub open spec fn reported(actions: Seq<ActionView>) -> Seq<nat>
    decreases actions.len(),
{
    if actions.len() == 0 {
        Seq::empty()
    } else {
        match actions.last() {
            ActionView::Advance { position } => reported(actions.drop_last()).push(position),
            _ => reported(actions.drop_last()),
        }
    }
}

/// The sizes of the given chunks.
pub open spec fn sizes(parts: Seq<Seq<u8>>) -> Seq<nat> {
    Seq::new(parts.len(), |i: int| parts[i].len())
}

/// Every event has one answer.
pub proof fn lemma_one_action_per_event(state: DownloadView, events: Seq<EventView>)
    ensures
        actions_of(state, events).len() == events.len(),
    decreases events.len(),
{
    if events.len() > 0 {
        lemma_one_action_per_event(state, events.drop_last());
    }
}

/// What happened up to some point is not changed by what is reported later:
/// the state then, the answers until then, and that the events until then were
/// awaited.
pub proof fn lemma_prefix(state: DownloadView, events: Seq<EventView>, count: int)
    requires
        0 <= count <= events.len(),
    ensures
        actions_of(state, events.take(count)) == actions_of(state, events).take(count),
        admissible(state, events) ==> admissible(state, events.take(count)),
        count < events.len() ==> actions_of(state, events)[count] == action_for(
            state_after(state, events.take(count)),
            events[count],
        ),
        count < events.len() && admissible(state, events) ==> awaits(
            state_after(state, events.take(count)).phase,
            events[count],
        ),
    decreases events.len(),
{
    lemma_one_action_per_event(state, events);
    if count == events.len() {
        assert(events.take(count) =~= events);
        assert(actions_of(state, events).take(count) =~= actions_of(state, events));
    } else {
        let shorter = events.drop_last();
        lemma_one_action_per_event(state, shorter);
        lemma_prefix(state, shorter, count);
        assert(shorter.take(count) =~= events.take(count));
        assert(actions_of(state, events).take(count) =~= actions_of(state, shorter).take(count));
        if count == shorter.len() {
            assert(shorter.take(count) =~= shorter);
        }
    }
}

/// A download that is finished or was given up waits for nothing: no event
/// is awaited after the one that ended it.
pub proof fn lemma_ended_awaits_nothing(state: DownloadView, events: Seq<EventView>, at: int)
    requires
        admissible(state, events),
        0 <= at < events.len(),
        ({
            let then = state_after(state, events.take(at + 1));
            then.phase is Finished || then.phase is Failed
        }),
    ensures
        at == events.len() - 1,
{
    if at + 1 < events.len() {
        lemma_prefix(state, events, at + 1);
    }
}

/// Every chunk that the stream delivers is handed over for writing, once,
/// unchanged and in its turn, and nothing else is: the chunks written are the
/// chunks received, and so are the bytes they make up.
pub proof fn lemma_bytes_pass_through(state: DownloadView, events: Seq<EventView>)
    requires
        admissible(state, events),
    ensures
        writes(actions_of(state, events)) == chunks(events),
        writes(actions_of(state, events)).flatten() == chunks(events).flatten(),
    decreases events.len(),
{
    if events.len() > 0 {
        lemma_bytes_pass_through(state, events.drop_last());
        assert(actions_of(state, events).drop_last() =~= actions_of(state, events.drop_last()));
    }
}

/// How the received bytes were cut into chunks does not matter to what is
/// written: two runs that receive the same bytes hand over the same bytes.
pub proof fn lemma_segmentation_is_irrelevant(
    first: DownloadView,
    first_events: Seq<EventView>,
    second: DownloadView,
    second_events: Seq<EventView>,
)
    requires
        admissible(first, first_events),
        admissible(second, second_events),
        chunks(first_events).flatten() == chunks(second_events).flatten(),
    ensures
        writes(actions_of(first, first_events)).flatten() == writes(
            actions_of(second, second_events),
        ).flatten(),
{
    lemma_bytes_pass_through(first, first_events);
    lemma_bytes_pass_through(second, second_events);
}

/// An answer that gives the download up, or closes it, is the last one:
/// nothing is asked for after it, so nothing that was written is touched again.
pub proof fn lemma_end_is_last(state: DownloadView, events: Seq<EventView>, at: int)
    requires
        admissible(state, events),
        0 <= at < events.len(),
        actions_of(state, events)[at] is Fail || actions_of(state, events)[at] is Finish,
    ensures
        at == events.len() - 1,
{
    lemma_prefix(state, events, at);
    assert(events.take(at + 1).drop_last() =~= events.take(at));
    lemma_ended_awaits_nothing(state, events, at);
}

/// When a chunk cannot be written the download is given up with `FileWrite`,
/// at once and for good: that answer is the last one, the answers before it
/// are what they were without the failure, and the chunks handed over for
/// writing are the chunks received, the one that failed being the last.
pub proof fn lemma_write_failure_ends_run(state: DownloadView, events: Seq<EventView>, at: int)
    requires
        admissible(state, events),
        0 <= at < events.len(),
        events[at] is WriteFailed,
    ensures
        at == events.len() - 1,
        actions_of(state, events)[at] == (ActionView::Fail {
            error: DownloadErrorView::FileWrite,
        }),
        actions_of(state, events).take(at) == actions_of(state, events.take(at)),
        writes(actions_of(state, events)) == chunks(events.take(at)),
        state_after(state, events).phase is Failed,
{
    lemma_prefix(state, events, at);
    lemma_end_is_last(state, events, at);
    assert(events.take(at) =~= events.drop_last());
    lemma_bytes_pass_through(state, events);
}

/// A response that declares no total size ends the download with
/// `MissingLength`: it is the only event of the run and its answer the only
/// answer, so the destination is never asked to be created.
pub proof fn lemma_missing_length_ends_run(
    url: Seq<char>,
    path: Seq<char>,
    events: Seq<EventView>,
)
    requires
        admissible(start(url, path), events),
        events.len() > 0,
        events[0] == (EventView::Response { declared_length: None }),
    ensures
        events.len() == 1,
        actions_of(start(url, path), events) == seq![
            ActionView::Fail { error: DownloadErrorView::MissingLength { url } },
        ],
        state_after(start(url, path), events).phase is Failed,
{
    let state = start(url, path);
    assert(events.take(1).drop_last() =~= events.take(0));
    assert(events.take(0) =~= Seq::<EventView>::empty());
    assert(state_after(state, events.take(1)).phase is Failed);
    lemma_ended_awaits_nothing(state, events, 0);
    lemma_one_action_per_event(state, events);
    lemma_prefix(state, events, 0);
    assert(actions_of(state, events) =~= seq![
        ActionView::Fail { error: DownloadErrorView::MissingLength { url } },
    ]);
}

/// What a run from the beginning looks like, phase by phase.
proof fn lemma_run_shape(url: Seq<char>, path: Seq<char>, events: Seq<EventView>)
    requires
        admissible(start(url, path), events),
    ensures
        ({
            let state = state_after(start(url, path), events);
            let positions = reported(actions_of(start(url, path), events));
            let received = sizes(chunks(events));
            &&& state.url == url
            &&& state.path == path
            &&& positions.len() <= received.len()
            &&& forall|k: int|
                0 <= k < positions.len() ==> #[trigger] positions[k] == position_after(
                    state.total,
                    received.take(k + 1),
                )
            &&& events.len() > 0 ==> (events[0] matches EventView::Response {
                declared_length: Some(total),
            } ==> state.total == total)
            &&& match state.phase {
                Phase::Requesting => events.len() == 0 && received.len() == 0,
                Phase::Opening => received.len() == 0 && state.position == 0,
                Phase::Reading | Phase::Finished => {
                    &&& positions.len() == received.len()
                    &&& state.position == position_after(state.total, received)
                },
                Phase::Writing => {
                    &&& positions.len() + 1 == received.len()
                    &&& state.pending == received.last()
                    &&& state.position == position_after(state.total, received.drop_last())
                },
                Phase::Failed => true,
            }
        }),
    decreases events.len(),
{
    let begin = start(url, path);
    if events.len() > 0 {
        let earlier = events.drop_last();
        lemma_run_shape(url, path, earlier);
        let before = state_after(begin, earlier);
        let state = state_after(begin, events);
        let positions = reported(actions_of(begin, events));
        let received = sizes(chunks(events));
        let positions_before = reported(actions_of(begin, earlier));
        let received_before = sizes(chunks(earlier));
        assert(actions_of(begin, events).drop_last() =~= actions_of(begin, earlier));
        if earlier.len() > 0 {
            assert(earlier[0] == events[0]);
        }
        match events.last() {
            EventView::Chunk { bytes } => {
                assert(received =~= received_before.push(bytes.len()));
                assert(received.drop_last() =~= received_before);
                assert forall|k: int| 0 <= k < positions.len() implies #[trigger] positions[k]
                    == position_after(state.total, received.take(k + 1)) by {
                    assert(received.take(k + 1) =~= received_before.take(k + 1));
                }
            },
            EventView::Written => {
                assert(received =~= received_before);
                assert(positions =~= positions_before.push(state.position));
                assert(received.drop_last().push(received.last()) =~= received);
                assert forall|k: int| 0 <= k < positions.len() implies #[trigger] positions[k]
                    == position_after(state.total, received.take(k + 1)) by {
                    if k == positions.len() - 1 {
                        assert(received.take(k + 1) =~= received);
                    }
                }
            },
            _ => {
                assert(received =~= received_before);
                assert(positions =~= positions_before);
            },
        }
    }
}

/// The position reported after each chunk is the number of bytes in the
/// chunks written so far, or the declared total size where they are more:
/// the display never shows more than was declared.
pub proof fn lemma_reported_positions(
    url: Seq<char>,
    path: Seq<char>,
    total: nat,
    events: Seq<EventView>,
    k: int,
)
    requires
        admissible(start(url, path), events),
        events.len() > 0,
        events[0] == (EventView::Response { declared_length: Some(total) }),
        0 <= k < reported(actions_of(start(url, path), events)).len(),
    ensures
        k < chunks(events).len(),
        reported(actions_of(start(url, path), events))[k] == position_after(
            total,
            sizes(chunks(events)).take(k + 1),
        ),
{
    lemma_run_shape(url, path, events);
}

/// The reported positions never decrease and never exceed the declared total
/// size, whatever the sizes of the chunks.
pub proof fn lemma_reported_never_decrease(
    url: Seq<char>,
    path: Seq<char>,
    total: nat,
    events: Seq<EventView>,
    earlier: int,
    later: int,
)
    requires
        admissible(start(url, path), events),
        events.len() > 0,
        events[0] == (EventView::Response { declared_length: Some(total) }),
        0 <= earlier <= later < reported(actions_of(start(url, path), events)).len(),
    ensures
        reported(actions_of(start(url, path), events))[earlier] <= reported(
            actions_of(start(url, path), events),
        )[later] <= total,
{
    lemma_run_shape(url, path, events);
    lemma_position_monotonic(total, sizes(chunks(events)), earlier + 1, later + 1);
}

/// A download that finished has reported a position for every chunk received,
/// and stands at the number of bytes received, or at the declared total size
/// where more than that arrived.
pub proof fn lemma_finished_position(
    url: Seq<char>,
    path: Seq<char>,
    total: nat,
    events: Seq<EventView>,
)
    requires
        admissible(start(url, path), events),
        events.len() > 0,
        events[0] == (EventView::Response { declared_length: Some(total) }),
        state_after(start(url, path), events).phase is Finished,
    ensures
        reported(actions_of(start(url, path), events)).len() == chunks(events).len(),
        state_after(start(url, path), events).position == position_after(
            total,
            sizes(chunks(events)),
        ),
{
    lemma_run_shape(url, path, events);
}

} // verus!
