//! What holds of a playlist over any run of operations.
//!
//! A run is a sequence of the transitions of [`PlaylistState`]; every
//! operation of [`crate::playlist::Playlist`] is one of them or a few in a
//! row, so what is proved here of all runs holds however requests, polls,
//! draws and resolutions interleave.

use crate::state::{
    at_most, lemma_loaded_inv, lemma_pruned_inv, lemma_remove_value, lemma_without_candidate_inv,
    PlaylistState, AUTOPLAYLIST_TARGET,
};
use crate::track::{AutoEntryView, QueueEntryView, UserEntryView};
use vstd::prelude::*;

verus! {

/// One transition of a playlist.
pub enum Op {
    /// A user request with a resolved title is queued.
    Push(UserEntryView),
    /// What is ready is handed out.
    Poll,
    /// An empty refill buffer is filled from the store.
    Refill,
    /// A candidate is drawn at a position of the refill buffer; nothing
    /// happens where the buffer has no such position.
    Draw(int),
    /// The outcome of resolving a URL is recorded.
    Resolved(Seq<char>, Option<Seq<char>>),
}

/// The playlist after one transition.
pub open spec fn step(state: PlaylistState, op: Op) -> PlaylistState {
    match op {
        Op::Push(entry) => state.pushed(entry),
        Op::Poll => state.polled(),
        Op::Refill => state.refilled(),
        Op::Draw(index) => if state.can_draw(index) {
            state.drawn(index)
        } else {
            state
        },
        Op::Resolved(url, title) => state.resolved(url, title),
    }
}

/// The playlist after a run of transitions.
pub open spec fn run(state: PlaylistState, ops: Seq<Op>) -> PlaylistState
    decreases ops.len(),
{
    if ops.len() == 0 {
        state
    } else {
        step(run(state, ops.drop_last()), ops.last())
    }
}

/// The user requests that a run queues, in the order of their arrival.
pub open spec fn requested(ops: Seq<Op>) -> Seq<UserEntryView>
    decreases ops.len(),
{
    if ops.len() == 0 {
        Seq::empty()
    } else {
        match ops.last() {
            Op::Push(entry) => requested(ops.drop_last()).push(entry),
            _ => requested(ops.drop_last()),
        }
    }
}

/// The user requests that the polls of a run hand out, in the order in which
/// they are handed out.
pub open spec fn played(state: PlaylistState, ops: Seq<Op>) -> Seq<UserEntryView>
    decreases ops.len(),
{
    if ops.len() == 0 {
        Seq::empty()
    } else {
        let before = run(state, ops.drop_last());
        if ops.last() is Poll && before.regular.len() > 0 {
            played(state, ops.drop_last()).push(before.regular[0])
        } else {
            played(state, ops.drop_last())
        }
    }
}

/// How often `url` stands in a queue of user requests.
pub open spec fn occurrences(queue: Seq<UserEntryView>, url: Seq<char>) -> nat
    decreases queue.len(),
{
    if queue.len() == 0 {
        0
    } else {
        let earlier = occurrences(queue.drop_last(), url);
        if queue.last().url == url {
            earlier + 1
        } else {
            earlier
        }
    }
}

/// The titles of a queue of user requests.
pub open spec fn request_titles(queue: Seq<UserEntryView>) -> Seq<Seq<char>> {
    queue.map_values(|entry: UserEntryView| entry.title)
}

/// The titles of a queue of resolved autoplaylist tracks.
pub open spec fn ready_titles(queue: Seq<AutoEntryView>) -> Seq<Seq<char>> {
    queue.map_values(|entry: AutoEntryView| entry.title)
}

/// Every transition keeps the invariant of the playlist.
pub proof fn law_step_keeps_invariant(state: PlaylistState, op: Op)
    requires
        state.inv(),
    ensures
        step(state, op).inv(),
{
    match op {
        Op::Draw(index) => {
            if state.can_draw(index) {
                lemma_without_candidate_inv(state.refilled(), index);
            }
        },
        Op::Resolved(url, title) => {
            if title is None {
                lemma_pruned_inv(state, url);
            }
        },
        _ => {},
    }
}

/// The invariant holds after every run: no URL is twice in the store or in
/// the refill buffer, and the buffer holds URLs of the store only.
pub proof fn law_run_keeps_invariant(state: PlaylistState, ops: Seq<Op>)
    requires
        state.inv(),
    ensures
        run(state, ops).inv(),
    decreases ops.len(),
{
    if ops.len() > 0 {
        law_run_keeps_invariant(state, ops.drop_last());
        law_step_keeps_invariant(run(state, ops.drop_last()), ops.last());
    }
}

/// User requests are neither lost nor doubled nor reordered: after any run,
/// the requests handed out so far, followed by those that still wait, are the
/// requests that waited at the start followed by those that arrived, in the
/// order of their arrival.
pub proof fn law_requests_are_served_in_order(state: PlaylistState, ops: Seq<Op>)
    ensures
        played(state, ops) + run(state, ops).regular == state.regular + requested(ops),
    decreases ops.len(),
{
    if ops.len() == 0 {
        assert(played(state, ops) + run(state, ops).regular =~= state.regular + requested(ops));
    } else {
        let earlier = ops.drop_last();
        let before = run(state, earlier);
        law_requests_are_served_in_order(state, earlier);
        assert(played(state, earlier) + before.regular == state.regular + requested(earlier));
        match ops.last() {
            Op::Push(entry) => {
                assert(played(state, ops) + run(state, ops).regular =~= (played(state, earlier)
                    + before.regular).push(entry));
                assert(state.regular + requested(ops) =~= (state.regular + requested(
                    earlier,
                )).push(entry));
            },
            Op::Poll => {
                if before.regular.len() > 0 {
                    assert(played(state, ops) + run(state, ops).regular =~= played(state, earlier)
                        + before.regular);
                }
            },
            _ => {},
        }
    }
}

/// The listing of the queue shows the waiting user requests in the order of
/// their arrival, and all of them before any autoplaylist track: after any
/// run, its titles are those of the requests that were not handed out yet,
/// followed by those of the resolved autoplaylist tracks.
pub proof fn law_listing_puts_requests_first(state: PlaylistState, ops: Seq<Op>)
    ensures
        played(state, ops).len() <= (state.regular + requested(ops)).len(),
        run(state, ops).titles() == request_titles(
            (state.regular + requested(ops)).skip(played(state, ops).len() as int),
        ) + ready_titles(run(state, ops).auto),
{
    law_requests_are_served_in_order(state, ops);
    let all = state.regular + requested(ops);
    let done = played(state, ops);
    let waiting = run(state, ops).regular;
    assert(all.len() == done.len() + waiting.len());
    assert(all.skip(done.len() as int) =~= waiting);
}

/// A poll hands out a user request whenever one waits, and then the oldest
/// one; an autoplaylist track is handed out only when no user request waits.
pub proof fn law_poll_prefers_requests(state: PlaylistState)
    ensures
        state.regular.len() > 0 ==> state.next_entry() == Some(
            QueueEntryView::User(state.regular[0]),
        ) && state.polled().regular == state.regular.drop_first() && state.polled().auto
            == state.auto,
        state.next_entry() matches Some(entry) && entry is Auto ==> state.regular.len() == 0,
        state.polled().store == state.store,
        state.polled().buffer == state.buffer,
{
}

/// Counting from the front: the first request counts if it is for `url`, and
/// the rest count as they do alone.
pub proof fn lemma_occurrences_front(queue: Seq<UserEntryView>, url: Seq<char>)
    requires
        queue.len() > 0,
    ensures
        occurrences(queue, url) == occurrences(queue.drop_first(), url) + if queue[0].url == url {
            1nat
        } else {
            0nat
        },
    decreases queue.len(),
{
    if queue.len() == 1 {
        assert(queue.drop_last() =~= queue.drop_first());
        assert(occurrences(queue.drop_first(), url) == 0);
    } else {
        let shorter = queue.drop_last();
        lemma_occurrences_front(shorter, url);
        assert(shorter.drop_first() =~= queue.drop_first().drop_last());
        assert(queue.drop_first().last() == queue.last());
        assert(shorter[0] == queue[0]);
    }
}

/// A request that is queued adds exactly one entry with its URL to the
/// regular queue, and none with another URL. So a URL that no waiting request
/// names stands in the queue exactly once afterwards.
pub proof fn law_push_adds_exactly_one(state: PlaylistState, entry: UserEntryView, url: Seq<char>)
    ensures
        occurrences(state.pushed(entry).regular, entry.url) == occurrences(
            state.regular,
            entry.url,
        ) + 1,
        url != entry.url ==> occurrences(state.pushed(entry).regular, url) == occurrences(
            state.regular,
            url,
        ),
        occurrences(state.regular, entry.url) == 0 ==> occurrences(
            state.pushed(entry).regular,
            entry.url,
        ) == 1,
{
    assert(state.regular.push(entry).drop_last() =~= state.regular);
}

/// A poll that hands out a user request removes exactly one entry with its
/// URL from the regular queue, and none with another URL.
pub proof fn law_poll_removes_exactly_one(state: PlaylistState, url: Seq<char>)
    requires
        state.regular.len() > 0,
    ensures
        occurrences(state.polled().regular, state.regular[0].url) + 1 == occurrences(
            state.regular,
            state.regular[0].url,
        ),
        url != state.regular[0].url ==> occurrences(state.polled().regular, url) == occurrences(
            state.regular,
            url,
        ),
{
    lemma_occurrences_front(state.regular, state.regular[0].url);
    lemma_occurrences_front(state.regular, url);
}

/// The playlist after rounds in which every resolution fails: in each round
/// a candidate is drawn at the next of `picks` and is pruned.
pub open spec fn after_failures(state: PlaylistState, picks: Seq<int>) -> PlaylistState
    decreases picks.len(),
{
    if picks.len() == 0 {
        state
    } else {
        let before = after_failures(state, picks.drop_last());
        before.drawn(picks.last()).resolved(before.candidate(picks.last()), None)
    }
}

/// Whether every one of `picks` is a position of the refill buffer in the
/// round in which it is drawn.
pub open spec fn draws_possible(state: PlaylistState, picks: Seq<int>) -> bool
    decreases picks.len(),
{
    if picks.len() == 0 {
        true
    } else {
        draws_possible(state, picks.drop_last()) && after_failures(
            state,
            picks.drop_last(),
        ).can_draw(picks.last())
    }
}

/// While the store holds a URL a candidate can be drawn, and it is a URL of
/// the store.
pub proof fn law_draw_is_possible(state: PlaylistState)
    requires
        state.inv(),
        state.store.len() > 0,
    ensures
        state.can_draw(0),
        forall|index: int|
            state.can_draw(index) ==> state.store.contains(#[trigger] state.candidate(index)),
{
    assert forall|index: int| state.can_draw(index) implies state.store.contains(
        #[trigger] state.candidate(index),
    ) by {
        let refilled = state.refilled();
        assert(refilled.inv());
        assert(refilled.store.contains(refilled.buffer[index]));
    }
}

/// A store whose URLs all fail to resolve prunes itself: every failed round
/// takes exactly one URL out of the store, so a store of N URLs is empty
/// after N rounds, whichever candidates are drawn. From then on nothing can
/// be drawn, and with no user request waiting a poll is idle and asks for no
/// resolution.
pub proof fn law_failing_store_empties(state: PlaylistState, picks: Seq<int>)
    requires
        state.inv(),
        draws_possible(state, picks),
    ensures
        after_failures(state, picks).inv(),
        after_failures(state, picks).store.len() == state.store.len() - picks.len(),
        after_failures(state, picks).regular == state.regular,
        after_failures(state, picks).auto == state.auto,
        picks.len() == state.store.len() ==> {
            &&& after_failures(state, picks).store.len() == 0
            &&& after_failures(state, picks).buffer.len() == 0
            &&& !after_failures(state, picks).drained()
            &&& forall|index: int| !after_failures(state, picks).can_draw(index)
            &&& state.regular.len() == 0 ==> after_failures(state, picks).next_entry() is None
        },
    decreases picks.len(),
{
    if picks.len() > 0 {
        let earlier = picks.drop_last();
        let index = picks.last();
        let before = after_failures(state, earlier);
        law_failing_store_empties(state, earlier);
        let url = before.candidate(index);
        let drawn = before.drawn(index);
        lemma_without_candidate_inv(before.refilled(), index);
        assert(before.refilled().store.contains(before.refilled().buffer[index]));
        assert(drawn.store.contains(url));
        lemma_pruned_inv(drawn, url);
        lemma_remove_value(drawn.store, url);
    }
    let after = after_failures(state, picks);
    if picks.len() == state.store.len() {
        assert(after.buffer.len() == 0) by {
            if after.buffer.len() > 0 {
                assert(after.store.contains(after.buffer[0]));
            }
        }
    }
}

/// The URLs of a queue of resolved autoplaylist tracks.
pub open spec fn ready_urls(queue: Seq<AutoEntryView>) -> Seq<Seq<char>> {
    queue.map_values(|entry: AutoEntryView| entry.url)
}

/// The playlist after rounds of priming, each taken as one step: a candidate
/// is drawn at a position of the refill buffer, and the outcome of resolving
/// it is recorded.
pub open spec fn primed(state: PlaylistState, rounds: Seq<(int, Option<Seq<char>>)>) -> PlaylistState
    decreases rounds.len(),
{
    if rounds.len() == 0 {
        state
    } else {
        let before = primed(state, rounds.drop_last());
        let (index, title) = rounds.last();
        before.without_candidate(index).resolved(before.buffer[index], title)
    }
}

/// Whether every one of `rounds` can take place: when its turn comes a title
/// is missing, and the refill buffer has the position that is drawn.
pub open spec fn priming_possible(
    state: PlaylistState,
    rounds: Seq<(int, Option<Seq<char>>)>,
) -> bool
    decreases rounds.len(),
{
    if rounds.len() == 0 {
        true
    } else {
        let before = primed(state, rounds.drop_last());
        &&& priming_possible(state, rounds.drop_last())
        &&& before.shortfall() > 0
        &&& 0 <= rounds.last().0 < before.buffer.len()
    }
}

/// What priming keeps true of a playlist that started with a full refill
/// buffer and an empty autoplaylist queue: the ready tracks have distinct
/// URLs, all of the store and none of the buffer; they are no more than the
/// target; and every URL of the store is either ready or still in the buffer.
pub open spec fn priming_inv(state: PlaylistState) -> bool {
    &&& state.inv()
    &&& ready_urls(state.auto).no_duplicates()
    &&& forall|i: int|
        0 <= i < state.auto.len() ==> state.store.contains(#[trigger] ready_urls(state.auto)[i])
            && !state.buffer.contains(ready_urls(state.auto)[i])
    &&& state.auto.len() <= AUTOPLAYLIST_TARGET
    &&& state.store.len() == state.auto.len() + state.buffer.len()
}

/// One round of priming keeps what priming keeps true.
proof fn lemma_priming_round(state: PlaylistState, index: int, title: Option<Seq<char>>)
    requires
        priming_inv(state),
        state.shortfall() > 0,
        0 <= index < state.buffer.len(),
    ensures
        priming_inv(state.without_candidate(index).resolved(state.buffer[index], title)),
{
    let url = state.buffer[index];
    let drawn = state.without_candidate(index);
    let after = drawn.resolved(url, title);
    lemma_without_candidate_inv(state, index);
    assert(state.buffer.contains(url));
    assert(state.store.contains(state.buffer[index]));
    let urls = ready_urls(state.auto);
    assert forall|i: int| 0 <= i < urls.len() implies urls[i] != url by {
        assert(!state.buffer.contains(ready_urls(state.auto)[i]));
    }
    match title {
        Some(title) => {
            let entry = AutoEntryView { title, url };
            assert(ready_urls(after.auto) =~= urls.push(url));
            assert forall|i: int| 0 <= i < after.auto.len() implies after.store.contains(
                #[trigger] ready_urls(after.auto)[i],
            ) && !after.buffer.contains(ready_urls(after.auto)[i]) by {
                if i < urls.len() {
                    assert(ready_urls(after.auto)[i] == ready_urls(state.auto)[i]);
                    assert(!state.buffer.contains(ready_urls(state.auto)[i]));
                }
            }
        },
        None => {
            lemma_pruned_inv(drawn, url);
            lemma_remove_value(drawn.store, url);
            lemma_remove_value(drawn.buffer, url);
            assert forall|i: int| 0 <= i < after.auto.len() implies after.store.contains(
                #[trigger] ready_urls(after.auto)[i],
            ) && !after.buffer.contains(ready_urls(after.auto)[i]) by {
                assert(state.store.contains(ready_urls(state.auto)[i]));
                assert(!state.buffer.contains(ready_urls(state.auto)[i]));
                assert(urls[i] != url);
            }
        },
    }
}

/// Priming fills the autoplaylist queue to the target without resolving any
/// URL twice. Starting from a playlist as it is loaded, after any rounds of
/// priming the ready tracks have distinct URLs of the store, and they are no
/// more than the target or the store. While a title is missing the refill
/// buffer still holds a candidate, so priming never waits for a refill; once
/// none is missing, exactly as many tracks are ready as the target asks for,
/// or as the store holds if those are fewer.
pub proof fn law_priming_fills_the_queue(
    lines: Seq<Seq<char>>,
    rounds: Seq<(int, Option<Seq<char>>)>,
)
    requires
        priming_possible(PlaylistState::loaded(lines), rounds),
    ensures
        priming_inv(primed(PlaylistState::loaded(lines), rounds)),
        primed(PlaylistState::loaded(lines), rounds).auto.len() <= at_most(
            AUTOPLAYLIST_TARGET as int,
            primed(PlaylistState::loaded(lines), rounds).store.len() as int,
        ),
        primed(PlaylistState::loaded(lines), rounds).shortfall() > 0 ==> primed(
            PlaylistState::loaded(lines),
            rounds,
        ).buffer.len() > 0,
        primed(PlaylistState::loaded(lines), rounds).shortfall() == 0 ==> primed(
            PlaylistState::loaded(lines),
            rounds,
        ).auto.len() == at_most(
            AUTOPLAYLIST_TARGET as int,
            primed(PlaylistState::loaded(lines), rounds).store.len() as int,
        ),
    decreases rounds.len(),
{
    let start = PlaylistState::loaded(lines);
    if rounds.len() == 0 {
        lemma_loaded_inv(lines);
        assert(ready_urls(start.auto) =~= Seq::<Seq<char>>::empty());
    } else {
        law_priming_fills_the_queue(lines, rounds.drop_last());
        let before = primed(start, rounds.drop_last());
        lemma_priming_round(before, rounds.last().0, rounds.last().1);
    }
}

/// Recording the outcome for a URL that is not in the refill buffer and
/// drawing a candidate can take place in either order. So a batch of
/// candidates that is drawn before any outcome is recorded leaves the
/// playlist as rounds of one candidate each do.
pub proof fn law_outcome_and_draw_commute(
    state: PlaylistState,
    url: Seq<char>,
    title: Option<Seq<char>>,
    index: int,
)
    requires
        state.inv(),
        !state.buffer.contains(url),
        0 <= index < state.buffer.len(),
    ensures
        state.resolved(url, title).without_candidate(index) == state.without_candidate(
            index,
        ).resolved(url, title),
{
    if title is None {
        lemma_without_candidate_inv(state, index);
        lemma_remove_value(state.buffer, url);
        lemma_remove_value(state.without_candidate(index).buffer, url);
    }
}

} // verus!
