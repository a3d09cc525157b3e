//! The mathematical model of a playlist: four sequences and the transitions
//! between them. Every operation of [`crate::playlist::Playlist`] is specified
//! as one of these transitions.

use crate::track::{is_track_url_spec, AutoEntryView, QueueEntryView, UserEntryView};
use vstd::prelude::*;

verus! {

/// How many resolved autoplaylist tracks the queue tries to keep ready.
pub const AUTOPLAYLIST_TARGET: usize = 5;

/// The value of a playlist.
///
/// `store` is the set of known autoplaylist URLs, kept as a sequence without
/// repeats; `buffer` holds the URLs of the store that have not been drawn since
/// the last refill; `regular` is the queue of user requests, oldest first;
/// `auto` is the queue of autoplaylist tracks whose titles are resolved.
pub struct PlaylistState {
    pub store: Seq<Seq<char>>,
    pub buffer: Seq<Seq<char>>,
    pub regular: Seq<UserEntryView>,
    pub auto: Seq<AutoEntryView>,
}

/// The URLs among `lines`, each once, in the order of their first appearance.
pub open spec fn distinct_urls(lines: Seq<Seq<char>>) -> Seq<Seq<char>>
    decreases lines.len(),
{
    if lines.len() == 0 {
        Seq::empty()
    } else {
        let earlier = distinct_urls(lines.drop_last());
        let line = lines.last();
        if is_track_url_spec(line) && !earlier.contains(line) {
            earlier.push(line)
        } else {
            earlier
        }
    }
}

/// The smaller of two numbers.
pub open spec fn at_most(a: int, b: int) -> int {
    if a <= b {
        a
    } else {
        b
    }
}

impl PlaylistState {
    /// What holds of every playlist: no URL is twice in the store or twice in
    /// the buffer, and the buffer holds URLs of the store only.
    pub open spec fn inv(self) -> bool {
        &&& self.store.no_duplicates()
        &&& self.buffer.no_duplicates()
        &&& forall|i: int|
            0 <= i < self.buffer.len() ==> self.store.contains(#[trigger] self.buffer[i])
    }

    /// The playlist made from the lines of an autoplaylist file: the store
    /// holds the URLs among them, the buffer is a full copy of the store, and
    /// both queues are empty.
    pub open spec fn loaded(lines: Seq<Seq<char>>) -> Self {
        let store = distinct_urls(lines);
        PlaylistState { store, buffer: store, regular: Seq::empty(), auto: Seq::empty() }
    }

    /// The titles in playing order: user requests first, then the resolved
    /// autoplaylist tracks.
    pub open spec fn titles(self) -> Seq<Seq<char>> {
        self.regular.map_values(|entry: UserEntryView| entry.title) + self.auto.map_values(
            |entry: AutoEntryView| entry.title,
        )
    }

    /// A user request joins the end of the regular queue.
    pub open spec fn pushed(self, entry: UserEntryView) -> Self {
        PlaylistState { regular: self.regular.push(entry), ..self }
    }

    /// The entry that a poll hands out: the oldest user request, else, while
    /// the store holds anything, the oldest resolved autoplaylist track.
    pub open spec fn next_entry(self) -> Option<QueueEntryView> {
        if self.regular.len() > 0 {
            Some(QueueEntryView::User(self.regular[0]))
        } else if self.store.len() > 0 && self.auto.len() > 0 {
            Some(QueueEntryView::Auto(self.auto[0]))
        } else {
            None
        }
    }

    /// The playlist without the entry that [`Self::next_entry`] names.
    pub open spec fn polled(self) -> Self {
        if self.regular.len() > 0 {
            PlaylistState { regular: self.regular.drop_first(), ..self }
        } else if self.store.len() > 0 && self.auto.len() > 0 {
            PlaylistState { auto: self.auto.drop_first(), ..self }
        } else {
            self
        }
    }

    /// Tracks are known but none is ready: no user request waits and no
    /// autoplaylist title is resolved.
    pub open spec fn drained(self) -> bool {
        self.regular.len() == 0 && self.store.len() > 0 && self.auto.len() == 0
    }

    /// An empty buffer is filled with a copy of the store; any other buffer
    /// stays as it is.
    pub open spec fn refilled(self) -> Self {
        if self.buffer.len() == 0 {
            PlaylistState { buffer: self.store, ..self }
        } else {
            self
        }
    }

    /// The buffer gives up the URL at `index`: the last URL takes its place.
    pub open spec fn without_candidate(self, index: int) -> Self {
        PlaylistState {
            buffer: self.buffer.update(index, self.buffer.last()).drop_last(),
            ..self
        }
    }

    /// Whether the buffer, refilled if it was empty, holds a URL at `index`.
    pub open spec fn can_draw(self, index: int) -> bool {
        0 <= index < self.refilled().buffer.len()
    }

    /// The URL that a draw at `index` hands out.
    pub open spec fn candidate(self, index: int) -> Seq<char> {
        self.refilled().buffer[index]
    }

    /// The playlist after a draw at `index`: the buffer is refilled if it was
    /// empty and then gives up the URL at `index`.
    pub open spec fn drawn(self, index: int) -> Self {
        self.refilled().without_candidate(index)
    }

    /// Whether the buffer can give up one URL after the other at the
    /// positions `picks`, each taken in the buffer as the earlier ones left it.
    pub open spec fn can_take_all(self, picks: Seq<int>) -> bool {
        forall|k: int| 0 <= k < picks.len() ==> 0 <= #[trigger] picks[k] < self.buffer.len() - k
    }

    /// The playlist after the buffer gave up the URLs at `picks`.
    pub open spec fn without_candidates(self, picks: Seq<int>) -> Self
        decreases picks.len(),
    {
        if picks.len() == 0 {
            self
        } else {
            self.without_candidates(picks.drop_last()).without_candidate(picks.last())
        }
    }

    /// The URLs that the buffer gives up at `picks`, in that order.
    pub open spec fn candidates(self, picks: Seq<int>) -> Seq<Seq<char>>
        decreases picks.len(),
    {
        if picks.len() == 0 {
            Seq::empty()
        } else {
            self.candidates(picks.drop_last()).push(
                self.without_candidates(picks.drop_last()).buffer[picks.last()],
            )
        }
    }

    /// A resolved autoplaylist track joins the end of its queue.
    pub open spec fn appended(self, entry: AutoEntryView) -> Self {
        PlaylistState { auto: self.auto.push(entry), ..self }
    }

    /// A URL that failed to resolve leaves the store, and the buffer with it.
    pub open spec fn pruned(self, url: Seq<char>) -> Self {
        PlaylistState {
            store: self.store.remove_value(url),
            buffer: self.buffer.remove_value(url),
            ..self
        }
    }

    /// The outcome of resolving `url` is recorded: a title makes a ready
    /// autoplaylist entry, a failure prunes the URL.
    pub open spec fn resolved(self, url: Seq<char>, title: Option<Seq<char>>) -> Self {
        match title {
            Some(title) => self.appended(AutoEntryView { title, url }),
            None => self.pruned(url),
        }
    }

    /// The playlist as a round of priming finds it once it has looked at the
    /// refill buffer: refilled if it was empty, but only where a title is
    /// missing at all.
    pub open spec fn primed_from(self) -> Self {
        if self.shortfall() > 0 {
            self.refilled()
        } else {
            self
        }
    }

    /// How many resolved autoplaylist tracks are missing: the target, or the
    /// size of the store if that is smaller, less what is ready.
    pub open spec fn shortfall(self) -> nat {
        let wanted = at_most(AUTOPLAYLIST_TARGET as int, self.store.len() as int);
        if wanted > self.auto.len() {
            (wanted - self.auto.len()) as nat
        } else {
            0
        }
    }
}

/// The URLs among the lines of a file come out without repeats, and a text is
/// among them exactly when it is a line of the file and a track URL.
pub proof fn lemma_distinct_urls(lines: Seq<Seq<char>>)
    ensures
        distinct_urls(lines).no_duplicates(),
        distinct_urls(lines).len() <= lines.len(),
        forall|url: Seq<char>|
            #[trigger] distinct_urls(lines).contains(url) <==> lines.contains(url)
                && is_track_url_spec(url),
    decreases lines.len(),
{
    if lines.len() > 0 {
        let shorter = lines.drop_last();
        let earlier = distinct_urls(shorter);
        let line = lines.last();
        lemma_distinct_urls(shorter);
        assert forall|url: Seq<char>|
            #[trigger] distinct_urls(lines).contains(url) <==> lines.contains(url)
                && is_track_url_spec(url) by {
            if lines.contains(url) {
                let i = choose|i: int| 0 <= i < lines.len() && lines[i] == url;
                if i < shorter.len() {
                    assert(shorter[i] == url);
                }
            }
            if shorter.contains(url) {
                let i = choose|i: int| 0 <= i < shorter.len() && shorter[i] == url;
                assert(lines[i] == url);
            }
            if earlier.contains(url) {
                let i = choose|i: int| 0 <= i < earlier.len() && earlier[i] == url;
                if is_track_url_spec(line) && !earlier.contains(line) {
                    assert(earlier.push(line)[i] == url);
                }
            }
            if is_track_url_spec(line) && !earlier.contains(line) {
                assert(earlier.push(line)[earlier.len() as int] == line);
                assert(lines[lines.len() - 1] == line);
            }
        }
    }
}

/// A freshly loaded playlist satisfies the invariant.
pub proof fn lemma_loaded_inv(lines: Seq<Seq<char>>)
    ensures
        PlaylistState::loaded(lines).inv(),
{
    lemma_distinct_urls(lines);
}

/// Refilling keeps the invariant.
pub proof fn lemma_refilled_inv(state: PlaylistState)
    requires
        state.inv(),
    ensures
        state.refilled().inv(),
{
}

/// Giving up a candidate keeps the invariant.
pub proof fn lemma_without_candidate_inv(state: PlaylistState, index: int)
    requires
        state.inv(),
        0 <= index < state.buffer.len(),
    ensures
        state.without_candidate(index).inv(),
        state.without_candidate(index).buffer.len() == state.buffer.len() - 1,
        !state.without_candidate(index).buffer.contains(state.buffer[index]),
        forall|url: Seq<char>|
            url != state.buffer[index] && state.buffer.contains(url)
                ==> #[trigger] state.without_candidate(index).buffer.contains(url),
        forall|url: Seq<char>|
            #[trigger] state.without_candidate(index).buffer.contains(url)
                ==> state.buffer.contains(url),
{
    let old_buffer = state.buffer;
    let new_buffer = state.without_candidate(index).buffer;
    let last = old_buffer.len() - 1;
    assert forall|i: int| 0 <= i < new_buffer.len() implies new_buffer[i] == old_buffer[if i
        == index {
        last
    } else {
        i
    }] by {}
    assert forall|url: Seq<char>|
        url != old_buffer[index] && old_buffer.contains(url) implies #[trigger] new_buffer.contains(
        url,
    ) by {
        let i = choose|i: int| 0 <= i < old_buffer.len() && old_buffer[i] == url;
        if i == last {
            assert(new_buffer[index] == url);
        } else {
            assert(new_buffer[i] == url);
        }
    }
}

/// A batch of candidates holds no URL twice and comes from the buffer, which
/// keeps exactly the URLs that were not drawn; nothing else changes.
pub proof fn lemma_without_candidates(state: PlaylistState, picks: Seq<int>)
    requires
        state.inv(),
        state.can_take_all(picks),
    ensures
        state.without_candidates(picks).inv(),
        state.without_candidates(picks).store == state.store,
        state.without_candidates(picks).regular == state.regular,
        state.without_candidates(picks).auto == state.auto,
        state.without_candidates(picks).buffer.len() == state.buffer.len() - picks.len(),
        state.candidates(picks).len() == picks.len(),
        state.candidates(picks).no_duplicates(),
        forall|url: Seq<char>|
            #[trigger] state.buffer.contains(url) <==> state.candidates(picks).contains(url)
                || state.without_candidates(picks).buffer.contains(url),
        forall|url: Seq<char>|
            !(#[trigger] state.candidates(picks).contains(url) && state.without_candidates(
                picks,
            ).buffer.contains(url)),
    decreases picks.len(),
{
    if picks.len() > 0 {
        let earlier = picks.drop_last();
        let index = picks.last();
        let before = state.without_candidates(earlier);
        let drawn = state.candidates(earlier);
        assert(state.can_take_all(earlier)) by {
            assert forall|k: int| 0 <= k < earlier.len() implies 0 <= #[trigger] earlier[k]
                < state.buffer.len() - k by {
                assert(earlier[k] == picks[k]);
            }
        }
        lemma_without_candidates(state, earlier);
        assert(0 <= picks[picks.len() - 1] < state.buffer.len() - (picks.len() - 1));
        lemma_without_candidate_inv(before, index);
        let after = before.without_candidate(index);
        let url = before.buffer[index];
        let all = drawn.push(url);
        assert(before.buffer.contains(url));
        assert(!drawn.contains(url));
        assert(all.no_duplicates()) by {
            assert forall|i: int, j: int| 0 <= i < all.len() && 0 <= j < all.len() && i != j implies all[i]
                != all[j] by {
                if i < drawn.len() {
                    assert(drawn.contains(drawn[i]));
                }
                if j < drawn.len() {
                    assert(drawn.contains(drawn[j]));
                }
            }
        }
        assert forall|other: Seq<char>| #[trigger]
            all.contains(other) <==> drawn.contains(other) || other == url by {
            if drawn.contains(other) {
                let i = choose|i: int| 0 <= i < drawn.len() && drawn[i] == other;
                assert(all[i] == other);
            }
            assert(all[all.len() - 1] == url);
        }
        assert forall|other: Seq<char>| #[trigger]
            state.buffer.contains(other) <==> all.contains(other) || after.buffer.contains(
                other,
            ) by {
            assert(all.contains(other) <==> drawn.contains(other) || other == url);
            assert(state.buffer.contains(other) <==> drawn.contains(other) || before.buffer.contains(
                other,
            ));
        }
        assert forall|other: Seq<char>|
            !(#[trigger] all.contains(other) && after.buffer.contains(other)) by {
            assert(all.contains(other) <==> drawn.contains(other) || other == url);
            assert(!(drawn.contains(other) && before.buffer.contains(other)));
        }
    }
}

/// Removing the first occurrence of a value from a sequence without repeats
/// removes the value altogether and nothing else.
pub proof fn lemma_remove_value(urls: Seq<Seq<char>>, url: Seq<char>)
    requires
        urls.no_duplicates(),
    ensures
        urls.remove_value(url).no_duplicates(),
        !urls.remove_value(url).contains(url),
        forall|other: Seq<char>|
            other != url ==> (#[trigger] urls.remove_value(url).contains(other) <==> urls.contains(
                other,
            )),
        urls.contains(url) ==> urls.remove_value(url).len() == urls.len() - 1,
        !urls.contains(url) ==> urls.remove_value(url) == urls,
{
    urls.index_of_first_ensures(url);
    match urls.index_of_first(url) {
        Some(at) => {
            let rest = urls.remove(at);
            urls.remove_ensures(at);
            assert forall|i: int| 0 <= i < rest.len() implies rest[i] == urls[if i < at {
                i
            } else {
                i + 1
            }] by {}
            assert forall|other: Seq<char>| other != url implies (#[trigger] rest.contains(other)
                <==> urls.contains(other)) by {
                if urls.contains(other) {
                    let i = choose|i: int| 0 <= i < urls.len() && urls[i] == other;
                    if i < at {
                        assert(rest[i] == other);
                    } else {
                        assert(rest[i - 1] == other);
                    }
                }
            }
        },
        None => {},
    }
}

/// Pruning keeps the invariant.
pub proof fn lemma_pruned_inv(state: PlaylistState, url: Seq<char>)
    requires
        state.inv(),
    ensures
        state.pruned(url).inv(),
{
    lemma_remove_value(state.store, url);
    lemma_remove_value(state.buffer, url);
    let after = state.pruned(url);
    assert forall|i: int| 0 <= i < after.buffer.len() implies after.store.contains(
        #[trigger] after.buffer[i],
    ) by {
        let kept = after.buffer[i];
        assert(after.buffer.contains(kept));
        assert(state.buffer.contains(kept));
        let j = choose|j: int| 0 <= j < state.buffer.len() && state.buffer[j] == kept;
        assert(state.store.contains(state.buffer[j]));
    }
}

} // verus!
