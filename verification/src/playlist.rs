//! The playback queue: user requests first, then a rolling supply of
//! autoplaylist tracks whose titles are resolved ahead of time.
//!
//! Titles are resolved outside this library. Wherever a resolution is due, an
//! operation hands out the URL, and a later operation takes the outcome.

use crate::error::Error;
use crate::random::random_index;
use crate::state::{
    at_most, distinct_urls, lemma_loaded_inv, lemma_pruned_inv, lemma_without_candidate_inv,
    lemma_without_candidates, PlaylistState, AUTOPLAYLIST_TARGET,
};
use crate::track::{
    is_track_url, is_track_url_spec, AutoEntry, AutoEntryView, ChannelId, QueueEntry, QueueEntryView, UserEntry,
    UserEntryView,
};
use vstd::prelude::*;

verus! {

/// The texts of a sequence of strings.
pub open spec fn texts(strings: Seq<String>) -> Seq<Seq<char>> {
    strings.map_values(|s: String| s@)
}

/// The values of a sequence of user entries.
pub open spec fn user_views(entries: Seq<UserEntry>) -> Seq<UserEntryView> {
    entries.map_values(|entry: UserEntry| entry@)
}

/// The values of a sequence of autoplaylist entries.
pub open spec fn auto_views(entries: Seq<AutoEntry>) -> Seq<AutoEntryView> {
    entries.map_values(|entry: AutoEntry| entry@)
}

/// The text of an optional string.
pub open spec fn text_of(string: Option<String>) -> Option<Seq<char>> {
    match string {
        Some(string) => Some(string@),
        None => None,
    }
}

/// The texts of a sequence with one more string are the texts of the sequence
/// with one more text.
proof fn lemma_texts_push(strings: Seq<String>, last: String)
    ensures
        texts(strings.push(last)) == texts(strings).push(last@),
{
    assert(texts(strings.push(last)) =~= texts(strings).push(last@));
}

/// The same for user entries.
proof fn lemma_user_views_push(entries: Seq<UserEntry>, last: UserEntry)
    ensures
        user_views(entries.push(last)) == user_views(entries).push(last@),
{
    assert(user_views(entries.push(last)) =~= user_views(entries).push(last@));
}

/// The same for autoplaylist entries.
proof fn lemma_auto_views_push(entries: Seq<AutoEntry>, last: AutoEntry)
    ensures
        auto_views(entries.push(last)) == auto_views(entries).push(last@),
{
    assert(auto_views(entries.push(last)) =~= auto_views(entries).push(last@));
}

/// Removing a position from a sequence of strings removes it from the texts.
proof fn lemma_texts_remove(strings: Seq<String>, at: int)
    requires
        0 <= at < strings.len(),
    ensures
        texts(strings.remove(at)) == texts(strings).remove(at),
{
    assert(texts(strings.remove(at)) =~= texts(strings).remove(at));
}

/// Handing the last string the place of another carries over to the texts.
proof fn lemma_texts_swap_remove(strings: Seq<String>, at: int)
    requires
        0 <= at < strings.len(),
    ensures
        texts(strings.update(at, strings.last()).drop_last()) == texts(strings).update(
            at,
            texts(strings).last(),
        ).drop_last(),
{
    assert(texts(strings.update(at, strings.last()).drop_last()) =~= texts(strings).update(
        at,
        texts(strings).last(),
    ).drop_last());
}

/// What a poll asks of its caller.
#[derive(Debug, PartialEq, Eq)]
pub enum PollStep {
    /// Play `entry`. With `replenish` set, one replenishment of the
    /// autoplaylist queue is due: see [`Playlist::draw_candidate`].
    Play { entry: QueueEntry, replenish: bool },
    /// Tracks are known but none is ready. Resolve the title of `url` and hand
    /// the outcome to [`Playlist::poll_resolved`].
    Resolve { url: String },
    /// There is nothing to play.
    Idle,
}

/// Mathematical value of a [`PollStep`].
pub enum PollStepView {
    Play { entry: QueueEntryView, replenish: bool },
    Resolve { url: Seq<char> },
    Idle,
}

impl View for PollStep {
    type V = PollStepView;

    open spec fn view(&self) -> PollStepView {
        match self {
            PollStep::Play { entry, replenish } => PollStepView::Play {
                entry: entry@,
                replenish: *replenish,
            },
            PollStep::Resolve { url } => PollStepView::Resolve { url: url@ },
            PollStep::Idle => PollStepView::Idle,
        }
    }
}

impl PlaylistState {
    /// The step by which a poll ends when it need not resolve anything: the
    /// next entry is played, and an autoplaylist entry calls for a
    /// replenishment.
    pub open spec fn served(self) -> PollStepView {
        match self.next_entry() {
            Some(entry) => PollStepView::Play { entry, replenish: entry is Auto },
            None => PollStepView::Idle,
        }
    }

    /// What a poll does to a playlist. Unless the playlist is drained, what
    /// is ready is handed out. A drained playlist draws a candidate at some
    /// position of its refill buffer and asks for its resolution.
    pub open spec fn polls_to(self, step: PollStepView, after: PlaylistState) -> bool {
        if self.drained() {
            exists|index: int|
                {
                    &&& #[trigger] self.can_draw(index)
                    &&& step == (PollStepView::Resolve { url: self.candidate(index) })
                    &&& after == self.drawn(index)
                }
        } else {
            step == self.served() && after == self.polled()
        }
    }
}

/// The playback queue of one session.
pub struct Playlist {
    autoplaylist: Vec<String>,
    remaining_autoplaylist: Vec<String>,
    regular_queue: Vec<UserEntry>,
    autoplaylist_queue: Vec<AutoEntry>,
}

impl View for Playlist {
    type V = PlaylistState;

    closed spec fn view(&self) -> PlaylistState {
        PlaylistState {
            store: texts(self.autoplaylist@),
            buffer: texts(self.remaining_autoplaylist@),
            regular: user_views(self.regular_queue@),
            auto: auto_views(self.autoplaylist_queue@),
        }
    }
}

/// The first position of `url` among `urls`, if it is there.
fn position(urls: &Vec<String>, url: &String) -> (found: Option<usize>)
    ensures
        match found {
            Some(at) => {
                &&& at < urls.len()
                &&& urls[at as int]@ == url@
                &&& texts(urls@).contains(url@)
                &&& texts(urls@).index_of_first(url@) == Some(at as int)
            },
            None => !texts(urls@).contains(url@),
        },
{
    let mut i: usize = 0;
    while i < urls.len()
        invariant
            i <= urls.len(),
            forall|j: int| 0 <= j < i ==> urls[j]@ != url@,
        decreases urls.len() - i,
    {
        if urls[i] == *url {
            proof {
                let all = texts(urls@);
                all.index_of_first_ensures(url@);
                assert(all[i as int] == url@);
                assert(forall|j: int| 0 <= j < i ==> all[j] != url@);
            }
            return Some(i);
        }
        i += 1;
    }
    proof {
        let all = texts(urls@);
        assert(forall|j: int| 0 <= j < all.len() ==> all[j] != url@);
    }
    None
}

/// A copy of `urls`.
fn copy_of(urls: &Vec<String>) -> (copy: Vec<String>)
    ensures
        texts(copy@) == texts(urls@),
{
    let mut copy: Vec<String> = Vec::new();
    let mut i: usize = 0;
    while i < urls.len()
        invariant
            i <= urls.len(),
            texts(copy@) == texts(urls@).take(i as int),
        decreases urls.len() - i,
    {
        proof {
            lemma_texts_push(copy@, urls[i as int]);
        }
        copy.push(urls[i].clone());
        i += 1;
        assert(texts(copy@) =~= texts(urls@).take(i as int));
    }
    assert(texts(urls@).take(urls.len() as int) =~= texts(urls@));
    copy
}

impl Playlist {
    /// Every playlist satisfies the invariant of its value, at all times.
    #[verifier::type_invariant]
    pub open spec fn well_formed(self) -> bool {
        self@.inv()
    }

    /// Builds the playlist of an autoplaylist file from its lines: the lines
    /// that are track URLs make up the store, each once, and the refill buffer
    /// starts as a full copy of it. No title is resolved yet; see
    /// [`Self::priming_batch`].
    pub fn new(lines: &Vec<String>) -> (playlist: Self)
        ensures
            playlist@ == PlaylistState::loaded(texts(lines@)),
            playlist@.inv(),
    {
        let mut autoplaylist: Vec<String> = Vec::new();
        let mut i: usize = 0;
        while i < lines.len()
            invariant
                i <= lines.len(),
                texts(autoplaylist@) == distinct_urls(texts(lines@).take(i as int)),
            decreases lines.len() - i,
        {
            let line = &lines[i];
            let ghost read = texts(lines@).take(i + 1);
            let ghost earlier = texts(autoplaylist@);
            proof {
                assert(read.drop_last() =~= texts(lines@).take(i as int));
                assert(read.last() == line@);
                assert(read.len() > 0);
                assert(distinct_urls(read) == if is_track_url_spec(line@) && !earlier.contains(line@) {
                    earlier.push(line@)
                } else {
                    earlier
                });
                lemma_texts_push(autoplaylist@, *line);
            }
            if is_track_url(line.as_str()) {
                if position(&autoplaylist, line).is_none() {
                    autoplaylist.push(line.clone());
                    assert(texts(autoplaylist@) == earlier.push(line@));
                }
            }
            i += 1;
        }
        assert(texts(lines@).take(lines.len() as int) =~= texts(lines@));
        let remaining_autoplaylist = copy_of(&autoplaylist);
        let regular_queue: Vec<UserEntry> = Vec::new();
        let autoplaylist_queue: Vec<AutoEntry> = Vec::new();
        proof {
            lemma_loaded_inv(texts(lines@));
            assert(user_views(regular_queue@) =~= Seq::empty());
            assert(auto_views(autoplaylist_queue@) =~= Seq::empty());
        }
        Playlist { autoplaylist, remaining_autoplaylist, regular_queue, autoplaylist_queue }
    }

    /// Moves the playlist out, leaving an empty one behind.
    fn take(&mut self) -> (taken: Self)
        ensures
            taken == *old(self),
            taken@.inv(),
    {
        proof {
            use_type_invariant(&*self);
        }
        let mut taken = Playlist {
            autoplaylist: Vec::new(),
            remaining_autoplaylist: Vec::new(),
            regular_queue: Vec::new(),
            autoplaylist_queue: Vec::new(),
        };
        core::mem::swap(self, &mut taken);
        taken
    }

    /// Fills the refill buffer with a copy of the store if the buffer is
    /// empty, and leaves it alone otherwise.
    pub fn fill_remaining_autoplaylist(&mut self)
        ensures
            final(self)@ == old(self)@.refilled(),
            final(self)@.inv(),
    {
        let Playlist { autoplaylist, remaining_autoplaylist, regular_queue, autoplaylist_queue } =
            self.take();
        let remaining_autoplaylist = if remaining_autoplaylist.is_empty() {
            copy_of(&autoplaylist)
        } else {
            remaining_autoplaylist
        };
        *self =
        Playlist { autoplaylist, remaining_autoplaylist, regular_queue, autoplaylist_queue };
    }

    /// The titles of everything that waits, in playing order: the user
    /// requests, then the resolved autoplaylist tracks.
    pub fn get_queue(&self) -> (titles: Vec<String>)
        ensures
            texts(titles@) == self@.titles(),
    {
        let mut titles: Vec<String> = Vec::new();
        let ghost regular = user_views(self.regular_queue@).map_values(
            |entry: UserEntryView| entry.title,
        );
        let ghost auto = auto_views(self.autoplaylist_queue@).map_values(
            |entry: AutoEntryView| entry.title,
        );
        let mut i: usize = 0;
        while i < self.regular_queue.len()
            invariant
                i <= self.regular_queue.len(),
                regular == user_views(self.regular_queue@).map_values(
                    |entry: UserEntryView| entry.title,
                ),
                texts(titles@) == regular.take(i as int),
            decreases self.regular_queue.len() - i,
        {
            proof {
                lemma_texts_push(titles@, self.regular_queue[i as int].title);
            }
            titles.push(self.regular_queue[i].title.clone());
            i += 1;
            assert(texts(titles@) =~= regular.take(i as int));
        }
        assert(regular.take(regular.len() as int) =~= regular);
        let mut j: usize = 0;
        while j < self.autoplaylist_queue.len()
            invariant
                j <= self.autoplaylist_queue.len(),
                auto == auto_views(self.autoplaylist_queue@).map_values(
                    |entry: AutoEntryView| entry.title,
                ),
                texts(titles@) == regular + auto.take(j as int),
            decreases self.autoplaylist_queue.len() - j,
        {
            proof {
                lemma_texts_push(titles@, self.autoplaylist_queue[j as int].title);
            }
            titles.push(self.autoplaylist_queue[j].title.clone());
            j += 1;
            assert(texts(titles@) =~= regular + auto.take(j as int));
        }
        assert(auto.take(auto.len() as int) =~= auto);
        titles
    }

    /// Takes a user request whose title the caller has tried to resolve.
    ///
    /// With a title the request joins the end of the regular queue and the
    /// title is returned. Without one nothing is queued and the request fails
    /// with [`Error::ResolutionFailed`]. Neither touches the autoplaylist.
    pub fn push(&mut self, url: String, title: Option<String>, channel_id: Option<ChannelId>) -> (added:
        Result<String, Error>)
        ensures
            final(self)@.inv(),
            match title {
                Some(title) => {
                    &&& added matches Ok(returned)
                    &&& returned@ == title@
                    &&& final(self)@ == old(self)@.pushed(
                        (UserEntryView { title: title@, url: url@, requester: channel_id }),
                    )
                },
                None => added == Err::<String, Error>(Error::ResolutionFailed) && final(self)@ == old(
                    self,
                )@,
            },
    {
        proof {
            use_type_invariant(&*self);
        }
        match title {
            Some(title) => {
                let Playlist {
                    autoplaylist,
                    remaining_autoplaylist,
                    regular_queue,
                    autoplaylist_queue,
                } = self.take();
                let mut regular_queue = regular_queue;
                let entry = UserEntry { title: title.clone(), url, requester: channel_id };
                proof {
                    lemma_user_views_push(regular_queue@, entry);
                }
                regular_queue.push(entry);
                *self =
                Playlist {
                    autoplaylist,
                    remaining_autoplaylist,
                    regular_queue,
                    autoplaylist_queue,
                };
                Ok(title)
            },
            None => Err(Error::ResolutionFailed),
        }
    }

    /// Hands out what is ready and asks for no resolution: the oldest user
    /// request, else, while the store holds anything, the oldest resolved
    /// autoplaylist track.
    fn serve(&mut self) -> (step: PollStep)
        ensures
            step@ == old(self)@.served(),
            final(self)@ == old(self)@.polled(),
            final(self)@.inv(),
    {
        let Playlist { autoplaylist, remaining_autoplaylist, regular_queue, autoplaylist_queue } =
            self.take();
        let mut regular_queue = regular_queue;
        let mut autoplaylist_queue = autoplaylist_queue;
        let step = if regular_queue.len() > 0 {
            let ghost before = user_views(regular_queue@);
            let entry = regular_queue.remove(0);
            assert(user_views(regular_queue@) =~= before.drop_first());
            PollStep::Play { entry: QueueEntry::User(entry), replenish: false }
        } else if autoplaylist.len() > 0 && autoplaylist_queue.len() > 0 {
            let ghost before = auto_views(autoplaylist_queue@);
            let entry = autoplaylist_queue.remove(0);
            assert(auto_views(autoplaylist_queue@) =~= before.drop_first());
            PollStep::Play { entry: QueueEntry::Auto(entry), replenish: true }
        } else {
            PollStep::Idle
        };
        *self =
        Playlist { autoplaylist, remaining_autoplaylist, regular_queue, autoplaylist_queue };
        step
    }

    /// Decides what plays next.
    ///
    /// A waiting user request always goes first. Otherwise, while the store
    /// holds anything, the oldest resolved autoplaylist track goes, and one
    /// replenishment is due. If no title is resolved although the store holds
    /// URLs, a candidate is drawn from the refill buffer for the caller to
    /// resolve at once. With nothing known and nothing waiting the poll is
    /// idle and changes nothing.
    pub fn poll(&mut self) -> (step: PollStep)
        ensures
            final(self)@.inv(),
            old(self)@.polls_to(step@, final(self)@),
    {
        proof {
            use_type_invariant(&*self);
        }
        let drained = self.regular_queue.len() == 0 && self.autoplaylist.len() > 0
            && self.autoplaylist_queue.len() == 0;
        if drained {
            match self.draw_candidate() {
                Some(url) => PollStep::Resolve { url },
                None => PollStep::Idle,
            }
        } else {
            self.serve()
        }
    }

    /// Ends a poll that had to resolve a title first: the outcome for `url` is
    /// recorded as by [`Self::finish_resolution`], then whatever is ready is
    /// handed out. No second resolution is asked for: if the title was not
    /// found and nothing else is ready, the poll is idle.
    pub fn poll_resolved(&mut self, url: String, title: Option<String>) -> (step: PollStep)
        ensures
            final(self)@.inv(),
            step@ == old(self)@.resolved(url@, text_of(title)).served(),
            final(self)@ == old(self)@.resolved(url@, text_of(title)).polled(),
    {
        self.finish_resolution(url, title);
        self.serve()
    }

    /// Draws the URL at `index` from the refill buffer, which is refilled from
    /// the store first if it is empty. The URL leaves the buffer before anyone
    /// resolves it. Where the buffer has no such position nothing changes.
    pub fn candidate_at(&mut self, index: usize) -> (url: Option<String>)
        ensures
            final(self)@.inv(),
            match url {
                Some(url) => {
                    &&& old(self)@.can_draw(index as int)
                    &&& url@ == old(self)@.candidate(index as int)
                    &&& final(self)@ == old(self)@.drawn(index as int)
                },
                None => !old(self)@.can_draw(index as int) && final(self)@ == old(self)@,
            },
    {
        proof {
            use_type_invariant(&*self);
        }
        let available = if self.remaining_autoplaylist.is_empty() {
            self.autoplaylist.len()
        } else {
            self.remaining_autoplaylist.len()
        };
        if index >= available {
            return None;
        }
        self.fill_remaining_autoplaylist();
        let Playlist { autoplaylist, remaining_autoplaylist, regular_queue, autoplaylist_queue } =
            self.take();
        let mut remaining_autoplaylist = remaining_autoplaylist;
        proof {
            lemma_texts_swap_remove(remaining_autoplaylist@, index as int);
            lemma_without_candidate_inv(old(self)@.refilled(), index as int);
        }
        let url = remaining_autoplaylist.swap_remove(index);
        *self =
        Playlist { autoplaylist, remaining_autoplaylist, regular_queue, autoplaylist_queue };
        Some(url)
    }

    /// Draws a candidate for resolution at a random position of the refill
    /// buffer, refilled first if it is empty. Nothing is drawn exactly when the
    /// store is empty.
    pub fn draw_candidate(&mut self) -> (url: Option<String>)
        ensures
            final(self)@.inv(),
            url is None <==> old(self)@.store.len() == 0,
            match url {
                Some(url) => exists|index: int|
                    {
                        &&& #[trigger] old(self)@.can_draw(index)
                        &&& url@ == old(self)@.candidate(index)
                        &&& final(self)@ == old(self)@.drawn(index)
                    },
                None => final(self)@ == old(self)@,
            },
    {
        proof {
            use_type_invariant(&*self);
        }
        let available = if self.remaining_autoplaylist.is_empty() {
            self.autoplaylist.len()
        } else {
            self.remaining_autoplaylist.len()
        };
        if available == 0 {
            return None;
        }
        let index = random_index(available);
        assert(old(self)@.can_draw(index as int));
        self.candidate_at(index)
    }

    /// How many resolved autoplaylist tracks are missing.
    pub fn shortfall(&self) -> (missing: usize)
        ensures
            missing == self@.shortfall(),
    {
        let wanted = if self.autoplaylist.len() < AUTOPLAYLIST_TARGET {
            self.autoplaylist.len()
        } else {
            AUTOPLAYLIST_TARGET
        };
        if wanted > self.autoplaylist_queue.len() {
            wanted - self.autoplaylist_queue.len()
        } else {
            0
        }
    }

    /// Draws the candidates of one round of priming: as many as are missing,
    /// or all that the refill buffer holds if those are fewer, each at a random
    /// position of what the earlier ones left. Where any are missing, an empty
    /// buffer is refilled first. The caller resolves them, all at once if it
    /// likes, and reports each outcome to [`Self::finish_resolution`]. An empty
    /// batch says that priming is over, and changes nothing.
    pub fn priming_batch(&mut self) -> (batch: Vec<String>)
        ensures
            final(self)@.inv(),
            batch.len() == at_most(
                old(self)@.shortfall() as int,
                old(self)@.primed_from().buffer.len() as int,
            ),
            exists|picks: Seq<int>|
                {
                    &&& #[trigger] old(self)@.primed_from().can_take_all(picks)
                    &&& texts(batch@) == old(self)@.primed_from().candidates(picks)
                    &&& final(self)@ == old(self)@.primed_from().without_candidates(picks)
                },
            texts(batch@).no_duplicates(),
            forall|i: int|
                0 <= i < batch.len() ==> old(self)@.store.contains(#[trigger] texts(batch@)[i]),
            final(self)@.store == old(self)@.store,
            final(self)@.regular == old(self)@.regular,
            final(self)@.auto == old(self)@.auto,
            final(self)@.buffer.len() == old(self)@.primed_from().buffer.len() - batch.len(),
            batch.len() == 0 <==> old(self)@.shortfall() == 0,
            batch.len() == 0 ==> final(self)@ == old(self)@,
    {
        let missing = self.shortfall();
        if missing > 0 {
            self.fill_remaining_autoplaylist();
        }
        let ghost start = self@;
        let ghost mut picks: Seq<int> = Seq::empty();
        let mut batch: Vec<String> = Vec::new();
        proof {
            use_type_invariant(&*self);
            assert(texts(batch@) =~= start.candidates(picks));
        }
        while batch.len() < missing && self.remaining_len() > 0
            invariant
                start.inv(),
                self@.inv(),
                start.can_take_all(picks),
                picks.len() == batch.len(),
                batch.len() <= missing,
                self@ == start.without_candidates(picks),
                texts(batch@) == start.candidates(picks),
                self@.buffer.len() == start.buffer.len() - picks.len(),
            decreases missing - batch.len(),
        {
            let index = random_index(self.remaining_len());
            let ghost before = self@;
            let url = self.candidate_at(index);
            match url {
                Some(url) => {
                    proof {
                        let longer = picks.push(index as int);
                        assert(longer.drop_last() =~= picks);
                        assert(before.refilled() == before);
                        assert(start.can_take_all(longer)) by {
                            assert forall|k: int| 0 <= k < longer.len() implies 0
                                <= #[trigger] longer[k] < start.buffer.len() - k by {
                                if k < picks.len() {
                                    assert(longer[k] == picks[k]);
                                }
                            }
                        }
                        lemma_texts_push(batch@, url);
                        lemma_without_candidate_inv(before, index as int);
                        picks = longer;
                    }
                    batch.push(url);
                },
                None => {},
            }
        }
        proof {
            lemma_without_candidates(start, picks);
            assert forall|i: int| 0 <= i < batch.len() implies old(self)@.store.contains(
                #[trigger] texts(batch@)[i],
            ) by {
                let url = texts(batch@)[i];
                assert(start.candidates(picks).contains(url));
                assert(start.buffer.contains(url));
                let j = choose|j: int| 0 <= j < start.buffer.len() && start.buffer[j] == url;
                assert(start.store.contains(start.buffer[j]));
            }
        }
        batch
    }

    /// Records the outcome of resolving `url`, a candidate drawn earlier.
    ///
    /// With a title the track joins the end of the autoplaylist queue. Without
    /// one the URL is pruned for good: it leaves the store, and the refill
    /// buffer too if a refill has brought it back meanwhile. The result tells
    /// a replenishment whether to try again with another candidate: it does
    /// after a failure, as long as the store still holds a URL.
    pub fn finish_resolution(&mut self, url: String, title: Option<String>) -> (retry: bool)
        ensures
            final(self)@.inv(),
            final(self)@ == old(self)@.resolved(url@, text_of(title)),
            retry == (title is None && final(self)@.store.len() > 0),
    {
        let Playlist { autoplaylist, remaining_autoplaylist, regular_queue, autoplaylist_queue } =
            self.take();
        let mut autoplaylist = autoplaylist;
        let mut remaining_autoplaylist = remaining_autoplaylist;
        let mut autoplaylist_queue = autoplaylist_queue;
        let retry = match title {
            Some(title) => {
                let entry = AutoEntry { title, url };
                proof {
                    lemma_auto_views_push(autoplaylist_queue@, entry);
                }
                autoplaylist_queue.push(entry);
                false
            },
            None => {
                proof {
                    lemma_pruned_inv(old(self)@, url@);
                }
                match position(&autoplaylist, &url) {
                    Some(at) => {
                        proof {
                            lemma_texts_remove(autoplaylist@, at as int);
                        }
                        autoplaylist.remove(at);
                    },
                    None => {
                        proof {
                            texts(autoplaylist@).index_of_first_ensures(url@);
                        }
                    },
                }
                match position(&remaining_autoplaylist, &url) {
                    Some(at) => {
                        proof {
                            lemma_texts_remove(remaining_autoplaylist@, at as int);
                        }
                        remaining_autoplaylist.remove(at);
                    },
                    None => {
                        proof {
                            texts(remaining_autoplaylist@).index_of_first_ensures(url@);
                        }
                    },
                }
                autoplaylist.len() > 0
            },
        };
        *self =
        Playlist { autoplaylist, remaining_autoplaylist, regular_queue, autoplaylist_queue };
        retry
    }

    /// The number of URLs in the store.
    pub fn autoplaylist_len(&self) -> (len: usize)
        ensures
            len == self@.store.len(),
    {
        self.autoplaylist.len()
    }

    /// The number of URLs left in the refill buffer.
    pub fn remaining_len(&self) -> (len: usize)
        ensures
            len == self@.buffer.len(),
    {
        self.remaining_autoplaylist.len()
    }

    /// The number of user requests that wait.
    pub fn regular_len(&self) -> (len: usize)
        ensures
            len == self@.regular.len(),
    {
        self.regular_queue.len()
    }

    /// The number of autoplaylist tracks whose titles are resolved.
    pub fn ready_len(&self) -> (len: usize)
        ensures
            len == self@.auto.len(),
    {
        self.autoplaylist_queue.len()
    }
}

} // verus!
