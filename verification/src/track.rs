//! Tracks as they sit in the playback queue, and the rule that tells a track
//! URL from other text.

use vstd::prelude::*;

verus! {

/// The text channel a request was made in; notices about the request go there.
#[derive(Clone, Copy, Debug, PartialEq, Eq, Hash, Structural)]
pub struct ChannelId(pub u64);

/// A track a user asked for: its resolved title, its URL, and the channel the
/// request came from, if it is known.
#[derive(Clone, Debug, PartialEq, Eq)]
pub struct UserEntry {
    pub title: String,
    pub url: String,
    pub requester: Option<ChannelId>,
}

/// A track of the autoplaylist whose title has already been resolved.
#[derive(Clone, Debug, PartialEq, Eq)]
pub struct AutoEntry {
    pub title: String,
    pub url: String,
}

/// What the queue hands out to be played.
#[derive(Clone, Debug, PartialEq, Eq)]
pub enum QueueEntry {
    User(UserEntry),
    Auto(AutoEntry),
}

/// Mathematical value of a [`UserEntry`].
pub struct UserEntryView {
    pub title: Seq<char>,
    pub url: Seq<char>,
    pub requester: Option<ChannelId>,
}

/// Mathematical value of an [`AutoEntry`].
pub struct AutoEntryView {
    pub title: Seq<char>,
    pub url: Seq<char>,
}

/// Mathematical value of a [`QueueEntry`].
pub enum QueueEntryView {
    User(UserEntryView),
    Auto(AutoEntryView),
}

impl View for UserEntry {
    type V = UserEntryView;

    open spec fn view(&self) -> UserEntryView {
        UserEntryView { title: self.title@, url: self.url@, requester: self.requester }
    }
}

impl View for AutoEntry {
    type V = AutoEntryView;

    open spec fn view(&self) -> AutoEntryView {
        AutoEntryView { title: self.title@, url: self.url@ }
    }
}

impl View for QueueEntry {
    type V = QueueEntryView;

    open spec fn view(&self) -> QueueEntryView {
        match self {
            QueueEntry::User(entry) => QueueEntryView::User(entry@),
            QueueEntry::Auto(entry) => QueueEntryView::Auto(entry@),
        }
    }
}

impl QueueEntryView {
    pub open spec fn title(self) -> Seq<char> {
        match self {
            QueueEntryView::User(entry) => entry.title,
            QueueEntryView::Auto(entry) => entry.title,
        }
    }

    pub open spec fn url(self) -> Seq<char> {
        match self {
            QueueEntryView::User(entry) => entry.url,
            QueueEntryView::Auto(entry) => entry.url,
        }
    }

    /// The channel to notify about this entry: the requester of a user entry,
    /// nothing for an autoplaylist entry.
    pub open spec fn requester(self) -> Option<ChannelId> {
        match self {
            QueueEntryView::User(entry) => entry.requester,
            QueueEntryView::Auto(_) => None,
        }
    }
}

impl QueueEntry {
    pub fn title(&self) -> (title: &String)
        ensures
            title@ == self@.title(),
    {
        match self {
            QueueEntry::User(entry) => &entry.title,
            QueueEntry::Auto(entry) => &entry.title,
        }
    }

    pub fn url(&self) -> (url: &String)
        ensures
            url@ == self@.url(),
    {
        match self {
            QueueEntry::User(entry) => &entry.url,
            QueueEntry::Auto(entry) => &entry.url,
        }
    }

    pub fn requester(&self) -> (channel: Option<ChannelId>)
        ensures
            channel == self@.requester(),
    {
        match self {
            QueueEntry::User(entry) => entry.requester,
            QueueEntry::Auto(_) => None,
        }
    }
}

/// The scheme prefix by which a track URL is recognised.
pub open spec fn url_scheme() -> Seq<char> {
    seq!['h', 't', 't', 'p']
}

/// A text counts as a track URL when it begins with the scheme prefix.
pub open spec fn is_track_url_spec(text: Seq<char>) -> bool {
    url_scheme().is_prefix_of(text)
}

/// Tells whether `text` begins with the scheme prefix of a track URL.
pub fn is_track_url(text: &str) -> (accepted: bool)
    ensures
        accepted == is_track_url_spec(text@),
{
    broadcast use vstd::string::group_string_axioms;

    let mut chars = text.chars();
    let c0 = chars.next();
    let c1 = chars.next();
    let c2 = chars.next();
    let c3 = chars.next();
    let accepted = c0 == Some('h') && c1 == Some('t') && c2 == Some('t') && c3 == Some('p');
    accepted
}

} // verus!
