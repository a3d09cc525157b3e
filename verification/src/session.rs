//! One session of playback: a playlist and the record of what plays now.
//!
//! A monitor visits every session at a fixed interval. What it finds there
//! (whether the current track has finished, whether the monitor is still
//! wanted, whether the session has a voice connection) goes into
//! [`PlaybackSession::tick`], which says what to do. Starting a track, and
//! resolving a title, is done by the caller, who reports back.

use crate::error::Error;
use crate::playlist::{text_of, Playlist, PollStep};
use crate::state::PlaylistState;
use crate::track::{ChannelId, QueueEntry};
use vstd::prelude::*;

verus! {

/// A message for the channel a request came from.
#[derive(Clone, Debug, PartialEq, Eq)]
pub struct Notice {
    /// Where the message goes.
    pub channel: ChannelId,
    /// The title of the track it is about.
    pub title: String,
    /// Nothing where the track has started; what went wrong where it has not.
    pub error: Option<Error>,
}

/// The text of a notice about the track `title`.
pub open spec fn notice_text(title: Seq<char>, error: Option<Error>) -> Seq<char> {
    match error {
        None => "```Playing \""@ + title + "\"```"@,
        Some(_) => "Couldn't play "@ + title,
    }
}

impl Notice {
    /// The text to send.
    pub fn text(&self) -> (text: String)
        ensures
            text@ == notice_text(self.title@, self.error),
    {
        match self.error {
            None => String::from_str("```Playing \"").concat(self.title.as_str()).concat("\"```"),
            Some(_) => String::from_str("Couldn't play ").concat(self.title.as_str()),
        }
    }
}

/// The playback state of one session. `H` is the handle that the player
/// gives out for a track it has started.
pub struct PlaybackSession<H> {
    /// What plays next.
    pub playlist: Playlist,
    /// The title and the handle of the track that was started last, unless it
    /// was skipped.
    pub current_audio: Option<(String, H)>,
}

/// Mathematical value of a [`PlaybackSession`]: the value of its playlist,
/// and the title and handle of the track that was started last, unless it was
/// skipped.
pub struct SessionState<H> {
    pub playlist: PlaylistState,
    pub current: Option<(Seq<char>, H)>,
}

impl<H> SessionState<H> {
    /// Whether a track plays: one was started, and its handle does not report
    /// it finished.
    pub open spec fn is_playing(self, finished: bool) -> bool {
        self.current is Some && !finished
    }

    /// Whether the monitor should look for the next track.
    pub open spec fn wants_track(self, finished: bool, active: bool) -> bool {
        !self.is_playing(finished) && active
    }

    /// The session after a skip: nothing plays.
    pub open spec fn skipped(self) -> Self {
        SessionState { current: None, ..self }
    }

    /// The session after `entry` was started under `handle`.
    pub open spec fn started(self, title: Seq<char>, handle: H) -> Self {
        SessionState { current: Some((title, handle)), ..self }
    }
}

impl<H> View for PlaybackSession<H> {
    type V = SessionState<H>;

    open spec fn view(&self) -> SessionState<H> {
        SessionState {
            playlist: self.playlist@,
            current: match self.current_audio {
                Some((title, handle)) => Some((title@, handle)),
                None => None,
            },
        }
    }
}

impl<H> PlaybackSession<H> {
    /// A session around `playlist` in which nothing plays yet.
    pub fn new(playlist: Playlist) -> (session: Self)
        ensures
            session@.playlist == playlist@,
            session@.current is None,
            session.playlist == playlist,
    {
        PlaybackSession { playlist, current_audio: None }
    }

    /// The title of the track that was started last, unless it was skipped.
    pub fn current_title(&self) -> (title: Option<&String>)
        ensures
            match title {
                Some(title) => self@.current matches Some(current) && current.0 == title@,
                None => self@.current is None,
            },
    {
        match &self.current_audio {
            Some((title, _)) => Some(title),
            None => None,
        }
    }

    /// The handle of the track that was started last, unless it was skipped.
    pub fn current_handle(&self) -> (handle: Option<&H>)
        ensures
            match handle {
                Some(handle) => self@.current matches Some(current) && current.1 == *handle,
                None => self@.current is None,
            },
    {
        match &self.current_audio {
            Some((_, handle)) => Some(handle),
            None => None,
        }
    }

    /// Whether a track plays, given whether the current handle reports its
    /// track finished. Without a current track nothing plays, whatever
    /// `finished` says.
    pub fn is_playing(&self, finished: bool) -> (playing: bool)
        ensures
            playing == self@.is_playing(finished),
    {
        self.current_audio.is_some() && !finished
    }

    /// One visit of the monitor.
    ///
    /// `finished` tells whether the current handle reports its track
    /// finished, `active` whether the monitor is still wanted, `connected`
    /// whether the session has a voice connection. While a track plays, or
    /// once the monitor is no longer wanted, the visit is idle. Without a
    /// connection it fails with [`Error::ConnectionUnavailable`]. Otherwise
    /// the playlist is polled. The record of the current track is never
    /// touched, and a visit that does not poll changes nothing.
    pub fn tick(&mut self, finished: bool, active: bool, connected: bool) -> (step: Result<
        PollStep,
        Error,
    >)
        ensures
            final(self)@.current == old(self)@.current,
            final(self)@.playlist.inv(),
            if !old(self)@.wants_track(finished, active) {
                step matches Ok(PollStep::Idle) && final(self)@ == old(self)@
            } else if !connected {
                step == Err::<PollStep, Error>(Error::ConnectionUnavailable) && final(self)@ == old(
                    self,
                )@
            } else {
                step matches Ok(polled) && old(self)@.playlist.polls_to(
                    polled@,
                    final(self)@.playlist,
                )
            },
    {
        proof {
            use_type_invariant(&self.playlist);
        }
        if self.is_playing(finished) || !active {
            Ok(PollStep::Idle)
        } else if !connected {
            Err(Error::ConnectionUnavailable)
        } else {
            Ok(self.playlist.poll())
        }
    }

    /// Ends a visit that had to resolve a title first: see
    /// [`Playlist::poll_resolved`].
    pub fn resolved(&mut self, url: String, title: Option<String>) -> (step: PollStep)
        ensures
            final(self)@.current == old(self)@.current,
            final(self)@.playlist.inv(),
            step@ == old(self)@.playlist.resolved(url@, text_of(title)).served(),
            final(self)@.playlist == old(self)@.playlist.resolved(url@, text_of(title)).polled(),
    {
        self.playlist.poll_resolved(url, title)
    }

    /// Records that the player has started `entry` and gave out `handle` for
    /// it. The entry becomes the current track. The result is the notice for
    /// the requester, if the entry has one.
    pub fn playback_started(&mut self, entry: QueueEntry, handle: H) -> (notice: Option<Notice>)
        ensures
            final(self)@ == old(self)@.started(entry@.title(), handle),
            match entry@.requester() {
                Some(channel) => notice matches Some(notice) && notice.channel == channel
                    && notice.title@ == entry@.title() && notice.error is None,
                None => notice is None,
            },
    {
        let channel = entry.requester();
        let title = match entry {
            QueueEntry::User(entry) => entry.title,
            QueueEntry::Auto(entry) => entry.title,
        };
        let notice = match channel {
            Some(channel) => Some(Notice { channel, title: title.clone(), error: None }),
            None => None,
        };
        self.current_audio = Some((title, handle));
        notice
    }

    /// Takes note that the player could not start `entry`. The session stays
    /// as it is, so that the next visit of the monitor polls again; the entry
    /// is not queued again. The result is the notice for the requester, if the
    /// entry has one.
    pub fn playback_failed(&self, entry: QueueEntry) -> (notice: Option<Notice>)
        ensures
            match entry@.requester() {
                Some(channel) => notice matches Some(notice) && notice.channel == channel
                    && notice.title@ == entry@.title() && notice.error == Some(
                    Error::PlaybackStartFailed,
                ),
                None => notice is None,
            },
    {
        let channel = entry.requester();
        let title = match entry {
            QueueEntry::User(entry) => entry.title,
            QueueEntry::Auto(entry) => entry.title,
        };
        match channel {
            Some(channel) => Some(
                Notice { channel, title, error: Some(Error::PlaybackStartFailed) },
            ),
            None => None,
        }
    }
}

} // verus!
