//! What the commands of the voice client decide.
//!
//! A command looks at what the chat service knows (who asked, where, which
//! channels there are), decides here, and then acts and answers. Only the
//! deciding is in this module.

use crate::playlist::texts;
use crate::session::{PlaybackSession, SessionState};
use crate::state::at_most;
use crate::track::{is_track_url, is_track_url_spec, ChannelId, UserEntryView};
use vstd::prelude::*;

verus! {

/// How many waiting titles the listing of the queue shows.
pub const LISTING_LENGTH: usize = 5;

/// An answer to a command, for the channel in which it was given.
#[derive(Clone, Debug, PartialEq, Eq)]
pub enum Reply {
    /// No voice channel has the name that was asked for.
    ChannelUnknown(String),
    /// The bot was summoned by someone who is in no voice channel.
    NotInVoiceChannel,
    /// The bot has joined the channel of this name.
    Joined(String),
    /// The bot could not join the channel it was summoned to.
    JoinFailed,
    /// The bot has left its channel, whose name may be known.
    Left(Option<String>),
    /// The bot was told to leave while it was in no voice channel.
    NotConnected,
    /// A request to play came without a URL.
    MissingUrl,
    /// A request to play came with something that is no track URL.
    InvalidUrl,
    /// A request to play came from someone who is in no voice channel.
    MustBeInVoiceChannel,
    /// The bot could not join the channel of the one who asked it to play.
    CannotJoin,
    /// The track of this title was queued.
    Added(String),
    /// No title was found for this URL.
    CouldNotPlay(String),
}

/// A text between the marks that make the chat service show it as a block.
pub open spec fn block(text: Seq<char>) -> Seq<char> {
    "```"@ + text + "```"@
}

/// The text of a reply.
pub open spec fn reply_text(reply: Reply) -> Seq<char> {
    match reply {
        Reply::ChannelUnknown(name) => block(name@ + " does not exist"@),
        Reply::NotInVoiceChannel => block("You are not in a voice channel"@),
        Reply::Joined(name) => block("Joined "@ + name@),
        Reply::JoinFailed => block("Error joining the channel"@),
        Reply::Left(Some(name)) => block("Left "@ + name@),
        Reply::Left(None) => block("Left voice channel"@),
        Reply::NotConnected => block("Not in a voice channel"@),
        Reply::MissingUrl => block("Must provide a URL to a video or audio"@),
        Reply::InvalidUrl => block("Must provide a valid URL"@),
        Reply::MustBeInVoiceChannel => block("You must be in a voice channel"@),
        Reply::CannotJoin => block("Can't join channel"@),
        Reply::Added(title) => block("Added \""@ + title@ + "\" to queue"@),
        Reply::CouldNotPlay(url) => block("Couldn't play "@ + url@),
    }
}

/// Puts `text` between the marks of a block.
fn in_block(text: String) -> (marked: String)
    ensures
        marked@ == block(text@),
{
    String::from_str("```").concat(text.as_str()).concat("```")
}

impl Reply {
    /// The text to send.
    pub fn text(&self) -> (text: String)
        ensures
            text@ == reply_text(*self),
    {
        match self {
            Reply::ChannelUnknown(name) => {
                let text = String::from_str(name.as_str()).concat(" does not exist");
                assert(text@ == name@ + " does not exist"@);
                in_block(text)
            },
            Reply::NotInVoiceChannel => in_block(String::from_str("You are not in a voice channel")),
            Reply::Joined(name) => in_block(String::from_str("Joined ").concat(name.as_str())),
            Reply::JoinFailed => in_block(String::from_str("Error joining the channel")),
            Reply::Left(Some(name)) => in_block(String::from_str("Left ").concat(name.as_str())),
            Reply::Left(None) => in_block(String::from_str("Left voice channel")),
            Reply::NotConnected => in_block(String::from_str("Not in a voice channel")),
            Reply::MissingUrl => in_block(
                String::from_str("Must provide a URL to a video or audio"),
            ),
            Reply::InvalidUrl => in_block(String::from_str("Must provide a valid URL")),
            Reply::MustBeInVoiceChannel => in_block(
                String::from_str("You must be in a voice channel"),
            ),
            Reply::CannotJoin => in_block(String::from_str("Can't join channel")),
            Reply::Added(title) => in_block(
                String::from_str("Added \"").concat(title.as_str()).concat("\" to queue"),
            ),
            Reply::CouldNotPlay(url) => in_block(
                String::from_str("Couldn't play ").concat(url.as_str()),
            ),
        }
    }
}

/// A channel of the guild, as far as a summons looks at it.
#[derive(Clone, Debug, PartialEq, Eq)]
pub struct GuildChannel {
    pub id: ChannelId,
    pub name: String,
    /// Whether it is a voice channel.
    pub voice: bool,
}

/// What `str::to_lowercase` makes of a text.
pub uninterp spec fn lowercase(text: Seq<char>) -> Seq<char>;

/// The lowercase form of `text`, by `str::to_lowercase`.
///
/// Trusted: the result is named, not spelled out. It follows Unicode's
/// tables and depends on the text alone.
#[verifier::external_body]
fn to_lowercase(text: &str) -> (lower: String)
    ensures
        lower@ == lowercase(text@),
{
    text.to_lowercase()
}

/// Whether a channel answers to `name`: it is a voice channel, and its name
/// is `name` but for the case of letters.
pub open spec fn answers_to(channel: GuildChannel, name: Seq<char>) -> bool {
    channel.voice && lowercase(channel.name@) == lowercase(name)
}

/// The position of the first of `channels` that answers to `name`; their
/// number if none does.
pub open spec fn first_answering(channels: Seq<GuildChannel>, name: Seq<char>) -> int
    decreases channels.len(),
{
    if channels.len() == 0 {
        0
    } else if answers_to(channels[0], name) {
        0
    } else {
        1 + first_answering(channels.drop_first(), name)
    }
}

/// The first answering channel is found at the first position whose channel
/// answers, and at the end if none does.
pub proof fn lemma_first_answering(channels: Seq<GuildChannel>, name: Seq<char>)
    ensures
        0 <= first_answering(channels, name) <= channels.len(),
        forall|i: int|
            0 <= i < first_answering(channels, name) ==> !answers_to(#[trigger] channels[i], name),
        first_answering(channels, name) < channels.len() ==> answers_to(
            channels[first_answering(channels, name)],
            name,
        ),
    decreases channels.len(),
{
    if channels.len() > 0 && !answers_to(channels[0], name) {
        let rest = channels.drop_first();
        lemma_first_answering(rest, name);
        assert forall|i: int| 0 <= i < first_answering(channels, name) implies !answers_to(
            #[trigger] channels[i],
            name,
        ) by {
            if i > 0 {
                assert(channels[i] == rest[i - 1]);
            }
        }
        if first_answering(channels, name) < channels.len() {
            assert(channels[first_answering(channels, name)] == rest[first_answering(rest, name)]);
        }
    }
}

/// Decides which channel a summons means.
///
/// With a name, it is the first voice channel of the guild whose name is the
/// same but for the case of letters. Without one, it is the channel that the
/// one who summons is in. Where there is no such channel the result is the
/// reply that says so.
pub fn summon(wanted: Option<&str>, channels: &Vec<GuildChannel>, user_channel: Option<ChannelId>) -> (target:
    Result<ChannelId, Reply>)
    ensures
        match wanted {
            Some(name) => if first_answering(channels@, name@) < channels.len() {
                target == Ok::<ChannelId, Reply>(channels[first_answering(channels@, name@)].id)
            } else {
                target matches Err(Reply::ChannelUnknown(unknown)) && unknown@ == name@
            },
            None => match user_channel {
                Some(channel) => target == Ok::<ChannelId, Reply>(channel),
                None => target == Err::<ChannelId, Reply>(Reply::NotInVoiceChannel),
            },
        },
{
    match wanted {
        Some(name) => {
            let lower = to_lowercase(name);
            let mut i: usize = 0;
            proof {
                lemma_first_answering(channels@, name@);
            }
            while i < channels.len()
                invariant
                    i <= channels.len(),
                    lower@ == lowercase(name@),
                    i <= first_answering(channels@, name@) <= channels.len(),
                    wanted == Some(name),
                    forall|j: int|
                        0 <= j < first_answering(channels@, name@) ==> !answers_to(
                            #[trigger] channels@[j],
                            name@,
                        ),
                    first_answering(channels@, name@) < channels.len() ==> answers_to(
                        channels@[first_answering(channels@, name@)],
                        name@,
                    ),
                decreases channels.len() - i,
            {
                if channels[i].voice && to_lowercase(channels[i].name.as_str()) == lower {
                    proof {
                        let first = first_answering(channels@, name@);
                        assert(answers_to(channels@[i as int], name@));
                        if i < first {
                            assert(!answers_to(channels@[i as int], name@));
                        }
                        assert(first == i);
                    }
                    return Ok(channels[i].id);
                }
                i += 1;
            }
            Err(Reply::ChannelUnknown(name.to_owned()))
        },
        None => match user_channel {
            Some(channel) => Ok(channel),
            None => Err(Reply::NotInVoiceChannel),
        },
    }
}

/// The reply to an attempt to join the channel named `name`.
pub fn joined(name: String, success: bool) -> (reply: Reply)
    ensures
        if success {
            reply matches Reply::Joined(joined) && joined@ == name@
        } else {
            reply == Reply::JoinFailed
        },
{
    if success {
        Reply::Joined(name)
    } else {
        Reply::JoinFailed
    }
}

/// The reply to the command to leave. `connection` is nothing where the bot
/// is in no voice channel, and else the name of its channel, if it is known.
pub fn leave(connection: Option<Option<String>>) -> (reply: Reply)
    ensures
        match connection {
            Some(Some(name)) => reply matches Reply::Left(Some(left)) && left@ == name@,
            Some(None) => reply == Reply::Left(None),
            None => reply == Reply::NotConnected,
        },
{
    match connection {
        Some(name) => Reply::Left(name),
        None => Reply::NotConnected,
    }
}

/// Why a request to play goes no further.
#[derive(Clone, Debug, PartialEq, Eq)]
pub enum Refusal {
    /// The request is answered with this reply.
    Answered(Reply),
    /// The request was made outside of any guild and is passed over.
    Ignored,
}

/// Judges a request to play before anything is resolved.
///
/// The request needs a URL, which must be a track URL; it must come from a
/// guild, and from someone who is in a voice channel, in this order. A
/// request that passes yields its URL and that voice channel.
pub fn play(argument: Option<String>, in_guild: bool, user_channel: Option<ChannelId>) -> (request:
    Result<(String, ChannelId), Refusal>)
    ensures
        match argument {
            None => request == Err::<(String, ChannelId), Refusal>(
                Refusal::Answered(Reply::MissingUrl),
            ),
            Some(url) => if !is_track_url_spec(url@) {
                request == Err::<(String, ChannelId), Refusal>(Refusal::Answered(Reply::InvalidUrl))
            } else if !in_guild {
                request == Err::<(String, ChannelId), Refusal>(Refusal::Ignored)
            } else {
                match user_channel {
                    None => request == Err::<(String, ChannelId), Refusal>(
                        Refusal::Answered(Reply::MustBeInVoiceChannel),
                    ),
                    Some(channel) => request matches Ok(accepted) && accepted.0@ == url@
                        && accepted.1 == channel,
                }
            },
        },
{
    match argument {
        None => Err(Refusal::Answered(Reply::MissingUrl)),
        Some(url) => {
            if !is_track_url(url.as_str()) {
                Err(Refusal::Answered(Reply::InvalidUrl))
            } else if !in_guild {
                Err(Refusal::Ignored)
            } else {
                match user_channel {
                    None => Err(Refusal::Answered(Reply::MustBeInVoiceChannel)),
                    Some(channel) => Ok((url, channel)),
                }
            }
        },
    }
}

/// Queues a request whose title the caller has tried to resolve, and says
/// how it went: see [`crate::playlist::Playlist::push`]. Notices about the
/// track go to `channel`, where the request was made.
pub fn enqueue<H>(
    session: &mut PlaybackSession<H>,
    url: String,
    title: Option<String>,
    channel: ChannelId,
) -> (reply: Reply)
    ensures
        final(session)@.current == old(session)@.current,
        match title {
            Some(title) => {
                &&& reply matches Reply::Added(added)
                &&& added@ == title@
                &&& final(session)@.playlist == old(session)@.playlist.pushed(
                    (UserEntryView {
                        title: title@,
                        url: url@,
                        requester: Some(channel),
                    }),
                )
            },
            None => {
                &&& reply matches Reply::CouldNotPlay(failed)
                &&& failed@ == url@
                &&& final(session)@ == old(session)@
            },
        },
{
    let failed = match &title {
        Some(_) => String::new(),
        None => url.clone(),
    };
    match session.playlist.push(url, title, Some(channel)) {
        Ok(title) => Reply::Added(title),
        Err(_) => Reply::CouldNotPlay(failed),
    }
}

/// The lines of a listing: every title, followed by an empty line.
pub open spec fn listing_lines(titles: Seq<Seq<char>>) -> Seq<char>
    decreases titles.len(),
{
    if titles.len() == 0 {
        Seq::empty()
    } else {
        listing_lines(titles.drop_last()) + titles.last() + "\n\n"@
    }
}

/// The head of a listing: the title of the current track, if there is one.
pub open spec fn listing_head(current: Option<Seq<char>>) -> Seq<char> {
    match current {
        Some(title) => "Playing right now \""@ + title + "\"\n\n"@,
        None => Seq::empty(),
    }
}

/// The listing of a session: the current track, then the first titles of the
/// queue, as many as the listing shows.
pub open spec fn listing<H>(session: SessionState<H>) -> Seq<char> {
    let titles = session.playlist.titles();
    let shown = titles.take(at_most(LISTING_LENGTH as int, titles.len() as int));
    let current = match session.current {
        Some(current) => Some(current.0),
        None => None,
    };
    block(listing_head(current) + listing_lines(shown))
}

/// The text that shows what plays and what comes next.
pub fn queue<H>(session: &PlaybackSession<H>) -> (output: String)
    ensures
        output@ == listing(session@),
{
    let titles = session.playlist.get_queue();
    let mut output = String::from_str("```");
    let ghost head = match session@.current {
        Some(current) => Some(current.0),
        None => None,
    };
    match &session.current_audio {
        Some((title, _)) => {
            output.append("Playing right now \"");
            output.append(title.as_str());
            output.append("\"\n\n");
            assert(output@ =~= "```"@ + listing_head(head));
        },
        None => {
            assert(output@ =~= "```"@ + listing_head(head));
        },
    }
    let shown = if titles.len() < LISTING_LENGTH {
        titles.len()
    } else {
        LISTING_LENGTH
    };
    let ghost all = texts(titles@);
    let mut i: usize = 0;
    assert(listing_lines(all.take(0)) =~= Seq::<char>::empty());
    assert(output@ =~= "```"@ + listing_head(head) + listing_lines(all.take(0)));
    while i < shown
        invariant
            i <= shown <= titles.len(),
            all == texts(titles@),
            output@ == "```"@ + listing_head(head) + listing_lines(all.take(i as int)),
        decreases shown - i,
    {
        let ghost before = output@;
        output.append(titles[i].as_str());
        output.append("\n\n");
        proof {
            let longer = all.take(i + 1);
            assert(longer.drop_last() =~= all.take(i as int));
            assert(longer.last() == titles[i as int]@);
            assert(output@ =~= "```"@ + listing_head(head) + listing_lines(longer));
        }
        i += 1;
    }
    output.append("```");
    assert(output@ =~= listing(session@));
    output
}

/// The skip command: the session forgets its current track, whether or not
/// there is one, and its playlist is not touched. The caller tells the player
/// to stop.
pub fn skip<H>(session: &mut PlaybackSession<H>)
    ensures
        final(session)@ == old(session)@.skipped(),
        old(session)@.current is None ==> final(session)@ == old(session)@,
{
    session.current_audio = None;
}

/// Skipping is idempotent: a second skip changes nothing, and a skip while
/// nothing plays changes nothing either. After a skip nothing plays, so the
/// next visit of the monitor looks for a track.
pub proof fn law_skip_is_idempotent<H>(session: SessionState<H>, finished: bool)
    ensures
        session.skipped().skipped() == session.skipped(),
        session.current is None ==> session.skipped() == session,
        session.skipped().playlist == session.playlist,
        !session.skipped().is_playing(finished),
        session.skipped().wants_track(finished, true),
{
}

} // verus!
