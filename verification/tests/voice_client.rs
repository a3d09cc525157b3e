use jukebox::playlist::Playlist;
use jukebox::session::PlaybackSession;
use jukebox::track::{ChannelId, QueueEntry, UserEntry};
use jukebox::voice_client::{enqueue, joined, leave, play, queue, summon, GuildChannel, Refusal, Reply};

fn channel(id: u64, name: &str, voice: bool) -> GuildChannel {
    GuildChannel { id: ChannelId(id), name: name.to_string(), voice }
}

fn guild() -> Vec<GuildChannel> {
    vec![
        channel(1, "general", false),
        channel(2, "Music", false),
        channel(3, "Music", true),
        channel(4, "music", true),
        channel(5, "Überraum", true),
    ]
}

fn empty_session() -> PlaybackSession<u8> {
    PlaybackSession::new(Playlist::new(&Vec::new()))
}

#[test]
fn summon_by_name_means_the_first_voice_channel_of_that_name() {
    assert_eq!(summon(Some("Music"), &guild(), None), Ok(ChannelId(3)));
    assert_eq!(summon(Some("music"), &guild(), Some(ChannelId(9))), Ok(ChannelId(3)));
}

#[test]
fn summon_by_name_ignores_the_case_of_letters() {
    assert_eq!(summon(Some("MUSIC"), &guild(), None), Ok(ChannelId(3)));
    assert_eq!(summon(Some("überRAUM"), &guild(), None), Ok(ChannelId(5)));
}

#[test]
fn summon_by_unknown_name_says_so() {
    assert_eq!(summon(Some("general"), &guild(), Some(ChannelId(3))), Err(Reply::ChannelUnknown("general".to_string())));
    assert_eq!(summon(Some("Lounge"), &guild(), None), Err(Reply::ChannelUnknown("Lounge".to_string())));
    assert_eq!(summon(Some("x"), &Vec::new(), None), Err(Reply::ChannelUnknown("x".to_string())));
}

#[test]
fn summon_without_name_means_the_channel_of_the_user() {
    assert_eq!(summon(None, &guild(), Some(ChannelId(42))), Ok(ChannelId(42)));
    assert_eq!(summon(None, &guild(), None), Err(Reply::NotInVoiceChannel));
}

#[test]
fn joined_and_leave_replies() {
    assert_eq!(joined("Music".to_string(), true), Reply::Joined("Music".to_string()));
    assert_eq!(joined("Music".to_string(), false), Reply::JoinFailed);
    assert_eq!(leave(Some(Some("Music".to_string()))), Reply::Left(Some("Music".to_string())));
    assert_eq!(leave(Some(None)), Reply::Left(None));
    assert_eq!(leave(None), Reply::NotConnected);
}

#[test]
fn play_needs_a_url() {
    assert_eq!(play(None, true, Some(ChannelId(1))), Err(Refusal::Answered(Reply::MissingUrl)));
    assert_eq!(play(None, false, None), Err(Refusal::Answered(Reply::MissingUrl)));
}

#[test]
fn play_needs_a_track_url() {
    assert_eq!(
        play(Some("example.org".to_string()), true, Some(ChannelId(1))),
        Err(Refusal::Answered(Reply::InvalidUrl))
    );
    assert_eq!(play(Some("".to_string()), false, None), Err(Refusal::Answered(Reply::InvalidUrl)));
}

#[test]
fn play_outside_a_guild_is_passed_over() {
    assert_eq!(play(Some("http://x".to_string()), false, Some(ChannelId(1))), Err(Refusal::Ignored));
    assert_eq!(play(Some("http://x".to_string()), false, None), Err(Refusal::Ignored));
}

#[test]
fn play_needs_the_user_in_a_voice_channel() {
    assert_eq!(
        play(Some("http://x".to_string()), true, None),
        Err(Refusal::Answered(Reply::MustBeInVoiceChannel))
    );
}

#[test]
fn play_accepts_a_track_url_from_a_voice_channel() {
    assert_eq!(
        play(Some("https://x/y".to_string()), true, Some(ChannelId(8))),
        Ok(("https://x/y".to_string(), ChannelId(8)))
    );
}

#[test]
fn enqueue_queues_a_resolved_request() {
    let mut session = empty_session();
    let reply = enqueue(&mut session, "http://x".to_string(), Some("X".to_string()), ChannelId(6));
    assert_eq!(reply, Reply::Added("X".to_string()));
    assert_eq!(session.playlist.get_queue(), vec!["X".to_string()]);
    let entry = QueueEntry::User(UserEntry {
        title: "X".to_string(),
        url: "http://x".to_string(),
        requester: Some(ChannelId(6)),
    });
    assert_eq!(
        session.tick(false, true, true),
        Ok(jukebox::playlist::PollStep::Play { entry, replenish: false })
    );
}

#[test]
fn enqueue_reports_a_failed_resolution() {
    let mut session = empty_session();
    let reply = enqueue(&mut session, "http://x".to_string(), None, ChannelId(6));
    assert_eq!(reply, Reply::CouldNotPlay("http://x".to_string()));
    assert_eq!(session.playlist.regular_len(), 0);
}

#[test]
fn reply_texts() {
    assert_eq!(Reply::ChannelUnknown("Lounge".to_string()).text(), "```Lounge does not exist```");
    assert_eq!(Reply::NotInVoiceChannel.text(), "```You are not in a voice channel```");
    assert_eq!(Reply::Joined("Music".to_string()).text(), "```Joined Music```");
    assert_eq!(Reply::JoinFailed.text(), "```Error joining the channel```");
    assert_eq!(Reply::Left(Some("Music".to_string())).text(), "```Left Music```");
    assert_eq!(Reply::Left(None).text(), "```Left voice channel```");
    assert_eq!(Reply::NotConnected.text(), "```Not in a voice channel```");
    assert_eq!(Reply::MissingUrl.text(), "```Must provide a URL to a video or audio```");
    assert_eq!(Reply::InvalidUrl.text(), "```Must provide a valid URL```");
    assert_eq!(Reply::MustBeInVoiceChannel.text(), "```You must be in a voice channel```");
    assert_eq!(Reply::CannotJoin.text(), "```Can't join channel```");
    assert_eq!(Reply::Added("X".to_string()).text(), "```Added \"X\" to queue```");
    assert_eq!(Reply::CouldNotPlay("http://x".to_string()).text(), "```Couldn't play http://x```");
}

#[test]
fn queue_of_an_empty_session_is_an_empty_block() {
    assert_eq!(queue(&empty_session()), "``````");
}

#[test]
fn queue_lists_what_waits() {
    let mut session = empty_session();
    session.playlist.push("http://1".to_string(), Some("one".to_string()), None).unwrap();
    session.playlist.push("http://2".to_string(), Some("two".to_string()), None).unwrap();
    assert_eq!(queue(&session), "```one\n\ntwo\n\n```");
}

#[test]
fn queue_names_the_current_track_first() {
    let mut session = empty_session();
    session.playlist.push("http://1".to_string(), Some("one".to_string()), None).unwrap();
    let entry = QueueEntry::User(UserEntry { title: "now".to_string(), url: "http://n".to_string(), requester: None });
    session.playback_started(entry, 0);
    assert_eq!(queue(&session), "```Playing right now \"now\"\n\none\n\n```");
}

#[test]
fn queue_shows_five_titles_at_most() {
    let mut session = PlaybackSession::<u8>::new(Playlist::new(&vec!["http://a".to_string()]));
    session.playlist.finish_resolution("http://a".to_string(), Some("auto".to_string()));
    for i in 1..=4 {
        session.playlist.push(format!("http://{}", i), Some(format!("t{}", i)), None).unwrap();
    }
    // four requests and one autoplaylist track: all five are shown, requests first
    assert_eq!(queue(&session), "```t1\n\nt2\n\nt3\n\nt4\n\nauto\n\n```");
    session.playlist.push("http://5".to_string(), Some("t5".to_string()), None).unwrap();
    session.playlist.push("http://6".to_string(), Some("t6".to_string()), None).unwrap();
    assert_eq!(queue(&session), "```t1\n\nt2\n\nt3\n\nt4\n\nt5\n\n```");
}
