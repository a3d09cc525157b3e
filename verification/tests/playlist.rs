use jukebox::error::Error;
use jukebox::playlist::{Playlist, PollStep};
use jukebox::state::AUTOPLAYLIST_TARGET;
use jukebox::track::{AutoEntry, ChannelId, QueueEntry, UserEntry};

fn lines(urls: &[&str]) -> Vec<String> {
    urls.iter().map(|url| url.to_string()).collect()
}

fn title_of(url: &str) -> String {
    format!("title of {}", url)
}

/// Primes a playlist with a resolver that knows every URL but those in `broken`.
fn prime(playlist: &mut Playlist, broken: &[&str]) {
    loop {
        let batch = playlist.priming_batch();
        if batch.is_empty() {
            break;
        }
        for url in batch {
            let title = if broken.contains(&url.as_str()) { None } else { Some(title_of(&url)) };
            playlist.finish_resolution(url, title);
        }
    }
}

fn user(title: &str, url: &str, channel: Option<u64>) -> QueueEntry {
    QueueEntry::User(UserEntry {
        title: title.to_string(),
        url: url.to_string(),
        requester: channel.map(ChannelId),
    })
}

#[test]
fn new_keeps_the_urls_among_the_lines() {
    let playlist = Playlist::new(&lines(&[
        "http://a",
        "# a comment",
        "https://b",
        "",
        "ftp://c",
        " http://d",
        "htt",
        "http",
    ]));
    assert_eq!(playlist.autoplaylist_len(), 3);
    assert_eq!(playlist.remaining_len(), 3);
    assert_eq!(playlist.regular_len(), 0);
    assert_eq!(playlist.ready_len(), 0);
}

#[test]
fn new_keeps_each_url_once_in_order_of_first_appearance() {
    let mut playlist = Playlist::new(&lines(&["http://a", "http://b", "http://a", "http://c", "http://b"]));
    assert_eq!(playlist.autoplaylist_len(), 3);
    assert_eq!(playlist.candidate_at(0), Some("http://a".to_string()));
    // the last URL has taken the place of the first
    assert_eq!(playlist.candidate_at(0), Some("http://c".to_string()));
    assert_eq!(playlist.candidate_at(0), Some("http://b".to_string()));
    assert_eq!(playlist.remaining_len(), 0);
}

#[test]
fn empty_store_primes_nothing_and_polls_idle() {
    let mut playlist = Playlist::new(&Vec::new());
    assert_eq!(playlist.autoplaylist_len(), 0);
    assert_eq!(playlist.shortfall(), 0);
    assert!(playlist.priming_batch().is_empty());
    assert_eq!(playlist.draw_candidate(), None);
    assert_eq!(playlist.poll(), PollStep::Idle);
    assert_eq!(playlist.poll(), PollStep::Idle);
    assert!(playlist.get_queue().is_empty());
}

#[test]
fn store_without_urls_counts_as_empty() {
    let mut playlist = Playlist::new(&lines(&["not a url", "another line"]));
    assert_eq!(playlist.autoplaylist_len(), 0);
    assert_eq!(playlist.poll(), PollStep::Idle);
}

#[test]
fn priming_five_resolvable_urls_fills_the_queue() {
    let urls = ["http://a", "http://b", "http://c", "http://d", "http://e"];
    let mut playlist = Playlist::new(&lines(&urls));
    assert_eq!(playlist.shortfall(), 5);
    prime(&mut playlist, &[]);
    assert_eq!(playlist.ready_len(), 5);
    assert_eq!(playlist.remaining_len(), 0);
    assert_eq!(playlist.autoplaylist_len(), 5);
    assert_eq!(playlist.shortfall(), 0);

    let mut listed = playlist.get_queue();
    listed.sort();
    let mut expected: Vec<String> = urls.iter().map(|url| title_of(url)).collect();
    expected.sort();
    assert_eq!(listed, expected);

    let head = playlist.get_queue()[0].clone();
    match playlist.poll() {
        PollStep::Play { entry: QueueEntry::Auto(entry), replenish } => {
            assert!(replenish);
            assert!(urls.contains(&entry.url.as_str()));
            assert_eq!(entry.title, title_of(&entry.url));
            assert_eq!(entry.title, head);
        }
        other => panic!("unexpected step {:?}", other),
    }
    assert_eq!(playlist.autoplaylist_len(), 5);
    assert_eq!(playlist.ready_len(), 4);

    // the replenishment that the poll asked for
    let url = playlist.draw_candidate().expect("the store is not empty");
    assert!(urls.contains(&url.as_str()));
    assert_eq!(playlist.remaining_len(), 4);
    let title = title_of(&url);
    assert!(!playlist.finish_resolution(url, Some(title)));
    assert_eq!(playlist.ready_len(), 5);
    assert_eq!(playlist.autoplaylist_len(), 5);
}

#[test]
fn priming_stops_at_the_target() {
    let urls: Vec<String> = (0..12).map(|i| format!("http://track/{}", i)).collect();
    let mut playlist = Playlist::new(&urls);
    assert_eq!(AUTOPLAYLIST_TARGET, 5);
    let batch = playlist.priming_batch();
    assert_eq!(batch.len(), 5);
    let mut distinct = batch.clone();
    distinct.sort();
    distinct.dedup();
    assert_eq!(distinct.len(), 5);
    for url in &batch {
        assert!(urls.contains(url));
    }
    assert_eq!(playlist.remaining_len(), 7);
    for url in batch {
        let title = title_of(&url);
        playlist.finish_resolution(url, Some(title));
    }
    assert!(playlist.priming_batch().is_empty());
    assert_eq!(playlist.ready_len(), 5);
    assert_eq!(playlist.autoplaylist_len(), 12);
}

#[test]
fn priming_prunes_what_fails_and_has_no_url_twice() {
    let urls = ["http://a", "http://b", "http://c", "http://d", "http://e", "http://f"];
    let mut playlist = Playlist::new(&lines(&urls));
    prime(&mut playlist, &["http://b", "http://d", "http://f"]);
    assert_eq!(playlist.autoplaylist_len(), 3);
    assert_eq!(playlist.ready_len(), 3);
    let mut listed = playlist.get_queue();
    listed.sort();
    assert_eq!(listed, vec![title_of("http://a"), title_of("http://c"), title_of("http://e")]);
}

#[test]
fn priming_a_store_that_fails_altogether_empties_it() {
    let urls = ["http://a", "http://b", "http://c", "http://d", "http://e", "http://f", "http://g"];
    let mut playlist = Playlist::new(&lines(&urls));
    prime(&mut playlist, &urls);
    assert_eq!(playlist.autoplaylist_len(), 0);
    assert_eq!(playlist.remaining_len(), 0);
    assert_eq!(playlist.ready_len(), 0);
    assert_eq!(playlist.poll(), PollStep::Idle);
}

#[test]
fn shortfall_is_the_target_or_the_store_less_what_is_ready() {
    let mut playlist = Playlist::new(&lines(&["http://a", "http://b", "http://c"]));
    assert_eq!(playlist.shortfall(), 3);
    playlist.finish_resolution("http://a".to_string(), Some("A".to_string()));
    assert_eq!(playlist.shortfall(), 2);
    playlist.finish_resolution("http://b".to_string(), None);
    // two URLs are left in the store and one title is ready
    assert_eq!(playlist.shortfall(), 1);
    playlist.finish_resolution("http://c".to_string(), Some("C".to_string()));
    playlist.finish_resolution("http://c".to_string(), Some("C".to_string()));
    assert_eq!(playlist.shortfall(), 0);

    let many: Vec<String> = (0..8).map(|i| format!("http://track/{}", i)).collect();
    let mut playlist = Playlist::new(&many);
    assert_eq!(playlist.shortfall(), 5);
    playlist.finish_resolution("http://track/0".to_string(), Some("0".to_string()));
    assert_eq!(playlist.shortfall(), 4);
}

#[test]
fn push_resolving_to_title_is_listed_before_the_autoplaylist() {
    let mut playlist = Playlist::new(&lines(&["http://a", "http://b"]));
    prime(&mut playlist, &[]);
    let autoplaylist = playlist.get_queue();
    assert_eq!(autoplaylist.len(), 2);
    let added = playlist.push("http://x".to_string(), Some("X".to_string()), Some(ChannelId(1)));
    assert_eq!(added, Ok("X".to_string()));
    let mut expected = vec!["X".to_string()];
    expected.extend(autoplaylist);
    assert_eq!(playlist.get_queue(), expected);
}

#[test]
fn push_that_fails_to_resolve_queues_nothing() {
    let mut playlist = Playlist::new(&lines(&["http://a"]));
    let added = playlist.push("http://broken".to_string(), None, Some(ChannelId(7)));
    assert_eq!(added, Err(Error::ResolutionFailed));
    assert_eq!(playlist.regular_len(), 0);
    assert!(playlist.get_queue().is_empty());
    assert_eq!(playlist.autoplaylist_len(), 1);
    assert_eq!(playlist.remaining_len(), 1);
}

#[test]
fn push_never_touches_the_autoplaylist() {
    let mut playlist = Playlist::new(&lines(&["http://a", "http://b", "http://c"]));
    prime(&mut playlist, &[]);
    let before = (playlist.autoplaylist_len(), playlist.remaining_len(), playlist.ready_len());
    playlist.push("http://x".to_string(), Some("X".to_string()), None).unwrap();
    playlist.push("http://y".to_string(), None, None).unwrap_err();
    let after = (playlist.autoplaylist_len(), playlist.remaining_len(), playlist.ready_len());
    assert_eq!(before, after);
}

#[test]
fn requests_are_listed_in_push_order_whatever_polls_come_between() {
    let mut playlist = Playlist::new(&lines(&["http://a", "http://b"]));
    prime(&mut playlist, &[]);
    let autoplaylist = playlist.get_queue();

    playlist.push("http://1".to_string(), Some("one".to_string()), None).unwrap();
    playlist.push("http://2".to_string(), Some("two".to_string()), None).unwrap();
    assert_eq!(playlist.get_queue()[..2], ["one".to_string(), "two".to_string()]);
    assert_eq!(playlist.poll(), PollStep::Play { entry: user("one", "http://1", None), replenish: false });
    playlist.push("http://3".to_string(), Some("three".to_string()), None).unwrap();
    playlist.push("http://4".to_string(), Some("four".to_string()), None).unwrap();
    let mut expected = vec!["two".to_string(), "three".to_string(), "four".to_string()];
    expected.extend(autoplaylist.clone());
    assert_eq!(playlist.get_queue(), expected);
    assert_eq!(playlist.poll(), PollStep::Play { entry: user("two", "http://2", None), replenish: false });
    assert_eq!(playlist.poll(), PollStep::Play { entry: user("three", "http://3", None), replenish: false });
    let mut expected = vec!["four".to_string()];
    expected.extend(autoplaylist);
    assert_eq!(playlist.get_queue(), expected);
}

#[test]
fn poll_serves_requests_first_in_first_out() {
    let mut playlist = Playlist::new(&lines(&["http://a"]));
    prime(&mut playlist, &[]);
    for i in 0..20u64 {
        let added = playlist.push(format!("http://{}", i), Some(format!("t{}", i)), Some(ChannelId(i)));
        assert_eq!(added, Ok(format!("t{}", i)));
    }
    for i in 0..20u64 {
        let expected = user(&format!("t{}", i), &format!("http://{}", i), Some(i));
        assert_eq!(playlist.poll(), PollStep::Play { entry: expected, replenish: false });
        assert_eq!(playlist.ready_len(), 1);
    }
    // only now the autoplaylist has its turn
    let entry = QueueEntry::Auto(AutoEntry { title: title_of("http://a"), url: "http://a".to_string() });
    assert_eq!(playlist.poll(), PollStep::Play { entry, replenish: true });
}

#[test]
fn pushed_url_is_queued_once_and_polled_once() {
    let mut playlist = Playlist::new(&Vec::new());
    playlist.push("http://other".to_string(), Some("other".to_string()), None).unwrap();
    assert_eq!(playlist.regular_len(), 1);
    playlist.push("http://x".to_string(), Some("X".to_string()), Some(ChannelId(3))).unwrap();
    assert_eq!(playlist.regular_len(), 2);
    assert_eq!(playlist.get_queue().iter().filter(|title| title.as_str() == "X").count(), 1);

    assert_eq!(playlist.poll(), PollStep::Play { entry: user("other", "http://other", None), replenish: false });
    assert_eq!(playlist.poll(), PollStep::Play { entry: user("X", "http://x", Some(3)), replenish: false });
    assert_eq!(playlist.regular_len(), 0);
    assert_eq!(playlist.poll(), PollStep::Idle);
    assert!(playlist.get_queue().is_empty());
}

#[test]
fn same_url_pushed_twice_is_queued_twice() {
    let mut playlist = Playlist::new(&Vec::new());
    playlist.push("http://x".to_string(), Some("X".to_string()), None).unwrap();
    playlist.push("http://x".to_string(), Some("X".to_string()), None).unwrap();
    assert_eq!(playlist.get_queue(), vec!["X".to_string(), "X".to_string()]);
    assert_eq!(playlist.poll(), PollStep::Play { entry: user("X", "http://x", None), replenish: false });
    assert_eq!(playlist.get_queue(), vec!["X".to_string()]);
}

#[test]
fn store_that_fails_altogether_prunes_itself_poll_by_poll() {
    let urls = ["http://a", "http://b", "http://c", "http://d"];
    let mut playlist = Playlist::new(&lines(&urls));
    let mut rounds = 0;
    loop {
        match playlist.poll() {
            PollStep::Resolve { url } => {
                assert!(urls.contains(&url.as_str()));
                let before = playlist.autoplaylist_len();
                assert_eq!(playlist.poll_resolved(url, None), PollStep::Idle);
                assert_eq!(playlist.autoplaylist_len(), before - 1);
                rounds += 1;
            }
            PollStep::Idle => break,
            other => panic!("unexpected step {:?}", other),
        }
        assert!(rounds <= urls.len());
    }
    assert_eq!(rounds, urls.len());
    assert_eq!(playlist.autoplaylist_len(), 0);
    assert_eq!(playlist.remaining_len(), 0);
    assert_eq!(playlist.poll(), PollStep::Idle);
}

#[test]
fn drained_poll_asks_for_one_resolution_and_plays_its_outcome() {
    let mut playlist = Playlist::new(&lines(&["http://a"]));
    assert_eq!(playlist.poll(), PollStep::Resolve { url: "http://a".to_string() });
    assert_eq!(playlist.remaining_len(), 0);
    let step = playlist.poll_resolved("http://a".to_string(), Some("A".to_string()));
    let entry = QueueEntry::Auto(AutoEntry { title: "A".to_string(), url: "http://a".to_string() });
    assert_eq!(step, PollStep::Play { entry, replenish: true });
    assert_eq!(playlist.ready_len(), 0);
    assert_eq!(playlist.autoplaylist_len(), 1);
}

#[test]
fn drained_poll_whose_resolution_fails_is_idle_while_tracks_remain() {
    let mut playlist = Playlist::new(&lines(&["http://a", "http://b"]));
    let url = match playlist.poll() {
        PollStep::Resolve { url } => url,
        other => panic!("unexpected step {:?}", other),
    };
    assert_eq!(playlist.poll_resolved(url.clone(), None), PollStep::Idle);
    assert_eq!(playlist.autoplaylist_len(), 1);
    // the next poll tries the URL that is left
    let left = if url == "http://a" { "http://b" } else { "http://a" };
    assert_eq!(playlist.poll(), PollStep::Resolve { url: left.to_string() });
}

#[test]
fn request_that_arrives_during_a_resolution_goes_first() {
    let mut playlist = Playlist::new(&lines(&["http://a"]));
    assert_eq!(playlist.poll(), PollStep::Resolve { url: "http://a".to_string() });
    playlist.push("http://x".to_string(), Some("X".to_string()), None).unwrap();
    let step = playlist.poll_resolved("http://a".to_string(), Some("A".to_string()));
    assert_eq!(step, PollStep::Play { entry: user("X", "http://x", None), replenish: false });
    assert_eq!(playlist.get_queue(), vec!["A".to_string()]);
}

#[test]
fn resolved_titles_without_a_store_are_not_played() {
    let mut playlist = Playlist::new(&lines(&["http://a", "http://b"]));
    playlist.finish_resolution("http://a".to_string(), Some("A".to_string()));
    assert!(playlist.finish_resolution("http://a".to_string(), None));
    assert!(!playlist.finish_resolution("http://b".to_string(), None));
    assert_eq!(playlist.autoplaylist_len(), 0);
    assert_eq!(playlist.ready_len(), 1);
    assert_eq!(playlist.poll(), PollStep::Idle);
    assert_eq!(playlist.get_queue(), vec!["A".to_string()]);
}

#[test]
fn candidate_at_takes_the_url_at_the_index_and_moves_the_last_there() {
    let mut playlist = Playlist::new(&lines(&["http://a", "http://b", "http://c", "http://d"]));
    assert_eq!(playlist.candidate_at(1), Some("http://b".to_string()));
    assert_eq!(playlist.remaining_len(), 3);
    assert_eq!(playlist.candidate_at(1), Some("http://d".to_string()));
    assert_eq!(playlist.candidate_at(1), Some("http://c".to_string()));
    assert_eq!(playlist.candidate_at(0), Some("http://a".to_string()));
    assert_eq!(playlist.remaining_len(), 0);
    assert_eq!(playlist.autoplaylist_len(), 4);
}

#[test]
fn candidate_at_refills_an_empty_buffer_first() {
    let mut playlist = Playlist::new(&lines(&["http://a", "http://b"]));
    assert_eq!(playlist.candidate_at(0), Some("http://a".to_string()));
    assert_eq!(playlist.candidate_at(0), Some("http://b".to_string()));
    assert_eq!(playlist.remaining_len(), 0);
    assert_eq!(playlist.candidate_at(1), Some("http://b".to_string()));
    assert_eq!(playlist.remaining_len(), 1);
}

#[test]
fn candidate_at_beyond_the_buffer_changes_nothing() {
    let mut playlist = Playlist::new(&lines(&["http://a", "http://b"]));
    assert_eq!(playlist.candidate_at(2), None);
    assert_eq!(playlist.candidate_at(usize::MAX), None);
    assert_eq!(playlist.remaining_len(), 2);
    playlist.candidate_at(0);
    assert_eq!(playlist.candidate_at(1), None);
    assert_eq!(playlist.remaining_len(), 1);
    playlist.candidate_at(0);
    // the buffer is empty: nothing is refilled for an index beyond the store
    assert_eq!(playlist.candidate_at(2), None);
    assert_eq!(playlist.remaining_len(), 0);
}

#[test]
fn draw_candidate_draws_every_url_once_before_any_repeats() {
    let urls = ["http://a", "http://b", "http://c", "http://d", "http://e", "http://f"];
    let mut playlist = Playlist::new(&lines(&urls));
    for _ in 0..3 {
        let mut drawn = Vec::new();
        for left in (0..urls.len()).rev() {
            drawn.push(playlist.draw_candidate().expect("the store is not empty"));
            assert_eq!(playlist.remaining_len(), left);
        }
        drawn.sort();
        assert_eq!(drawn, lines(&urls));
    }
}

#[test]
fn fill_remaining_autoplaylist_fills_an_empty_buffer_only() {
    let mut playlist = Playlist::new(&lines(&["http://a", "http://b", "http://c"]));
    playlist.candidate_at(0);
    assert_eq!(playlist.remaining_len(), 2);
    playlist.fill_remaining_autoplaylist();
    assert_eq!(playlist.remaining_len(), 2);
    playlist.candidate_at(0);
    playlist.candidate_at(0);
    assert_eq!(playlist.remaining_len(), 0);
    playlist.fill_remaining_autoplaylist();
    assert_eq!(playlist.remaining_len(), 3);
    assert_eq!(playlist.candidate_at(2), Some("http://c".to_string()));
}

#[test]
fn finish_resolution_with_a_title_appends_to_the_autoplaylist_queue() {
    let mut playlist = Playlist::new(&lines(&["http://a", "http://b"]));
    assert!(!playlist.finish_resolution("http://b".to_string(), Some("B".to_string())));
    assert!(!playlist.finish_resolution("http://a".to_string(), Some("A".to_string())));
    assert_eq!(playlist.get_queue(), vec!["B".to_string(), "A".to_string()]);
    assert_eq!(playlist.autoplaylist_len(), 2);
    assert_eq!(playlist.remaining_len(), 2);
}

#[test]
fn finish_resolution_without_a_title_prunes_store_and_buffer() {
    let mut playlist = Playlist::new(&lines(&["http://a", "http://b", "http://c"]));
    // "http://b" is still in the buffer, as after a refill that brought it back
    assert!(playlist.finish_resolution("http://b".to_string(), None));
    assert_eq!(playlist.autoplaylist_len(), 2);
    assert_eq!(playlist.remaining_len(), 2);
    assert_eq!(playlist.candidate_at(0), Some("http://a".to_string()));
    assert_eq!(playlist.candidate_at(0), Some("http://c".to_string()));
    // pruning what is not there changes nothing
    assert!(playlist.finish_resolution("http://unknown".to_string(), None));
    assert_eq!(playlist.autoplaylist_len(), 2);
    assert!(playlist.finish_resolution("http://a".to_string(), None));
    assert!(!playlist.finish_resolution("http://c".to_string(), None));
    assert_eq!(playlist.autoplaylist_len(), 0);
}

#[test]
fn replenishment_retries_until_a_title_is_found() {
    let urls = ["http://a", "http://b", "http://c", "http://good"];
    let mut playlist = Playlist::new(&lines(&urls));
    let mut attempts = 0;
    loop {
        let url = playlist.draw_candidate().expect("the store is not empty");
        attempts += 1;
        let title = if url == "http://good" { Some("good".to_string()) } else { None };
        if !playlist.finish_resolution(url, title) {
            break;
        }
        assert!(attempts < urls.len());
    }
    assert_eq!(playlist.get_queue(), vec!["good".to_string()]);
    assert_eq!(playlist.autoplaylist_len(), urls.len() - (attempts - 1));
}
