use playback::{
    classify_query, parse_playlist_listing, should_teardown, split_first_entry, CommandError,
    PendingPlaylist, PlaybackQueue, PlaylistEntry, QueryType, Track,
};

#[test]
fn absolute_url_with_list_param_is_a_playlist() {
    let q = classify_query("https://media.example/watch?v=abc&list=PL123");
    assert!(matches!(q, QueryType::Playlist));
}

#[test]
fn absolute_url_without_list_param_is_direct() {
    let q = classify_query("https://media.example/watch?v=abc");
    assert!(matches!(q, QueryType::Direct));
    // A `list` substring outside the query parameters does not count.
    let q = classify_query("https://media.example/list/all");
    assert!(matches!(q, QueryType::Direct));
}

#[test]
fn an_empty_valued_list_param_still_marks_a_playlist() {
    let q = classify_query("https://media.example/watch?a=1&list=");
    assert!(matches!(q, QueryType::Playlist));
}

#[test]
fn free_text_is_a_search() {
    let q = classify_query("some song everyone hums");
    assert!(matches!(q, QueryType::Search));
    // A relative path is no absolute URL either.
    let q = classify_query("watch?v=abc&list=PL123");
    assert!(matches!(q, QueryType::Search));
}

#[test]
fn listing_lines_become_entries_in_order() {
    let lines = vec![
        r#"{"title":"First","webpage_url":"https://v/1"}"#.to_string(),
        String::new(),
        r#"{"title":"Second"}"#.to_string(),
        r#"{"webpage_url":"https://v/3","duration":12.5}"#.to_string(),
    ];
    let entries = parse_playlist_listing(&lines).unwrap();
    assert_eq!(entries.len(), 3);
    assert_eq!(entries[0].title.as_deref(), Some("First"));
    assert_eq!(entries[0].source_url.as_deref(), Some("https://v/1"));
    assert_eq!(entries[1].title.as_deref(), Some("Second"));
    assert_eq!(entries[1].source_url, None);
    assert_eq!(entries[2].title, None);
    assert_eq!(entries[2].source_url.as_deref(), Some("https://v/3"));
}

#[test]
fn one_bad_listing_line_fails_the_whole_listing() {
    let lines = vec![
        r#"{"title":"Good"}"#.to_string(),
        "not json at all".to_string(),
        r#"{"title":"Never reached"}"#.to_string(),
    ];
    match parse_playlist_listing(&lines) {
        Err(CommandError::PlaylistResolutionFailed(cause)) => {
            assert!(!cause.is_empty());
        }
        _ => panic!("expected PlaylistResolutionFailed"),
    }
}

#[test]
fn empty_listing_parses_to_no_entries() {
    let entries = parse_playlist_listing(&Vec::new()).unwrap();
    assert!(entries.is_empty());
}

#[test]
fn split_first_entry_parts_head_and_tail() {
    let entries = vec![
        PlaylistEntry { title: Some("e0".to_string()), source_url: None },
        PlaylistEntry { title: Some("e1".to_string()), source_url: None },
    ];
    let (first, rest) = split_first_entry(entries).unwrap();
    assert_eq!(first.title.as_deref(), Some("e0"));
    assert_eq!(rest.len(), 1);
    assert_eq!(rest[0].title.as_deref(), Some("e1"));
}

#[test]
fn split_first_entry_refuses_an_empty_listing() {
    match split_first_entry(Vec::new()) {
        Err(CommandError::PlaylistResolutionFailed(_)) => {}
        _ => panic!("expected PlaylistResolutionFailed"),
    }
}

#[test]
fn pending_playlist_pops_in_source_order() {
    let mut p = PendingPlaylist::from_entries(vec![
        PlaylistEntry { title: Some("e1".to_string()), source_url: None },
        PlaylistEntry { title: Some("e2".to_string()), source_url: None },
        PlaylistEntry { title: Some("e3".to_string()), source_url: None },
    ]);
    assert_eq!(p.len(), 3);
    assert_eq!(p.pop_next().unwrap().title.as_deref(), Some("e1"));
    assert_eq!(p.pop_next().unwrap().title.as_deref(), Some("e2"));
    assert_eq!(p.pop_next().unwrap().title.as_deref(), Some("e3"));
    assert!(p.pop_next().is_none());
    assert!(p.pop_next().is_none());
}

#[test]
fn playback_queue_promotes_the_next_track_on_skip() {
    let mut q = PlaybackQueue::new();
    let a = Track::new(Some("a".to_string()), "https://a".to_string(), None, 70, 1);
    let b = Track::new(Some("b".to_string()), "https://b".to_string(), None, 70, 2);
    assert_eq!(q.enqueue(a), 1);
    assert_eq!(q.enqueue(b), 2);
    assert_eq!(q.current().unwrap().title.as_deref(), Some("a"));
    q.skip().unwrap();
    assert_eq!(q.current().unwrap().title.as_deref(), Some("b"));
    q.skip().unwrap();
    assert!(q.current().is_none());
    assert!(matches!(q.skip(), Err(CommandError::QueueEmpty)));
}

#[test]
fn snapshot_copies_the_shown_prefix() {
    let mut q = PlaybackQueue::new();
    for i in 0..4u64 {
        let t = Track::new(
            Some(format!("t{}", i)),
            format!("https://t/{}", i),
            None,
            70,
            i,
        );
        q.enqueue(t);
    }
    let shown = q.snapshot(2);
    assert_eq!(shown.len(), 2);
    assert_eq!(shown[0].title.as_deref(), Some("t0"));
    assert_eq!(shown[1].title.as_deref(), Some("t1"));
    let all = q.snapshot(10);
    assert_eq!(all.len(), 4);
}

#[test]
fn teardown_fires_only_when_a_leaver_empties_the_channel() {
    assert!(should_teardown(true, false, 0));
    assert!(!should_teardown(false, false, 0));
    assert!(!should_teardown(true, true, 0));
    assert!(!should_teardown(true, false, 3));
}

#[test]
fn error_descriptions_match_the_command_surface() {
    assert_eq!(
        CommandError::NotInVoiceChannel.describe(),
        "You are not in a voice channel."
    );
    assert_eq!(
        CommandError::NoActiveSession.describe(),
        "Bot is not in a voice chat."
    );
    assert_eq!(
        CommandError::TrackResolutionFailed("boom".to_string()).describe(),
        "Failed to get the track."
    );
    assert_eq!(
        CommandError::PlaylistResolutionFailed("boom".to_string()).describe(),
        "Failed to get the playlist."
    );
    assert_eq!(
        CommandError::QueueEmpty.describe(),
        "There is nothing playing right now..."
    );
    assert!(CommandError::QueueEmpty.is_queue_empty());
    assert!(!CommandError::NoActiveSession.is_queue_empty());
    assert_eq!(
        CommandError::PersistenceFailed("io".to_string()).describe(),
        "Could not update the database."
    );
    assert_eq!(
        CommandError::SkipFailed("io".to_string()).describe(),
        "Failed to skip song!"
    );
}

#[test]
fn tracks_duplicate_field_for_field() {
    let t = Track::new(
        Some("name".to_string()),
        "https://src".to_string(),
        Some("https://thumb".to_string()),
        35,
        9,
    );
    let d = t.duplicate();
    assert_eq!(d.title, t.title);
    assert_eq!(d.source_url, t.source_url);
    assert_eq!(d.thumbnail, t.thumbnail);
    assert_eq!(d.volume, 35);
    assert_eq!(d.handle, 9);
}
