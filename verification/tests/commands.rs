use playback::{CommandError, Orchestrator, PlaylistEntry};

fn entry(title: &str, url: &str) -> PlaylistEntry {
    PlaylistEntry {
        title: Some(title.to_string()),
        source_url: Some(url.to_string()),
    }
}

fn track_for(o: &Orchestrator, tenant: u64, title: &str, handle: u64) -> playback::Track {
    o.create_track(
        tenant,
        Some(title.to_string()),
        format!("https://tracks.example/{}", title),
        None,
        handle,
    )
}

#[test]
fn enqueue_creates_exactly_one_session_and_touches_no_other_tenant() {
    let mut o = Orchestrator::new(true);
    let t1: u64 = 11;
    let t2: u64 = 22;

    // Give the other tenant some state first.
    let other = track_for(&o, t2, "other", 1);
    let p = o.enqueue_track(t2, 900, other);
    assert_eq!(p, 1);
    assert_eq!(o.registry.count(), 1);

    // The enqueue for a tenant with no session creates exactly one session.
    let tr = track_for(&o, t1, "mine", 2);
    let pos = o.enqueue_track(t1, 100, tr);
    assert_eq!(pos, 1);
    assert_eq!(o.registry.count(), 2);

    // The other tenant's state is untouched.
    let other_list = o.list_queue(t2, 25).unwrap();
    assert_eq!(other_list.len(), 1);
    assert_eq!(other_list[0].title.as_deref(), Some("other"));
    let other_session = o.registry.get(t2).unwrap();
    assert_eq!(other_session.channel, 900);
}

#[test]
fn enqueue_position_is_prior_length_plus_one() {
    let mut o = Orchestrator::new(true);
    let t: u64 = 7;
    for i in 0..5u64 {
        let tr = track_for(&o, t, &format!("song{}", i), i);
        let pos = o.enqueue_track(t, 44, tr);
        assert_eq!(pos as u64, i + 1);
    }
    assert_eq!(o.list_queue(t, 25).unwrap().len(), 5);
}

#[test]
fn skip_on_empty_queue_reports_queue_empty_and_changes_nothing() {
    let mut o = Orchestrator::new(true);
    let t: u64 = 3;
    let created = o.join(t, 5);
    assert!(created);
    assert_eq!(o.list_queue(t, 25).unwrap().len(), 0);

    match o.skip(t, false) {
        Err(CommandError::QueueEmpty) => {}
        _ => panic!("expected QueueEmpty"),
    }
    assert_eq!(o.list_queue(t, 25).unwrap().len(), 0);

    // With bypass the coupling holds too: nothing is dropped, nothing removed.
    match o.skip(t, true) {
        Err(CommandError::QueueEmpty) => {}
        _ => panic!("expected QueueEmpty"),
    }
    assert_eq!(o.list_queue(t, 25).unwrap().len(), 0);
}

#[test]
fn skip_with_no_session_reports_no_active_session() {
    let mut o = Orchestrator::new(true);
    match o.skip(99, false) {
        Err(CommandError::NoActiveSession) => {}
        _ => panic!("expected NoActiveSession"),
    }
}

#[test]
fn playlist_drains_one_entry_per_completion_in_source_order() {
    let mut o = Orchestrator::new(true);
    let t: u64 = 42;

    // Playlist [A, B, C]: A resolved at once, B and C parked.
    let a = track_for(&o, t, "A", 10);
    let pos = o.enqueue_playlist(t, 500, a, vec![entry("B", "https://b"), entry("C", "https://c")]);
    assert_eq!(pos, 1);
    let q = o.list_queue(t, 25).unwrap();
    assert_eq!(q.len(), 1);
    assert_eq!(q[0].title.as_deref(), Some("A"));

    // First completion: A leaves, B is handed back to resolve.
    let next = o.on_track_complete(t).unwrap();
    let b_entry = next.expect("B should be handed back first");
    assert_eq!(b_entry.title.as_deref(), Some("B"));
    assert_eq!(b_entry.source_url.as_deref(), Some("https://b"));
    let b = track_for(&o, t, "B", 11);
    o.continuation_resolved(t, b).unwrap();
    let q = o.list_queue(t, 25).unwrap();
    assert_eq!(q.len(), 1);
    assert_eq!(q[0].title.as_deref(), Some("B"));

    // Second completion: B leaves, C is handed back.
    let next = o.on_track_complete(t).unwrap();
    let c_entry = next.expect("C should be handed back second");
    assert_eq!(c_entry.title.as_deref(), Some("C"));
    let c = track_for(&o, t, "C", 12);
    o.continuation_resolved(t, c).unwrap();
    let q = o.list_queue(t, 25).unwrap();
    assert_eq!(q.len(), 1);
    assert_eq!(q[0].title.as_deref(), Some("C"));

    // Third completion: the parked playlist is exhausted; no new track.
    let next = o.on_track_complete(t).unwrap();
    assert!(next.is_none());
    assert_eq!(o.list_queue(t, 25).unwrap().len(), 0);

    // A fourth completion is still a safe terminal no-op.
    let next = o.on_track_complete(t).unwrap();
    assert!(next.is_none());
    assert_eq!(o.list_queue(t, 25).unwrap().len(), 0);
}

#[test]
fn bypass_skip_stops_continuation_even_with_entries_parked() {
    let mut o = Orchestrator::new(true);
    let t: u64 = 8;

    let a = track_for(&o, t, "A", 1);
    o.enqueue_playlist(t, 3, a, vec![entry("B", "https://b"), entry("C", "https://c")]);

    // Bypass-skip: A leaves, and no continuation is asked for.
    let (skipped, next) = o.skip(t, true).unwrap();
    assert_eq!(skipped.title.as_deref(), Some("A"));
    assert!(next.is_none());
    assert_eq!(o.list_queue(t, 25).unwrap().len(), 0);

    // A later completion event produces no further automatic enqueue.
    let next = o.on_track_complete(t).unwrap();
    assert!(next.is_none());
    assert_eq!(o.list_queue(t, 25).unwrap().len(), 0);
}

#[test]
fn plain_skip_counts_as_completion_and_continues_the_playlist() {
    let mut o = Orchestrator::new(true);
    let t: u64 = 8;

    let a = track_for(&o, t, "A", 1);
    o.enqueue_playlist(t, 3, a, vec![entry("B", "https://b")]);

    let (skipped, next) = o.skip(t, false).unwrap();
    assert_eq!(skipped.title.as_deref(), Some("A"));
    let b_entry = next.expect("skip without bypass continues the playlist");
    assert_eq!(b_entry.title.as_deref(), Some("B"));
}

#[test]
fn continuation_track_jumps_ad_hoc_tracks_when_the_policy_says_so() {
    let mut o = Orchestrator::new(true);
    let t: u64 = 15;

    let a = track_for(&o, t, "A", 1);
    o.enqueue_playlist(t, 3, a, vec![entry("B", "https://b")]);
    // An ad hoc track lands behind A while the playlist drains.
    let x = track_for(&o, t, "X", 2);
    let pos = o.enqueue_track(t, 3, x);
    assert_eq!(pos, 2);

    // A finishes; B is resolved and spliced ahead of X.
    let next = o.on_track_complete(t).unwrap().expect("B pending");
    assert_eq!(next.title.as_deref(), Some("B"));
    let b = track_for(&o, t, "B", 3);
    o.continuation_resolved(t, b).unwrap();
    let q = o.list_queue(t, 25).unwrap();
    assert_eq!(q.len(), 2);
    assert_eq!(q[0].title.as_deref(), Some("B"));
    assert_eq!(q[1].title.as_deref(), Some("X"));
}

#[test]
fn continuation_track_respects_the_tail_policy() {
    let mut o = Orchestrator::new(false);
    let t: u64 = 15;

    let a = track_for(&o, t, "A", 1);
    o.enqueue_playlist(t, 3, a, vec![entry("B", "https://b")]);
    let x = track_for(&o, t, "X", 2);
    o.enqueue_track(t, 3, x);

    let _ = o.on_track_complete(t).unwrap().expect("B pending");
    let b = track_for(&o, t, "B", 3);
    o.continuation_resolved(t, b).unwrap();
    let q = o.list_queue(t, 25).unwrap();
    assert_eq!(q[0].title.as_deref(), Some("X"));
    assert_eq!(q[1].title.as_deref(), Some("B"));
}

#[test]
fn continuation_landing_after_teardown_is_discarded() {
    let mut o = Orchestrator::new(true);
    let t: u64 = 21;
    let a = track_for(&o, t, "A", 1);
    o.enqueue_playlist(t, 3, a, vec![entry("B", "https://b")]);
    let _ = o.on_track_complete(t).unwrap().expect("B pending");

    // The session is torn down while B's resolution is in flight.
    o.leave(t).unwrap();
    let b = track_for(&o, t, "B", 2);
    match o.continuation_resolved(t, b) {
        Err(CommandError::NoActiveSession) => {}
        _ => panic!("a late continuation must be discarded"),
    }
    assert_eq!(o.registry.count(), 0);
}

#[test]
fn a_failed_continuation_resolution_drops_the_entry_and_moves_on() {
    let mut o = Orchestrator::new(true);
    let t: u64 = 31;
    let a = track_for(&o, t, "A", 1);
    o.enqueue_playlist(t, 3, a, vec![entry("B", "https://b"), entry("C", "https://c")]);

    // B is handed back, but its resolution fails: the caller drops it and
    // resolves nothing. The entry is consumed, not re-queued.
    let next = o.on_track_complete(t).unwrap().expect("B pending");
    assert_eq!(next.title.as_deref(), Some("B"));
    assert_eq!(o.list_queue(t, 25).unwrap().len(), 0);

    // The next completion event attempts the following entry.
    let next = o.on_track_complete(t).unwrap().expect("C pending");
    assert_eq!(next.title.as_deref(), Some("C"));
}

#[test]
fn completion_for_an_unknown_tenant_is_reported_to_be_absorbed() {
    let mut o = Orchestrator::new(true);
    match o.on_track_complete(12345) {
        Err(CommandError::NoActiveSession) => {}
        _ => panic!("an event for a missing session is an unreachable-state error"),
    }
    assert_eq!(o.registry.count(), 0);
}

#[test]
fn a_second_playlist_supersedes_the_first() {
    let mut o = Orchestrator::new(true);
    let t: u64 = 30;
    let a = track_for(&o, t, "A", 1);
    o.enqueue_playlist(t, 3, a, vec![entry("B", "https://b")]);
    let d = track_for(&o, t, "D", 2);
    o.enqueue_playlist(t, 3, d, vec![entry("E", "https://e")]);

    // The first completion continues with the new playlist's entry.
    let next = o.on_track_complete(t).unwrap().expect("E pending");
    assert_eq!(next.title.as_deref(), Some("E"));
}

#[test]
fn set_volume_persists_and_reaches_only_later_tracks_and_the_live_one() {
    let mut o = Orchestrator::new(true);
    let t: u64 = 55;

    // Two tracks created at the default volume.
    let a = track_for(&o, t, "A", 1);
    assert_eq!(a.volume, 70);
    assert_eq!(a.volume as f32 / 100.0, 0.70);
    o.enqueue_track(t, 9, a);
    let b = track_for(&o, t, "B", 2);
    o.enqueue_track(t, 9, b);

    o.set_volume(t, 55).unwrap();

    // The stored value reads back exactly.
    assert_eq!(o.volumes.get_volume(t), 55);
    assert_eq!(55 as f32 / 100.0, 0.55);

    // The live (front) track changed; the queued one keeps its prior volume.
    let q = o.list_queue(t, 25).unwrap();
    assert_eq!(q[0].volume, 55);
    assert_eq!(q[1].volume, 70);

    // A track created after the change plays at the new volume.
    let c = track_for(&o, t, "C", 3);
    assert_eq!(c.volume, 55);

    // Another tenant still reads the default.
    assert_eq!(o.volumes.get_volume(t + 1), 70);
}

#[test]
fn volume_bounds_are_stored_exactly() {
    let mut o = Orchestrator::new(true);
    let t: u64 = 56;
    o.join(t, 1);
    o.set_volume(t, 0).unwrap();
    assert_eq!(o.volumes.get_volume(t), 0);
    o.set_volume(t, 100).unwrap();
    assert_eq!(o.volumes.get_volume(t), 100);
}

#[test]
fn set_volume_without_a_session_is_refused_and_stores_nothing() {
    let mut o = Orchestrator::new(true);
    match o.set_volume(77, 40) {
        Err(CommandError::NoActiveSession) => {}
        _ => panic!("expected NoActiveSession"),
    }
    assert_eq!(o.volumes.get_volume(77), 70);
}

#[test]
fn interleaved_enqueues_keep_per_tenant_submission_order() {
    let mut o = Orchestrator::new(true);
    let t1: u64 = 1;
    let t2: u64 = 2;
    let mut ok_t1: usize = 0;

    for i in 0..4u64 {
        let tr1 = track_for(&o, t1, &format!("one{}", i), i);
        let pos = o.enqueue_track(t1, 10, tr1);
        ok_t1 += 1;
        assert_eq!(pos, ok_t1);
        let tr2 = track_for(&o, t2, &format!("two{}", i), i);
        o.enqueue_track(t2, 20, tr2);
    }

    let q1 = o.list_queue(t1, 25).unwrap();
    assert_eq!(q1.len(), ok_t1);
    for (i, tr) in q1.iter().enumerate() {
        assert_eq!(tr.title.as_deref(), Some(format!("one{}", i).as_str()));
    }
    let q2 = o.list_queue(t2, 25).unwrap();
    assert_eq!(q2.len(), 4);
    for (i, tr) in q2.iter().enumerate() {
        assert_eq!(tr.title.as_deref(), Some(format!("two{}", i).as_str()));
    }
}

#[test]
fn join_is_idempotent_and_leave_tears_down() {
    let mut o = Orchestrator::new(true);
    let t: u64 = 6;
    assert!(o.join(t, 12));
    assert!(!o.join(t, 99));
    // The session keeps the channel it was created on.
    assert_eq!(o.registry.get(t).unwrap().channel, 12);
    assert_eq!(o.registry.count(), 1);

    o.leave(t).unwrap();
    assert_eq!(o.registry.count(), 0);
    match o.leave(t) {
        Err(CommandError::NoActiveSession) => {}
        _ => panic!("leaving twice must report, not fail hard"),
    }
}

#[test]
fn now_playing_shows_the_front_track() {
    let mut o = Orchestrator::new(true);
    let t: u64 = 14;
    assert!(matches!(
        o.now_playing(t),
        Err(CommandError::NoActiveSession)
    ));
    o.join(t, 2);
    assert!(o.now_playing(t).unwrap().is_none());
    let a = o.create_track(
        t,
        Some("A".to_string()),
        "https://a".to_string(),
        Some("https://thumb/a".to_string()),
        1,
    );
    o.enqueue_track(t, 2, a);
    let front = o.now_playing(t).unwrap().unwrap();
    assert_eq!(front.title.as_deref(), Some("A"));
    assert_eq!(front.source_url, "https://a");
    assert_eq!(front.thumbnail.as_deref(), Some("https://thumb/a"));
}

#[test]
fn list_queue_caps_at_the_display_limit() {
    let mut o = Orchestrator::new(true);
    let t: u64 = 14;
    for i in 0..30u64 {
        let tr = track_for(&o, t, &format!("s{}", i), i);
        o.enqueue_track(t, 2, tr);
    }
    let shown = o.list_queue(t, 25).unwrap();
    assert_eq!(shown.len(), 25);
    assert_eq!(shown[0].title.as_deref(), Some("s0"));
    assert_eq!(shown[24].title.as_deref(), Some("s24"));
}
