use guild_voice::{
    render_line, render_queue, source_query, Action, Command, CommandError, PlaybackStatus,
    SessionTable, Track,
};

fn track(title: &str, locator: &str) -> Track {
    Track { title: Some(title.to_string()), source_locator: Some(locator.to_string()) }
}

fn play(t: &mut SessionTable, guild: u64, channel: u64, tr: Track) -> Result<String, CommandError> {
    let cmd = Command::Play { query: "ytsearch:x".to_string() };
    t.execute(&cmd, guild, Some(channel), true, Some(tr)).reply
}

fn list(t: &mut SessionTable, guild: u64) -> Result<String, CommandError> {
    t.execute(&Command::ListQueue, guild, None, true, None).reply
}

#[test]
fn line_uses_defaults() {
    let bare = Track { title: None, source_locator: None };
    assert_eq!(render_line(&bare), "Unknown Song / <https://youtu.be/>");
    assert_eq!(render_line(&track("Song", "https://a/b")), "Song / <https://a/b>");
}

#[test]
fn empty_queue_renders_header_only() {
    assert_eq!(render_queue(&vec![]), "Current queue:\n");
}

#[test]
fn play_then_list_on_new_guild_shows_one_track_with_defaults() {
    let mut t = SessionTable::new();
    let r = t.execute(
        &Command::Play { query: "ytsearch:lofi".to_string() },
        7,
        Some(70),
        true,
        Some(Track { title: None, source_locator: None }),
    );
    assert_eq!(r.reply.unwrap(), "Successfully queued song");
    assert_eq!(r.action, Action::JoinAndEnqueue(70));
    assert_eq!(list(&mut t, 7).unwrap(), "Current queue:\nUnknown Song / <https://youtu.be/>");
}

#[test]
fn enqueued_tracks_list_in_order() {
    let mut t = SessionTable::new();
    play(&mut t, 1, 10, track("A", "https://a")).unwrap();
    let second = t.execute(
        &Command::Play { query: "q".to_string() },
        1,
        Some(10),
        true,
        Some(track("B", "https://b")),
    );
    assert_eq!(second.action, Action::Enqueue);
    play(&mut t, 1, 10, track("C", "https://c")).unwrap();
    assert_eq!(
        list(&mut t, 1).unwrap(),
        "Current queue:\nA / <https://a>\nB / <https://b>\nC / <https://c>"
    );
}

#[test]
fn skip_keeps_session_with_one_fewer_item() {
    let mut t = SessionTable::new();
    play(&mut t, 2, 20, track("Only", "https://o")).unwrap();
    let r = t.execute(&Command::Skip, 2, None, true, None);
    assert_eq!(r.reply.unwrap(), "Successfully skipped song");
    assert_eq!(r.action, Action::Skip);
    assert!(t.has_session(2));
    assert_eq!(t.get(2).unwrap().queue.len(), 0);
    assert_eq!(list(&mut t, 2).unwrap(), "Current queue:\n");
}

#[test]
fn skip_drops_head_only() {
    let mut t = SessionTable::new();
    play(&mut t, 2, 20, track("A", "https://a")).unwrap();
    play(&mut t, 2, 20, track("B", "https://b")).unwrap();
    t.execute(&Command::Skip, 2, None, true, None).reply.unwrap();
    assert_eq!(list(&mut t, 2).unwrap(), "Current queue:\nB / <https://b>");
    t.execute(&Command::Skip, 2, None, true, None).reply.unwrap();
    t.execute(&Command::Skip, 2, None, true, None).reply.unwrap();
    assert!(t.has_session(2));
}

#[test]
fn skip_without_session_is_not_in_vc_and_creates_none() {
    let mut t = SessionTable::new();
    let r = t.execute(&Command::Skip, 3, Some(30), true, None);
    assert_eq!(r.reply.unwrap_err().message(), "Not in VC");
    assert_eq!(r.action, Action::Nothing);
    assert!(!t.has_session(3));
}

#[test]
fn every_guarded_command_without_session_is_not_in_vc() {
    let mut t = SessionTable::new();
    for cmd in [Command::Leave, Command::Skip, Command::Pause, Command::Resume, Command::ListQueue] {
        let r = t.execute(&cmd, 4, Some(40), true, None);
        assert_eq!(r.reply.unwrap_err(), CommandError::NotInChannel);
        assert_eq!(r.action, Action::Nothing);
        assert!(!t.has_session(4));
    }
}

#[test]
fn leave_then_play_starts_fresh_session() {
    let mut t = SessionTable::new();
    play(&mut t, 5, 50, track("Old", "https://old")).unwrap();
    play(&mut t, 5, 50, track("Older", "https://older")).unwrap();
    let r = t.execute(&Command::Leave, 5, None, true, None);
    assert_eq!(r.reply.unwrap(), "Successfully left call");
    assert_eq!(r.action, Action::StopAndLeave);
    assert!(!t.has_session(5));
    let again = t.execute(
        &Command::Play { query: "q".to_string() },
        5,
        Some(51),
        true,
        Some(track("New", "https://new")),
    );
    assert_eq!(again.action, Action::JoinAndEnqueue(51));
    assert_eq!(t.get(5).unwrap().channel, 51);
    assert_eq!(list(&mut t, 5).unwrap(), "Current queue:\nNew / <https://new>");
}

#[test]
fn pause_and_resume_change_status_only() {
    let mut t = SessionTable::new();
    play(&mut t, 6, 60, track("A", "https://a")).unwrap();
    let r = t.execute(&Command::Pause, 6, None, true, None);
    assert_eq!(r.reply.unwrap(), "Successfully paused song");
    assert_eq!(r.action, Action::Pause);
    assert_eq!(t.get(6).unwrap().status, PlaybackStatus::Paused);
    assert_eq!(t.get(6).unwrap().queue.len(), 1);
    let r = t.execute(&Command::Resume, 6, None, true, None);
    assert_eq!(r.reply.unwrap(), "Successfully resumed song");
    assert_eq!(r.action, Action::Resume);
    assert_eq!(t.get(6).unwrap().status, PlaybackStatus::Playing);
}

#[test]
fn missing_voice_manager_is_infra_error() {
    let mut t = SessionTable::new();
    let r = t.execute(&Command::Play { query: "q".to_string() }, 8, Some(80), false, Some(track("A", "a")));
    assert_eq!(r.reply.unwrap_err(), CommandError::Infra);
    assert!(!t.has_session(8));
}

#[test]
fn play_without_caller_channel_is_not_in_vc() {
    let mut t = SessionTable::new();
    let r = t.execute(&Command::Play { query: "q".to_string() }, 9, None, true, Some(track("A", "a")));
    assert_eq!(r.reply.unwrap_err(), CommandError::NotInChannel);
    assert!(!t.has_session(9));
}

#[test]
fn failed_resolution_enqueues_nothing() {
    let mut t = SessionTable::new();
    let r = t.execute(&Command::Play { query: "q".to_string() }, 11, Some(110), true, None);
    assert_eq!(r.reply.unwrap_err(), CommandError::SourceResolution);
    assert_eq!(r.action, Action::Nothing);
    assert!(!t.has_session(11));
    play(&mut t, 11, 110, track("A", "https://a")).unwrap();
    t.execute(&Command::Play { query: "q".to_string() }, 11, Some(110), true, None);
    assert_eq!(t.get(11).unwrap().queue.len(), 1);
}

#[test]
fn guilds_are_independent() {
    let mut t = SessionTable::new();
    play(&mut t, 1, 10, track("A", "https://a")).unwrap();
    play(&mut t, 2, 20, track("B", "https://b")).unwrap();
    t.execute(&Command::Leave, 1, None, true, None).reply.unwrap();
    assert!(!t.has_session(1));
    assert_eq!(list(&mut t, 2).unwrap(), "Current queue:\nB / <https://b>");
}

#[test]
fn source_query_only_for_checked_play() {
    let p = Command::Play { query: "ytsearch:x".to_string() };
    assert_eq!(source_query(&p, Some(1), true), Some("ytsearch:x".to_string()));
    assert_eq!(source_query(&p, None, true), None);
    assert_eq!(source_query(&p, Some(1), false), None);
    assert_eq!(source_query(&Command::Skip, Some(1), true), None);
}

#[test]
fn observed_queue_replaces_model_queue() {
    let mut t = SessionTable::new();
    play(&mut t, 12, 120, track("A", "https://a")).unwrap();
    play(&mut t, 12, 120, track("B", "https://b")).unwrap();
    t.observe_queue(12, vec![track("B", "https://b")]);
    assert_eq!(list(&mut t, 12).unwrap(), "Current queue:\nB / <https://b>");
    assert_eq!(t.get(12).unwrap().channel, 120);
    t.observe_queue(13, vec![track("X", "https://x")]);
    assert!(!t.has_session(13));
}
