use github_release_bot::bot::{
    fallback_text, list_failed, list_line, list_text, BotReply, FollowUpStep, HandleTrackResult,
    ListedRepository, TrackStep,
};
use github_release_bot::github::LookupOutcome;
use github_release_bot::poller::FanOut;
use github_release_bot::time::Timestamp;
use github_release_bot::tracked_repositories::{RepositoryUrl, TrackedRelease};

fn at(secs: i64) -> Timestamp {
    Timestamp { secs, nanos: 0 }
}

fn existing(id: u128, name: &str, url: &str, chat_id: i64) -> TrackedRelease {
    TrackedRelease {
        id,
        repository_name: name.to_string(),
        repository_url: RepositoryUrl::from_stored(url.to_string()),
        chat_id,
        created_at: at(1),
        updated_at: at(1),
    }
}

/// Runs a registration against a store that holds `stored` and accepts
/// every save; gives the result and the record that was saved.
fn handle_track(
    stored: Option<TrackedRelease>,
    chat_id: i64,
    name: &str,
    url: &str,
) -> (Result<HandleTrackResult, String>, Option<TrackedRelease>) {
    let mut step = TrackStep::start(name, url);
    let mut stored = stored;
    let mut saved = None;
    loop {
        let reply = match &step {
            TrackStep::FindByUrl { url: asked } => {
                assert_eq!(asked, url);
                BotReply::Found(stored.take())
            }
            TrackStep::Save { record, .. } => {
                saved = Some(record.clone());
                BotReply::Saved
            }
            TrackStep::Done(_) => break,
        };
        step = step.advance_with(reply, chat_id, name, url, at(77), 4242);
    }
    match step {
        TrackStep::Done(outcome) => (outcome, saved),
        _ => unreachable!(),
    }
}

#[test]
fn handle_track_creates_new_when_not_exists() {
    let (res, saved) = handle_track(None, 100, "repo-one", "https://github.com/owner/repo-one");
    match res.expect("should succeed") {
        HandleTrackResult::Created { id, message } => {
            assert!(message.contains("Now tracking"));
            assert_eq!(message, "Now tracking repo-one (https://github.com/owner/repo-one).");
            assert_eq!(id, 4242);
        }
        _ => panic!("expected Created"),
    }
    let saved = saved.expect("a record is saved");
    assert_eq!(saved.id, 4242);
    assert_eq!(saved.repository_name, "repo-one");
    assert_eq!(saved.repository_url.url(), "https://github.com/owner/repo-one");
    assert_eq!(saved.chat_id, 100);
    assert_eq!(saved.created_at, at(77));
    assert_eq!(saved.updated_at, at(77));
}

#[test]
fn handle_track_reports_already_tracking_in_same_chat() {
    let stored = existing(5, "repo-two", "https://github.com/owner/repo-two", 42);
    let (res, saved) =
        handle_track(Some(stored), 42, "repo-two", "https://github.com/owner/repo-two");
    match res.expect("should succeed") {
        HandleTrackResult::AlreadyTracking { message } => {
            assert!(message.contains("already tracking"));
            assert_eq!(
                message,
                "This chat is already tracking repo-two (https://github.com/owner/repo-two)."
            );
        }
        _ => panic!("expected AlreadyTracking"),
    }
    assert!(saved.is_none());
}

#[test]
fn handle_track_updates_when_tracked_in_other_chat() {
    let stored = existing(5, "old-name", "https://github.com/owner/repo-three", 1);
    let (res, saved) =
        handle_track(Some(stored), 2, "repo-three", "https://github.com/owner/repo-three");
    match res.expect("should succeed") {
        HandleTrackResult::Updated { id, message } => {
            assert!(message.contains("Updated tracking"));
            assert_eq!(
                message,
                "Updated tracking for repo-three (https://github.com/owner/repo-three)."
            );
            assert_eq!(id, 5);
        }
        _ => panic!("expected Updated"),
    }
    let saved = saved.expect("the record is saved");
    assert_eq!(saved.id, 5);
    assert_eq!(saved.repository_name, "repo-three");
    assert_eq!(saved.chat_id, 1);
    assert_eq!(saved.created_at, at(1));
    assert_eq!(saved.updated_at, at(77));
}

#[test]
fn handle_track_refuses_an_empty_name_first() {
    let (res, saved) = handle_track(None, 1, "", "no url either");
    assert_eq!(res.unwrap_err(), "Please provide a name for the repository.");
    assert!(saved.is_none());
}

#[test]
fn handle_track_refuses_an_address_elsewhere() {
    let (res, _) = handle_track(None, 1, "x", "https://example.org/owner/repo");
    assert_eq!(res.unwrap_err(), "Invalid GitHub repository URL: https://example.org/owner/repo");
}

#[test]
fn handle_track_quotes_store_failures() {
    let url = "https://github.com/owner/repo";
    let step = TrackStep::start("n", url);
    let step = step.advance_with(BotReply::QueryFailed("disk full".to_string()), 1, "n", url, at(1), 9);
    assert!(matches!(&step, TrackStep::Done(Err(m)) if m == "Failed to query repository: disk full"));

    let step = TrackStep::start("n", url);
    let step = step.advance_with(BotReply::Found(None), 1, "n", url, at(1), 9);
    let step = step.advance_with(BotReply::SaveFailed("locked".to_string()), 1, "n", url, at(1), 9);
    assert!(matches!(&step, TrackStep::Done(Err(m)) if m == "Failed to track repository: locked"));

    let step = TrackStep::start("n", url);
    let step = step.advance_with(BotReply::Found(Some(existing(3, "o", url, 2))), 1, "n", url, at(1), 9);
    let step = step.advance_with(BotReply::SaveFailed("locked".to_string()), 1, "n", url, at(1), 9);
    assert!(
        matches!(&step, TrackStep::Done(Err(m)) if m == "Failed to update tracked repository: locked")
    );
}

#[test]
fn handle_track_with_clock_and_fresh_id() {
    let url = "https://github.com/owner/repo";
    let step = TrackStep::start("n", url).advance(BotReply::Found(None), 1, "n", url);
    match &step {
        TrackStep::Save { record, created } => {
            assert!(*created);
            assert_eq!(record.created_at, record.updated_at);
            assert_eq!((record.id >> 76) & 0xf, 7);
        }
        other => panic!("expected a save, got {:?}", other),
    }
}

#[test]
fn follow_up_after_created_refreshes_the_cache() {
    let url = "https://github.com/owner/repo.git";
    let outcome = Ok(HandleTrackResult::Created { id: 8, message: "Now tracking".to_string() });
    let step = FollowUpStep::start(&outcome);
    assert!(matches!(&step, FollowUpStep::Reply { text } if text == "Now tracking"));
    let step = step.advance_at(BotReply::Sent, &outcome, 50, url, FanOut::Owner, at(3));
    assert!(
        matches!(&step, FollowUpStep::Lookup { owner, repo } if owner == "owner" && repo == "repo")
    );
    let step = step.advance_at(
        BotReply::Lookup(LookupOutcome::Found("v3".to_string())),
        &outcome,
        50,
        url,
        FanOut::Owner,
        at(3),
    );
    match &step {
        FollowUpStep::SeedCache { entry } => {
            assert_eq!(entry.tracked_repository_id, 8);
            assert_eq!(entry.tag_name, "v3");
            assert_eq!(entry.first_seen_at, at(3));
        }
        other => panic!("expected a cache write, got {:?}", other),
    }
    let step = step.advance_at(BotReply::Written, &outcome, 50, url, FanOut::Owner, at(3));
    assert!(matches!(step, FollowUpStep::Done));
}

#[test]
fn follow_up_after_updated_moves_the_record() {
    let url = "https://github.com/owner/repo";
    let outcome = Ok(HandleTrackResult::Updated { id: 8, message: "Updated".to_string() });
    let step = FollowUpStep::start(&outcome).advance_at(BotReply::Sent, &outcome, 50, url, FanOut::Owner, at(3));
    let step = step.advance_at(BotReply::Lookup(LookupOutcome::NotFound), &outcome, 50, url, FanOut::Owner, at(3));
    assert!(matches!(&step, FollowUpStep::FindForMove { url: asked } if asked == url));
    let step = step.advance_at(
        BotReply::Found(Some(existing(8, "n", url, 1))),
        &outcome,
        50,
        url,
        FanOut::Owner,
        at(3),
    );
    match &step {
        FollowUpStep::SaveMoved { record } => {
            assert_eq!(record.id, 8);
            assert_eq!(record.chat_id, 50);
            assert_eq!(record.repository_name, "n");
            assert_eq!(record.updated_at, at(1));
        }
        other => panic!("expected a save, got {:?}", other),
    }
    let step = step.advance_at(BotReply::Saved, &outcome, 50, url, FanOut::Owner, at(3));
    assert!(matches!(step, FollowUpStep::Done));
}

#[test]
fn follow_up_after_updated_with_a_lookup_error_still_moves() {
    let url = "https://github.com/owner/repo";
    let outcome = Ok(HandleTrackResult::Updated { id: 8, message: "Updated".to_string() });
    let step = FollowUpStep::start(&outcome).advance_at(BotReply::Sent, &outcome, 50, url, FanOut::Owner, at(3));
    let step = step.advance_at(
        BotReply::Lookup(LookupOutcome::TransientError("x".to_string())),
        &outcome,
        50,
        url,
        FanOut::Owner,
        at(3),
    );
    assert!(matches!(&step, FollowUpStep::FindForMove { .. }));
    let step = step.advance_at(BotReply::Found(None), &outcome, 50, url, FanOut::Owner, at(3));
    assert!(matches!(step, FollowUpStep::Done));
}

#[test]
fn follow_up_subscribes_the_asking_chat_where_subscribers_are_told() {
    let url = "https://github.com/owner/repo";
    for outcome in [
        Ok(HandleTrackResult::Created { id: 8, message: "m".to_string() }),
        Ok(HandleTrackResult::Updated { id: 8, message: "m".to_string() }),
    ] {
        let fan_out = FanOut::Subscribers;
        let step = FollowUpStep::start(&outcome).advance_at(BotReply::Sent, &outcome, 50, url, fan_out, at(3));
        let step = step.advance_at(
            BotReply::Lookup(LookupOutcome::Found("v3".to_string())),
            &outcome,
            50,
            url,
            fan_out,
            at(3),
        );
        assert!(matches!(&step, FollowUpStep::SeedCache { entry } if entry.tag_name == "v3"));
        let step = step.advance_at(BotReply::Written, &outcome, 50, url, fan_out, at(3));
        assert!(matches!(
            &step,
            FollowUpStep::Subscribe { tracked_repository_id: 8, chat_id: 50 }
        ));
        let step = step.advance_at(BotReply::Subscribed, &outcome, 50, url, fan_out, at(3));
        assert!(matches!(step, FollowUpStep::Done));
    }
}

#[test]
fn follow_up_subscribes_without_a_tag_too() {
    let outcome = Ok(HandleTrackResult::Created { id: 8, message: "m".to_string() });
    let fan_out = FanOut::Subscribers;
    let url = "https://github.com/owner/repo";
    let step = FollowUpStep::start(&outcome).advance_at(BotReply::Sent, &outcome, 5, url, fan_out, at(3));
    let step = step.advance_at(BotReply::Lookup(LookupOutcome::NotFound), &outcome, 5, url, fan_out, at(3));
    assert!(matches!(&step, FollowUpStep::Subscribe { tracked_repository_id: 8, chat_id: 5 }));

    let url = "https://github.com/owner";
    let step = FollowUpStep::start(&outcome).advance_at(BotReply::Sent, &outcome, 5, url, fan_out, at(3));
    assert!(matches!(&step, FollowUpStep::Subscribe { tracked_repository_id: 8, chat_id: 5 }));
}

#[test]
fn follow_up_subscribes_nobody_where_nothing_changed() {
    let url = "https://github.com/owner/repo";
    let fan_out = FanOut::Subscribers;
    let outcome = Ok(HandleTrackResult::AlreadyTracking { message: "already".to_string() });
    let step = FollowUpStep::start(&outcome).advance_at(BotReply::Sent, &outcome, 1, url, fan_out, at(1));
    assert!(matches!(step, FollowUpStep::Done));
}

#[test]
fn follow_up_ends_after_the_reply_where_nothing_changed() {
    let url = "https://github.com/owner/repo";
    let outcome = Ok(HandleTrackResult::AlreadyTracking { message: "already".to_string() });
    let step = FollowUpStep::start(&outcome);
    assert!(matches!(&step, FollowUpStep::Reply { text } if text == "already"));
    assert!(matches!(step.advance_at(BotReply::Sent, &outcome, 1, url, FanOut::Owner, at(1)), FollowUpStep::Done));

    let outcome: Result<HandleTrackResult, String> = Err("refused".to_string());
    let step = FollowUpStep::start(&outcome);
    assert!(matches!(&step, FollowUpStep::Reply { text } if text == "refused"));
    assert!(matches!(step.advance_at(BotReply::Sent, &outcome, 1, url, FanOut::Owner, at(1)), FollowUpStep::Done));
}

#[test]
fn follow_up_ends_when_the_reply_cannot_be_sent() {
    let url = "https://github.com/owner/repo";
    let outcome = Ok(HandleTrackResult::Created { id: 8, message: "m".to_string() });
    let step = FollowUpStep::start(&outcome);
    let step = step.advance_at(BotReply::SendFailed, &outcome, 1, url, FanOut::Owner, at(1));
    assert!(matches!(step, FollowUpStep::Done));
}

#[test]
fn follow_up_reads_the_clock_for_the_cache_entry() {
    let url = "https://github.com/owner/repo";
    let outcome = Ok(HandleTrackResult::Created { id: 8, message: "m".to_string() });
    let step = FollowUpStep::start(&outcome).advance(BotReply::Sent, &outcome, 1, url, FanOut::Owner);
    let step = step.advance(
        BotReply::Lookup(LookupOutcome::Found("v1".to_string())),
        &outcome,
        1,
        url,
        FanOut::Owner,
    );
    assert!(
        matches!(&step, FollowUpStep::SeedCache { entry } if entry.first_seen_at.secs > 1_577_836_800)
    );
}

fn listed(name: &str, url: &str, latest: Option<&str>) -> ListedRepository {
    ListedRepository {
        name: name.to_string(),
        url: url.to_string(),
        latest: latest.map(|t| t.to_string()),
    }
}

#[test]
fn list_text_for_no_repository() {
    assert_eq!(list_text(&vec![]), "No repositories tracked yet.");
}

#[test]
fn list_text_for_one_and_more_repositories() {
    let one = vec![listed("alpha", "https://github.com/owner/alpha", Some("v1.0.0"))];
    assert_eq!(
        list_text(&one),
        "Tracked repositories:\n- <a href=\"https://github.com/owner/alpha\">alpha</a> - latest: v1.0.0"
    );
    let two = vec![
        listed("alpha", "https://github.com/owner/alpha", Some("v1.0.0")),
        listed("b<e>ta", "https://github.com/owner/beta?x=1&y=2", None),
    ];
    assert_eq!(
        list_text(&two),
        "Tracked repositories:\n- <a href=\"https://github.com/owner/alpha\">alpha</a> - latest: v1.0.0\n- <a href=\"https://github.com/owner/beta?x=1&amp;y=2\">b&lt;e&gt;ta</a> - latest: unknown"
    );
}

#[test]
fn list_line_does_not_escape_the_tag() {
    let line = list_line(&listed("n", "u", Some("<v1>")));
    assert_eq!(line, "- <a href=\"u\">n</a> - latest: <v1>");
}

#[test]
fn list_failure_quotes_the_reason() {
    assert_eq!(list_failed("no such table"), "Failed to list repositories: no such table");
}

#[test]
fn fallback_answers_commands_and_other_text() {
    assert_eq!(fallback_text("/unknown", "HELP"), "HELP");
    assert_eq!(fallback_text("/", "HELP"), "HELP");
    assert_eq!(fallback_text("hello", "HELP"), "Sorry, I only work with commands. \n\nHELP");
    assert_eq!(fallback_text("", "HELP"), "Sorry, I only work with commands. \n\nHELP");
    assert_eq!(fallback_text(" /x", "HELP"), "Sorry, I only work with commands. \n\nHELP");
}
