//! Command-surface behaviour: play, complete_join, skip, clear, teardown.

use yt_dc_bot::orchestrator::clear;
use yt_dc_bot::orchestrator::complete_join;
use yt_dc_bot::orchestrator::play;
use yt_dc_bot::orchestrator::skip;
use yt_dc_bot::orchestrator::teardown;
use yt_dc_bot::orchestrator::ClearOutcome;
use yt_dc_bot::orchestrator::PlayStep;
use yt_dc_bot::orchestrator::SkipOutcome;
use yt_dc_bot::orchestrator::TeardownOutcome;
use yt_dc_bot::registry::SessionRegistry;

const G1: u64 = 101;
const G2: u64 = 102;
const C1: u64 = 11;
const C2: u64 = 12;
const NOTIFY: u64 = 900;

fn joined_registry(sources: &[&str]) -> SessionRegistry {
    let mut reg = SessionRegistry::new();
    complete_join(&mut reg, G1, C1, NOTIFY, sources[0].to_owned());
    for s in &sources[1..] {
        let step = play(&mut reg, G1, Some(C1), s.to_string());
        assert!(matches!(step, PlayStep::Enqueued { .. }));
    }
    reg
}

#[test]
fn play_without_voice_channel_is_rejected() {
    let mut reg = SessionRegistry::new();
    assert_eq!(play(&mut reg, G1, None, "urlA".to_owned()), PlayStep::NoVoiceChannel);
    assert!(!reg.contains(G1));
}

#[test]
fn play_without_session_asks_for_join() {
    let mut reg = SessionRegistry::new();
    let step = play(&mut reg, G1, Some(C1), "urlA".to_owned());
    assert_eq!(step, PlayStep::NeedsJoin { channel_id: C1 });
    assert!(!reg.contains(G1));
}

#[test]
fn complete_join_registers_fresh_session() {
    let mut reg = SessionRegistry::new();
    complete_join(&mut reg, G1, C1, NOTIFY, "urlA".to_owned());
    assert!(reg.contains(G1));
    assert_eq!(reg.channel_of(G1), Some(C1));
    assert_eq!(reg.notify_channel_of(G1), Some(NOTIFY));
    assert_eq!(reg.queue_len_of(G1), Some(1));
    assert_eq!(reg.source_at(G1, 0).unwrap().as_str(), "urlA");
}

#[test]
fn play_in_same_channel_enqueues() {
    let mut reg = joined_registry(&["urlA"]);
    let step = play(&mut reg, G1, Some(C1), "urlB".to_owned());
    assert_eq!(step, PlayStep::Enqueued { queue_len: 1 });
    assert_eq!(reg.queue_len_of(G1), Some(2));
    assert_eq!(reg.source_at(G1, 0).unwrap().as_str(), "urlA");
    assert_eq!(reg.source_at(G1, 1).unwrap().as_str(), "urlB");
}

#[test]
fn play_in_other_channel_rejoins_directly() {
    let mut reg = joined_registry(&["urlA", "urlB"]);
    let step = play(&mut reg, G1, Some(C2), "urlC".to_owned());
    assert_eq!(step, PlayStep::NeedsJoin { channel_id: C2 });
    // The old session is untouched until the physical join succeeds.
    assert_eq!(reg.channel_of(G1), Some(C1));
    assert_eq!(reg.queue_len_of(G1), Some(2));
    // The completed join replaces it in place.
    complete_join(&mut reg, G1, C2, NOTIFY, "urlC".to_owned());
    assert_eq!(reg.channel_of(G1), Some(C2));
    assert_eq!(reg.queue_len_of(G1), Some(1));
    assert_eq!(reg.source_at(G1, 0).unwrap().as_str(), "urlC");
}

#[test]
fn queue_is_fifo_under_skip() {
    let mut reg = joined_registry(&["a", "b", "c"]);
    assert_eq!(reg.source_at(G1, 0).unwrap().as_str(), "a");
    assert_eq!(skip(&mut reg, G1), SkipOutcome::Skipped { remaining: 2 });
    assert_eq!(reg.source_at(G1, 0).unwrap().as_str(), "b");
    assert_eq!(skip(&mut reg, G1), SkipOutcome::Skipped { remaining: 1 });
    assert_eq!(reg.source_at(G1, 0).unwrap().as_str(), "c");
    assert_eq!(skip(&mut reg, G1), SkipOutcome::Skipped { remaining: 0 });
    // Popping an empty queue is a no-op reporting zero, not an error.
    assert_eq!(skip(&mut reg, G1), SkipOutcome::Skipped { remaining: 0 });
    assert!(reg.contains(G1));
}

#[test]
fn skip_without_session_is_not_active() {
    let mut reg = SessionRegistry::new();
    assert_eq!(skip(&mut reg, G1), SkipOutcome::NotActive);
}

#[test]
fn clear_empties_queue_but_keeps_session() {
    let mut reg = joined_registry(&["a", "b", "c"]);
    assert_eq!(clear(&mut reg, G1), ClearOutcome::Cleared);
    assert_eq!(reg.queue_len_of(G1), Some(0));
    assert!(reg.contains(G1));
    assert_eq!(reg.channel_of(G1), Some(C1));
}

#[test]
fn clear_without_session_is_not_active() {
    let mut reg = SessionRegistry::new();
    assert_eq!(clear(&mut reg, G1), ClearOutcome::NotActive);
}

#[test]
fn teardown_is_idempotent() {
    let mut reg = joined_registry(&["a"]);
    assert_eq!(teardown(&mut reg, G1), TeardownOutcome::TornDown);
    assert!(!reg.contains(G1));
    // The second call observes "no session" and asks for no action.
    assert_eq!(teardown(&mut reg, G1), TeardownOutcome::NotActive);
    assert!(!reg.contains(G1));
}

#[test]
fn guilds_are_independent() {
    let mut reg = SessionRegistry::new();
    complete_join(&mut reg, G1, C1, NOTIFY, "a".to_owned());
    complete_join(&mut reg, G2, C2, NOTIFY, "x".to_owned());
    let step = play(&mut reg, G2, Some(C2), "y".to_owned());
    assert_eq!(step, PlayStep::Enqueued { queue_len: 1 });
    assert_eq!(teardown(&mut reg, G1), TeardownOutcome::TornDown);
    assert!(!reg.contains(G1));
    assert!(reg.contains(G2));
    assert_eq!(reg.queue_len_of(G2), Some(2));
    assert_eq!(reg.source_at(G2, 0).unwrap().as_str(), "x");
}
