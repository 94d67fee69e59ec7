//! Watcher behaviour: track completion, presence changes, occupancy.

use yt_dc_bot::orchestrator::clear;
use yt_dc_bot::orchestrator::complete_join;
use yt_dc_bot::orchestrator::play;
use yt_dc_bot::orchestrator::ClearOutcome;
use yt_dc_bot::orchestrator::PlayStep;
use yt_dc_bot::registry::SessionRegistry;
use yt_dc_bot::watchers::check_if_channel_empty;
use yt_dc_bot::watchers::DefaultHandler;
use yt_dc_bot::watchers::PresenceAction;
use yt_dc_bot::watchers::TrackEndAction;
use yt_dc_bot::watchers::TrackEndHandler;
use yt_dc_bot::watchers::VoiceMember;

const G1: u64 = 101;
const C1: u64 = 11;
const C2: u64 = 12;
const NOTIFY: u64 = 900;
const BOT: u64 = 1;
const HUMAN: u64 = 2;

fn human_in(channel: u64) -> Vec<VoiceMember> {
    vec![
        VoiceMember { user_id: BOT, channel_id: Some(channel) },
        VoiceMember { user_id: HUMAN, channel_id: Some(channel) },
    ]
}

fn bot_alone(channel: u64) -> Vec<VoiceMember> {
    vec![
        VoiceMember { user_id: BOT, channel_id: Some(channel) },
        VoiceMember { user_id: HUMAN, channel_id: None },
    ]
}

#[test]
fn occupancy_ignores_the_bot_itself() {
    assert!(check_if_channel_empty(&bot_alone(C1), BOT, C1));
    assert!(!check_if_channel_empty(&human_in(C1), BOT, C1));
    assert!(check_if_channel_empty(&Vec::new(), BOT, C1));
    // A human in another channel does not count.
    assert!(check_if_channel_empty(&human_in(C2), BOT, C1));
}

#[test]
fn track_end_with_pending_sources_continues() {
    let mut reg = SessionRegistry::new();
    complete_join(&mut reg, G1, C1, NOTIFY, "a".to_owned());
    let step = play(&mut reg, G1, Some(C1), "b".to_owned());
    assert_eq!(step, PlayStep::Enqueued { queue_len: 1 });
    let handler = TrackEndHandler { channel_id: NOTIFY, guild_id: G1 };
    // The first source finished: one pending source remains, no teardown.
    assert_eq!(handler.act(&mut reg, 1, true), TrackEndAction::Continue);
    assert!(reg.contains(G1));
    assert_eq!(reg.queue_len_of(G1), Some(1));
    assert_eq!(reg.source_at(G1, 0).unwrap().as_str(), "b");
}

#[test]
fn track_end_on_drained_queue_tears_down_once() {
    let mut reg = SessionRegistry::new();
    complete_join(&mut reg, G1, C1, NOTIFY, "a".to_owned());
    let handler = TrackEndHandler { channel_id: NOTIFY, guild_id: G1 };
    assert_eq!(handler.act(&mut reg, 1, true), TrackEndAction::Teardown);
    assert!(!reg.contains(G1));
    // A second report finds no session and asks for no action.
    assert_eq!(handler.act(&mut reg, 1, true), TrackEndAction::NotActive);
}

#[test]
fn track_end_with_dead_connection_does_not_tear_down() {
    let mut reg = SessionRegistry::new();
    complete_join(&mut reg, G1, C1, NOTIFY, "a".to_owned());
    let handler = TrackEndHandler { channel_id: NOTIFY, guild_id: G1 };
    assert_eq!(handler.act(&mut reg, 1, false), TrackEndAction::Continue);
    assert!(reg.contains(G1));
    assert_eq!(reg.queue_len_of(G1), Some(0));
}

#[test]
fn presence_without_session_does_nothing() {
    let mut reg = SessionRegistry::new();
    let watcher = DefaultHandler;
    let action = watcher.voice_state_update(&mut reg, G1, true, &human_in(C1), BOT);
    assert_eq!(action, PresenceAction::NoSession);
}

#[test]
fn presence_desync_reconciles_registry() {
    let mut reg = SessionRegistry::new();
    complete_join(&mut reg, G1, C1, NOTIFY, "a".to_owned());
    let watcher = DefaultHandler;
    // The transport no longer holds a connection: heal the registry.
    let action = watcher.voice_state_update(&mut reg, G1, false, &human_in(C1), BOT);
    assert_eq!(action, PresenceAction::Reconciled);
    assert!(!reg.contains(G1));
}

#[test]
fn vacated_channel_tears_down_despite_pending_queue() {
    let mut reg = SessionRegistry::new();
    complete_join(&mut reg, G1, C1, NOTIFY, "a".to_owned());
    let step = play(&mut reg, G1, Some(C1), "b".to_owned());
    assert_eq!(step, PlayStep::Enqueued { queue_len: 1 });
    let watcher = DefaultHandler;
    let action = watcher.voice_state_update(&mut reg, G1, true, &bot_alone(C1), BOT);
    assert_eq!(action, PresenceAction::Teardown);
    assert!(!reg.contains(G1));
}

#[test]
fn cleared_queue_with_listener_present_stays() {
    let mut reg = SessionRegistry::new();
    complete_join(&mut reg, G1, C1, NOTIFY, "a".to_owned());
    assert_eq!(clear(&mut reg, G1), ClearOutcome::Cleared);
    let watcher = DefaultHandler;
    // Empty queue alone never causes a leave while someone still listens.
    let action = watcher.voice_state_update(&mut reg, G1, true, &human_in(C1), BOT);
    assert_eq!(action, PresenceAction::Stay);
    assert!(reg.contains(G1));
    assert_eq!(reg.queue_len_of(G1), Some(0));
}

#[test]
fn full_session_story() {
    // Guild G1, channel C1 with one human listener.
    let mut reg = SessionRegistry::new();
    let step = play(&mut reg, G1, Some(C1), "urlA".to_owned());
    assert_eq!(step, PlayStep::NeedsJoin { channel_id: C1 });
    complete_join(&mut reg, G1, C1, NOTIFY, "urlA".to_owned());
    // A second request from inside C1 queues up behind the first.
    let step = play(&mut reg, G1, Some(C1), "urlB".to_owned());
    assert_eq!(step, PlayStep::Enqueued { queue_len: 1 });
    let handler = TrackEndHandler { channel_id: NOTIFY, guild_id: G1 };
    // Track A finishes: B is pending, so no teardown.
    assert_eq!(handler.act(&mut reg, 1, true), TrackEndAction::Continue);
    assert_eq!(reg.queue_len_of(G1), Some(1));
    // Track B finishes: the queue ran dry, the session ends.
    assert_eq!(handler.act(&mut reg, 1, true), TrackEndAction::Teardown);
    assert!(!reg.contains(G1));
    // A later play starts over with a fresh join.
    let step = play(&mut reg, G1, Some(C1), "urlC".to_owned());
    assert_eq!(step, PlayStep::NeedsJoin { channel_id: C1 });
}
