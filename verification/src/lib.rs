//! Voice-session lifecycle and queue coordination for a music bot.
//!
//! The library holds the decision logic that a chat-platform music bot
//! shares between its command surface (play, skip, clear) and its two
//! event watchers (track completion, channel presence): when a session is
//! created, when audio is appended to an existing queue, and when a
//! session must be torn down. The surrounding gateway and voice-transport
//! plumbing performs the physical joins, disconnects and messages; it
//! feeds events into these functions and carries out the actions they
//! return.

pub mod laws;
pub mod orchestrator;
pub mod registry;
pub mod watchers;
