//! The playback queue of a chat-bot music player.
//!
//! Users queue tracks by URL; while none waits, the player falls back on an
//! autoplaylist, whose titles are resolved ahead of time so that nobody has to
//! wait for a lookup. This library decides what plays next and which URL is
//! resolved when. Looking up titles, playing audio and talking to the chat
//! service are the caller's part: the operations here hand out what is to be
//! done and take in how it went.
//!
//! - [`playlist`] holds the queue itself, [`state`] its mathematical model,
//!   and [`laws`] what is proved of the model over any run of operations.
//! - [`session`] adds the record of the current track and the decisions of
//!   the monitor that keeps a session playing.
//! - [`voice_client`] holds the decisions of the chat commands.
//! - [`resolver`] judges the output of the title lookup, [`configuration`]
//!   reads options from a configuration document, [`track`] and [`error`] hold
//!   the shared types, and [`random`] the one source of chance.

pub mod configuration;
pub mod error;
pub mod laws;
pub mod playlist;
pub mod random;
pub mod resolver;
pub mod session;
pub mod state;
pub mod track;
pub mod voice_client;
