//! Encoding for Twitch's IRC-derived chat protocol.
//!
//! Outbound chat commands are plain values; each implements [`Encodable`],
//! which appends the command's wire form (a single IRC line ending in
//! `\r\n`) to a text sink. Channel names are normalized to carry a leading
//! `#` before they are put on the wire.
//!
//! * [`commands`] holds the command values and their constructors.
//! * [`encoder`] holds the [`Encodable`] trait and the [`Encoder`] and
//!   [`AsyncEncoder`] sinks.

use vstd::prelude::*;

pub mod commands;
pub mod encoder;

pub use encoder::AsyncEncoder;
pub use encoder::Encodable;
pub use encoder::Encoder;

verus! {

/// The Twitch IRC address for non-TLS connections.
pub const TWITCH_IRC_ADDRESS: &'static str = "irc.chat.twitch.tv:6667";

/// The Twitch IRC address for TLS connections.
pub const TWITCH_IRC_ADDRESS_TLS: &'static str = "irc.chat.twitch.tv:6697";

/// The Twitch WebSocket address for non-TLS connections.
pub const TWITCH_WS_ADDRESS: &'static str = "ws://irc-ws.chat.twitch.tv:80";

/// The Twitch WebSocket address for TLS connections.
pub const TWITCH_WS_ADDRESS_TLS: &'static str = "wss://irc-ws.chat.twitch.tv:443";

/// A TLS domain for Twitch.
pub const TWITCH_TLS_DOMAIN: &'static str = "irc.chat.twitch.tv";

/// The login used for an anonymous session; it serves as both the name
/// and the token.
pub const ANONYMOUS_LOGIN: &'static str = "justinfan1234";

} // verus!
