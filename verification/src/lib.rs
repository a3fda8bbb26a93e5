//! Turn-based, role-gated two-player game sessions: a secret-word duel and a
//! number-discovery duel, both built over a capacity-bounded append-only
//! message log with monotonically increasing entry identifiers.

use vstd::prelude::*;

pub mod duel;
pub mod game;
pub mod text;

pub use duel::DiscoveryResult;
pub use duel::DuelError;
pub use duel::DuelEvent;
pub use duel::DuelInfo;
pub use duel::DuelState;
pub use duel::Phase;
pub use duel::PlayerEntry;
pub use duel::PlayerView;
pub use game::AnswerResult;
pub use game::ChatMessage;
pub use game::Error;
pub use game::Event;
pub use game::GameInfo;
pub use game::GameStage;
pub use game::GameState;
pub use game::GuessResult;

verus! {

/// Hard ceiling on the configurable log capacity.
pub const MAX_ALLOWED_MESSAGES: u32 = 1000;

/// Default log capacity of a fresh session.
pub const DEFAULT_MAX_MESSAGES: u32 = 200;

/// Byte-length ceiling for participant names and secrets.
pub const MAX_NAME_LENGTH: usize = 128;

/// Byte-length ceiling for message contents.
pub const MAX_CONTENT_LENGTH: usize = 16384;

/// Default page size for message listing.
pub const DEFAULT_PAGE_SIZE: u32 = 50;

} // verus!
