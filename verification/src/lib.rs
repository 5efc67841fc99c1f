//! The authoritative state machine for a turn-based, priority-driven card
//! game: it tracks zones, in-play objects, players, turn order, phase and
//! status, and mediates every change through validated player actions.
//!
//! The heart of the crate is [`Game`] and its single mutation entry point,
//! [`Game::do_player_action`]: an action is validated completely before any
//! mutation, an accepted action steps the state exactly as the transition
//! functions in [`game`] describe, and a rejected action leaves the state
//! byte-for-byte unchanged. The laws that the rules demand — the priority
//! cycle, identity churn on zone changes, the terminality of conceding —
//! are stated and proved in [`game`] as well.
//!
//! Two further models accompany the core: [`types`] holds an event-driven
//! model in which mutations are first-class values, and [`play_state`] holds
//! a plain snapshot model with redacting view hooks.

pub mod game;
pub mod id;
pub mod object;
pub mod play_state;
pub mod player;
pub mod timestamp;
pub mod types;
pub mod utility;
pub mod zone;

pub use game::{Game, GamePhase, GameStatus, GameView, PlayerAction, PlayerActionError};
pub use id::{get_id, Id, IdSource};
pub use object::{Ability, Object, ObjectDetails, ObjectView};
pub use player::Player;
pub use timestamp::{get_timestamp, Timestamp, TimestampSource};
pub use zone::{Zone, ZoneDetails};
