//! Remote control for an arcade shooter: a decoder for the control
//! protocol, the per-connection session rules, the per-tick resolver that
//! turns queued control events into at most one game action, and the
//! game-side state (lives, waves, player control) that those actions drive.

pub mod codec;
pub mod connection;
pub mod enemy;
pub mod events;
pub mod game;
pub mod handler;
pub mod json;
pub mod lives;
pub mod player;
pub mod sprites;
pub mod text;

pub use codec::{
    decode_fields, decode_message, event_for_action, lemma_delivered_frame_acts, parse_game_message,
    Field, MessageError,
};
pub use connection::{
    lemma_connection_lost_once, lemma_malformed_frame_rejected, lemma_unknown_action_rejected,
    Connection, Incoming, Phase, Reply, Step,
};
pub use enemy::{EnemyManager, EnemyState};
pub use events::{
    event_action, lemma_earliest_qualifying_event_wins, lemma_no_qualifying_event_no_action,
    lemma_single_qualifying_event, resolve_events, GameAction, ServerEvent,
};
pub use game::GameState;
pub use handler::ServerEventHandler;
pub use lives::{LivesDisplayInfo, PlayerLives};
pub use player::{
    KeyInput, KeysHeld, MovementDirection, PlayerManager, PlayerState, ServerMovement,
};
pub use sprites::{count_active_enemies, is_enemy, is_enemy_bullet, is_tiki};
pub use text::{has_prefix, same_text};
