use vstd::prelude::*;

use crate::enemy::EnemyManager;
use crate::events::GameAction;
use crate::lives::PlayerLives;
use crate::player::{spec_can_shoot, MovementDirection, PlayerManager, PlayerState, ServerMovement};

verus! {

/// Lives at the start of a game of this arcade.
pub const STARTING_LIVES: u32 = 4;

/// The state of one game, owned by the game loop: score, the game-over
/// flag, the ship, its lives and the enemy waves.
pub struct GameState {
    pub score: u32,
    pub game_over: bool,
    /// When the game ended, in milliseconds on the game's clock.
    pub game_over_time: Option<u64>,
    pub player: PlayerManager,
    pub lives: PlayerLives,
    pub enemies: EnemyManager,
}

impl GameState {
    /// A new game: no score, four lives, a fresh ship, no wave yet.
    pub fn new() -> (r: Self)
        ensures
            r.score == 0,
            !r.game_over,
            r.game_over_time is None,
            r.lives.lives() == STARTING_LIVES,
            r.lives.death() is None,
            r.lives.shield_end() is None,
            r.player.state() == (PlayerState::Idle { last_shot: None }),
            r.player.server_move() is None,
            r.enemies.waves() == 0,
    {
        GameState {
            score: 0,
            game_over: false,
            game_over_time: None,
            player: PlayerManager::initialize(),
            lives: PlayerLives::initialize_with_lives(STARTING_LIVES),
            enemies: EnemyManager::initialize(),
        }
    }

    /// Adds points, unless the game is over.
    pub fn add_score(&mut self, points: u32)
        requires
            old(self).score + points <= u32::MAX,
        ensures
            final(self).score == (if old(self).game_over {
                old(self).score
            } else {
                (old(self).score + points) as u32
            }),
            final(self).game_over == old(self).game_over,
    {
        if !self.game_over {
            self.score = self.score + points;
        }
    }

    /// The ship was destroyed at `now`. Returns true when that ends the game.
    pub fn lose_life(&mut self, now: u64) -> (r: bool)
        ensures
            old(self).lives.lives() > 0 ==> final(self).lives.lives() == old(self).lives.lives() - 1,
            old(self).lives.lives() > 0 ==> final(self).player.state() is Destroyed,
            r == (final(self).lives.lives() == 0 && final(self).player.state() is Destroyed),
            r ==> final(self).game_over && final(self).game_over_time == Some(now),
            !r ==> final(self).game_over == old(self).game_over,
            !r ==> final(self).game_over_time == old(self).game_over_time,
            final(self).score == old(self).score,
    {
        self.lives.handle_player_death(&mut self.player, now);
        let over = self.lives.is_game_over(&self.player);
        if over {
            self.game_over = true;
            self.game_over_time = Some(now);
        }
        over
    }

    /// Applies the command that the control server resolved this tick, at
    /// `now`. A move starts a short server move; a shot is taken when the
    /// cooldown allows and the ship is on the board, in which case true comes
    /// back and the caller lays out the bullet. Once the game is over nothing
    /// is applied.
    pub fn handle_server_input(&mut self, action: Option<GameAction>, player_on_board: bool, now: u64) -> (r: bool)
        ensures
            old(self).game_over || action is None ==> !r && final(self).player == old(self).player,
            !old(self).game_over && action == Some(GameAction::MoveRight) ==> !r
                && final(self).player.server_move() == Some(
                ServerMovement { direction: MovementDirection::Right, start_time: now },
            ) && final(self).player.state() == old(self).player.state(),
            !old(self).game_over && action == Some(GameAction::MoveLeft) ==> !r
                && final(self).player.server_move() == Some(
                ServerMovement { direction: MovementDirection::Left, start_time: now },
            ) && final(self).player.state() == old(self).player.state(),
            !old(self).game_over && action == Some(GameAction::Shoot) ==> r == (spec_can_shoot(
                old(self).player.state(),
                now,
            ) && player_on_board) && (r ==> final(self).player.state() == (PlayerState::Shooting {
                direction: old(self).player.direction_at(now),
                shot_time: now,
            })),
            !old(self).game_over && action == Some(GameAction::Shoot) && !r
                ==> final(self).player.state() == old(self).player.state(),
            final(self).player.keys() == old(self).player.keys(),
            final(self).score == old(self).score,
            final(self).game_over == old(self).game_over,
            final(self).game_over_time == old(self).game_over_time,
            final(self).lives == old(self).lives,
            final(self).enemies == old(self).enemies,
    {
        if self.game_over {
            return false;
        }
        match action {
            Some(GameAction::MoveRight) => {
                self.player.handle_server_move_right(now);
                false
            },
            Some(GameAction::MoveLeft) => {
                self.player.handle_server_move_left(now);
                false
            },
            Some(GameAction::Shoot) => self.player.handle_server_shoot(player_on_board, now),
            None => false,
        }
    }
}

} // verus!
