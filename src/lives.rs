use vstd::prelude::*;

use crate::player::PlayerManager;

verus! {

/// Milliseconds from a death to the respawn.
pub const RESPAWN_DELAY_MS: u64 = 2000;

/// Milliseconds of invulnerability after a respawn.
pub const INVULNERABILITY_MS: u64 = 3000;

/// Lives at the start of a game.
pub const DEFAULT_LIVES: u32 = 3;

/// The player's lives, the time of the last death while a respawn is
/// pending, and the end of the invulnerability after a respawn. Times are
/// milliseconds on the game's clock.
pub struct PlayerLives {
    lives: u32,
    death_time: Option<u64>,
    invulnerable_until: Option<u64>,
}

/// What the lives display shows.
#[derive(Debug, Clone, Copy, PartialEq, Eq)]
pub struct LivesDisplayInfo {
    pub lives: u32,
    pub is_invulnerable: bool,
    pub is_waiting_to_respawn: bool,
    /// Milliseconds until the respawn.
    pub respawn_time_remaining: Option<u64>,
    /// Milliseconds until the invulnerability ends.
    pub invulnerability_time_remaining: Option<u64>,
    pub is_game_over: bool,
}

/// Milliseconds from `from` to `now`, zero if `now` is earlier.
pub open spec fn since(from: u64, now: u64) -> int {
    if now >= from {
        now - from
    } else {
        0
    }
}

fn millis_since(from: u64, now: u64) -> (r: u64)
    ensures
        r == since(from, now),
{
    if now >= from {
        now - from
    } else {
        0
    }
}

impl LivesDisplayInfo {
    /// A display for a number of lives and nothing pending.
    pub fn new(lives: u32) -> (r: Self)
        ensures
            r.lives == lives,
            !r.is_invulnerable,
            !r.is_waiting_to_respawn,
            r.respawn_time_remaining is None,
            r.invulnerability_time_remaining is None,
            r.is_game_over == (lives == 0),
    {
        LivesDisplayInfo {
            lives,
            is_invulnerable: false,
            is_waiting_to_respawn: false,
            respawn_time_remaining: None,
            invulnerability_time_remaining: None,
            is_game_over: lives == 0,
        }
    }
}

impl PlayerLives {
    pub closed spec fn lives(&self) -> u32 {
        self.lives
    }

    pub closed spec fn death(&self) -> Option<u64> {
        self.death_time
    }

    pub closed spec fn shield_end(&self) -> Option<u64> {
        self.invulnerable_until
    }

    /// The ship is invulnerable at `now`.
    pub open spec fn invulnerable_at(&self, now: u64) -> bool {
        self.shield_end() is Some && now < self.shield_end()->Some_0
    }

    /// The ship can be hit at `now`.
    pub open spec fn vulnerable_at(&self, player: PlayerManager, now: u64) -> bool {
        !self.invulnerable_at(now) && !(player.state() is Destroyed)
    }

    /// A new game: the default number of lives, nothing pending.
    pub fn initialize() -> (r: Self)
        ensures
            r.lives() == DEFAULT_LIVES,
            r.death() is None,
            r.shield_end() is None,
    {
        PlayerLives { lives: DEFAULT_LIVES, death_time: None, invulnerable_until: None }
    }

    /// A new game with the given number of lives.
    pub fn initialize_with_lives(lives: u32) -> (r: Self)
        ensures
            r.lives() == lives,
            r.death() is None,
            r.shield_end() is None,
    {
        PlayerLives { lives, death_time: None, invulnerable_until: None }
    }

    pub fn get_lives(&self) -> (r: u32)
        ensures
            r == self.lives(),
    {
        self.lives
    }

    pub fn add_lives(&mut self, amount: u32)
        requires
            old(self).lives() + amount <= u32::MAX,
        ensures
            final(self).lives() == old(self).lives() + amount,
            final(self).death() == old(self).death(),
            final(self).shield_end() == old(self).shield_end(),
    {
        self.lives = self.lives + amount;
    }

    pub fn is_invulnerable(&self, now: u64) -> (r: bool)
        ensures
            r == self.invulnerable_at(now),
    {
        match self.invulnerable_until {
            Some(t) => now < t,
            None => false,
        }
    }

    /// A death is recorded and the ship is still destroyed.
    pub fn is_waiting_to_respawn(&self, player: &PlayerManager) -> (r: bool)
        ensures
            r == (self.death() is Some && player.state() is Destroyed),
    {
        self.death_time.is_some() && player.is_player_destroyed()
    }

    /// No life left and the ship destroyed.
    pub fn is_game_over(&self, player: &PlayerManager) -> (r: bool)
        ensures
            r == (self.lives() == 0 && player.state() is Destroyed),
    {
        self.lives == 0 && player.is_player_destroyed()
    }

    /// The ship was hit at `now`: with a life left, one is lost, the death is
    /// recorded and the ship destroyed; with none left, nothing changes.
    pub fn handle_player_death(&mut self, player: &mut PlayerManager, now: u64)
        ensures
            old(self).lives() > 0 ==> {
                &&& final(self).lives() == old(self).lives() - 1
                &&& final(self).death() == Some(now)
                &&& final(player).state() is Destroyed
            },
            old(self).lives() == 0 ==> final(self).death() == old(self).death(),
            old(self).lives() == 0 ==> final(player).state() == old(player).state(),
            old(self).lives() == 0 ==> final(self).lives() == 0,
            final(self).shield_end() == old(self).shield_end(),
            final(player).keys() == old(player).keys(),
            final(player).server_move() == old(player).server_move(),
    {
        if self.lives > 0 {
            self.lives = self.lives - 1;
            self.death_time = Some(now);
            player.destroy_player();
        }
    }

    /// Once per frame, at `now`: a death older than the respawn delay is
    /// settled, and an invulnerability that is over is dropped. Returns true
    /// when the ship is to respawn (a life is left); the caller then calls
    /// `respawn_player`.
    pub fn update(&mut self, now: u64) -> (r: bool)
        ensures
            r == (old(self).death() is Some && since(old(self).death()->Some_0, now)
                >= RESPAWN_DELAY_MS && old(self).lives() > 0),
            final(self).death() == (if old(self).death() is Some && since(
                old(self).death()->Some_0,
                now,
            ) >= RESPAWN_DELAY_MS {
                None
            } else {
                old(self).death()
            }),
            final(self).shield_end() == (if old(self).shield_end() is Some && now >= old(self).shield_end()->Some_0 {
                None
            } else {
                old(self).shield_end()
            }),
            final(self).lives() == old(self).lives(),
    {
        let mut should_respawn = false;
        if let Some(d) = self.death_time {
            if millis_since(d, now) >= RESPAWN_DELAY_MS {
                should_respawn = self.lives > 0;
                self.death_time = None;
            }
        }
        if let Some(t) = self.invulnerable_until {
            if now >= t {
                self.invulnerable_until = None;
            }
        }
        should_respawn
    }

    /// The ship is back at `now`: a fresh ship, invulnerable for a while.
    pub fn respawn_player(&mut self, player: &mut PlayerManager, now: u64)
        requires
            now + INVULNERABILITY_MS <= u64::MAX,
        ensures
            final(self).shield_end() == Some((now + INVULNERABILITY_MS) as u64),
            final(self).lives() == old(self).lives(),
            final(self).death() == old(self).death(),
            final(player).state() == (crate::player::PlayerState::Idle { last_shot: None }),
            final(player).server_move() is None,
            !final(player).keys().left && !final(player).keys().right,
    {
        *player = PlayerManager::initialize();
        self.invulnerable_until = Some(now + INVULNERABILITY_MS);
    }

    /// Brings the ship back at once, with at least one life.
    pub fn force_respawn(&mut self, player: &mut PlayerManager, now: u64)
        requires
            now + INVULNERABILITY_MS <= u64::MAX,
        ensures
            final(self).death() is None,
            final(self).lives() == (if old(self).lives() == 0 {
                1
            } else {
                old(self).lives()
            }),
            final(self).shield_end() == Some((now + INVULNERABILITY_MS) as u64),
            final(player).state() == (crate::player::PlayerState::Idle { last_shot: None }),
    {
        self.death_time = None;
        if self.lives == 0 {
            self.lives = 1;
        }
        self.respawn_player(player, now);
    }

    pub fn reset_for_new_game(&mut self)
        ensures
            final(self).lives() == DEFAULT_LIVES,
            final(self).death() is None,
            final(self).shield_end() is None,
    {
        self.lives = DEFAULT_LIVES;
        self.death_time = None;
        self.invulnerable_until = None;
    }

    /// Milliseconds until the respawn, while one is pending.
    pub fn get_respawn_time_remaining(&self, now: u64) -> (r: Option<u64>)
        ensures
            r == (if self.death() is Some && since(self.death()->Some_0, now) < RESPAWN_DELAY_MS {
                Some((RESPAWN_DELAY_MS - since(self.death()->Some_0, now)) as u64)
            } else {
                None
            }),
    {
        match self.death_time {
            Some(d) => {
                let e = millis_since(d, now);
                if e < RESPAWN_DELAY_MS {
                    Some(RESPAWN_DELAY_MS - e)
                } else {
                    None
                }
            },
            None => None,
        }
    }

    /// Milliseconds until the invulnerability ends, while it lasts.
    pub fn get_invulnerability_time_remaining(&self, now: u64) -> (r: Option<u64>)
        ensures
            r == (if self.invulnerable_at(now) {
                Some((self.shield_end()->Some_0 - now) as u64)
            } else {
                None
            }),
    {
        match self.invulnerable_until {
            Some(t) => {
                if now < t {
                    Some(t - now)
                } else {
                    None
                }
            },
            None => None,
        }
    }

    pub fn can_take_damage(&self, player: &PlayerManager, now: u64) -> (r: bool)
        ensures
            r == self.vulnerable_at(*player, now),
    {
        !self.is_invulnerable(now) && !player.is_player_destroyed()
    }

    /// An enemy hit the ship at `now`. When the ship can take damage, the
    /// death is handled and true comes back; else nothing changes.
    pub fn handle_enemy_collision(&mut self, player: &mut PlayerManager, now: u64) -> (r: bool)
        ensures
            r == old(self).vulnerable_at(*old(player), now),
            r && old(self).lives() > 0 ==> {
                &&& final(self).lives() == old(self).lives() - 1
                &&& final(self).death() == Some(now)
                &&& final(player).state() is Destroyed
            },
            !r || old(self).lives() == 0 ==> {
                &&& final(self).lives() == old(self).lives()
                &&& final(self).death() == old(self).death()
                &&& final(player).state() == old(player).state()
            },
            final(self).shield_end() == old(self).shield_end(),
    {
        if self.can_take_damage(player, now) {
            self.handle_player_death(player, now);
            true
        } else {
            false
        }
    }

    /// What the lives display shows at `now`.
    pub fn get_display_info(&self, player: &PlayerManager, now: u64) -> (r: LivesDisplayInfo)
        ensures
            r.lives == self.lives(),
            r.is_invulnerable == self.invulnerable_at(now),
            r.is_waiting_to_respawn == (self.death() is Some && player.state() is Destroyed),
            r.respawn_time_remaining == (if self.death() is Some && since(self.death()->Some_0, now)
                < RESPAWN_DELAY_MS {
                Some((RESPAWN_DELAY_MS - since(self.death()->Some_0, now)) as u64)
            } else {
                None
            }),
            r.invulnerability_time_remaining == (if self.invulnerable_at(now) {
                Some((self.shield_end()->Some_0 - now) as u64)
            } else {
                None
            }),
            r.is_game_over == (self.lives() == 0 && player.state() is Destroyed),
    {
        LivesDisplayInfo {
            lives: self.get_lives(),
            is_invulnerable: self.is_invulnerable(now),
            is_waiting_to_respawn: self.is_waiting_to_respawn(player),
            respawn_time_remaining: self.get_respawn_time_remaining(now),
            invulnerability_time_remaining: self.get_invulnerability_time_remaining(now),
            is_game_over: self.is_game_over(player),
        }
    }
}

} // verus!
