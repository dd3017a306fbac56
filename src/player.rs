use vstd::prelude::*;

use crate::text::{has_prefix, same_text, spec_has_prefix};

verus! {

/// How long a move from the control server lasts, in milliseconds.
pub const SERVER_MOVEMENT_MS: u64 = 100;

/// The least time between two shots, in milliseconds.
pub const SHOOT_COOLDOWN_MS: u64 = 200;

/// Which way the ship is pushed.
#[derive(Debug, Clone, Copy, PartialEq, Eq, Structural)]
pub enum MovementDirection {
    Still,
    Left,
    Right,
    Both,
}

/// The arrow keys held down.
#[derive(Debug, Clone, Copy, PartialEq, Eq, Structural)]
pub struct KeysHeld {
    pub left: bool,
    pub right: bool,
}

/// A move ordered by the control server, and when it began (milliseconds).
#[derive(Debug, Clone, Copy, PartialEq, Eq, Structural)]
pub struct ServerMovement {
    pub direction: MovementDirection,
    pub start_time: u64,
}

/// The ship's state. Times are milliseconds on the game's clock; a moving
/// ship always moves at the one movement speed.
#[derive(Debug, Clone, Copy, PartialEq, Eq, Structural)]
pub enum PlayerState {
    Idle { last_shot: Option<u64> },
    MovingLeft { last_shot: Option<u64> },
    MovingRight { last_shot: Option<u64> },
    MovingBoth { last_shot: Option<u64> },
    Shooting { direction: MovementDirection, shot_time: u64 },
    Destroyed,
}

/// A key event that the ship reacts to.
#[derive(Debug, Clone, Copy, PartialEq, Eq, Structural)]
pub enum KeyInput {
    LeftPressed,
    LeftReleased,
    RightPressed,
    RightReleased,
    ShootPressed,
}

/// The direction that the held keys give.
pub open spec fn keys_direction(k: KeysHeld) -> MovementDirection {
    if k.left && k.right {
        MovementDirection::Both
    } else if k.left {
        MovementDirection::Left
    } else if k.right {
        MovementDirection::Right
    } else {
        MovementDirection::Still
    }
}

/// Milliseconds from `from` to `now`, zero if `now` is earlier.
pub open spec fn elapsed(from: u64, now: u64) -> int {
    if now >= from {
        now - from
    } else {
        0
    }
}

/// A server move is still under way at `now`.
pub open spec fn movement_active(m: Option<ServerMovement>, now: u64) -> bool {
    m is Some && elapsed(m->Some_0.start_time, now) < SERVER_MOVEMENT_MS
}

/// The server's move, while it lasts.
pub open spec fn server_direction(m: Option<ServerMovement>, now: u64) -> MovementDirection {
    if movement_active(m, now) {
        m->Some_0.direction
    } else {
        MovementDirection::Still
    }
}

/// The time of the last shot that a state remembers.
pub open spec fn last_shot_of(s: PlayerState) -> Option<u64> {
    match s {
        PlayerState::Idle { last_shot } => last_shot,
        PlayerState::MovingLeft { last_shot } => last_shot,
        PlayerState::MovingRight { last_shot } => last_shot,
        PlayerState::MovingBoth { last_shot } => last_shot,
        PlayerState::Shooting { shot_time, .. } => Some(shot_time),
        PlayerState::Destroyed => None,
    }
}

/// The moving state for a direction.
pub open spec fn spec_state_from_direction(d: MovementDirection, last_shot: Option<u64>) -> PlayerState {
    match d {
        MovementDirection::Still => PlayerState::Idle { last_shot },
        MovementDirection::Left => PlayerState::MovingLeft { last_shot },
        MovementDirection::Right => PlayerState::MovingRight { last_shot },
        MovementDirection::Both => PlayerState::MovingBoth { last_shot },
    }
}

/// The state after the direction is applied; a destroyed ship stays so.
pub open spec fn next_state(s: PlayerState, d: MovementDirection) -> PlayerState {
    if s is Destroyed {
        s
    } else {
        spec_state_from_direction(d, last_shot_of(s))
    }
}

/// A shot is allowed: the ship is not destroyed and the cooldown is over.
pub open spec fn spec_can_shoot(s: PlayerState, now: u64) -> bool {
    !(s is Destroyed) && match last_shot_of(s) {
        None => true,
        Some(t) => elapsed(t, now) >= SHOOT_COOLDOWN_MS,
    }
}

impl KeysHeld {
    /// No key held.
    pub fn new() -> (r: Self)
        ensures
            !r.left && !r.right,
    {
        KeysHeld { left: false, right: false }
    }

    pub fn to_direction(&self) -> (r: MovementDirection)
        ensures
            r == keys_direction(*self),
    {
        match (self.left, self.right) {
            (true, true) => MovementDirection::Both,
            (true, false) => MovementDirection::Left,
            (false, true) => MovementDirection::Right,
            (false, false) => MovementDirection::Still,
        }
    }
}

/// The player's ship: its state, the keys held, and the move that the
/// control server ordered last.
pub struct PlayerManager {
    state: PlayerState,
    keys: KeysHeld,
    server_movement: Option<ServerMovement>,
}

impl PlayerManager {
    pub closed spec fn state(&self) -> PlayerState {
        self.state
    }

    pub closed spec fn keys(&self) -> KeysHeld {
        self.keys
    }

    pub closed spec fn server_move(&self) -> Option<ServerMovement> {
        self.server_movement
    }

    /// The direction the ship takes at `now`: the server's move while it
    /// lasts, else the keys'.
    pub open spec fn direction_at(&self, now: u64) -> MovementDirection {
        if server_direction(self.server_move(), now) is Still {
            keys_direction(self.keys())
        } else {
            server_direction(self.server_move(), now)
        }
    }

    /// A fresh ship: idle, never fired, no key held, no server move.
    pub fn initialize() -> (r: Self)
        ensures
            r.state() == (PlayerState::Idle { last_shot: None }),
            r.keys() == (KeysHeld { left: false, right: false }),
            r.server_move() is None,
    {
        PlayerManager {
            state: PlayerState::Idle { last_shot: None },
            keys: KeysHeld::new(),
            server_movement: None,
        }
    }

    pub fn get_player_state(&self) -> (r: PlayerState)
        ensures
            r == self.state(),
    {
        self.state
    }

    pub fn destroy_player(&mut self)
        ensures
            final(self).state() == PlayerState::Destroyed,
            final(self).keys() == old(self).keys(),
            final(self).server_move() == old(self).server_move(),
    {
        self.state = PlayerState::Destroyed;
    }

    pub fn is_player_destroyed(&self) -> (r: bool)
        ensures
            r == (self.state() is Destroyed),
    {
        matches!(self.state, PlayerState::Destroyed)
    }

    fn set_server_movement(&mut self, direction: MovementDirection, now: u64)
        ensures
            final(self).server_move() == Some(ServerMovement { direction, start_time: now }),
            final(self).state() == old(self).state(),
            final(self).keys() == old(self).keys(),
    {
        self.server_movement = Some(ServerMovement { direction, start_time: now });
    }

    /// The control server asked for a move to the right, at `now`.
    pub fn handle_server_move_right(&mut self, now: u64)
        ensures
            final(self).server_move() == Some(
                ServerMovement { direction: MovementDirection::Right, start_time: now },
            ),
            final(self).state() == old(self).state(),
            final(self).keys() == old(self).keys(),
    {
        self.set_server_movement(MovementDirection::Right, now);
    }

    /// The control server asked for a move to the left, at `now`.
    pub fn handle_server_move_left(&mut self, now: u64)
        ensures
            final(self).server_move() == Some(
                ServerMovement { direction: MovementDirection::Left, start_time: now },
            ),
            final(self).state() == old(self).state(),
            final(self).keys() == old(self).keys(),
    {
        self.set_server_movement(MovementDirection::Left, now);
    }

    /// The server's move while it lasts; a move that is over is forgotten.
    pub fn get_server_movement(&mut self, now: u64) -> (r: MovementDirection)
        ensures
            r == server_direction(old(self).server_move(), now),
            final(self).server_move() == (if movement_active(old(self).server_move(), now) {
                old(self).server_move()
            } else {
                None
            }),
            final(self).state() == old(self).state(),
            final(self).keys() == old(self).keys(),
    {
        match self.server_movement {
            Some(m) => {
                let since = if now >= m.start_time {
                    now - m.start_time
                } else {
                    0
                };
                if since < SERVER_MOVEMENT_MS {
                    return m.direction;
                }
                self.server_movement = None;
                MovementDirection::Still
            },
            None => MovementDirection::Still,
        }
    }

    /// The direction the ship takes now.
    pub fn get_current_direction(&mut self, now: u64) -> (r: MovementDirection)
        ensures
            r == old(self).direction_at(now),
            final(self).state() == old(self).state(),
            final(self).keys() == old(self).keys(),
            final(self).direction_at(now) == old(self).direction_at(now),
    {
        let d = self.get_server_movement(now);
        if matches!(d, MovementDirection::Still) {
            self.keys.to_direction()
        } else {
            d
        }
    }

    pub fn state_from_direction(direction: MovementDirection, last_shot: Option<u64>) -> (r: PlayerState)
        ensures
            r == spec_state_from_direction(direction, last_shot),
    {
        match direction {
            MovementDirection::Still => PlayerState::Idle { last_shot },
            MovementDirection::Left => PlayerState::MovingLeft { last_shot },
            MovementDirection::Right => PlayerState::MovingRight { last_shot },
            MovementDirection::Both => PlayerState::MovingBoth { last_shot },
        }
    }

    /// Applies the current direction to the state.
    pub fn update_player_state(&mut self, now: u64)
        ensures
            final(self).state() == next_state(old(self).state(), old(self).direction_at(now)),
            final(self).keys() == old(self).keys(),
            final(self).direction_at(now) == old(self).direction_at(now),
    {
        let d = self.get_current_direction(now);
        let next = match self.state {
            PlayerState::Destroyed => PlayerState::Destroyed,
            PlayerState::Shooting { shot_time, .. } => Self::state_from_direction(d, Some(shot_time)),
            PlayerState::Idle { last_shot } => Self::state_from_direction(d, last_shot),
            PlayerState::MovingLeft { last_shot } => Self::state_from_direction(d, last_shot),
            PlayerState::MovingRight { last_shot } => Self::state_from_direction(d, last_shot),
            PlayerState::MovingBoth { last_shot } => Self::state_from_direction(d, last_shot),
        };
        self.state = next;
    }

    /// Whether the ship may fire at `now`.
    pub fn can_shoot(&self, now: u64) -> (r: bool)
        ensures
            r == spec_can_shoot(self.state(), now),
    {
        let last_shot = match self.state {
            PlayerState::Idle { last_shot } => last_shot,
            PlayerState::MovingLeft { last_shot } => last_shot,
            PlayerState::MovingRight { last_shot } => last_shot,
            PlayerState::MovingBoth { last_shot } => last_shot,
            PlayerState::Shooting { shot_time, .. } => Some(shot_time),
            PlayerState::Destroyed => {
                return false;
            },
        };
        match last_shot {
            None => true,
            Some(t) => {
                let since = if now >= t {
                    now - t
                } else {
                    0
                };
                since >= SHOOT_COOLDOWN_MS
            },
        }
    }

    /// A shot is asked for at `now`. When the cooldown allows it and the ship
    /// is on the board, returns true: the caller lays out the bullet, and the
    /// ship is now shooting in its current direction.
    pub fn handle_shooting(&mut self, player_on_board: bool, now: u64) -> (r: bool)
        ensures
            r == (spec_can_shoot(old(self).state(), now) && player_on_board),
            r ==> final(self).state() == (PlayerState::Shooting {
                direction: old(self).direction_at(now),
                shot_time: now,
            }),
            !r ==> final(self).state() == old(self).state(),
            final(self).keys() == old(self).keys(),
            final(self).direction_at(now) == old(self).direction_at(now),
    {
        if !self.can_shoot(now) || !player_on_board {
            return false;
        }
        let direction = self.get_current_direction(now);
        self.state = PlayerState::Shooting { direction, shot_time: now };
        true
    }

    /// The control server asked for a shot, at `now`; as `handle_shooting`.
    pub fn handle_server_shoot(&mut self, player_on_board: bool, now: u64) -> (r: bool)
        ensures
            r == (spec_can_shoot(old(self).state(), now) && player_on_board),
            r ==> final(self).state() == (PlayerState::Shooting {
                direction: old(self).direction_at(now),
                shot_time: now,
            }),
            !r ==> final(self).state() == old(self).state(),
            final(self).keys() == old(self).keys(),
            final(self).direction_at(now) == old(self).direction_at(now),
    {
        self.handle_shooting(player_on_board, now)
    }

    /// An arrow key went down or up at `now`. Returns true when a shot is to
    /// be laid out (see `handle_shooting`).
    pub fn handle_keyboard_input(&mut self, input: KeyInput, player_on_board: bool, now: u64) -> (r: bool)
        ensures
            input is ShootPressed ==> r == (spec_can_shoot(old(self).state(), now) && player_on_board),
            !(input is ShootPressed) ==> !r,
            final(self).keys() == (match input {
                KeyInput::LeftPressed => KeysHeld { left: true, ..old(self).keys() },
                KeyInput::LeftReleased => KeysHeld { left: false, ..old(self).keys() },
                KeyInput::RightPressed => KeysHeld { right: true, ..old(self).keys() },
                KeyInput::RightReleased => KeysHeld { right: false, ..old(self).keys() },
                KeyInput::ShootPressed => old(self).keys(),
            }),
            !(input is ShootPressed) ==> final(self).state() == next_state(
                old(self).state(),
                final(self).direction_at(now),
            ),
    {
        match input {
            KeyInput::LeftPressed => {
                self.keys.left = true;
                self.update_player_state(now);
                false
            },
            KeyInput::LeftReleased => {
                self.keys.left = false;
                self.update_player_state(now);
                false
            },
            KeyInput::RightPressed => {
                self.keys.right = true;
                self.update_player_state(now);
                false
            },
            KeyInput::RightReleased => {
                self.keys.right = false;
                self.update_player_state(now);
                false
            },
            KeyInput::ShootPressed => self.handle_shooting(player_on_board, now),
        }
    }

    pub fn is_bullet(sprite_id: &str) -> (r: bool)
        ensures
            r == spec_has_prefix(sprite_id@, "bullet_"@),
    {
        has_prefix(sprite_id, "bullet_")
    }

    pub fn is_player(sprite_id: &str) -> (r: bool)
        ensures
            r == (sprite_id@ == "player"@),
    {
        same_text(sprite_id, "player")
    }
}

} // verus!
