use vstd::prelude::*;

use crate::sprites;
use crate::text::{same_text, spec_has_prefix};

verus! {

/// Which formation the enemies are in, or that the last one was cleared.
#[derive(Debug, Clone, Copy, PartialEq, Eq, Structural)]
pub enum EnemyState {
    Initial,
    Pattern1,
    Pattern2,
    Pattern3,
    Pattern4,
    AllDestroyed,
}

/// The enemy side of the game: the wave cycle, and the ids of the enemies of
/// the current wave that still hold a base position.
pub struct EnemyManager {
    enemy_state: EnemyState,
    wave_count: u32,
    base_ids: Vec<String>,
}

/// The state after a wave is laid out, from the state before and the wave
/// count after.
pub open spec fn state_after_wave(s: EnemyState, wave: u32) -> EnemyState {
    match s {
        EnemyState::Initial => EnemyState::Pattern1,
        EnemyState::Pattern1 => EnemyState::Pattern2,
        EnemyState::Pattern2 => EnemyState::Pattern3,
        EnemyState::Pattern3 => EnemyState::Pattern4,
        EnemyState::Pattern4 => EnemyState::Pattern1,
        EnemyState::AllDestroyed => if wave % 4 == 1 {
            EnemyState::Pattern1
        } else if wave % 4 == 2 {
            EnemyState::Pattern2
        } else if wave % 4 == 3 {
            EnemyState::Pattern3
        } else {
            EnemyState::Pattern4
        },
    }
}

/// The formation laid out for a wave, from the state before and the wave
/// count after.
pub open spec fn formation_for(s: EnemyState, wave: u32) -> EnemyState {
    match s {
        EnemyState::AllDestroyed => state_after_wave(s, wave),
        _ => s,
    }
}

/// The ids in a sequence, as a set of character sequences.
pub open spec fn id_set(ids: Seq<String>) -> Set<Seq<char>> {
    Set::new(|k: Seq<char>| exists|i: int| 0 <= i < ids.len() && ids[i]@ == k)
}

impl EnemyManager {
    /// The ids of the enemies that hold a base position.
    pub closed spec fn positioned_ids(&self) -> Set<Seq<char>> {
        id_set(self.base_ids@)
    }

    pub closed spec fn state(&self) -> EnemyState {
        self.enemy_state
    }

    pub closed spec fn waves(&self) -> u32 {
        self.wave_count
    }

    /// Before the first wave: no base position held.
    pub fn initialize() -> (r: Self)
        ensures
            r.state() == EnemyState::Initial,
            r.waves() == 0,
            r.positioned_ids() == Set::<Seq<char>>::empty(),
    {
        let r = EnemyManager { enemy_state: EnemyState::Initial, wave_count: 0, base_ids: Vec::new() };
        assert(r.positioned_ids() =~= Set::<Seq<char>>::empty());
        r
    }

    pub fn get_current_state(&self) -> (r: EnemyState)
        ensures
            r == self.state(),
    {
        self.enemy_state
    }

    pub fn get_wave_count(&self) -> (r: u32)
        ensures
            r == self.waves(),
    {
        self.wave_count
    }

    /// Starts a new wave: forgets the base positions of the last one, steps
    /// the cycle and returns the formation to lay out. The first wave is the
    /// initial formation and counts as wave 0; each later wave adds one, and
    /// after a cleared wave the count picks the formation.
    pub fn create_enemies(&mut self) -> (r: EnemyState)
        requires
            old(self).state() is Initial || old(self).waves() < u32::MAX,
        ensures
            final(self).waves() == (if old(self).state() is Initial {
                old(self).waves()
            } else {
                (old(self).waves() + 1) as u32
            }),
            final(self).state() == state_after_wave(old(self).state(), final(self).waves()),
            r == formation_for(old(self).state(), final(self).waves()),
            final(self).positioned_ids() == Set::<Seq<char>>::empty(),
    {
        self.base_ids = Vec::new();
        let before = self.enemy_state;
        if !matches!(before, EnemyState::Initial) {
            self.wave_count = self.wave_count + 1;
        }
        let w = self.wave_count;
        let next = match before {
            EnemyState::Initial => EnemyState::Pattern1,
            EnemyState::Pattern1 => EnemyState::Pattern2,
            EnemyState::Pattern2 => EnemyState::Pattern3,
            EnemyState::Pattern3 => EnemyState::Pattern4,
            EnemyState::Pattern4 => EnemyState::Pattern1,
            EnemyState::AllDestroyed => if w % 4 == 1 {
                EnemyState::Pattern1
            } else if w % 4 == 2 {
                EnemyState::Pattern2
            } else if w % 4 == 3 {
                EnemyState::Pattern3
            } else {
                EnemyState::Pattern4
            },
        };
        self.enemy_state = next;
        assert(self.positioned_ids() =~= Set::<Seq<char>>::empty());
        match before {
            EnemyState::AllDestroyed => next,
            _ => before,
        }
    }

    /// Records the base position of an enemy laid out in this wave.
    pub fn track_enemy(&mut self, enemy_id: String)
        ensures
            final(self).positioned_ids() == old(self).positioned_ids().insert(enemy_id@),
            final(self).state() == old(self).state(),
            final(self).waves() == old(self).waves(),
    {
        let ghost old_ids = self.base_ids@;
        let ghost k = enemy_id@;
        self.base_ids.push(enemy_id);
        assert(self.base_ids@[old_ids.len() as int]@ == k);
        assert forall|x: Seq<char>| #[trigger] self.positioned_ids().contains(x) <==> id_set(old_ids).insert(k).contains(x) by {
            if id_set(old_ids).contains(x) && x != k {
                let i = choose|i: int| 0 <= i < old_ids.len() && old_ids[i]@ == x;
                assert(self.base_ids@[i] == old_ids[i]);
            }
            if self.positioned_ids().contains(x) && x != k {
                let i = choose|i: int| 0 <= i < self.base_ids@.len() && self.base_ids@[i]@ == x;
                assert(i < old_ids.len());
                assert(old_ids[i] == self.base_ids@[i]);
            }
        }
        assert(self.positioned_ids() =~= old(self).positioned_ids().insert(k));
    }

    /// A wave check, once the board's enemies are counted. When a wave that
    /// was under way has no enemy left, the wave is cleared and the next one
    /// created at once: its formation comes back, for the caller to lay out
    /// after clearing the enemy bullets from the board. Otherwise nothing
    /// changes and `None` comes back.
    pub fn check_and_manage_enemy_state(&mut self, enemy_count: usize) -> (r: Option<EnemyState>)
        requires
            old(self).waves() < u32::MAX,
        ensures
            r is Some <==> (!(old(self).state() is AllDestroyed) && enemy_count == 0),
            r is Some ==> {
                &&& final(self).waves() == old(self).waves() + 1
                &&& final(self).state() == state_after_wave(
                    EnemyState::AllDestroyed,
                    final(self).waves(),
                )
                &&& r == Some(final(self).state())
                &&& final(self).positioned_ids() == Set::<Seq<char>>::empty()
            },
            r is None ==> final(self).state() == old(self).state(),
            r is None ==> final(self).waves() == old(self).waves(),
            r is None ==> final(self).positioned_ids() == old(self).positioned_ids(),
    {
        if matches!(self.enemy_state, EnemyState::AllDestroyed) {
            return None;
        }
        if enemy_count == 0 {
            self.enemy_state = EnemyState::AllDestroyed;
            Some(self.create_enemies())
        } else {
            None
        }
    }

    /// Forgets the base position of an enemy that is gone.
    pub fn remove_enemy_from_base_positions(&mut self, enemy_id: &str)
        ensures
            final(self).positioned_ids() == old(self).positioned_ids().remove(enemy_id@),
            final(self).state() == old(self).state(),
            final(self).waves() == old(self).waves(),
    {
        let ghost old_ids = self.base_ids@;
        let mut kept: Vec<String> = Vec::new();
        let mut i: usize = 0;
        while i < self.base_ids.len()
            invariant
                self.base_ids@ == old_ids,
                i <= old_ids.len(),
                forall|x: Seq<char>|
                    #[trigger] id_set(kept@).contains(x) <==> (x != enemy_id@ && exists|j: int|
                        0 <= j < i && old_ids[j]@ == x),
            decreases old_ids.len() - i,
        {
            let ghost before = kept@;
            if !same_text(self.base_ids[i].as_str(), enemy_id) {
                kept.push(self.base_ids[i].clone());
            }
            proof {
                assert forall|x: Seq<char>| #[trigger] id_set(kept@).contains(x) <==> (x != enemy_id@
                    && exists|j: int| 0 <= j < i + 1 && old_ids[j]@ == x) by {
                    if id_set(kept@).contains(x) {
                        let m = choose|m: int| 0 <= m < kept@.len() && kept@[m]@ == x;
                        if m < before.len() {
                            assert(before[m] == kept@[m]);
                            assert(id_set(before).contains(x));
                        }
                    }
                    if x != enemy_id@ && exists|j: int| 0 <= j < i + 1 && old_ids[j]@ == x {
                        let j = choose|j: int| 0 <= j < i + 1 && old_ids[j]@ == x;
                        if j < i {
                            assert(id_set(before).contains(x));
                            let m = choose|m: int| 0 <= m < before.len() && before[m]@ == x;
                            assert(kept@[m] == before[m]);
                        } else {
                            assert(kept@[before.len() as int]@ == x);
                        }
                    }
                }
            }
            i = i + 1;
        }
        self.base_ids = kept;
        assert(self.positioned_ids() =~= old(self).positioned_ids().remove(enemy_id@));
    }

    pub fn is_enemy(sprite_id: &str) -> (r: bool)
        ensures
            r == sprites::spec_is_enemy(sprite_id@),
    {
        sprites::is_enemy(sprite_id)
    }

    pub fn is_enemy_bullet(sprite_id: &str) -> (r: bool)
        ensures
            r == spec_has_prefix(sprite_id@, "enemy_bullet_"@),
    {
        sprites::is_enemy_bullet(sprite_id)
    }

    pub fn is_tiki(sprite_id: &str) -> (r: bool)
        ensures
            r == spec_has_prefix(sprite_id@, "tiki_"@),
    {
        sprites::is_tiki(sprite_id)
    }
}

} // verus!
