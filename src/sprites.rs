use vstd::prelude::*;

use crate::text::{has_prefix, spec_has_prefix};

verus! {

/// The sprite is an enemy: its id starts with `b2_`, `tiki_` or `northrop_`,
/// and with none of `player`, `bullet_`, `enemy_bullet_`, `explosion_`.
pub open spec fn spec_is_enemy(id: Seq<char>) -> bool {
    (spec_has_prefix(id, "b2_"@) || spec_has_prefix(id, "tiki_"@) || spec_has_prefix(
        id,
        "northrop_"@,
    )) && !spec_has_prefix(id, "player"@) && !spec_has_prefix(id, "bullet_"@) && !spec_has_prefix(
        id,
        "enemy_bullet_"@,
    ) && !spec_has_prefix(id, "explosion_"@)
}

/// Whether the sprite is an enemy.
pub fn is_enemy(sprite_id: &str) -> (r: bool)
    ensures
        r == spec_is_enemy(sprite_id@),
{
    (has_prefix(sprite_id, "b2_") || has_prefix(sprite_id, "tiki_") || has_prefix(
        sprite_id,
        "northrop_",
    )) && !has_prefix(sprite_id, "player") && !has_prefix(sprite_id, "bullet_") && !has_prefix(
        sprite_id,
        "enemy_bullet_",
    ) && !has_prefix(sprite_id, "explosion_")
}

/// Whether the sprite is a bullet that an enemy fired.
pub fn is_enemy_bullet(sprite_id: &str) -> (r: bool)
    ensures
        r == spec_has_prefix(sprite_id@, "enemy_bullet_"@),
{
    has_prefix(sprite_id, "enemy_bullet_")
}

/// Whether the sprite is a tiki enemy.
pub fn is_tiki(sprite_id: &str) -> (r: bool)
    ensures
        r == spec_has_prefix(sprite_id@, "tiki_"@),
{
    has_prefix(sprite_id, "tiki_")
}

/// How many of the ids are enemies.
pub open spec fn enemy_count(ids: Seq<String>) -> nat
    decreases ids.len(),
{
    if ids.len() == 0 {
        0
    } else {
        enemy_count(ids.drop_last()) + if spec_is_enemy(ids.last()@) {
            1nat
        } else {
            0nat
        }
    }
}

/// Counts the enemies among the sprite ids on the board.
pub fn count_active_enemies(sprite_ids: &Vec<String>) -> (r: usize)
    ensures
        r == enemy_count(sprite_ids@),
{
    let mut count: usize = 0;
    let mut i: usize = 0;
    while i < sprite_ids.len()
        invariant
            i <= sprite_ids@.len(),
            count == enemy_count(sprite_ids@.subrange(0, i as int)),
            count <= i,
        decreases sprite_ids@.len() - i,
    {
        assert(sprite_ids@.subrange(0, i + 1).drop_last() =~= sprite_ids@.subrange(0, i as int));
        if is_enemy(sprite_ids[i].as_str()) {
            count = count + 1;
        }
        i = i + 1;
    }
    assert(sprite_ids@.subrange(0, i as int) =~= sprite_ids@);
    count
}

} // verus!
