//! Player movement decisions: whether a step is blocked by a wall, and where
//! one keypress moves the player.

use vstd::prelude::*;
use crate::map::MapTile;
use crate::terminal::MapPosition;

verus! {

/// One movement keypress, already decoded from the input device: a single
/// step along one axis.
#[derive(Clone, Copy, PartialEq, Eq, Structural, Debug)]
pub enum MoveKey {
    /// One step in negative `x`.
    Left,
    /// One step in positive `x`.
    Right,
    /// One step in negative `y`.
    Down,
    /// One step in positive `y`.
    Up,
}

/// The position one step from `pos` in the key's direction.
pub open spec fn stepped(pos: MapPosition, key: MoveKey) -> MapPosition {
    match key {
        MoveKey::Left => MapPosition { x: (pos.x - 1) as isize, y: pos.y },
        MoveKey::Right => MapPosition { x: (pos.x + 1) as isize, y: pos.y },
        MoveKey::Down => MapPosition { x: pos.x, y: (pos.y - 1) as isize },
        MoveKey::Up => MapPosition { x: pos.x, y: (pos.y + 1) as isize },
    }
}

/// True when some wall tile sits at `pos`.
pub open spec fn wall_at(tiles: Seq<(MapPosition, MapTile)>, pos: MapPosition) -> bool {
    exists|k: int| 0 <= k < tiles.len() && tiles[k].1 is Wall && tiles[k].0 == pos
}

/// Decides whether the player may step onto `move_pos`: the step is allowed
/// exactly when no wall tile sits there.
pub fn player_can_move(move_pos: &MapPosition, tiles: &Vec<(MapPosition, MapTile)>) -> (allowed:
    bool)
    ensures
        allowed == !wall_at(tiles@, *move_pos),
{
    let n = tiles.len();
    let mut k: usize = 0;
    while k < n
        invariant
            k <= n,
            n == tiles@.len(),
            forall|m: int| 0 <= m < k ==> !(tiles@[m].1 is Wall && tiles@[m].0 == *move_pos),
        decreases n - k,
    {
        let (tile_pos, tile) = tiles[k];
        match tile {
            MapTile::Wall => {
                if tile_pos.x == move_pos.x && tile_pos.y == move_pos.y {
                    return false;
                }
            },
            MapTile::Floor => {},
        }
        k = k + 1;
    }
    true
}

/// Applies one movement keypress: the player moves one step in the key's
/// direction when no wall blocks the target position, and stays in place
/// otherwise.
pub fn movement(
    player_pos: &mut MapPosition,
    key: MoveKey,
    tiles: &Vec<(MapPosition, MapTile)>,
)
    requires
        key is Left ==> old(player_pos).x > isize::MIN,
        key is Right ==> old(player_pos).x < isize::MAX,
        key is Down ==> old(player_pos).y > isize::MIN,
        key is Up ==> old(player_pos).y < isize::MAX,
    ensures
        *final(player_pos) == (if wall_at(tiles@, stepped(*old(player_pos), key)) {
            *old(player_pos)
        } else {
            stepped(*old(player_pos), key)
        }),
{
    let move_pos = match key {
        MoveKey::Left => MapPosition { x: player_pos.x - 1, y: player_pos.y },
        MoveKey::Right => MapPosition { x: player_pos.x + 1, y: player_pos.y },
        MoveKey::Down => MapPosition { x: player_pos.x, y: player_pos.y - 1 },
        MoveKey::Up => MapPosition { x: player_pos.x, y: player_pos.y + 1 },
    };
    if player_can_move(&move_pos, tiles) {
        player_pos.x = move_pos.x;
        player_pos.y = move_pos.y;
    }
}

} // verus!
