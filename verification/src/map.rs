//! Map tiles, map generation, and the renderable attributes each tile offers
//! to the compositor.

use rand::Rng;
use vstd::prelude::*;
use vstd::arithmetic::div_mod::lemma_fundamental_div_mod;
use vstd::arithmetic::div_mod::lemma_fundamental_div_mod_converse;
use crate::rect::Rect;
use crate::terminal::Color;
use crate::terminal::MapPosition;
use crate::terminal::Renderable;
use crate::terminal::lemma_flat_index_in_bounds;

verus! {

/// What one map coordinate holds: a solid wall or walkable floor.
#[derive(Clone, Copy, PartialEq, Eq, Structural, Debug)]
pub enum MapTile {
    Wall,
    Floor,
}

/// A rectangular map: a flat array of tiles in row-major order, row `y`
/// holding indices `y * width .. (y + 1) * width`.
pub struct MapBuffer {
    pub height: usize,
    pub width: usize,
    pub buffer: Vec<MapTile>,
}

/// The tile a row-major tile array holds at coordinate `(x, y)`.
pub open spec fn tile_at(tiles: Seq<MapTile>, width: int, x: int, y: int) -> MapTile {
    tiles[x + y * width]
}

/// True when `(x, y)` lies inside the rectangle's half-open coordinate
/// ranges.
pub open spec fn in_rect(rectangle: Rect, x: int, y: int) -> bool {
    rectangle.x1 <= x < rectangle.x2 && rectangle.y1 <= y < rectangle.y2
}

impl MapBuffer {
    /// Well-formedness: the tile array matches the dimensions, and every
    /// flat index fits in `usize`.
    pub open spec fn wf(&self) -> bool {
        &&& self.buffer@.len() == self.width * self.height
        &&& self.width * self.height <= usize::MAX
    }

    /// Number of tiles in the map.
    pub fn size(&self) -> (n: usize)
        requires
            self.wf(),
        ensures
            n == self.width * self.height,
    {
        proof {
            assert(self.height * self.width == self.width * self.height) by (nonlinear_arith);
        }
        self.height * self.width
    }
}

/// Two distinct in-bounds coordinates never share a flat index.
proof fn lemma_flat_index_injective(xa: int, ya: int, xb: int, yb: int, width: int)
    requires
        0 <= xa < width,
        0 <= xb < width,
        0 <= ya,
        0 <= yb,
        xa + ya * width == xb + yb * width,
    ensures
        xa == xb,
        ya == yb,
{
    let i = xa + ya * width;
    lemma_fundamental_div_mod_converse(i, width, ya, xa);
    lemma_fundamental_div_mod_converse(i, width, yb, xb);
}

/// Overwrites every tile inside the rectangle with `tile`, leaving every
/// other tile as it was.
pub fn apply_rectangle(tile: MapTile, rectangle: Rect, map: &mut MapBuffer)
    requires
        old(map).wf(),
        0 <= rectangle.x1,
        0 <= rectangle.y1,
        rectangle.x2 <= old(map).width,
        rectangle.y2 <= old(map).height,
    ensures
        final(map).width == old(map).width,
        final(map).height == old(map).height,
        final(map).wf(),
        forall|x: int, y: int|
            0 <= x < old(map).width && 0 <= y < old(map).height ==> #[trigger] tile_at(
                final(map).buffer@,
                old(map).width as int,
                x,
                y,
            ) == (if in_rect(rectangle, x, y) {
                tile
            } else {
                tile_at(old(map).buffer@, old(map).width as int, x, y)
            }),
{
    let width = map.width;
    let ghost orig = map.buffer@;
    let height = map.height;
    let mut y: isize = rectangle.y1;
    while y < rectangle.y2
        invariant
            map.wf(),
            map.width == width,
            map.height == height,
            rectangle.x2 <= width,
            rectangle.y2 <= height,
            0 <= rectangle.x1,
            0 <= rectangle.y1,
            rectangle.y1 <= y,
            y <= rectangle.y2 || y == rectangle.y1,
            forall|xx: int, yy: int|
                0 <= xx < width && 0 <= yy < height ==> #[trigger] tile_at(
                    map.buffer@,
                    width as int,
                    xx,
                    yy,
                ) == (if in_rect(rectangle, xx, yy) && yy < y {
                    tile
                } else {
                    tile_at(orig, width as int, xx, yy)
                }),
        decreases rectangle.y2 - y,
    {
        let mut x: isize = rectangle.x1;
        while x < rectangle.x2
            invariant
                map.wf(),
                map.width == width,
                map.height == height,
                rectangle.x2 <= width,
                rectangle.y2 <= height,
                0 <= rectangle.x1,
                0 <= rectangle.y1 <= y < rectangle.y2,
                rectangle.x1 <= x,
                x <= rectangle.x2 || x == rectangle.x1,
                forall|xx: int, yy: int|
                    0 <= xx < width && 0 <= yy < height ==> #[trigger] tile_at(
                        map.buffer@,
                        width as int,
                        xx,
                        yy,
                    ) == (if in_rect(rectangle, xx, yy) && (yy < y || (yy == y && xx < x)) {
                        tile
                    } else {
                        tile_at(orig, width as int, xx, yy)
                    }),
            decreases rectangle.x2 - x,
        {
            proof {
                lemma_flat_index_in_bounds(x as int, y as int, width as int, height as int);
            }
            let ghost pre = map.buffer@;
            let ux = x as usize;
            let uy = y as usize;
            let idx = ux + uy * width;
            map.buffer.set(idx, tile);
            proof {
                assert forall|xx: int, yy: int|
                    #![trigger tile_at(map.buffer@, width as int, xx, yy)]
                    0 <= xx < width && 0 <= yy < height implies tile_at(
                    map.buffer@,
                    width as int,
                    xx,
                    yy,
                ) == (if in_rect(rectangle, xx, yy) && (yy < y || (yy == y && xx < x + 1)) {
                    tile
                } else {
                    tile_at(orig, width as int, xx, yy)
                }) by {
                    if xx == x && yy == y {
                        assert(in_rect(rectangle, xx, yy));
                        assert(tile_at(map.buffer@, width as int, xx, yy) == tile);
                    } else {
                        lemma_flat_index_in_bounds(xx, yy, width as int, height as int);
                        if xx + yy * width == x + y * width {
                            lemma_flat_index_injective(xx, yy, x as int, y as int, width as int);
                        }
                        assert(tile_at(map.buffer@, width as int, xx, yy) == tile_at(
                            pre,
                            width as int,
                            xx,
                            yy,
                        ));
                    }
                }
            }
            x = x + 1;
        }
        y = y + 1;
    }
}

/// The tile the generated map holds at `(x, y)`: floor inside the one carved
/// room, wall everywhere else.
pub open spec fn generated_tile(x: int, y: int) -> MapTile {
    if 1 <= x < 11 && 1 <= y < 16 {
        MapTile::Floor
    } else {
        MapTile::Wall
    }
}

/// Generates the fixed 80 x 50 map: all wall, with one 10 x 15 floor room
/// carved out at `(1, 1)`.
pub fn generate_map() -> (map: MapBuffer)
    ensures
        map.width == 80,
        map.height == 50,
        map.wf(),
        forall|x: int, y: int|
            0 <= x < 80 && 0 <= y < 50 ==> #[trigger] tile_at(map.buffer@, 80, x, y)
                == generated_tile(x, y),
{
    let mut buffer: Vec<MapTile> = Vec::new();
    let mut k: usize = 0;
    while k < 4000
        invariant
            k <= 4000,
            buffer@.len() == k,
            forall|m: int| 0 <= m < k ==> buffer@[m] == MapTile::Wall,
        decreases 4000 - k,
    {
        buffer.push(MapTile::Wall);
        k = k + 1;
    }
    let mut map = MapBuffer { height: 50, width: 80, buffer };
    let room1 = Rect::new(1, 1, 10, 15);
    apply_rectangle(MapTile::Floor, room1, &mut map);
    map
}

/// The gray used for floor glyphs and wall fills.
pub open spec fn gray() -> Color {
    Color { red: 128, green: 128, blue: 128 }
}

/// The darker gray used for floor fills.
pub open spec fn dark_gray() -> Color {
    Color { red: 64, green: 64, blue: 64 }
}

/// The black used for wall glyphs.
pub open spec fn black() -> Color {
    Color { red: 0, green: 0, blue: 0 }
}

/// The visual attributes a generated map tile offers to the compositor:
/// floors show a dot, walls a hash sign, both at base priority.
pub open spec fn map_palette(tile: MapTile) -> Renderable {
    match tile {
        MapTile::Floor => Renderable {
            glyph: 46,
            fg_color: gray(),
            bg_color: Some(dark_gray()),
            priority: 0,
        },
        MapTile::Wall => Renderable {
            glyph: 35,
            fg_color: black(),
            bg_color: Some(gray()),
            priority: 0,
        },
    }
}

/// Builds the renderable for one generated map tile.
pub fn tile_renderable(tile: MapTile) -> (r: Renderable)
    ensures
        r == map_palette(tile),
{
    match tile {
        MapTile::Floor => Renderable {
            glyph: 46,
            fg_color: Color { red: 128, green: 128, blue: 128 },
            bg_color: Some(Color { red: 64, green: 64, blue: 64 }),
            priority: 0,
        },
        MapTile::Wall => Renderable {
            glyph: 35,
            fg_color: Color { red: 0, green: 0, blue: 0 },
            bg_color: Some(Color { red: 128, green: 128, blue: 128 }),
            priority: 0,
        },
    }
}

/// The entity the generated map spawns for flat index `k`: its map position,
/// its tile, and the tile's renderable.
pub open spec fn map_entry(k: int) -> (MapPosition, MapTile, Renderable) {
    let x = k % 80;
    let y = k / 80;
    (
        MapPosition { x: x as isize, y: y as isize },
        generated_tile(x, y),
        map_palette(generated_tile(x, y)),
    )
}

/// Generates the fixed map and lists one entity per tile: the map position,
/// the tile, and the renderable the compositor will read each frame.  The
/// caller spawns these into the world.
pub fn spawn_map() -> (entities: Vec<(MapPosition, MapTile, Renderable)>)
    ensures
        entities@.len() == 4000,
        forall|k: int| 0 <= k < 4000 ==> entities@[k] == map_entry(k),
{
    let map = generate_map();
    let size = map.size();
    let mut entities: Vec<(MapPosition, MapTile, Renderable)> = Vec::new();
    let mut i: usize = 0;
    while i < size
        invariant
            map.wf(),
            map.width == 80,
            map.height == 50,
            size == 4000,
            forall|x: int, y: int|
                0 <= x < 80 && 0 <= y < 50 ==> #[trigger] tile_at(map.buffer@, 80, x, y)
                    == generated_tile(x, y),
            i <= size,
            entities@.len() == i,
            forall|k: int| 0 <= k < i ==> entities@[k] == map_entry(k),
        decreases size - i,
    {
        let x = i % map.width;
        let y = i / map.width;
        proof {
            lemma_fundamental_div_mod(i as int, 80);
            assert(x as int + (y as int) * 80 == i);
            assert(tile_at(map.buffer@, 80, x as int, y as int) == generated_tile(
                x as int,
                y as int,
            ));
        }
        let tile = map.buffer[i];
        let rend = tile_renderable(tile);
        entities.push((MapPosition { x: x as isize, y: y as isize }, tile, rend));
        i = i + 1;
    }
    entities
}

/// The visual attributes a debug-map tile offers: like the generated map's,
/// except that debug walls sit one priority level above the floor.
pub open spec fn debug_palette(tile: MapTile) -> Renderable {
    match tile {
        MapTile::Wall => Renderable {
            glyph: 35,
            fg_color: black(),
            bg_color: Some(gray()),
            priority: 1,
        },
        MapTile::Floor => Renderable {
            glyph: 46,
            fg_color: gray(),
            bg_color: Some(dark_gray()),
            priority: 0,
        },
    }
}

/// Builds the renderable for one debug-map tile.
pub fn debug_tile_renderable(tile: MapTile) -> (r: Renderable)
    ensures
        r == debug_palette(tile),
{
    match tile {
        MapTile::Wall => Renderable {
            glyph: 35,
            fg_color: Color { red: 0, green: 0, blue: 0 },
            bg_color: Some(Color { red: 128, green: 128, blue: 128 }),
            priority: 1,
        },
        MapTile::Floor => Renderable {
            glyph: 46,
            fg_color: Color { red: 128, green: 128, blue: 128 },
            bg_color: Some(Color { red: 64, green: 64, blue: 64 }),
            priority: 0,
        },
    }
}

/// The tile drawn for one randomly sampled coin flip.
pub fn debug_tile(wall: bool) -> (tile: MapTile)
    ensures
        tile == (if wall {
            MapTile::Wall
        } else {
            MapTile::Floor
        }),
{
    if wall {
        MapTile::Wall
    } else {
        MapTile::Floor
    }
}

/// Relies on rand::Rng::gen_ratio on the thread-local generator: the result
/// is true with probability `numerator / denominator`; it is always true
/// when numerator and denominator are equal, and never true when the
/// numerator is zero.  gen_ratio panics when the denominator is zero or the
/// numerator exceeds it, so those inputs are excluded.
#[verifier::external_body]
fn random_ratio(numerator: u32, denominator: u32) -> (r: bool)
    requires
        0 < denominator,
        numerator <= denominator,
    ensures
        numerator == denominator ==> r,
        numerator == 0 ==> !r,
{
    rand::thread_rng().gen_ratio(numerator, denominator)
}

/// What holds of each debug-map entity, whatever the random draws were: the
/// position is fixed by the creation index, and the renderable matches the
/// entity's tile exactly.
pub open spec fn debug_entry_wf(e: (MapPosition, MapTile, Renderable), k: int) -> bool {
    &&& e.0 == (MapPosition { x: (k / 51) as isize, y: (k % 51) as isize })
    &&& e.2 == debug_palette(e.1)
}

/// Lists one entity for every coordinate of the 161 x 51 debug field, each a
/// wall with a 1-in-10 chance and floor otherwise, walls one priority level
/// above floors.  Which tiles come out walls is up to the random generator;
/// everything else about each entity is pinned to its creation index.
pub fn spawn_debug_map() -> (entities: Vec<(MapPosition, MapTile, Renderable)>)
    ensures
        entities@.len() == 8211,
        forall|k: int| 0 <= k < 8211 ==> debug_entry_wf(#[trigger] entities@[k], k),
{
    let mut entities: Vec<(MapPosition, MapTile, Renderable)> = Vec::new();
    let mut i: usize = 0;
    while i < 161
        invariant
            i <= 161,
            entities@.len() == i * 51,
            forall|k: int| 0 <= k < i * 51 ==> debug_entry_wf(#[trigger] entities@[k], k),
        decreases 161 - i,
    {
        let mut j: usize = 0;
        while j < 51
            invariant
                i < 161,
                j <= 51,
                entities@.len() == i * 51 + j,
                forall|k: int| 0 <= k < i * 51 + j ==> debug_entry_wf(#[trigger] entities@[k], k),
            decreases 51 - j,
        {
            let wall = random_ratio(1, 10);
            let tile = debug_tile(wall);
            let rend = debug_tile_renderable(tile);
            entities.push((MapPosition { x: i as isize, y: j as isize }, tile, rend));
            proof {
                lemma_fundamental_div_mod_converse((i * 51 + j) as int, 51, i as int, j as int);
            }
            j = j + 1;
        }
        i = i + 1;
    }
    assert(entities@.len() == 161 * 51);
    entities
}

} // verus!
