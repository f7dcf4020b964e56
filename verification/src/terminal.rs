//! The terminal grid compositor: a fixed-size buffer of cells, the projection
//! of world positions onto it through a scrollable viewport offset, the
//! per-frame merge of renderable sources into the buffer, and the pool of
//! per-cell sink objects that carries the composited values out.

use vstd::prelude::*;
use vstd::arithmetic::div_mod::lemma_fundamental_div_mod_converse;

verus! {

/// Number of pixel units on one side of a square tile; grid dimensions are
/// derived from physical pixel sizes by dividing by this constant.
pub const TILE_SIZE: usize = 12;

/// An opaque color value: one byte per channel.  The compositor never
/// interprets the channels; it only moves colors from sources to cells and
/// from cells to sinks.  An absent color is `Option::<Color>::None`.
#[derive(Clone, Copy, PartialEq, Eq, Structural, Debug)]
pub struct Color {
    pub red: u8,
    pub green: u8,
    pub blue: u8,
}

/// A position in the unbounded world plane, identifying where an entity
/// logically sits on the map.
#[derive(Clone, Copy, PartialEq, Eq, Structural, Debug)]
pub struct MapPosition {
    pub x: isize,
    pub y: isize,
}

/// A position on the terminal grid.  Values handed out by projection always
/// satisfy `x < width` and `y < height` for the terminal they were checked
/// against.
#[derive(Clone, Copy, PartialEq, Eq, Structural, Debug)]
pub struct TerminalPosition {
    pub x: usize,
    pub y: usize,
}

/// A renderable source: the visual attributes an entity offers to the
/// compositor each frame.  The foreground color is always present; the
/// background fill is optional.
#[derive(Clone, Copy, Debug)]
pub struct Renderable {
    pub glyph: u32,
    pub fg_color: Color,
    pub bg_color: Option<Color>,
    pub priority: usize,
}

/// One grid slot's composited state for the current frame.  The empty cell
/// carries glyph code 0 (the blank symbol), no colors, and priority 0.
#[derive(Clone, Copy, Debug)]
pub struct Cell {
    pub glyph: u32,
    pub fg_color: Option<Color>,
    pub bg_color: Option<Color>,
    pub priority: usize,
}

/// The cell value every slot holds right after a clear or a resize.
pub open spec fn empty_cell() -> Cell {
    Cell { glyph: 0, fg_color: None, bg_color: None, priority: 0 }
}

/// A buffer of `len` empty cells.
pub open spec fn cleared(len: nat) -> Seq<Cell> {
    Seq::new(len, |i: int| empty_cell())
}

impl Cell {
    /// Builds the empty cell.
    pub fn empty() -> (c: Cell)
        ensures
            c == empty_cell(),
    {
        Cell { glyph: 0, fg_color: None, bg_color: None, priority: 0 }
    }
}

/// The terminal's screen buffer: a flat array of cells in row-major order,
/// row `y` holding indices `y * width .. (y + 1) * width`.
pub struct Terminal {
    pub width: usize,
    pub height: usize,
    pub buffer: Vec<Cell>,
}

impl Terminal {
    /// Well-formedness of a terminal.  The cell array matches the current
    /// dimensions, except transiently before the first resize, when it is
    /// still empty.  The dimensions are bounded so that every in-bounds
    /// coordinate fits in the signed coordinate range and every cell index
    /// fits in `usize`.
    pub open spec fn wf(&self) -> bool {
        &&& (self.buffer@.len() == self.width * self.height || self.buffer@.len() == 0)
        &&& self.width <= isize::MAX
        &&& self.height <= isize::MAX
        &&& self.width * self.height <= usize::MAX
    }

    /// Builds the startup terminal: the default 40 x 10 grid, with the cell
    /// array still unallocated until the first resize arrives.
    pub fn new() -> (t: Terminal)
        ensures
            t.width == 40,
            t.height == 10,
            t.buffer@.len() == 0,
            t.wf(),
    {
        Terminal { width: 40, height: 10, buffer: Vec::new() }
    }

    /// Resets every cell to the empty value.  Runs at the start of each
    /// render pass, so no priority or color bleeds over from the previous
    /// frame.
    pub fn clear(&mut self)
        ensures
            final(self).width == old(self).width,
            final(self).height == old(self).height,
            final(self).buffer@ == cleared(old(self).buffer@.len()),
    {
        let n = self.buffer.len();
        let mut k: usize = 0;
        while k < n
            invariant
                k <= n,
                n == self.buffer@.len(),
                self.width == old(self).width,
                self.height == old(self).height,
                self.buffer@.len() == old(self).buffer@.len(),
                forall|m: int| 0 <= m < k ==> self.buffer@[m] == empty_cell(),
            decreases n - k,
        {
            self.buffer.set(k, Cell::empty());
            k = k + 1;
        }
        assert(self.buffer@ =~= cleared(old(self).buffer@.len()));
    }

    /// Discards the old cell array and allocates a fresh one of length
    /// `new_width * new_height`, every cell empty.  Always succeeds: there is
    /// no partial resize.
    pub fn resize(&mut self, new_width: usize, new_height: usize)
        requires
            new_width * new_height <= usize::MAX,
            new_width <= isize::MAX,
            new_height <= isize::MAX,
        ensures
            final(self).width == new_width,
            final(self).height == new_height,
            final(self).buffer@ == cleared((new_width * new_height) as nat),
            final(self).wf(),
    {
        self.width = new_width;
        self.height = new_height;
        self.buffer.clear();
        let n = new_width * new_height;
        let mut k: usize = 0;
        while k < n
            invariant
                k <= n,
                self.width == new_width,
                self.height == new_height,
                self.buffer@.len() == k,
                forall|m: int| 0 <= m < k ==> self.buffer@[m] == empty_cell(),
            decreases n - k,
        {
            self.buffer.push(Cell::empty());
            k = k + 1;
        }
        assert(self.buffer@ =~= cleared((new_width * new_height) as nat));
    }
}

/// Any coordinate inside a `width x height` grid yields a flat index inside
/// the grid's cell count.
pub proof fn lemma_flat_index_in_bounds(x: int, y: int, width: int, height: int)
    requires
        0 <= x < width,
        0 <= y < height,
    ensures
        0 <= x + y * width < width * height,
{
    assert(x + y * width < width * height) by (nonlinear_arith)
        requires
            0 <= x < width,
            0 <= y < height,
    ;
    assert(0 <= y * width) by (nonlinear_arith)
        requires
            0 <= y,
            0 <= width,
    ;
}

/// Flat index of a screen position in the terminal's cell array: `x + y *
/// width`.  The caller must have validated the position against the current
/// dimensions.
pub fn get_buffer_index(pos: &TerminalPosition, terminal: &Terminal) -> (i: usize)
    requires
        terminal.wf(),
        pos.x < terminal.width,
        pos.y < terminal.height,
    ensures
        i == pos.x + pos.y * terminal.width,
        i < terminal.width * terminal.height,
    {
    proof {
        lemma_flat_index_in_bounds(
            pos.x as int,
            pos.y as int,
            terminal.width as int,
            terminal.height as int,
        );
    }
    pos.x + pos.y * terminal.width
}

/// The viewport offset: a scroll translation added to a map position before
/// it is bounded to the screen.
#[derive(Clone, Copy, PartialEq, Eq, Structural, Debug)]
pub struct MapTransform {
    pub x: isize,
    pub y: isize,
}

/// Projection of a map position through a viewport offset onto a `width x
/// height` grid.  The translated coordinate is kept only if it lies inside
/// the grid on both axes; anything negative or beyond a bound is off-screen.
pub open spec fn project(
    pos: MapPosition,
    transform: MapTransform,
    width: int,
    height: int,
) -> Option<TerminalPosition> {
    let tx = pos.x + transform.x;
    let ty = pos.y + transform.y;
    if 0 <= tx < width && 0 <= ty < height {
        Some(TerminalPosition { x: tx as usize, y: ty as usize })
    } else {
        None
    }
}

/// The flat buffer index a source at `pos` writes to, if it is on-screen.
pub open spec fn projected_index(
    pos: MapPosition,
    transform: MapTransform,
    width: int,
    height: int,
) -> Option<int> {
    match project(pos, transform, width, height) {
        Some(sp) => Some(sp.x + sp.y * width),
        None => None,
    }
}

impl MapPosition {
    /// Projects this map position into the terminal, or returns `None` when
    /// it falls outside the visible window - a normal, frequent outcome, not
    /// an error.
    pub fn as_terminal(&self, transform: &MapTransform, terminal: &Terminal) -> (r: Option<
        TerminalPosition,
    >)
        requires
            terminal.wf(),
        ensures
            r == project(*self, *transform, terminal.width as int, terminal.height as int),
    {
        let tx = match self.x.checked_add(transform.x) {
            Some(v) => v,
            None => {
                return None;
            },
        };
        let ty = match self.y.checked_add(transform.y) {
            Some(v) => v,
            None => {
                return None;
            },
        };
        if tx >= 0 && ty >= 0 {
            let ux = tx as usize;
            let uy = ty as usize;
            if ux < terminal.width && uy < terminal.height {
                return Some(TerminalPosition { x: ux, y: uy });
            }
        }
        None
    }
}

/// The role of a sink object: whether it shows its cell's glyph and
/// foreground color, or its cell's background fill.
#[derive(Clone, Copy, PartialEq, Eq, Structural, Debug)]
pub enum SinkRole {
    Foreground,
    Background,
}

/// A persistent visual handle bound to one screen cell and one role, read by
/// the rendering engine to draw a tile.  The whole pool is destroyed and
/// recreated on every resize; between resizes, each render pass overwrites
/// the glyph and color from the bound cell.
#[derive(Clone, Copy, Debug)]
pub struct SinkObject {
    pub position: TerminalPosition,
    pub role: SinkRole,
    pub depth: u32,
    pub glyph: u32,
    pub color: Option<Color>,
}

/// The glyph a freshly created sink starts with: a placeholder symbol for
/// foreground sinks, the solid-block symbol for background fills.
pub open spec fn initial_glyph(role: SinkRole) -> u32 {
    match role {
        SinkRole::Foreground => 3,
        SinkRole::Background => 219,
    }
}

/// The depth layer a sink is placed on at creation: foreground sinks sit on
/// the nearer layer, so their glyphs composite over the background fill.
pub open spec fn sink_depth(role: SinkRole) -> u32 {
    match role {
        SinkRole::Foreground => 1,
        SinkRole::Background => 0,
    }
}

/// The canonical sink pool for a `width x height` grid and one role: one sink
/// per cell, created column by column (`x` outer, `y` inner), each with the
/// role's initial glyph and no color yet.
pub open spec fn rebuilt_pool(width: nat, height: nat, role: SinkRole) -> Seq<SinkObject> {
    Seq::new(
        width * height,
        |k: int|
            SinkObject {
                position: TerminalPosition {
                    x: (k / height as int) as usize,
                    y: (k % height as int) as usize,
                },
                role,
                depth: sink_depth(role),
                glyph: initial_glyph(role),
                color: None,
            },
    )
}

/// Creates the full sink pool for one role on a `width x height` grid: one
/// sink per cell coordinate, in a fixed creation order.
pub fn rebuild_sinks(width: usize, height: usize, role: SinkRole) -> (pool: Vec<SinkObject>)
    requires
        width * height <= usize::MAX,
    ensures
        pool@ == rebuilt_pool(width as nat, height as nat, role),
{
    let glyph: u32 = match role {
        SinkRole::Foreground => 3,
        SinkRole::Background => 219,
    };
    let depth: u32 = match role {
        SinkRole::Foreground => 1,
        SinkRole::Background => 0,
    };
    let mut pool: Vec<SinkObject> = Vec::new();
    let mut i: usize = 0;
    while i < width
        invariant
            i <= width,
            width * height <= usize::MAX,
            glyph == initial_glyph(role),
            depth == sink_depth(role),
            pool@.len() == i * height,
            forall|k: int|
                0 <= k < pool@.len() ==> pool@[k] == rebuilt_pool(
                    width as nat,
                    height as nat,
                    role,
                )[k],
        decreases width - i,
    {
        let mut j: usize = 0;
        proof {
            assert(i * height + height <= width * height) by (nonlinear_arith)
                requires
                    i < width,
                    0 <= height,
            ;
        }
        while j < height
            invariant
                i < width,
                j <= height,
                i * height + height <= width * height,
                width * height <= usize::MAX,
                glyph == initial_glyph(role),
                depth == sink_depth(role),
                pool@.len() == i * height + j,
                forall|k: int|
                    0 <= k < pool@.len() ==> pool@[k] == rebuilt_pool(
                        width as nat,
                        height as nat,
                        role,
                    )[k],
            decreases height - j,
        {
            pool.push(
                SinkObject {
                    position: TerminalPosition { x: i, y: j },
                    role,
                    depth,
                    glyph,
                    color: None,
                },
            );
            proof {
                let k = i * height + j;
                lemma_fundamental_div_mod_converse(k as int, height as int, i as int, j as int);
            }
            j = j + 1;
        }
        proof {
            assert((i + 1) * height == i * height + height) by (nonlinear_arith);
        }
        i = i + 1;
    }
    assert(pool@ =~= rebuilt_pool(width as nat, height as nat, role));
    pool
}

/// Reacts to a resize event carrying physical pixel dimensions: recomputes
/// the grid dimensions from the tile size, reallocates the cell buffer, and
/// rebuilds both sink pools wholesale at the matching coordinates.  No part
/// of the previous pools survives.
pub fn on_window_resize(
    terminal: &mut Terminal,
    foreground_sinks: &mut Vec<SinkObject>,
    background_sinks: &mut Vec<SinkObject>,
    pixel_width: usize,
    pixel_height: usize,
)
    requires
        (pixel_width / TILE_SIZE) * (pixel_height / TILE_SIZE) <= usize::MAX,
    ensures
        final(terminal).width == pixel_width / TILE_SIZE,
        final(terminal).height == pixel_height / TILE_SIZE,
        final(terminal).buffer@ == cleared(
            ((pixel_width / TILE_SIZE) * (pixel_height / TILE_SIZE)) as nat,
        ),
        final(terminal).wf(),
        final(foreground_sinks)@ == rebuilt_pool(
            (pixel_width / TILE_SIZE) as nat,
            (pixel_height / TILE_SIZE) as nat,
            SinkRole::Foreground,
        ),
        final(background_sinks)@ == rebuilt_pool(
            (pixel_width / TILE_SIZE) as nat,
            (pixel_height / TILE_SIZE) as nat,
            SinkRole::Background,
        ),
{
    let new_width = pixel_width / TILE_SIZE;
    let new_height = pixel_height / TILE_SIZE;
    terminal.resize(new_width, new_height);
    *foreground_sinks = rebuild_sinks(new_width, new_height, SinkRole::Foreground);
    *background_sinks = rebuild_sinks(new_width, new_height, SinkRole::Background);
}

/// One source merged into one cell.  The background is a fill layer outside
/// the priority stack: a present background always overwrites, so the last
/// writer among overlapping sources wins there.  Glyph, foreground color and
/// priority are taken only when the source's priority is at least the cell's,
/// so a later source at equal priority displaces an earlier one.
pub open spec fn merge_cell(c: Cell, r: Renderable) -> Cell {
    let bg = if r.bg_color is Some {
        r.bg_color
    } else {
        c.bg_color
    };
    if r.priority >= c.priority {
        Cell { glyph: r.glyph, fg_color: Some(r.fg_color), bg_color: bg, priority: r.priority }
    } else {
        Cell { glyph: c.glyph, fg_color: c.fg_color, bg_color: bg, priority: c.priority }
    }
}

/// One source merged into the whole buffer: off-screen sources are dropped
/// silently, and an index beyond the buffer's current length - possible only
/// while the buffer is not yet sized for the current dimensions - is skipped
/// the same way.
pub open spec fn merge_source(
    cells: Seq<Cell>,
    pos: MapPosition,
    r: Renderable,
    transform: MapTransform,
    width: int,
    height: int,
) -> Seq<Cell> {
    match project(pos, transform, width, height) {
        Some(sp) => {
            let i = sp.x + sp.y * width;
            if i < cells.len() {
                cells.update(i, merge_cell(cells[i], r))
            } else {
                cells
            }
        },
        None => cells,
    }
}

/// A whole source sequence merged into the buffer, in order.
pub open spec fn merge_all(
    cells: Seq<Cell>,
    sources: Seq<(MapPosition, Renderable)>,
    transform: MapTransform,
    width: int,
    height: int,
) -> Seq<Cell>
    decreases sources.len(),
{
    if sources.len() == 0 {
        cells
    } else {
        merge_source(
            merge_all(cells, sources.drop_last(), transform, width, height),
            sources.last().0,
            sources.last().1,
            transform,
            width,
            height,
        )
    }
}

/// The buffer a full render pass leaves behind: every cell cleared, then
/// every source merged in order.
pub open spec fn render_pass(
    len: nat,
    sources: Seq<(MapPosition, Renderable)>,
    transform: MapTransform,
    width: int,
    height: int,
) -> Seq<Cell> {
    merge_all(cleared(len), sources, transform, width, height)
}

/// What publishing leaves in one sink: a foreground sink takes its bound
/// cell's glyph and foreground color, a background sink takes only the
/// background color; a sink whose flat index falls outside the buffer is
/// left untouched.
pub open spec fn published_sink(s: SinkObject, cells: Seq<Cell>, width: int) -> SinkObject {
    let i = s.position.x + s.position.y * width;
    if 0 <= i < cells.len() {
        match s.role {
            SinkRole::Foreground => SinkObject {
                position: s.position,
                role: s.role,
                depth: s.depth,
                glyph: cells[i].glyph,
                color: cells[i].fg_color,
            },
            SinkRole::Background => SinkObject {
                position: s.position,
                role: s.role,
                depth: s.depth,
                glyph: s.glyph,
                color: cells[i].bg_color,
            },
        }
    } else {
        s
    }
}

/// A whole pool after publishing from the given buffer.
pub open spec fn published_pool(pool: Seq<SinkObject>, cells: Seq<Cell>, width: int) -> Seq<
    SinkObject,
> {
    pool.map_values(|s: SinkObject| published_sink(s, cells, width))
}

/// Merges one source's attributes into one cell value, by the background and
/// foreground rules of the compositor.
pub fn merged_cell(c: Cell, r: Renderable) -> (m: Cell)
    ensures
        m == merge_cell(c, r),
{
    let bg = match r.bg_color {
        Some(b) => Some(b),
        None => c.bg_color,
    };
    if r.priority >= c.priority {
        Cell { glyph: r.glyph, fg_color: Some(r.fg_color), bg_color: bg, priority: r.priority }
    } else {
        Cell { glyph: c.glyph, fg_color: c.fg_color, bg_color: bg, priority: c.priority }
    }
}

/// Writes the composited buffer out to one sink pool: each sink bound to a
/// cell inside the buffer takes that cell's values for its role; the rest
/// are left as they are.
fn publish_pool(pool: &mut Vec<SinkObject>, terminal: &Terminal)
    ensures
        final(pool)@ == published_pool(old(pool)@, terminal.buffer@, terminal.width as int),
{
    let buffer_len = terminal.buffer.len();
    let n = pool.len();
    let mut k: usize = 0;
    while k < n
        invariant
            k <= n,
            n == pool@.len(),
            buffer_len == terminal.buffer@.len(),
            forall|m: int|
                0 <= m < k ==> pool@[m] == published_sink(
                    old(pool)@[m],
                    terminal.buffer@,
                    terminal.width as int,
                ),
            forall|m: int| k <= m < n ==> pool@[m] == old(pool)@[m],
        decreases n - k,
    {
        let sink = pool[k];
        match sink.position.y.checked_mul(terminal.width) {
            Some(m1) => match m1.checked_add(sink.position.x) {
                Some(i) => {
                    if i < buffer_len {
                        let cell = terminal.buffer[i];
                        let updated = match sink.role {
                            SinkRole::Foreground => SinkObject {
                                position: sink.position,
                                role: sink.role,
                                depth: sink.depth,
                                glyph: cell.glyph,
                                color: cell.fg_color,
                            },
                            SinkRole::Background => SinkObject {
                                position: sink.position,
                                role: sink.role,
                                depth: sink.depth,
                                glyph: sink.glyph,
                                color: cell.bg_color,
                            },
                        };
                        pool.set(k, updated);
                    }
                },
                None => {},
            },
            None => {},
        }
        k = k + 1;
    }
    assert(pool@ =~= published_pool(old(pool)@, terminal.buffer@, terminal.width as int));
}

/// One full render pass: clears the buffer, projects and merges every source
/// into it in order, then publishes the resolved cells out to both sink
/// pools.  The pass is total: off-screen sources and stale-buffer indices
/// are skipped, and nothing else can fail.
pub fn render_terminal(
    terminal: &mut Terminal,
    sources: &Vec<(MapPosition, Renderable)>,
    transform: &MapTransform,
    foreground_sinks: &mut Vec<SinkObject>,
    background_sinks: &mut Vec<SinkObject>,
)
    requires
        old(terminal).wf(),
    ensures
        final(terminal).width == old(terminal).width,
        final(terminal).height == old(terminal).height,
        final(terminal).buffer@.len() == old(terminal).buffer@.len(),
        final(terminal).wf(),
        old(terminal).buffer@.len() == old(terminal).width * old(terminal).height
            ==> final(terminal).buffer@.len() == final(terminal).width * final(terminal).height,
        final(terminal).buffer@ == render_pass(
            old(terminal).buffer@.len(),
            sources@,
            *transform,
            old(terminal).width as int,
            old(terminal).height as int,
        ),
        final(foreground_sinks)@ == published_pool(
            old(foreground_sinks)@,
            final(terminal).buffer@,
            old(terminal).width as int,
        ),
        final(background_sinks)@ == published_pool(
            old(background_sinks)@,
            final(terminal).buffer@,
            old(terminal).width as int,
        ),
{
    let ghost w_int = old(terminal).width as int;
    let ghost h_int = old(terminal).height as int;
    let ghost len0 = old(terminal).buffer@.len();
    terminal.clear();
    let nsrc = sources.len();
    let mut s: usize = 0;
    while s < nsrc
        invariant
            terminal.wf(),
            terminal.width == old(terminal).width,
            terminal.height == old(terminal).height,
            terminal.buffer@.len() == len0,
            len0 == old(terminal).buffer@.len(),
            w_int == old(terminal).width as int,
            h_int == old(terminal).height as int,
            nsrc == sources@.len(),
            s <= nsrc,
            terminal.buffer@ == merge_all(
                cleared(len0),
                sources@.take(s as int),
                *transform,
                w_int,
                h_int,
            ),
        decreases nsrc - s,
    {
        let (pos, rend) = sources[s];
        let ghost pre = terminal.buffer@;
        match pos.as_terminal(transform, terminal) {
            Some(tp) => {
                let idx = get_buffer_index(&tp, terminal);
                if idx < terminal.buffer.len() {
                    let cell = terminal.buffer[idx];
                    let merged = merged_cell(cell, rend);
                    terminal.buffer.set(idx, merged);
                }
            },
            None => {},
        }
        proof {
            assert(terminal.buffer@ == merge_source(pre, pos, rend, *transform, w_int, h_int));
            assert(sources@.take(s as int + 1).drop_last() =~= sources@.take(s as int));
            assert(sources@.take(s as int + 1).last() == sources@[s as int]);
            assert(merge_all(cleared(len0), sources@.take(s as int + 1), *transform, w_int, h_int)
                == merge_source(pre, pos, rend, *transform, w_int, h_int));
        }
        s = s + 1;
    }
    proof {
        assert(sources@.take(nsrc as int) =~= sources@);
    }
    publish_pool(foreground_sinks, terminal);
    publish_pool(background_sinks, terminal);
}

/// Twice the pixel offset of a sink's center from the viewport origin, on
/// both axes.  The grid is centered on the origin, so a sink in column `x`
/// of `width` sits at `TILE_SIZE * (0.5 + x - width / 2)` pixel units, and
/// likewise for rows; the doubled offset is exact in integers, and the
/// consumer halves it in its own pixel representation when placing the
/// sink at creation.
pub fn sink_placement_doubled(position: &TerminalPosition, terminal: &Terminal) -> (d: (
    isize,
    isize,
))
    requires
        position.x < terminal.width,
        position.y < terminal.height,
        TILE_SIZE * terminal.width <= isize::MAX,
        TILE_SIZE * terminal.height <= isize::MAX,
    ensures
        d.0 == TILE_SIZE * (2 * position.x + 1 - terminal.width),
        d.1 == TILE_SIZE * (2 * position.y + 1 - terminal.height),
{
    let tile = TILE_SIZE as isize;
    let x = position.x as isize;
    let y = position.y as isize;
    let w = terminal.width as isize;
    let h = terminal.height as isize;
    (tile * (2 * x + 1 - w), tile * (2 * y + 1 - h))
}

/// A merge over a two-source sequence is the two sources merged one after
/// the other.
proof fn lemma_merge_all_pair(
    cells: Seq<Cell>,
    a: (MapPosition, Renderable),
    b: (MapPosition, Renderable),
    transform: MapTransform,
    width: int,
    height: int,
)
    ensures
        merge_all(cells, seq![a, b], transform, width, height) == merge_source(
            merge_source(cells, a.0, a.1, transform, width, height),
            b.0,
            b.1,
            transform,
            width,
            height,
        ),
{
    let pair = seq![a, b];
    assert(pair.drop_last() =~= seq![a]);
    assert(pair.last() == b);
    assert(seq![a].drop_last() =~= Seq::<(MapPosition, Renderable)>::empty());
    assert(seq![a].last() == a);
    assert(merge_all(cells, Seq::<(MapPosition, Renderable)>::empty(), transform, width, height)
        == cells);
    assert(merge_all(cells, seq![a], transform, width, height) == merge_source(
        cells,
        a.0,
        a.1,
        transform,
        width,
        height,
    ));
}

/// After a pass over a buffer sized for the current dimensions, a sink bound
/// to an on-screen cell carries exactly that cell's composited value for its
/// role - the glyph and foreground color for a foreground sink, the
/// background color alone for a background sink - and keeps its position and
/// role.
pub proof fn lemma_sink_reads_bound_cell(s: SinkObject, cells: Seq<Cell>, width: int, height: int)
    requires
        cells.len() == width * height,
        s.position.x < width,
        s.position.y < height,
    ensures
        published_sink(s, cells, width).position == s.position,
        published_sink(s, cells, width).role == s.role,
        published_sink(s, cells, width).depth == s.depth,
        s.role is Foreground ==> published_sink(s, cells, width).glyph == cells[s.position.x
            + s.position.y * width].glyph,
        s.role is Foreground ==> published_sink(s, cells, width).color == cells[s.position.x
            + s.position.y * width].fg_color,
        s.role is Background ==> published_sink(s, cells, width).glyph == s.glyph,
        s.role is Background ==> published_sink(s, cells, width).color == cells[s.position.x
            + s.position.y * width].bg_color,
{
    lemma_flat_index_in_bounds(s.position.x as int, s.position.y as int, width, height);
}

/// Two sources at the same screen cell with different priorities leave the
/// cell showing the higher-priority source's glyph, foreground color and
/// priority, whichever of the two orders they are processed in.
pub proof fn lemma_higher_priority_wins(
    cells: Seq<Cell>,
    low: (MapPosition, Renderable),
    high: (MapPosition, Renderable),
    transform: MapTransform,
    width: int,
    height: int,
    i: int,
)
    requires
        projected_index(low.0, transform, width, height) == Some(i),
        projected_index(high.0, transform, width, height) == Some(i),
        0 <= i < cells.len(),
        cells[i].priority <= low.1.priority,
        low.1.priority < high.1.priority,
    ensures
        merge_all(cells, seq![low, high], transform, width, height)[i].glyph == high.1.glyph,
        merge_all(cells, seq![low, high], transform, width, height)[i].fg_color == Some(
            high.1.fg_color,
        ),
        merge_all(cells, seq![low, high], transform, width, height)[i].priority
            == high.1.priority,
        merge_all(cells, seq![high, low], transform, width, height)[i].glyph == high.1.glyph,
        merge_all(cells, seq![high, low], transform, width, height)[i].fg_color == Some(
            high.1.fg_color,
        ),
        merge_all(cells, seq![high, low], transform, width, height)[i].priority
            == high.1.priority,
{
    lemma_merge_all_pair(cells, low, high, transform, width, height);
    lemma_merge_all_pair(cells, high, low, transform, width, height);
}

/// Two sources at the same screen cell with equal priority leave the cell
/// showing the glyph and foreground color of whichever comes later in
/// iteration order: the tie-break is last-writer-wins.
pub proof fn lemma_equal_priority_last_wins(
    cells: Seq<Cell>,
    a: (MapPosition, Renderable),
    b: (MapPosition, Renderable),
    transform: MapTransform,
    width: int,
    height: int,
    i: int,
)
    requires
        projected_index(a.0, transform, width, height) == Some(i),
        projected_index(b.0, transform, width, height) == Some(i),
        0 <= i < cells.len(),
        cells[i].priority <= a.1.priority,
        a.1.priority == b.1.priority,
    ensures
        merge_all(cells, seq![a, b], transform, width, height)[i].glyph == b.1.glyph,
        merge_all(cells, seq![a, b], transform, width, height)[i].fg_color == Some(b.1.fg_color),
        merge_all(cells, seq![b, a], transform, width, height)[i].glyph == a.1.glyph,
        merge_all(cells, seq![b, a], transform, width, height)[i].fg_color == Some(a.1.fg_color),
{
    lemma_merge_all_pair(cells, a, b, transform, width, height);
    lemma_merge_all_pair(cells, b, a, transform, width, height);
}

/// A source whose background is absent leaves the cell's background exactly
/// as it was, whatever else it contributes.
pub proof fn lemma_absent_background_unchanged(c: Cell, r: Renderable)
    requires
        r.bg_color is None,
    ensures
        merge_cell(c, r).bg_color == c.bg_color,
{
}

/// A source whose background is present overwrites the cell's background
/// unconditionally, regardless of priority: backgrounds are a fill layer,
/// not part of the priority-ordered foreground stack.
pub proof fn lemma_present_background_overwrites(c: Cell, r: Renderable)
    requires
        r.bg_color is Some,
    ensures
        merge_cell(c, r).bg_color == r.bg_color,
{
}

/// The state a resize leaves - grid dimensions, cleared buffer, and both
/// rebuilt sink pools - depends only on the requested pixel dimensions, so
/// resizing twice with the same dimensions is indistinguishable in state
/// from resizing once.
pub proof fn lemma_resize_idempotent(
    first: Terminal,
    first_fg: Seq<SinkObject>,
    first_bg: Seq<SinkObject>,
    second: Terminal,
    second_fg: Seq<SinkObject>,
    second_bg: Seq<SinkObject>,
    pixel_width: usize,
    pixel_height: usize,
)
    requires
        first.width == pixel_width / TILE_SIZE,
        first.height == pixel_height / TILE_SIZE,
        first.buffer@ == cleared(((pixel_width / TILE_SIZE) * (pixel_height / TILE_SIZE)) as nat),
        first_fg == rebuilt_pool(
            (pixel_width / TILE_SIZE) as nat,
            (pixel_height / TILE_SIZE) as nat,
            SinkRole::Foreground,
        ),
        first_bg == rebuilt_pool(
            (pixel_width / TILE_SIZE) as nat,
            (pixel_height / TILE_SIZE) as nat,
            SinkRole::Background,
        ),
        second.width == pixel_width / TILE_SIZE,
        second.height == pixel_height / TILE_SIZE,
        second.buffer@ == cleared(
            ((pixel_width / TILE_SIZE) * (pixel_height / TILE_SIZE)) as nat,
        ),
        second_fg == rebuilt_pool(
            (pixel_width / TILE_SIZE) as nat,
            (pixel_height / TILE_SIZE) as nat,
            SinkRole::Foreground,
        ),
        second_bg == rebuilt_pool(
            (pixel_width / TILE_SIZE) as nat,
            (pixel_height / TILE_SIZE) as nat,
            SinkRole::Background,
        ),
    ensures
        first.width == second.width,
        first.height == second.height,
        first.buffer@ == second.buffer@,
        first_fg == second_fg,
        first_bg == second_bg,
{
}

} // verus!
