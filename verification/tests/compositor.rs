//! End-to-end tests of the terminal compositor: projection, render passes,
//! priority resolution, background fills, publishing, and resizing.

use terminal_grid::terminal::{
    get_buffer_index, merged_cell, on_window_resize, rebuild_sinks, render_terminal,
    sink_placement_doubled, Cell, Color, MapPosition, MapTransform, Renderable, SinkObject,
    SinkRole, Terminal, TerminalPosition,
};

fn teal() -> Color {
    Color { red: 0, green: 128, blue: 128 }
}

fn gray() -> Color {
    Color { red: 128, green: 128, blue: 128 }
}

fn black() -> Color {
    Color { red: 0, green: 0, blue: 0 }
}

fn source(x: isize, y: isize, glyph: u32, fg: Color, bg: Option<Color>, priority: usize) -> (
    MapPosition,
    Renderable,
) {
    (MapPosition { x, y }, Renderable { glyph, fg_color: fg, bg_color: bg, priority })
}

fn sized_terminal(width: usize, height: usize) -> Terminal {
    let mut t = Terminal::new();
    t.resize(width, height);
    t
}

fn assert_cell_eq(a: &Cell, b: &Cell) {
    assert_eq!(a.glyph, b.glyph);
    assert_eq!(a.fg_color, b.fg_color);
    assert_eq!(a.bg_color, b.bg_color);
    assert_eq!(a.priority, b.priority);
}

#[test]
fn new_terminal_defaults() {
    let t = Terminal::new();
    assert_eq!(t.width, 40);
    assert_eq!(t.height, 10);
    assert_eq!(t.buffer.len(), 0);
}

#[test]
fn buffer_index_formula() {
    let t = sized_terminal(40, 10);
    assert_eq!(get_buffer_index(&TerminalPosition { x: 3, y: 2 }, &t), 83);
    assert_eq!(get_buffer_index(&TerminalPosition { x: 0, y: 0 }, &t), 0);
    assert_eq!(get_buffer_index(&TerminalPosition { x: 39, y: 9 }, &t), 399);
}

#[test]
fn projection_translates_and_bounds() {
    let t = sized_terminal(40, 10);
    let offset = MapTransform { x: 1, y: 1 };
    let p = MapPosition { x: 3, y: 2 };
    let sp = p.as_terminal(&offset, &t).unwrap();
    assert_eq!(sp.x, 4);
    assert_eq!(sp.y, 3);
    let zero = MapTransform { x: 0, y: 0 };
    assert!(MapPosition { x: -1, y: 0 }.as_terminal(&zero, &t).is_none());
    assert!(MapPosition { x: 0, y: -1 }.as_terminal(&zero, &t).is_none());
    assert!(MapPosition { x: 40, y: 0 }.as_terminal(&zero, &t).is_none());
    assert!(MapPosition { x: 0, y: 10 }.as_terminal(&zero, &t).is_none());
    assert!(MapPosition { x: 39, y: 9 }.as_terminal(&zero, &t).is_some());
    // a scroll offset can bring a far world position on screen
    let far = MapPosition { x: 100, y: 100 };
    let back = MapTransform { x: -95, y: -95 };
    let sp2 = far.as_terminal(&back, &t).unwrap();
    assert_eq!((sp2.x, sp2.y), (5, 5));
}

#[test]
fn merge_rule_priority_and_background() {
    let empty = Cell { glyph: 0, fg_color: None, bg_color: None, priority: 0 };
    let strong = Renderable { glyph: 64, fg_color: teal(), bg_color: None, priority: 5 };
    let m = merged_cell(empty, strong);
    assert_eq!(m.glyph, 64);
    assert_eq!(m.fg_color, Some(teal()));
    assert_eq!(m.bg_color, None);
    assert_eq!(m.priority, 5);
    // a weaker source later: background still lands, foreground does not
    let weak = Renderable { glyph: 35, fg_color: black(), bg_color: Some(gray()), priority: 0 };
    let m2 = merged_cell(m, weak);
    assert_eq!(m2.glyph, 64);
    assert_eq!(m2.fg_color, Some(teal()));
    assert_eq!(m2.bg_color, Some(gray()));
    assert_eq!(m2.priority, 5);
    // a source without a background leaves the background untouched
    let no_bg = Renderable { glyph: 2, fg_color: black(), bg_color: None, priority: 9 };
    let m3 = merged_cell(m2, no_bg);
    assert_eq!(m3.bg_color, Some(gray()));
    assert_eq!(m3.glyph, 2);
}

#[test]
fn higher_priority_wins_either_order() {
    let zero = MapTransform { x: 0, y: 0 };
    let lo = source(10, 5, 35, black(), None, 0);
    let hi = source(10, 5, 64, teal(), None, 5);
    for sources in [vec![lo, hi], vec![hi, lo]] {
        let mut t = sized_terminal(40, 10);
        let mut fg = Vec::new();
        let mut bg = Vec::new();
        render_terminal(&mut t, &sources, &zero, &mut fg, &mut bg);
        let cell = &t.buffer[210];
        assert_eq!(cell.glyph, 64);
        assert_eq!(cell.fg_color, Some(teal()));
        assert_eq!(cell.priority, 5);
    }
}

#[test]
fn equal_priority_last_writer_wins() {
    let zero = MapTransform { x: 0, y: 0 };
    let a = source(10, 5, 35, black(), None, 2);
    let b = source(10, 5, 64, teal(), None, 2);
    let mut t = sized_terminal(40, 10);
    let (mut fg, mut bg) = (Vec::new(), Vec::new());
    render_terminal(&mut t, &vec![a, b], &zero, &mut fg, &mut bg);
    assert_eq!(t.buffer[210].glyph, 64);
    assert_eq!(t.buffer[210].fg_color, Some(teal()));
    let mut t2 = sized_terminal(40, 10);
    render_terminal(&mut t2, &vec![b, a], &zero, &mut fg, &mut bg);
    assert_eq!(t2.buffer[210].glyph, 35);
    assert_eq!(t2.buffer[210].fg_color, Some(black()));
}

#[test]
fn background_is_last_writer_regardless_of_priority() {
    let zero = MapTransform { x: 0, y: 0 };
    let hi = source(4, 4, 64, teal(), Some(teal()), 5);
    let lo = source(4, 4, 35, black(), Some(gray()), 0);
    let mut t = sized_terminal(40, 10);
    let (mut fg, mut bg) = (Vec::new(), Vec::new());
    render_terminal(&mut t, &vec![hi, lo], &zero, &mut fg, &mut bg);
    let cell = &t.buffer[get_buffer_index(&TerminalPosition { x: 4, y: 4 }, &t)];
    // the later, weaker source wrote the fill, the stronger one keeps the glyph
    assert_eq!(cell.bg_color, Some(gray()));
    assert_eq!(cell.glyph, 64);
}

#[test]
fn off_screen_source_is_dropped() {
    let zero = MapTransform { x: 0, y: 0 };
    let mut t = sized_terminal(40, 10);
    let (mut fg, mut bg) = (Vec::new(), Vec::new());
    let stray = source(-5, -5, 64, teal(), Some(gray()), 5);
    render_terminal(&mut t, &vec![stray], &zero, &mut fg, &mut bg);
    for cell in t.buffer.iter() {
        assert_cell_eq(cell, &Cell { glyph: 0, fg_color: None, bg_color: None, priority: 0 });
    }
}

#[test]
fn source_on_bottom_row_boundary_is_dropped() {
    // on a 40 x 10 grid the valid rows are 0..=9, so world (10, 10) with a
    // zero offset projects out of bounds and paints nothing
    let zero = MapTransform { x: 0, y: 0 };
    let mut t = sized_terminal(40, 10);
    let (mut fg, mut bg) = (Vec::new(), Vec::new());
    let hi = source(10, 10, 64, teal(), None, 5);
    let lo = source(10, 10, 35, black(), None, 0);
    render_terminal(&mut t, &vec![hi, lo], &zero, &mut fg, &mut bg);
    for cell in t.buffer.iter() {
        assert_eq!(cell.glyph, 0);
        assert_eq!(cell.priority, 0);
    }
}

#[test]
fn priority_scenario_in_processing_order() {
    // 40 x 10 grid, zero offset: a priority-5 source processed before a
    // priority-0 source at the same world position leaves the priority-5
    // glyph in the projected cell
    let zero = MapTransform { x: 0, y: 0 };
    let mut t = sized_terminal(40, 10);
    let (mut fg, mut bg) = (Vec::new(), Vec::new());
    let hi = source(10, 5, 64, teal(), None, 5);
    let lo = source(10, 5, 35, black(), None, 0);
    render_terminal(&mut t, &vec![hi, lo], &zero, &mut fg, &mut bg);
    let cell = &t.buffer[get_buffer_index(&TerminalPosition { x: 10, y: 5 }, &t)];
    assert_eq!(cell.glyph, 64);
    assert_eq!(cell.priority, 5);
}

#[test]
fn render_before_first_resize_skips_everything() {
    let zero = MapTransform { x: 0, y: 0 };
    let mut t = Terminal::new();
    let (mut fg, mut bg) = (Vec::new(), Vec::new());
    let s = source(5, 5, 64, teal(), None, 5);
    render_terminal(&mut t, &vec![s], &zero, &mut fg, &mut bg);
    assert_eq!(t.buffer.len(), 0);
}

#[test]
fn clear_runs_every_pass() {
    let zero = MapTransform { x: 0, y: 0 };
    let mut t = sized_terminal(40, 10);
    let (mut fg, mut bg) = (Vec::new(), Vec::new());
    let s = source(10, 5, 64, teal(), Some(gray()), 5);
    render_terminal(&mut t, &vec![s], &zero, &mut fg, &mut bg);
    assert_eq!(t.buffer[210].glyph, 64);
    // next frame without the source: nothing bleeds over
    render_terminal(&mut t, &Vec::new(), &zero, &mut fg, &mut bg);
    for cell in t.buffer.iter() {
        assert_cell_eq(cell, &Cell { glyph: 0, fg_color: None, bg_color: None, priority: 0 });
    }
}

#[test]
fn publish_updates_bound_sinks() {
    let zero = MapTransform { x: 0, y: 0 };
    let mut t = Terminal::new();
    let (mut fg, mut bg) = (Vec::new(), Vec::new());
    on_window_resize(&mut t, &mut fg, &mut bg, 480, 120);
    assert_eq!((t.width, t.height), (40, 10));
    let s = source(10, 5, 64, teal(), Some(gray()), 5);
    render_terminal(&mut t, &vec![s], &zero, &mut fg, &mut bg);
    // pools are created column by column: sink for (10, 5) sits at 10*10 + 5
    let fg_sink = &fg[105];
    assert_eq!(fg_sink.position, TerminalPosition { x: 10, y: 5 });
    assert_eq!(fg_sink.role, SinkRole::Foreground);
    assert_eq!(fg_sink.depth, 1);
    assert_eq!(fg_sink.glyph, 64);
    assert_eq!(fg_sink.color, Some(teal()));
    let bg_sink = &bg[105];
    assert_eq!(bg_sink.position, TerminalPosition { x: 10, y: 5 });
    assert_eq!(bg_sink.role, SinkRole::Background);
    assert_eq!(bg_sink.glyph, 219, "background sinks keep the solid-block glyph");
    assert_eq!(bg_sink.color, Some(gray()));
    // an empty cell publishes the blank glyph and no colors
    let empty_fg = &fg[0];
    assert_eq!(empty_fg.glyph, 0);
    assert_eq!(empty_fg.color, None);
    assert_eq!(bg[0].color, None);
}

#[test]
fn freshly_built_sinks_have_initial_state() {
    let fg = rebuild_sinks(3, 2, SinkRole::Foreground);
    let bg = rebuild_sinks(3, 2, SinkRole::Background);
    assert_eq!(fg.len(), 6);
    assert_eq!(bg.len(), 6);
    for (k, sink) in fg.iter().enumerate() {
        assert_eq!(sink.position, TerminalPosition { x: k / 2, y: k % 2 });
        assert_eq!(sink.role, SinkRole::Foreground);
        assert_eq!(sink.depth, 1, "foreground sinks sit on the nearer layer");
        assert_eq!(sink.glyph, 3);
        assert_eq!(sink.color, None);
    }
    for sink in bg.iter() {
        assert_eq!(sink.depth, 0);
        assert_eq!(sink.glyph, 219);
        assert_eq!(sink.color, None);
    }
}

#[test]
fn resize_rebuilds_exact_pool_counts() {
    let mut t = Terminal::new();
    let (mut fg, mut bg) = (Vec::new(), Vec::new());
    on_window_resize(&mut t, &mut fg, &mut bg, 480, 120);
    assert_eq!((t.width, t.height), (40, 10));
    assert_eq!(fg.len() + bg.len(), 800);
    // shrink: 240 x 60 pixels at tile size 12 is a 20 x 5 grid
    on_window_resize(&mut t, &mut fg, &mut bg, 240, 60);
    assert_eq!((t.width, t.height), (20, 5));
    assert_eq!(t.buffer.len(), 100);
    assert_eq!(fg.len(), 100);
    assert_eq!(bg.len(), 100);
    // no sink of the old 40 x 10 pool survives: every position fits the new grid
    for sink in fg.iter().chain(bg.iter()) {
        assert!(sink.position.x < 20 && sink.position.y < 5);
    }
}

#[test]
fn resize_is_idempotent() {
    let mut once = Terminal::new();
    let (mut once_fg, mut once_bg) = (Vec::new(), Vec::new());
    on_window_resize(&mut once, &mut once_fg, &mut once_bg, 240, 60);
    let mut twice = Terminal::new();
    let (mut twice_fg, mut twice_bg) = (Vec::new(), Vec::new());
    on_window_resize(&mut twice, &mut twice_fg, &mut twice_bg, 240, 60);
    on_window_resize(&mut twice, &mut twice_fg, &mut twice_bg, 240, 60);
    assert_eq!((once.width, once.height), (twice.width, twice.height));
    assert_eq!(once.buffer.len(), twice.buffer.len());
    for (a, b) in once.buffer.iter().zip(twice.buffer.iter()) {
        assert_cell_eq(a, b);
    }
    let same_sink = |a: &SinkObject, b: &SinkObject| {
        a.position == b.position && a.role == b.role && a.depth == b.depth
            && a.glyph == b.glyph && a.color == b.color
    };
    assert_eq!(once_fg.len(), twice_fg.len());
    assert!(once_fg.iter().zip(twice_fg.iter()).all(|(a, b)| same_sink(a, b)));
    assert_eq!(once_bg.len(), twice_bg.len());
    assert!(once_bg.iter().zip(twice_bg.iter()).all(|(a, b)| same_sink(a, b)));
}

#[test]
fn placement_offsets_center_the_grid() {
    let t = sized_terminal(40, 10);
    // doubled offsets: the true pixel offset is half of each value
    let corner = sink_placement_doubled(&TerminalPosition { x: 0, y: 0 }, &t);
    assert_eq!(corner, (12 * (1 - 40), 12 * (1 - 10)));
    let mid = sink_placement_doubled(&TerminalPosition { x: 10, y: 5 }, &t);
    assert_eq!(mid, (12 * (21 - 40), 12 * (11 - 10)));
    // the grid is centered: opposite corners get opposite offsets
    let far = sink_placement_doubled(&TerminalPosition { x: 39, y: 9 }, &t);
    assert_eq!(far, (-corner.0, -corner.1));
}
