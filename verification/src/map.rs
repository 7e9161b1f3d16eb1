//! The star map: planets and where they are drawn.
use vstd::prelude::*;
use vstd::string::*;
use crate::ids::{Identified, find_by_id, idents, index_in};
use crate::planet::{Planet, PlanetView, planet_ids};
use crate::player::Player;
use crate::text::owned;

use crate::drawing::{
    drawing,
    frame,
    icons_done,
    label_done,
    label_text,
    labels_done,
    lanes_done,
    lemma_drawn_rows,
    lemma_no_place_no_lanes,
    lemma_rows_text,
    lemma_same_cells,
    rows,
    rows_text,
    with_cell,
    with_line,
};

verus! {

/// How many planets a map holds.
#[derive(Clone, Copy, Debug, PartialEq, Eq, Structural)]
pub enum MapSize {
    Small,
    Medium,
    Large,
}

impl MapSize {
    /// The number of planets of a map of this size.
    pub open spec fn planets(self) -> u32 {
        match self {
            MapSize::Small => 10,
            MapSize::Medium => 20,
            MapSize::Large => 30,
        }
    }

    pub fn num_planets(&self) -> (n: u32)
        ensures
            n == self.planets(),
    {
        match self {
            MapSize::Small => 10,
            MapSize::Medium => 20,
            MapSize::Large => 30,
        }
    }
}

/// The cell of the drawing grid in which a planet sits.
#[derive(Debug)]
pub struct Position {
    pub planet_id: String,
    pub x: u8,
    pub y: u8,
}

/// What a [`Position`] holds, with every text as its sequence of characters.
pub struct PositionView {
    pub planet_id: Seq<char>,
    pub x: u8,
    pub y: u8,
}

impl DeepView for Position {
    type V = PositionView;

    open spec fn deep_view(&self) -> PositionView {
        PositionView { planet_id: self.planet_id@, x: self.x, y: self.y }
    }
}

impl Identified for Position {
    open spec fn ident(&self) -> Seq<char> {
        self.planet_id@
    }

    fn id_ref(&self) -> (k: &String) {
        &self.planet_id
    }
}

/// The planets that a list of positions speaks of, in order.
pub open spec fn position_ids(positions: Seq<PositionView>) -> Seq<Seq<char>> {
    Seq::new(positions.len(), |i: int| positions[i].planet_id)
}

/// The identifiers of the records are the identifiers of their views.
pub proof fn lemma_position_idents(positions: Vec<Position>)
    ensures
        idents(positions@) == position_ids(positions.deep_view()),
{
    assert(idents(positions@) =~= position_ids(positions.deep_view()));
}

/// The identifiers of the records are the identifiers of their views.
pub proof fn lemma_planet_idents(planets: Vec<Planet>)
    ensures
        idents(planets@) == planet_ids(planets.deep_view()),
{
    assert(idents(planets@) =~= planet_ids(planets.deep_view()));
}

/// The planets of a game and their places on the drawing grid.
#[derive(Debug)]
pub struct StarMap {
    pub planets: Vec<Planet>,
    pub planet_positions: Vec<Position>,
    pub size: MapSize,
}

/// What a [`StarMap`] holds, with every text as its sequence of characters.
pub struct StarMapView {
    pub planets: Seq<PlanetView>,
    pub planet_positions: Seq<PositionView>,
    pub size: MapSize,
}

impl DeepView for StarMap {
    type V = StarMapView;

    open spec fn deep_view(&self) -> StarMapView {
        StarMapView {
            planets: self.planets.deep_view(),
            planet_positions: self.planet_positions.deep_view(),
            size: self.size,
        }
    }
}

/// The number of rows of the drawing grid.
pub const GRID_HEIGHT: u8 = 40;

/// The number of columns of the drawing grid.
pub const GRID_WIDTH: u8 = 120;

/// The longest lane, in turns.
pub const MAX_DISTANCE: u8 = 5;

/// The mark of a planet on the drawing.
pub const PLANET_ICON: char = '◉';

/// The mark of the drawing's border.
pub const BORDER: char = '#';

/// Whether `grid` has `height` rows of `width` cells.
pub open spec fn is_grid(grid: Seq<Vec<char>>, width: int, height: int) -> bool {
    grid.len() == height && forall|y: int| 0 <= y < height ==> (#[trigger] grid[y])@.len() == width
}

/// The stroke with which a line from `(x1, y1)` to `(x2, y2)` is drawn.
pub open spec fn stroke(x1: int, y1: int, x2: int, y2: int) -> char {
    if x1 == x2 {
        '│'
    } else if y1 == y2 {
        '─'
    } else if (x1 < x2) == (y1 < y2) {
        '\\'
    } else {
        '/'
    }
}

/// Whether `after` is `before` with some blank cells replaced by `mark`.
pub open spec fn inked(before: Seq<Vec<char>>, after: Seq<Vec<char>>, mark: char) -> bool {
    after.len() == before.len() && forall|y: int, x: int|
        0 <= y < before.len() && 0 <= x < before[y]@.len() ==> {
            &&& after[y]@.len() == before[y]@.len()
            &&& (#[trigger] after[y]@[x] == before[y]@[x] || (before[y]@[x] == ' ' && after[y]@[x]
                == mark))
        }
}

/// One step from `a` towards `b`.
pub open spec fn toward(a: int, b: int) -> int {
    if a < b {
        a + 1
    } else if a > b {
        a - 1
    } else {
        a
    }
}

/// The cells that a walk of at most `steps` cells visits on its way from
/// `(x, y)` to `(x2, y2)`. The line runs `dx` cells along and `-dy` cells
/// across; `err` tells how far the walk has strayed from it. A step goes
/// along where twice the error is at least `dy`, across where it is at most
/// `dx`, and both ways where both hold.
pub open spec fn walk(
    x: int,
    y: int,
    x2: int,
    y2: int,
    dx: int,
    dy: int,
    err: int,
    steps: int,
) -> Seq<(int, int)>
    decreases steps,
{
    if steps <= 0 {
        Seq::empty()
    } else if x == x2 && y == y2 {
        seq![(x, y)]
    } else {
        let along = 2 * err >= dy && x != x2;
        let across = 2 * err <= dx && y != y2;
        seq![(x, y)] + walk(
            if along {
                toward(x, x2)
            } else {
                x
            },
            if across {
                toward(y, y2)
            } else {
                y
            },
            x2,
            y2,
            dx,
            dy,
            err + (if along {
                dy
            } else {
                0
            }) + (if across {
                dx
            } else {
                0
            }),
            steps - 1,
        )
    }
}

/// The cells of the line from `(x1, y1)` to `(x2, y2)`, in the order of the walk.
pub open spec fn line_cells(x1: int, y1: int, x2: int, y2: int) -> Seq<(int, int)> {
    let dx = if x2 >= x1 {
        x2 - x1
    } else {
        x1 - x2
    };
    let dy = if y2 >= y1 {
        y1 - y2
    } else {
        y2 - y1
    };
    walk(x1, y1, x2, y2, dx, dy, dx + dy, dx - dy + 1)
}

/// Whether `after` is `before` with exactly the blank cells among `cells`
/// replaced by `mark`.
pub open spec fn drawn(
    before: Seq<Vec<char>>,
    after: Seq<Vec<char>>,
    cells: Seq<(int, int)>,
    mark: char,
) -> bool {
    &&& after.len() == before.len()
    &&& forall|y: int| 0 <= y < before.len() ==> (#[trigger] after[y])@.len() == before[y]@.len()
    &&& forall|y: int, x: int|
        0 <= y < before.len() && 0 <= x < before[y]@.len() ==> #[trigger] after[y]@[x] == (
        if before[y]@[x] == ' ' && cells.contains((x, y)) {
            mark
        } else {
            before[y]@[x]
        })
}

/// A cell is among the cells with one more exactly if it was among them or is that one.
pub proof fn lemma_cells_push(cells: Seq<(int, int)>, c: (int, int), d: (int, int))
    ensures
        cells.push(c).contains(d) <==> cells.contains(d) || d == c,
{
    let more = cells.push(c);
    if cells.contains(d) {
        let i = choose|i: int| 0 <= i < cells.len() && cells[i] == d;
        assert(more[i] == d);
    }
    if d == c {
        assert(more[cells.len() as int] == d);
    }
    if more.contains(d) {
        let i = choose|i: int| 0 <= i < more.len() && more[i] == d;
        if i < cells.len() {
            assert(cells[i] == d);
        }
    }
}

/// Whether `after` is `before` but for the cell `(x, y)`, which shows
/// `mark` if it was blank.
pub open spec fn dotted(before: Seq<Vec<char>>, after: Seq<Vec<char>>, x: int, y: int, mark: char) -> bool {
    &&& after.len() == before.len()
    &&& forall|yy: int| 0 <= yy < before.len() ==> (#[trigger] after[yy])@.len() == before[yy]@.len()
    &&& forall|yy: int, xx: int|
        0 <= yy < before.len() && 0 <= xx < before[yy]@.len() ==> #[trigger] after[yy]@[xx] == (
        if yy == y && xx == x && before[yy]@[xx] == ' ' {
            mark
        } else {
            before[yy]@[xx]
        })
}

/// One more cell of a line drawn.
pub proof fn lemma_drawn_further(
    start: Seq<Vec<char>>,
    before: Seq<Vec<char>>,
    after: Seq<Vec<char>>,
    seen: Seq<(int, int)>,
    x: int,
    y: int,
    mark: char,
)
    requires
        mark != ' ',
        drawn(start, before, seen, mark),
        dotted(before, after, x, y, mark),
    ensures
        drawn(start, after, seen.push((x, y)), mark),
{
    let cells = seen.push((x, y));
    assert forall|yy: int| 0 <= yy < start.len() implies (#[trigger] after[yy])@.len()
        == start[yy]@.len() by {
        assert(before[yy]@.len() == start[yy]@.len());
    }
    assert forall|yy: int, xx: int|
        0 <= yy < start.len() && 0 <= xx < start[yy]@.len() implies #[trigger] after[yy]@[xx] == (
    if start[yy]@[xx] == ' ' && cells.contains((xx, yy)) {
        mark
    } else {
        start[yy]@[xx]
    }) by {
        assert(before[yy]@.len() == start[yy]@.len());
        lemma_cells_push(seen, (x, y), (xx, yy));
        assert(before[yy]@[xx] == if start[yy]@[xx] == ' ' && seen.contains((xx, yy)) {
            mark
        } else {
            start[yy]@[xx]
        });
        assert(after[yy]@[xx] == if yy == y && xx == x && before[yy]@[xx] == ' ' {
            mark
        } else {
            before[yy]@[xx]
        });
    }
}

/// A walk that has steps left visits the cell it stands on and goes on
/// from the next, or ends there.
pub proof fn lemma_walk_on(
    seen: Seq<(int, int)>,
    x: int,
    y: int,
    x2: int,
    y2: int,
    dx: int,
    dy: int,
    err: int,
    steps: int,
)
    requires
        steps > 0,
    ensures
        ({
            let along = 2 * err >= dy && x != x2;
            let across = 2 * err <= dx && y != y2;
            seen + walk(x, y, x2, y2, dx, dy, err, steps) == if x == x2 && y == y2 {
                seen.push((x, y)) + walk(x, y, x2, y2, dx, dy, err, 0)
            } else {
                seen.push((x, y)) + walk(
                    if along {
                        toward(x, x2)
                    } else {
                        x
                    },
                    if across {
                        toward(y, y2)
                    } else {
                        y
                    },
                    x2,
                    y2,
                    dx,
                    dy,
                    err + (if along {
                        dy
                    } else {
                        0
                    }) + (if across {
                        dx
                    } else {
                        0
                    }),
                    steps - 1,
                )
            }
        }),
{
    let along = 2 * err >= dy && x != x2;
    let across = 2 * err <= dx && y != y2;
    if x == x2 && y == y2 {
        assert(seen + walk(x, y, x2, y2, dx, dy, err, steps) =~= seen.push((x, y)) + walk(
            x,
            y,
            x2,
            y2,
            dx,
            dy,
            err,
            0,
        ));
    } else {
        let next = walk(
            if along {
                toward(x, x2)
            } else {
                x
            },
            if across {
                toward(y, y2)
            } else {
                y
            },
            x2,
            y2,
            dx,
            dy,
            err + (if along {
                dy
            } else {
                0
            }) + (if across {
                dx
            } else {
                0
            }),
            steps - 1,
        );
        assert(walk(x, y, x2, y2, dx, dy, err, steps) == seq![(x, y)] + next);
        assert(seen + (seq![(x, y)] + next) =~= seen.push((x, y)) + next);
    }
}

/// What was drawn went into blank cells alone.
pub proof fn lemma_drawn_inked(
    before: Seq<Vec<char>>,
    after: Seq<Vec<char>>,
    cells: Seq<(int, int)>,
    mark: char,
)
    requires
        drawn(before, after, cells, mark),
    ensures
        inked(before, after, mark),
{
    assert forall|y: int, x: int| 0 <= y < before.len() && 0 <= x < before[y]@.len() implies {
        &&& after[y]@.len() == before[y]@.len()
        &&& (#[trigger] after[y]@[x] == before[y]@[x] || (before[y]@[x] == ' ' && after[y]@[x]
            == mark))
    } by {
        assert(after[y]@.len() == before[y]@.len());
    }
}

/// Puts `mark` into the cell `(x, y)` if the cell is blank.
pub fn ink(grid: &mut Vec<Vec<char>>, x: usize, y: usize, mark: char)
    requires
        is_grid(old(grid)@, GRID_WIDTH as int, GRID_HEIGHT as int),
        x < GRID_WIDTH,
        y < GRID_HEIGHT,
    ensures
        is_grid(final(grid)@, GRID_WIDTH as int, GRID_HEIGHT as int),
        dotted(old(grid)@, final(grid)@, x as int, y as int, mark),
{
    if grid[y][x] == ' ' {
        put(grid, x, y, mark);
    }
}

/// The rows of a grid as text, each followed by a line break.
pub open spec fn grid_text(grid: Seq<Vec<char>>, n: int) -> Seq<char>
    decreases n,
{
    if n <= 0 {
        Seq::empty()
    } else {
        grid_text(grid, n - 1) + grid[n - 1]@ + seq!['\n']
    }
}

impl StarMapView {
    /// Whether every planet's place lies on the drawing grid.
    pub open spec fn drawable(self) -> bool {
        forall|i: int|
            0 <= i < self.planet_positions.len() ==> (#[trigger] self.planet_positions[i]).x
                < GRID_WIDTH && self.planet_positions[i].y < GRID_HEIGHT
    }
}

/// `String::from_iter` over characters: the text made of `chars`, in order.
#[verifier::external_body]
pub(crate) fn text_of(chars: &Vec<char>) -> (s: String)
    ensures
        s@ == chars@,
{
    String::from_iter(chars.iter())
}

/// A row of `width` blanks.
pub fn blank_row(width: usize) -> (row: Vec<char>)
    ensures
        row@.len() == width,
        forall|x: int| 0 <= x < width ==> row@[x] == ' ',
{
    let mut row: Vec<char> = Vec::new();
    let mut x: usize = 0;
    while x < width
        invariant
            x <= width,
            row@.len() == x,
            forall|j: int| 0 <= j < x ==> row@[j] == ' ',
        decreases width - x,
    {
        row.push(' ');
        x += 1;
    }
    row
}

impl StarMap {
    /// Whether every planet's place lies on the drawing grid.
    #[verifier::loop_isolation(false)]
    pub fn is_drawable(&self) -> (r: bool)
        ensures
            r == self.deep_view().drawable(),
    {
        let ghost places = self.deep_view().planet_positions;
        let mut i: usize = 0;
        while i < self.planet_positions.len()
            invariant
                i <= self.planet_positions.len(),
                forall|j: int|
                    0 <= j < i ==> (#[trigger] places[j]).x < GRID_WIDTH && places[j].y
                        < GRID_HEIGHT,
            decreases self.planet_positions.len() - i,
        {
            assert(places[i as int] == self.planet_positions[i as int].deep_view());
            if self.planet_positions[i].x >= GRID_WIDTH || self.planet_positions[i].y
                >= GRID_HEIGHT {
                return false;
            }
            i += 1;
        }
        true
    }

    /// Draws a line from `(x1, y1)` to `(x2, y2)`: the blank cells among
    /// the cells of the line take the line's stroke, and no other cell
    /// changes. The first cell is never left blank.
    pub fn draw_line(grid: &mut Vec<Vec<char>>, x1: i32, y1: i32, x2: i32, y2: i32)
        requires
            is_grid(old(grid)@, GRID_WIDTH as int, GRID_HEIGHT as int),
            0 <= x1 < GRID_WIDTH,
            0 <= x2 < GRID_WIDTH,
            0 <= y1 < GRID_HEIGHT,
            0 <= y2 < GRID_HEIGHT,
        ensures
            is_grid(final(grid)@, GRID_WIDTH as int, GRID_HEIGHT as int),
            inked(old(grid)@, final(grid)@, stroke(x1 as int, y1 as int, x2 as int, y2 as int)),
            drawn(
                old(grid)@,
                final(grid)@,
                line_cells(x1 as int, y1 as int, x2 as int, y2 as int),
                stroke(x1 as int, y1 as int, x2 as int, y2 as int),
            ),
            final(grid)@[y1 as int]@[x1 as int] != ' ',
            rows(final(grid)@) == with_line(
                rows(old(grid)@),
                line_cells(x1 as int, y1 as int, x2 as int, y2 as int),
                stroke(x1 as int, y1 as int, x2 as int, y2 as int),
            ),
    {
        let dx: i32 = if x2 >= x1 {
            x2 - x1
        } else {
            x1 - x2
        };
        let dy: i32 = if y2 >= y1 {
            y1 - y2
        } else {
            y2 - y1
        };
        let sx: i32 = if x1 < x2 {
            1
        } else {
            -1
        };
        let sy: i32 = if y1 < y2 {
            1
        } else {
            -1
        };
        let ch = if dx == 0 {
            '│'
        } else if dy == 0 {
            '─'
        } else if (sx > 0 && sy > 0) || (sx < 0 && sy < 0) {
            '\\'
        } else {
            '/'
        };
        let mut x: i32 = x1;
        let mut y: i32 = y1;
        let mut err: i32 = dx + dy;
        let mut steps: i32 = dx - dy + 1;
        let ghost start = grid@;
        let ghost line = line_cells(x1 as int, y1 as int, x2 as int, y2 as int);
        let ghost mut seen: Seq<(int, int)> = Seq::empty();
        assert(line =~= seen + line);
        while steps > 0
            invariant
                is_grid(grid@, GRID_WIDTH as int, GRID_HEIGHT as int),
                is_grid(start, GRID_WIDTH as int, GRID_HEIGHT as int),
                0 <= x1 < GRID_WIDTH,
                0 <= x2 < GRID_WIDTH,
                0 <= y1 < GRID_HEIGHT,
                0 <= y2 < GRID_HEIGHT,
                sx == if x1 < x2 {
                    1i32
                } else {
                    -1i32
                },
                sy == if y1 < y2 {
                    1i32
                } else {
                    -1i32
                },
                drawn(start, grid@, seen, ch),
                line == seen + walk(
                    x as int,
                    y as int,
                    x2 as int,
                    y2 as int,
                    dx as int,
                    dy as int,
                    err as int,
                    steps as int,
                ),
                0 <= dx < GRID_WIDTH,
                -(GRID_HEIGHT as int) < dy <= 0,
                0 <= steps <= dx - dy + 1,
                if x1 <= x2 {
                    x1 <= x <= x2
                } else {
                    x2 <= x <= x1
                },
                if y1 <= y2 {
                    y1 <= y <= y2
                } else {
                    y2 <= y <= y1
                },
                -400 * (dx - dy + 2 - steps) <= err <= 400 * (dx - dy + 2 - steps),
                steps == dx - dy + 1 ==> x == x1 && y == y1,
                (steps == dx - dy + 1) == (seen.len() == 0),
                seen.len() > 0 ==> seen[0] == (x1 as int, y1 as int),
                ch != ' ',
            decreases steps,
        {
            let ghost before = grid@;
            ink(grid, x as usize, y as usize, ch);
            proof {
                lemma_drawn_further(start, before, grid@, seen, x as int, y as int, ch);
                lemma_walk_on(
                    seen,
                    x as int,
                    y as int,
                    x2 as int,
                    y2 as int,
                    dx as int,
                    dy as int,
                    err as int,
                    steps as int,
                );
                assert(seen.len() > 0 ==> seen.push((x as int, y as int))[0] == seen[0]);
                seen = seen.push((x as int, y as int));
            }
            if x == x2 && y == y2 {
                steps = 0;
            } else {
                let e2 = 2 * err;
                if e2 >= dy && x != x2 {
                    err += dy;
                    x += sx;
                }
                if e2 <= dx && y != y2 {
                    err += dx;
                    y += sy;
                }
                steps -= 1;
            }
        }
        proof {
            assert(line =~= seen);
            assert(line[0] == (x1 as int, y1 as int));
            assert(line.contains((x1 as int, y1 as int)));
            lemma_drawn_inked(start, grid@, line, ch);
            lemma_drawn_rows(start, grid@, line, ch);
        }
    }
}

/// What the cell `(x, y)` of a grid shows.
pub open spec fn cell(grid: Seq<Vec<char>>, x: int, y: int) -> char {
    grid[y]@[x]
}

/// Whether `(x, y)` lies on the border of the drawing grid.
pub open spec fn on_border(x: int, y: int) -> bool {
    x == 0 || y == 0 || x == GRID_WIDTH - 1 || y == GRID_HEIGHT - 1
}

/// Whether one of the first `n` places is the cell `(x, y)`.
pub open spec fn placed_at(places: Seq<PositionView>, n: int, x: int, y: int) -> bool {
    exists|j: int| 0 <= j < n && (#[trigger] places[j]).x == x && places[j].y == y
}

/// What a border cell shows once the first `n` places are marked: a
/// planet where one of them is that cell, the border everywhere else.
pub open spec fn border_mark(places: Seq<PositionView>, n: int, x: int, y: int) -> char {
    if placed_at(places, n, x, y) {
        PLANET_ICON
    } else {
        BORDER
    }
}

/// Whether every border cell shows what it should with the first `n`
/// places marked.
pub open spec fn bordered(grid: Seq<Vec<char>>, places: Seq<PositionView>, n: int) -> bool {
    forall|y: int, x: int|
        0 <= y < GRID_HEIGHT && 0 <= x < GRID_WIDTH && on_border(x, y) ==> #[trigger] grid[y]@[x]
            == border_mark(places, n, x, y)
}

/// Whether the cells of the first `n` places show a planet.
pub open spec fn marked(grid: Seq<Vec<char>>, places: Seq<PositionView>, n: int) -> bool {
    forall|j: int| 0 <= j < n ==> grid[(#[trigger] places[j]).y as int]@[places[j].x as int] == PLANET_ICON
}

/// Puts `c` into the cell `(x, y)`.
pub fn put(grid: &mut Vec<Vec<char>>, x: usize, y: usize, c: char)
    requires
        is_grid(old(grid)@, GRID_WIDTH as int, GRID_HEIGHT as int),
        x < GRID_WIDTH,
        y < GRID_HEIGHT,
    ensures
        is_grid(final(grid)@, GRID_WIDTH as int, GRID_HEIGHT as int),
        final(grid)@[y as int]@[x as int] == c,
        forall|yy: int, xx: int|
            0 <= yy < GRID_HEIGHT && 0 <= xx < GRID_WIDTH && !(yy == y && xx == x) ==> final(grid)@[yy]@[xx] == old(grid)@[yy]@[xx],
        forall|yy: int, xx: int|
            0 <= yy < GRID_HEIGHT && 0 <= xx < GRID_WIDTH ==> #[trigger] cell(final(grid)@, xx, yy)
                == if yy == y && xx == x {
                c
            } else {
                cell(old(grid)@, xx, yy)
            },
        rows(final(grid)@) == with_cell(rows(old(grid)@), x as int, y as int, c),
{
    let mut cells = grid[y].clone();
    let ghost old_row = grid@[y as int]@;
    assert(cells@ =~= old_row);
    cells.set(x, c);
    grid.set(y, cells);
    proof {
        let a = rows(grid@);
        let b = with_cell(rows(old(grid)@), x as int, y as int, c);
        assert forall|yy: int| 0 <= yy < a.len() implies (#[trigger] a[yy]).len() == b[yy].len() by {
            assert(grid@[yy]@.len() == GRID_WIDTH);
            assert(old(grid)@[yy]@.len() == GRID_WIDTH);
        }
        assert forall|yy: int, xx: int| 0 <= yy < a.len() && 0 <= xx < a[yy].len() implies #[trigger] a[yy][xx]
            == b[yy][xx] by {
            assert(grid@[yy]@.len() == GRID_WIDTH);
            assert(old(grid)@[yy]@.len() == GRID_WIDTH);
        }
        lemma_same_cells(a, b);
    }
}

/// The empty drawing: a grid that is blank but for its border.
#[verifier::loop_isolation(false)]
pub fn framed() -> (grid: Vec<Vec<char>>)
    ensures
        is_grid(grid@, GRID_WIDTH as int, GRID_HEIGHT as int),
        rows(grid@) == frame(),
{
    let width = GRID_WIDTH as usize;
    let height = GRID_HEIGHT as usize;
    let mut grid: Vec<Vec<char>> = Vec::new();
    let mut y: usize = 0;
    while y < height
        invariant
            y <= height,
            grid@.len() == y,
            forall|j: int| 0 <= j < y ==> (#[trigger] grid@[j])@.len() == width,
            forall|j: int, x: int| 0 <= j < y && 0 <= x < width ==> #[trigger] cell(grid@, x, j) == ' ',
        decreases height - y,
    {
        let row = blank_row(width);
        let ghost blanks = row@;
        let ghost before = grid@;
        grid.push(row);
        assert forall|j: int, x: int| 0 <= j < y + 1 && 0 <= x < width implies #[trigger] cell(
            grid@,
            x,
            j,
        ) == ' ' by {
            if j == y {
                assert(grid@[j]@ == blanks);
                assert(blanks[x] == ' ');
            } else {
                assert(grid@[j] == before[j]);
                assert(cell(before, x, j) == ' ');
            }
        }
        y += 1;
    }
    let ghost bottom = GRID_HEIGHT as int - 1;
    let ghost right = GRID_WIDTH as int - 1;
    let mut x: usize = 0;
    while x < width
        invariant
            x <= width,
            is_grid(grid@, GRID_WIDTH as int, GRID_HEIGHT as int),
            forall|yy: int, xx: int|
                0 <= yy < GRID_HEIGHT && 0 <= xx < GRID_WIDTH ==> #[trigger] cell(grid@, xx, yy) == (
                if (yy == 0 || yy == bottom) && xx < x {
                    BORDER
                } else {
                    ' '
                }),
        decreases width - x,
    {
        put(&mut grid, x, 0, BORDER);
        put(&mut grid, x, height - 1, BORDER);
        x += 1;
    }
    let mut y: usize = 0;
    while y < height
        invariant
            y <= height,
            is_grid(grid@, GRID_WIDTH as int, GRID_HEIGHT as int),
            forall|yy: int, xx: int|
                0 <= yy < GRID_HEIGHT && 0 <= xx < GRID_WIDTH ==> #[trigger] cell(grid@, xx, yy) == (
                if yy == 0 || yy == bottom || ((xx == 0 || xx == right) && yy < y) {
                    BORDER
                } else {
                    ' '
                }),
        decreases height - y,
    {
        put(&mut grid, 0, y, BORDER);
        put(&mut grid, width - 1, y, BORDER);
        y += 1;
    }
    proof {
        let a = rows(grid@);
        let b = frame();
        assert forall|yy: int| 0 <= yy < a.len() implies (#[trigger] a[yy]).len() == b[yy].len() by {
            assert(grid@[yy]@.len() == GRID_WIDTH);
        }
        assert forall|yy: int, xx: int| 0 <= yy < a.len() && 0 <= xx < a[yy].len() implies #[trigger] a[yy][xx]
            == b[yy][xx] by {
            assert(grid@[yy]@.len() == GRID_WIDTH);
            assert(cell(grid@, xx, yy) == b[yy][xx]);
        }
        lemma_same_cells(a, b);
    }
    grid
}

impl StarMap {
    /// The place of the planet `id` on the grid, where it has one.
    pub fn place_of(&self, id: &String) -> (r: Option<(u8, u8)>)
        ensures
            ({
                let places = self.deep_view().planet_positions;
                let i = index_in(position_ids(places), id@);
                match r {
                    Some((x, y)) => i >= 0 && x == places[i].x && y == places[i].y && (
                    self.deep_view().drawable() ==> x < GRID_WIDTH && y < GRID_HEIGHT),
                    None => i < 0,
                }
            }),
    {
        proof {
            lemma_position_idents(self.planet_positions);
            crate::ids::lemma_index_in(
                position_ids(self.deep_view().planet_positions),
                id@,
            );
        }
        match find_by_id(&self.planet_positions, id) {
            Some(i) => {
                assert(self.deep_view().planet_positions[i as int]
                    == self.planet_positions[i as int].deep_view());
                Some((self.planet_positions[i].x, self.planet_positions[i].y))
            },
            None => None,
        }
    }

    /// Draws the lanes onto the empty drawing, planet by planet and lane
    /// by lane; a lane is drawn where both its ends have a place.
    #[verifier::loop_isolation(false)]
    fn draw_lanes(&self, grid: &mut Vec<Vec<char>>)
        requires
            self.deep_view().drawable(),
            is_grid(old(grid)@, GRID_WIDTH as int, GRID_HEIGHT as int),
            rows(old(grid)@) == frame(),
            bordered(old(grid)@, self.deep_view().planet_positions, 0),
        ensures
            is_grid(final(grid)@, GRID_WIDTH as int, GRID_HEIGHT as int),
            rows(final(grid)@) == lanes_done(self.deep_view(), self.planets.len() as int, 0),
            bordered(final(grid)@, self.deep_view().planet_positions, 0),
    {
        let ghost map = self.deep_view();
        let ghost places = map.planet_positions;
        let mut i: usize = 0;
        while i < self.planets.len()
            invariant
                i <= self.planets.len(),
                is_grid(grid@, GRID_WIDTH as int, GRID_HEIGHT as int),
                rows(grid@) == lanes_done(map, i as int, 0),
                bordered(grid@, places, 0),
            decreases self.planets.len() - i,
        {
            let planet = &self.planets[i];
            assert(map.planets[i as int] == planet.deep_view());
            let n = planet.connections.len();
            assert(map.planets[i as int].connections.len() == n);
            match self.place_of(&planet.id) {
                Some((x1, y1)) => {
                    let mut k: usize = 0;
                    while k < n
                        invariant
                            k <= n,
                            is_grid(grid@, GRID_WIDTH as int, GRID_HEIGHT as int),
                            rows(grid@) == lanes_done(map, i as int, k as int),
                            bordered(grid@, places, 0),
                            x1 < GRID_WIDTH,
                            y1 < GRID_HEIGHT,
                        decreases n - k,
                    {
                        assert(map.planets[i as int].connections[k as int]
                            == planet.connections[k as int].deep_view());
                        if let Some((x2, y2)) = self.place_of(&planet.connections[k].to) {
                            let ghost before = grid@;
                            Self::draw_line(grid, x1 as i32, y1 as i32, x2 as i32, y2 as i32);
                            assert forall|yy: int, xx: int|
                                0 <= yy < GRID_HEIGHT && 0 <= xx < GRID_WIDTH && on_border(
                                    xx,
                                    yy,
                                ) implies #[trigger] grid@[yy]@[xx] == border_mark(
                                places,
                                0,
                                xx,
                                yy,
                            ) by {
                                assert(before[yy]@[xx] == border_mark(places, 0, xx, yy));
                            }
                        }
                        k += 1;
                    }
                },
                None => {
                    proof {
                        lemma_no_place_no_lanes(map, i as int, n as int);
                    }
                },
            }
            i += 1;
        }
    }

    /// Marks every planet's place.
    #[verifier::loop_isolation(false)]
    fn draw_planets(&self, grid: &mut Vec<Vec<char>>)
        requires
            self.deep_view().drawable(),
            is_grid(old(grid)@, GRID_WIDTH as int, GRID_HEIGHT as int),
            bordered(old(grid)@, self.deep_view().planet_positions, 0),
        ensures
            is_grid(final(grid)@, GRID_WIDTH as int, GRID_HEIGHT as int),
            rows(final(grid)@) == icons_done(
                rows(old(grid)@),
                self.deep_view().planet_positions,
                self.planet_positions.len() as int,
            ),
            bordered(
                final(grid)@,
                self.deep_view().planet_positions,
                self.planet_positions.len() as int,
            ),
            marked(
                final(grid)@,
                self.deep_view().planet_positions,
                self.planet_positions.len() as int,
            ),
    {
        let ghost places = self.deep_view().planet_positions;
        let ghost base = rows(grid@);
        let mut i: usize = 0;
        while i < self.planet_positions.len()
            invariant
                i <= self.planet_positions.len(),
                is_grid(grid@, GRID_WIDTH as int, GRID_HEIGHT as int),
                rows(grid@) == icons_done(base, places, i as int),
                bordered(grid@, places, i as int),
                marked(grid@, places, i as int),
            decreases self.planet_positions.len() - i,
        {
            assert(places[i as int] == self.planet_positions[i as int].deep_view());
            let ghost before = grid@;
            put(
                grid,
                self.planet_positions[i].x as usize,
                self.planet_positions[i].y as usize,
                PLANET_ICON,
            );
            assert forall|yy: int, xx: int|
                0 <= yy < GRID_HEIGHT && 0 <= xx < GRID_WIDTH && on_border(
                    xx,
                    yy,
                ) implies #[trigger] grid@[yy]@[xx] == border_mark(places, i as int + 1, xx, yy) by {
                assert(before[yy]@[xx] == border_mark(places, i as int, xx, yy));
                if places[i as int].x == xx && places[i as int].y == yy {
                    assert(placed_at(places, i as int + 1, xx, yy));
                } else if placed_at(places, i as int + 1, xx, yy) {
                    let j = choose|j: int|
                        0 <= j < i + 1 && (#[trigger] places[j]).x == xx && places[j].y == yy;
                    assert(placed_at(places, i as int, xx, yy));
                } else if placed_at(places, i as int, xx, yy) {
                    let j = choose|j: int|
                        0 <= j < i && (#[trigger] places[j]).x == xx && places[j].y == yy;
                    assert(placed_at(places, i as int + 1, xx, yy));
                }
            }
            assert forall|j: int| 0 <= j < i + 1 implies grid@[(#[trigger] places[j]).y as int]@[places[j].x as int]
                == PLANET_ICON by {
                if j < i {
                    assert(before[places[j].y as int]@[places[j].x as int] == PLANET_ICON);
                }
            }
            i += 1;
        }
    }

    /// Writes `label` into the row `row` from the column `start` on,
    /// leaving out what would fall on the border or on a planet.
    #[verifier::loop_isolation(false)]
    fn draw_label(
        grid: &mut Vec<Vec<char>>,
        label: &str,
        start: usize,
        row: usize,
        Ghost(places): Ghost<Seq<PositionView>>,
    )
        requires
            is_grid(old(grid)@, GRID_WIDTH as int, GRID_HEIGHT as int),
            start <= GRID_WIDTH,
            row < GRID_HEIGHT,
            bordered(old(grid)@, places, places.len() as int),
            marked(old(grid)@, places, places.len() as int),
            forall|j: int|
                0 <= j < places.len() ==> (#[trigger] places[j]).x < GRID_WIDTH && places[j].y
                    < GRID_HEIGHT,
        ensures
            is_grid(final(grid)@, GRID_WIDTH as int, GRID_HEIGHT as int),
            rows(final(grid)@) == label_done(
                rows(old(grid)@),
                label@,
                start as int,
                row as int,
                label@.len() as int,
            ),
            bordered(final(grid)@, places, places.len() as int),
            marked(final(grid)@, places, places.len() as int),
    {
        let ghost base = rows(grid@);
        let width = GRID_WIDTH as usize;
        let n = label.unicode_len();
        let mut k: usize = 0;
        while k < n
            invariant
                k <= n,
                n == label@.len(),
                is_grid(grid@, GRID_WIDTH as int, GRID_HEIGHT as int),
                rows(grid@) == label_done(base, label@, start as int, row as int, k as int),
                bordered(grid@, places, places.len() as int),
                marked(grid@, places, places.len() as int),
            decreases n - k,
        {
            if k < width && start + k < width - 1 {
                let at = start + k;
                let current = grid[row][at];
                assert(rows(grid@)[row as int][at as int] == current);
                if current != BORDER && current != PLANET_ICON {
                    let ghost before = grid@;
                    put(grid, at, row, label.get_char(k));
                    assert forall|yy: int, xx: int|
                        0 <= yy < GRID_HEIGHT && 0 <= xx < GRID_WIDTH && on_border(
                            xx,
                            yy,
                        ) implies #[trigger] grid@[yy]@[xx] == border_mark(
                        places,
                        places.len() as int,
                        xx,
                        yy,
                    ) by {
                        assert(before[yy]@[xx] == border_mark(places, places.len() as int, xx, yy));
                    }
                    assert forall|j: int| 0 <= j < places.len() implies grid@[(
                    #[trigger] places[j]).y as int]@[places[j].x as int] == PLANET_ICON by {
                        assert(before[places[j].y as int]@[places[j].x as int] == PLANET_ICON);
                    }
                }
            }
            k += 1;
        }
    }

    /// Writes every planet's label right of its place.
    #[verifier::loop_isolation(false)]
    fn draw_labels(&self, grid: &mut Vec<Vec<char>>, players: &Vec<Player>)
        requires
            self.deep_view().drawable(),
            is_grid(old(grid)@, GRID_WIDTH as int, GRID_HEIGHT as int),
            bordered(
                old(grid)@,
                self.deep_view().planet_positions,
                self.planet_positions.len() as int,
            ),
            marked(
                old(grid)@,
                self.deep_view().planet_positions,
                self.planet_positions.len() as int,
            ),
        ensures
            is_grid(final(grid)@, GRID_WIDTH as int, GRID_HEIGHT as int),
            rows(final(grid)@) == labels_done(
                rows(old(grid)@),
                self.deep_view(),
                players.deep_view(),
                self.planet_positions.len() as int,
            ),
            bordered(
                final(grid)@,
                self.deep_view().planet_positions,
                self.planet_positions.len() as int,
            ),
            marked(
                final(grid)@,
                self.deep_view().planet_positions,
                self.planet_positions.len() as int,
            ),
    {
        let ghost map = self.deep_view();
        let ghost places = map.planet_positions;
        let ghost base = rows(grid@);
        let mut i: usize = 0;
        while i < self.planet_positions.len()
            invariant
                i <= self.planet_positions.len(),
                is_grid(grid@, GRID_WIDTH as int, GRID_HEIGHT as int),
                rows(grid@) == labels_done(base, map, players.deep_view(), i as int),
                bordered(grid@, places, places.len() as int),
                marked(grid@, places, places.len() as int),
            decreases self.planet_positions.len() - i,
        {
            assert(places[i as int] == self.planet_positions[i as int].deep_view());
            let place = &self.planet_positions[i];
            let label = self.label_of(&place.planet_id, players);
            Self::draw_label(
                grid,
                label.as_str(),
                place.x as usize + 1,
                place.y as usize,
                Ghost(places),
            );
            i += 1;
        }
    }

    /// Draws the map: a bordered grid with the lanes as lines, the planets
    /// as marks and, right of each planet, its identifier and owner. A
    /// border cell shows the border unless it is a planet's place.
    pub fn render_grid(&self, players: &Vec<Player>) -> (grid: Vec<Vec<char>>)
        requires
            self.deep_view().drawable(),
        ensures
            is_grid(grid@, GRID_WIDTH as int, GRID_HEIGHT as int),
            rows(grid@) == drawing(self.deep_view(), players.deep_view()),
            bordered(
                grid@,
                self.deep_view().planet_positions,
                self.deep_view().planet_positions.len() as int,
            ),
            marked(
                grid@,
                self.deep_view().planet_positions,
                self.deep_view().planet_positions.len() as int,
            ),
    {
        let ghost places = self.deep_view().planet_positions;
        let mut grid = framed();
        assert forall|yy: int, xx: int|
            0 <= yy < GRID_HEIGHT && 0 <= xx < GRID_WIDTH && on_border(xx, yy) implies #[trigger] grid@[yy]@[xx]
            == border_mark(places, 0, xx, yy) by {
            assert(rows(grid@)[yy][xx] == BORDER);
        }
        self.draw_lanes(&mut grid);
        self.draw_planets(&mut grid);
        self.draw_labels(&mut grid, players);
        grid
    }

    /// The label of the planet `id`: a blank, the identifier and, for an
    /// owned planet, the owner's name in parentheses.
    pub fn label_of(&self, id: &String, players: &Vec<Player>) -> (label: String)
        ensures
            label@ == label_text(self.deep_view(), players.deep_view(), id@),
    {
        proof {
            lemma_planet_idents(self.planets);
            crate::game_state::lemma_player_idents(*players);
        }
        let mut label = owned(" ");
        label.append(id.as_str());
        if let Some(qi) = find_by_id(&self.planets, id) {
            assert(self.deep_view().planets[qi as int] == self.planets[qi as int].deep_view());
            if let Some(owner) = &self.planets[qi].owner {
                label.append(" (");
                match find_by_id(players, owner) {
                    Some(pi) => {
                        assert(players.deep_view()[pi as int] == players[pi as int].deep_view());
                        label.append(players[pi].name.as_str());
                    },
                    None => {
                        label.append("Unknown");
                    },
                }
                label.append(")");
            }
        }
        label
    }

    /// The drawing of the map as text: the rows of the grid, each followed
    /// by a line break.
    #[verifier::loop_isolation(false)]
    pub fn render_full(&self, players: &Vec<Player>) -> (r: String)
        requires
            self.deep_view().drawable(),
        ensures
            exists|grid: Seq<Vec<char>>|
                {
                    &&& is_grid(grid, GRID_WIDTH as int, GRID_HEIGHT as int)
                    &&& bordered(
                        grid,
                        self.deep_view().planet_positions,
                        self.deep_view().planet_positions.len() as int,
                    )
                    &&& marked(
                        grid,
                        self.deep_view().planet_positions,
                        self.deep_view().planet_positions.len() as int,
                    )
                    &&& r@ == #[trigger] grid_text(grid, GRID_HEIGHT as int)
                },
            r@ == rows_text(drawing(self.deep_view(), players.deep_view()), GRID_HEIGHT as int),
    {
        let grid = self.render_grid(players);
        proof {
            lemma_rows_text(grid@, GRID_HEIGHT as int);
        }
        let mut text = String::new();
        let mut y: usize = 0;
        while y < grid.len()
            invariant
                y <= grid.len(),
                text@ == grid_text(grid@, y as int),
            decreases grid.len() - y,
        {
            let row = text_of(&grid[y]);
            proof {
                reveal_strlit("\n");
                assert("\n"@ =~= seq!['\n']);
            }
            let ghost before = text@;
            text.append(row.as_str());
            text.append("\n");
            assert(text@ =~= before + grid@[y as int]@ + seq!['\n']);
            y += 1;
        }
        text
    }
}

} // verus!
