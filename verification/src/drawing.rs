//! What the drawing of a map shows, cell by cell: the frame, then the
//! lanes, then the planets, then their labels, each laid over what was
//! drawn before.
use vstd::prelude::*;
use crate::ids::index_in;
use crate::map::{
    BORDER,
    GRID_HEIGHT,
    GRID_WIDTH,
    PLANET_ICON,
    PositionView,
    StarMapView,
    line_cells,
    on_border,
    position_ids,
    stroke,
};
use crate::planet::planet_ids;
use crate::player::{PlayerView, player_ids};

verus! {

/// The rows of a grid as sequences of characters.
pub open spec fn rows(grid: Seq<Vec<char>>) -> Seq<Seq<char>> {
    Seq::new(grid.len(), |y: int| grid[y]@)
}

/// The empty drawing: blank but for its border.
pub open spec fn frame() -> Seq<Seq<char>> {
    Seq::new(
        GRID_HEIGHT as nat,
        |y: int|
            Seq::new(
                GRID_WIDTH as nat,
                |x: int|
                    if on_border(x, y) {
                        BORDER
                    } else {
                        ' '
                    },
            ),
    )
}

/// The drawing with the cell `(x, y)` showing `c`.
pub open spec fn with_cell(g: Seq<Seq<char>>, x: int, y: int, c: char) -> Seq<Seq<char>> {
    Seq::new(
        g.len(),
        |yy: int|
            Seq::new(
                g[yy].len(),
                |xx: int|
                    if yy == y && xx == x {
                        c
                    } else {
                        g[yy][xx]
                    },
            ),
    )
}

/// The drawing with `mark` in the blank cells among `cells`.
pub open spec fn with_line(g: Seq<Seq<char>>, cells: Seq<(int, int)>, mark: char) -> Seq<Seq<char>> {
    Seq::new(
        g.len(),
        |y: int|
            Seq::new(
                g[y].len(),
                |x: int|
                    if g[y][x] == ' ' && cells.contains((x, y)) {
                        mark
                    } else {
                        g[y][x]
                    },
            ),
    )
}

/// The drawing with the line between two places.
pub open spec fn with_lane(g: Seq<Seq<char>>, from: PositionView, to: PositionView) -> Seq<Seq<char>> {
    with_line(
        g,
        line_cells(from.x as int, from.y as int, to.x as int, to.y as int),
        stroke(from.x as int, from.y as int, to.x as int, to.y as int),
    )
}

/// The drawing with the `k`-th lane of the `i`-th planet, which is drawn
/// where both its ends have a place.
pub open spec fn lane_drawn(g: Seq<Seq<char>>, map: StarMapView, i: int, k: int) -> Seq<Seq<char>> {
    let ids = position_ids(map.planet_positions);
    let from = index_in(ids, map.planets[i].id);
    let to = index_in(ids, map.planets[i].connections[k].to);
    if from >= 0 && to >= 0 {
        with_lane(g, map.planet_positions[from], map.planet_positions[to])
    } else {
        g
    }
}

/// The frame with the lanes of the first `i` planets and the first `k`
/// lanes of the next, drawn in this order: a line takes blank cells only,
/// so where two lines cross the earlier one shows.
pub open spec fn lanes_done(map: StarMapView, i: int, k: int) -> Seq<Seq<char>>
    decreases i, k,
{
    if k > 0 {
        lane_drawn(lanes_done(map, i, k - 1), map, i, k - 1)
    } else if i > 0 {
        lanes_done(map, i - 1, map.planets[i - 1].connections.len() as int)
    } else {
        frame()
    }
}

/// The drawing with a planet's mark at each of the first `n` places.
pub open spec fn icons_done(g: Seq<Seq<char>>, places: Seq<PositionView>, n: int) -> Seq<Seq<char>>
    decreases n,
{
    if n <= 0 {
        g
    } else {
        with_cell(
            icons_done(g, places, n - 1),
            places[n - 1].x as int,
            places[n - 1].y as int,
            PLANET_ICON,
        )
    }
}

/// The label of the planet `id`: a blank, the identifier and, for an owned
/// planet, the owner's name in parentheses.
pub open spec fn label_text(map: StarMapView, players: Seq<PlayerView>, id: Seq<char>) -> Seq<char> {
    let qi = index_in(planet_ids(map.planets), id);
    let owner = if qi >= 0 {
        map.planets[qi].owner
    } else {
        None
    };
    match owner {
        Some(o) => {
            let pi = index_in(player_ids(players), o);
            " "@ + id + " ("@ + (if pi >= 0 {
                players[pi].name
            } else {
                "Unknown"@
            }) + ")"@
        },
        None => " "@ + id,
    }
}

/// The drawing with the first `k` characters of `label` written into the
/// row `y` from the column `x` on. A character is left out where it would
/// fall on or beyond the right border, on a border cell or on a planet.
pub open spec fn label_done(g: Seq<Seq<char>>, label: Seq<char>, x: int, y: int, k: int) -> Seq<
    Seq<char>,
>
    decreases k,
{
    if k <= 0 {
        g
    } else {
        let h = label_done(g, label, x, y, k - 1);
        let at = x + k - 1;
        if at < GRID_WIDTH - 1 && h[y][at] != BORDER && h[y][at] != PLANET_ICON {
            with_cell(h, at, y, label[k - 1])
        } else {
            h
        }
    }
}

/// The drawing with the labels of the planets at the first `n` places,
/// each right of its planet.
pub open spec fn labels_done(g: Seq<Seq<char>>, map: StarMapView, players: Seq<PlayerView>, n: int) -> Seq<
    Seq<char>,
>
    decreases n,
{
    if n <= 0 {
        g
    } else {
        let place = map.planet_positions[n - 1];
        let label = label_text(map, players, place.planet_id);
        label_done(
            labels_done(g, map, players, n - 1),
            label,
            place.x + 1,
            place.y as int,
            label.len() as int,
        )
    }
}

/// The drawing of a map: the frame, the lanes, the planets and their labels.
pub open spec fn drawing(map: StarMapView, players: Seq<PlayerView>) -> Seq<Seq<char>> {
    let places = map.planet_positions;
    labels_done(
        icons_done(lanes_done(map, map.planets.len() as int, 0), places, places.len() as int),
        map,
        players,
        places.len() as int,
    )
}

/// The first `n` rows as text, each followed by a line break.
pub open spec fn rows_text(g: Seq<Seq<char>>, n: int) -> Seq<char>
    decreases n,
{
    if n <= 0 {
        Seq::empty()
    } else {
        rows_text(g, n - 1) + g[n - 1] + seq!['\n']
    }
}

/// Two drawings with the same cells are the same.
pub proof fn lemma_same_cells(a: Seq<Seq<char>>, b: Seq<Seq<char>>)
    requires
        a.len() == b.len(),
        forall|y: int| 0 <= y < a.len() ==> (#[trigger] a[y]).len() == b[y].len(),
        forall|y: int, x: int| 0 <= y < a.len() && 0 <= x < a[y].len() ==> #[trigger] a[y][x] == b[y][x],
    ensures
        a == b,
{
    assert forall|y: int| 0 <= y < a.len() implies #[trigger] a[y] == b[y] by {
        assert(a[y].len() == b[y].len());
        assert forall|x: int| 0 <= x < a[y].len() implies a[y][x] == b[y][x] by {
            assert(a[y][x] == b[y][x]);
        }
        assert(a[y] =~= b[y]);
    }
    assert(a =~= b);
}

/// A planet without a place has none of its lanes drawn.
pub proof fn lemma_no_place_no_lanes(map: StarMapView, i: int, k: int)
    requires
        index_in(position_ids(map.planet_positions), map.planets[i].id) < 0,
        k >= 0,
    ensures
        lanes_done(map, i, k) == lanes_done(map, i, 0),
    decreases k,
{
    if k > 0 {
        lemma_no_place_no_lanes(map, i, k - 1);
    }
}

/// What `drawn` says in terms of rows.
pub proof fn lemma_drawn_rows(
    before: Seq<Vec<char>>,
    after: Seq<Vec<char>>,
    cells: Seq<(int, int)>,
    mark: char,
)
    requires
        crate::map::drawn(before, after, cells, mark),
    ensures
        rows(after) == with_line(rows(before), cells, mark),
{
    let a = rows(after);
    let b = with_line(rows(before), cells, mark);
    assert forall|y: int| 0 <= y < a.len() implies (#[trigger] a[y]).len() == b[y].len() by {
        assert(after[y]@.len() == before[y]@.len());
    }
    assert forall|y: int, x: int| 0 <= y < a.len() && 0 <= x < a[y].len() implies #[trigger] a[y][x]
        == b[y][x] by {
        assert(after[y]@.len() == before[y]@.len());
        assert(after[y]@[x] == (if before[y]@[x] == ' ' && cells.contains((x, y)) {
            mark
        } else {
            before[y]@[x]
        }));
    }
    lemma_same_cells(a, b);
}

/// The text of a grid is the text of its rows.
pub proof fn lemma_rows_text(grid: Seq<Vec<char>>, n: int)
    requires
        n <= grid.len(),
    ensures
        crate::map::grid_text(grid, n) == rows_text(rows(grid), n),
    decreases n,
{
    if n > 0 {
        lemma_rows_text(grid, n - 1);
    }
}

} // verus!
