use colony_core::map::{framed, ink, put, MapSize, Position, StarMap};
use colony_core::planet::{Connection, Planet};
use colony_core::player::Player;

fn s(text: &str) -> String {
    text.to_string()
}

fn planet(id: &str, owner: Option<&str>, lanes: &[&str]) -> Planet {
    Planet::new(
        s(id),
        id.to_uppercase(),
        owner.map(s),
        lanes.iter().map(|to| Connection { to: s(to), distance: 1 }).collect(),
    )
}

fn place(id: &str, x: u8, y: u8) -> Position {
    Position { planet_id: s(id), x, y }
}

fn row_of(text: &str, y: usize) -> Vec<char> {
    text.lines().nth(y).unwrap().chars().collect()
}

#[test]
fn the_empty_drawing_is_blank_inside_its_border() {
    let grid = framed();
    assert_eq!(grid.len(), 40);
    for (y, row) in grid.iter().enumerate() {
        assert_eq!(row.len(), 120);
        for (x, c) in row.iter().enumerate() {
            let border = x == 0 || y == 0 || x == 119 || y == 39;
            assert_eq!(*c, if border { '#' } else { ' ' });
        }
    }
}

#[test]
fn ink_fills_blank_cells_only() {
    let mut grid = framed();
    ink(&mut grid, 5, 5, '/');
    assert_eq!(grid[5][5], '/');
    ink(&mut grid, 5, 5, '─');
    assert_eq!(grid[5][5], '/');
    ink(&mut grid, 0, 5, '─');
    assert_eq!(grid[5][0], '#');
    put(&mut grid, 0, 5, '◉');
    assert_eq!(grid[5][0], '◉');
}

#[test]
fn a_line_takes_the_cells_of_its_walk() {
    let mut flat = framed();
    StarMap::draw_line(&mut flat, 3, 4, 7, 4);
    let row: String = flat[4][1..10].iter().collect();
    assert_eq!(row, "  ─────  ");

    let mut steep = framed();
    StarMap::draw_line(&mut steep, 6, 2, 6, 5);
    for y in 2..=5 {
        assert_eq!(steep[y][6], '│');
    }
    assert_eq!(steep[1][6], ' ');
    assert_eq!(steep[6][6], ' ');

    let mut down = framed();
    StarMap::draw_line(&mut down, 2, 2, 5, 5);
    for k in 2..=5 {
        assert_eq!(down[k][k], '\\');
    }
    let marks = down.iter().flatten().filter(|c| **c == '\\').count();
    assert_eq!(marks, 4);

    let mut up = framed();
    StarMap::draw_line(&mut up, 10, 6, 4, 9);
    let cells: Vec<(usize, usize)> = (0..40)
        .flat_map(|y| (0..120).map(move |x| (x, y)))
        .filter(|(x, y)| up[*y][*x] == '/')
        .collect();
    assert_eq!(cells, vec![(10, 6), (8, 7), (9, 7), (6, 8), (7, 8), (4, 9), (5, 9)]);
}

#[test]
fn lanes_planets_and_labels_lie_over_one_another() {
    let map = StarMap {
        planets: vec![
            planet("a", Some("ann"), &["b", "c"]),
            planet("b", None, &["a"]),
            planet("c", Some("zed"), &["a"]),
            planet("lost", None, &["a"]),
        ],
        planet_positions: vec![place("a", 10, 5), place("b", 20, 5), place("c", 10, 8)],
        size: MapSize::Small,
    };
    let players = vec![Player::new(s("ann"), s("Ann"))];
    let text = map.render_full(&players);
    assert_eq!(text.lines().count(), 40);
    assert!(text.lines().all(|line| line.chars().count() == 120));

    let mut expected = vec![' '; 120];
    expected[0] = '#';
    expected[119] = '#';
    expected[10] = '◉';
    for (k, c) in " a (Ann)".chars().enumerate() {
        expected[11 + k] = c;
    }
    expected[19] = '─';
    expected[20] = '◉';
    expected[21] = ' ';
    expected[22] = 'b';
    assert_eq!(row_of(&text, 5), expected);

    assert_eq!(row_of(&text, 6)[10], '│');
    assert_eq!(row_of(&text, 7)[10], '│');
    let mut expected = vec![' '; 120];
    expected[0] = '#';
    expected[119] = '#';
    expected[10] = '◉';
    for (k, c) in " c (Unknown)".chars().enumerate() {
        expected[11 + k] = c;
    }
    assert_eq!(row_of(&text, 8), expected);
    assert_eq!(map.label_of(&s("lost"), &players), " lost");
    assert_eq!(map.render_grid(&players)[5][19], '─');
}

#[test]
fn a_label_stops_before_the_border_and_spares_planets() {
    let map = StarMap {
        planets: vec![planet("far_away", None, &[]), planet("x", None, &[])],
        planet_positions: vec![place("far_away", 112, 3), place("x", 115, 3)],
        size: MapSize::Small,
    };
    let text = map.render_full(&Vec::new());
    let row: String = row_of(&text, 3)[110..120].iter().collect();
    assert_eq!(row, "  ◉ f◉ xa#");
}
