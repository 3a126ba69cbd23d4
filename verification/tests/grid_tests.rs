use termraster::grid::Grid;

#[test]
fn grid_new_fill_test() {
    let g: Grid<char> = Grid::new('.', 4, 3);
    assert_eq!(g.width, 4);
    assert_eq!(g.height, 3);
    for y in 0..3 {
        for x in 0..4 {
            assert_eq!(*g.get(x, y).unwrap(), '.');
        }
    }
}

#[test]
fn grid_set_out_of_range_test() {
    let mut g: Grid<char> = Grid::new('.', 3, 2);
    assert!(!g.set('#', 3, 0));
    assert!(!g.set('#', 0, 2));
    assert!(!g.set('#', 100, 100));
    for y in 0..2 {
        for x in 0..3 {
            assert_eq!(*g.get(x, y).unwrap(), '.');
        }
    }
}

#[test]
fn grid_set_in_range_test() {
    let mut g: Grid<char> = Grid::new('.', 3, 2);
    assert!(g.set('#', 2, 1));
    assert_eq!(*g.get(2, 1).unwrap(), '#');
    assert_eq!(*g.get(1, 1).unwrap(), '.');
}

#[test]
fn grid_get_out_of_range_test() {
    let g: Grid<char> = Grid::new('.', 3, 2);
    assert!(g.get(3, 0).is_none());
    assert!(g.get(0, 2).is_none());
    assert!(g.get(2, 1).is_some());
}

#[test]
fn grid_clear_test() {
    let mut g: Grid<char> = Grid::new('.', 3, 3);
    g.set('#', 1, 1);
    g.set('#', 2, 0);
    g.clear('x');
    for y in 0..3 {
        for x in 0..3 {
            assert_eq!(*g.get(x, y).unwrap(), 'x');
        }
    }
}

#[test]
fn grid_display_test() {
    let mut g: Grid<char> = Grid::new('.', 2, 2);
    g.set('a', 0, 0);
    g.set('b', 1, 0);
    g.set('c', 0, 1);
    assert_eq!(g.display(), "ab\nc.\n");
}

#[test]
fn grid_display_empty_row_test() {
    let g: Grid<char> = Grid::new('#', 3, 1);
    assert_eq!(g.display(), "###\n");
}
