use roast2d::collision_map::TilePos;
use roast2d::resolve::{plan_resolution, Normal, Separation, Sign};
use roast2d::tile_walk::step_tiles;

fn t(x: i32, y: i32) -> TilePos {
    TilePos::new(x, y)
}

#[test]
fn deeper_y_separates_along_x() {
    let p = plan_resolution(true, Sign::Positive, Sign::Negative);
    assert_eq!(p.separation, Separation::AlongX { a_left: true });
    assert_eq!(p.normal_a, Normal { x: -1, y: 0 });
    assert_eq!(p.normal_b, Normal { x: 1, y: 0 });
    let q = plan_resolution(true, Sign::Negative, Sign::Negative);
    assert_eq!(q.separation, Separation::AlongX { a_left: false });
    assert_eq!(q.normal_a, Normal { x: 1, y: 0 });
}

#[test]
fn otherwise_separates_along_y() {
    let p = plan_resolution(false, Sign::Positive, Sign::Positive);
    assert_eq!(p.separation, Separation::AlongY { a_top: true });
    assert_eq!(p.normal_a, Normal { x: 0, y: -1 });
    assert_eq!(p.normal_b, Normal { x: 0, y: 1 });
    let q = plan_resolution(false, Sign::Positive, Sign::Negative);
    assert_eq!(q.separation, Separation::AlongY { a_top: false });
    assert_eq!(q.normal_b, Normal { x: 0, y: -1 });
}

#[test]
fn zero_overlap_moves_nothing() {
    assert_eq!(plan_resolution(true, Sign::Zero, Sign::Positive).separation, Separation::Stay);
    assert_eq!(plan_resolution(false, Sign::Positive, Sign::Zero).separation, Separation::Stay);
}

#[test]
fn swapped_pair_is_mirrored() {
    let p = plan_resolution(false, Sign::Negative, Sign::Positive);
    let q = plan_resolution(false, Sign::Positive, Sign::Negative);
    assert_eq!(p.separation, Separation::AlongY { a_top: true });
    assert_eq!(q.separation, Separation::AlongY { a_top: false });
    assert_eq!(p.normal_a, q.normal_b);
    assert_eq!(p.normal_b, q.normal_a);
}

#[test]
fn new_column_and_row_skip_the_corner_once() {
    let (tiles, last) = step_tiles(t(-16, -16), t(2, 3), 1, -1, 2, 3);
    assert_eq!(tiles, vec![t(2, 3), t(2, 2), t(3, 3), t(4, 3)]);
    assert_eq!(last, t(2, 3));
}

#[test]
fn new_row_only_walks_the_row_from_the_tile() {
    let (tiles, last) = step_tiles(t(2, 3), t(2, 4), -1, 1, 5, 3);
    assert_eq!(tiles, vec![t(2, 4), t(1, 4), t(0, 4)]);
    assert_eq!(last, t(2, 4));
}

#[test]
fn same_tile_tests_nothing() {
    let (tiles, _) = step_tiles(t(7, 7), t(7, 7), 1, 1, 4, 4);
    assert!(tiles.is_empty());
}

#[test]
fn zero_counts_test_nothing() {
    let (tiles, _) = step_tiles(t(0, 0), t(1, 1), 1, 1, 0, 0);
    assert!(tiles.is_empty());
    let (tiles, _) = step_tiles(t(0, 0), t(1, 1), 1, 1, 0, 1);
    assert!(tiles.is_empty());
}
