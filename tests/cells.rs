use minecraft_physics::calc::cells::{cells_in, surrounding_cells, underlying_cells, BlockPos};

fn p(x: i64, y: i64, z: i64) -> BlockPos {
    BlockPos { x, y, z }
}

#[test]
fn cells_in_visits_y_then_z_then_x() {
    let cells = cells_in(p(0, 0, 0), p(1, 1, 1));
    let expected = vec![
        p(0, 0, 0),
        p(1, 0, 0),
        p(0, 0, 1),
        p(1, 0, 1),
        p(0, 1, 0),
        p(1, 1, 0),
        p(0, 1, 1),
        p(1, 1, 1),
    ];
    assert_eq!(cells, expected);
}

#[test]
fn cells_in_restarts_inner_coordinates() {
    let cells = cells_in(p(-1, 5, 3), p(1, 6, 4));
    assert_eq!(cells.len(), 12);
    assert_eq!(cells[3], p(-1, 5, 4));
    assert_eq!(cells[6], p(-1, 6, 3));
    assert_eq!(cells[11], p(1, 6, 4));
}

#[test]
fn cells_in_single_voxel() {
    assert_eq!(cells_in(p(7, -3, 2), p(7, -3, 2)), vec![p(7, -3, 2)]);
}

#[test]
fn cells_in_empty_when_bounds_cross() {
    assert!(cells_in(p(1, 0, 0), p(0, 5, 5)).is_empty());
    assert!(cells_in(p(0, 1, 0), p(5, 0, 5)).is_empty());
    assert!(cells_in(p(0, 0, 1), p(5, 5, 0)).is_empty());
}

#[test]
fn cells_in_extreme_coordinates() {
    let cells = cells_in(p(i64::MAX - 1, i64::MIN, 0), p(i64::MAX, i64::MIN, 0));
    assert_eq!(cells, vec![p(i64::MAX - 1, i64::MIN, 0), p(i64::MAX, i64::MIN, 0)]);
}

#[test]
fn surrounding_cells_add_the_layer_below() {
    let cells = surrounding_cells(p(0, 10, 0), p(0, 11, 0));
    assert_eq!(cells, vec![p(0, 9, 0), p(0, 10, 0), p(0, 11, 0)]);
}

#[test]
fn underlying_cells_are_one_layer() {
    let cells = underlying_cells(p(0, 61, 0), p(1, 62, 1));
    assert_eq!(cells, vec![p(0, 60, 0), p(1, 60, 0), p(0, 60, 1), p(1, 60, 1)]);
}
