//! Scene indexing: the flat scan and the hash grid agree on the set of
//! touching entities when the cells are at least as wide as the
//! interaction distance.

use gembounce::entities::Mine;
use gembounce::level::MineInfo;
use gembounce::physics::SimpleCollidable;
use gembounce::scene::{FlatScene, HashGridScene};
use gembounce::vec2::Vec2;

fn v(x: i64, y: i64) -> Vec2 {
    Vec2 { x, y }
}

fn mines() -> Vec<Mine> {
    vec![
        Mine::new(MineInfo { pos: v(0, 0) }),
        Mine::new(MineInfo { pos: v(10, 10) }),
        Mine::new(MineInfo { pos: v(500, 500) }),
    ]
}

#[test]
fn flat_scene_returns_every_index_in_order() {
    let scene = FlatScene::from_objects(mines());
    assert_eq!(scene.len(), 3);
    assert_eq!(scene.at(v(5_000, 5_000)), vec![0, 1, 2]);
    assert_eq!(scene.at(v(999_000, -999_000)), vec![0, 1, 2]);
}

#[test]
fn grid_scene_returns_the_cell_neighbourhood() {
    // With 50-unit cells, the two mines near the origin share cell (0, 0)
    // and the far one sits in cell (10, 10), out of any neighbourhood of
    // the query's cell.
    let grid = HashGridScene::from_objects(50_000, mines());
    let mut near = grid.at(v(5_000, 5_000));
    near.sort();
    assert_eq!(near, vec![0, 1]);
}

#[test]
fn grid_query_includes_adjacent_cells() {
    // A query just left of a cell boundary still reaches entities on the
    // other side of it.
    let grid = HashGridScene::from_objects(
        50_000,
        vec![Mine::new(MineInfo { pos: v(52, 0) })],
    );
    assert_eq!(grid.at(v(49_000, 0)), vec![0]);
    // Two cells away it is out of reach.
    assert_eq!(grid.at(v(-60_000, 0)), Vec::<usize>::new());
}

#[test]
fn flat_and_grid_agree_on_touching_entities() {
    // Both scenes, filtered by the actual contact test, return the same
    // set; the grid merely returns fewer non-touching candidates.
    let query = v(5_000, 5_000);
    let radius = 14_000;
    let flat = FlatScene::from_objects(mines());
    let grid = HashGridScene::from_objects(50_000, mines());

    let mut flat_touching: Vec<usize> = flat
        .at(query)
        .into_iter()
        .filter(|&i| flat.get(i).test_circle_collision_simple(query, radius))
        .collect();
    let mut grid_touching: Vec<usize> = grid
        .at(query)
        .into_iter()
        .filter(|&i| grid.get(i).test_circle_collision_simple(query, radius))
        .collect();
    flat_touching.sort();
    grid_touching.sort();
    assert_eq!(flat_touching, vec![0, 1]);
    assert_eq!(flat_touching, grid_touching);
}

#[test]
fn grid_handles_negative_coordinates_with_floor_division() {
    // -1 unit lands in cell -1, not cell 0: the grid uses flooring
    // division, so a query far on the negative side still finds it only
    // from adjacent cells.
    let grid = HashGridScene::from_objects(
        50_000,
        vec![Mine::new(MineInfo { pos: v(-1, -1) })],
    );
    assert_eq!(grid.at(v(-30_000, -30_000)), vec![0]);
    assert_eq!(grid.at(v(20_000, 20_000)), vec![0]);
    assert_eq!(grid.at(v(120_000, 20_000)), Vec::<usize>::new());
}

#[test]
fn scene_get_mut_mutates_in_place() {
    let mut scene = FlatScene::from_objects(mines());
    scene.get_mut(1).pos = v(77, 77);
    assert_eq!(scene.get(1).pos, v(77, 77));
    assert_eq!(scene.get(0).pos, v(0, 0));
}
