use rustvania::level::{Level, SpawnPoint, TileRect};
use rustvania::world::World;
use rustvania::tile::{EntityType, TileType};

fn grid(rows: &[&[u8]]) -> Vec<Vec<TileType>> {
    rows.iter().map(|r| r.iter().map(|b| TileType::from(*b)).collect()).collect()
}

fn layer(rows: &[&[u8]]) -> Vec<Vec<EntityType>> {
    rows.iter().map(|r| r.iter().map(|b| EntityType::from(*b)).collect()).collect()
}

fn room() -> Level {
    // 4 columns, 3 rows; walls at (1,0) and (3,2)
    Level::new(grid(&[&[0, 1, 0, 0], &[0, 0, 0, 0], &[0, 0, 0, 1]]), vec![])
}

fn rect(x_start: i32, x_end: i32, y_start: i32, y_end: i32) -> TileRect {
    TileRect { x_start, x_end, y_start, y_end }
}

#[test]
fn new_measures_the_grid() {
    let l = room();
    assert_eq!(l.width, 4);
    assert_eq!(l.height, 3);
    assert_eq!(l.grid.len(), 3);
}

#[test]
fn new_of_empty_grid_is_zero_sized() {
    let l = Level::new(vec![], vec![]);
    assert_eq!(l.width, 0);
    assert_eq!(l.height, 0);
}

#[test]
fn new_takes_width_from_first_row() {
    let l = Level::new(grid(&[&[0, 0], &[0, 0, 0, 0]]), vec![]);
    assert_eq!(l.width, 2);
    assert_eq!(l.height, 2);
}

#[test]
fn solid_point_inside_the_room() {
    let l = room();
    assert!(l.solid_point(1, 0));
    assert!(l.solid_point(3, 2));
    assert!(!l.solid_point(0, 0));
    assert!(!l.solid_point(2, 1));
}

#[test]
fn solid_point_outside_the_room_is_solid() {
    let l = room();
    assert!(l.solid_point(4, 0));
    assert!(l.solid_point(0, 3));
    assert!(l.solid_point(usize::MAX, usize::MAX));
    let empty = Level::new(vec![], vec![]);
    assert!(empty.solid_point(0, 0));
}

#[test]
fn colision_is_any_probe_solid() {
    let l = room();
    assert!(!l.colision(&[(0, 0), (2, 1), (0, 2)]));
    assert!(l.colision(&[(0, 0), (1, 0)]));
    assert!(l.colision(&[(7, 1)]));
    assert!(!l.colision(&[]));
}

#[test]
fn solid_in_rect_finds_walls() {
    let l = room();
    assert!(l.solid_in_rect(rect(0, 1, 0, 0)));
    assert!(!l.solid_in_rect(rect(0, 0, 0, 2)));
    assert!(!l.solid_in_rect(rect(2, 3, 0, 1)));
    assert!(l.solid_in_rect(rect(2, 3, 0, 2)));
    assert!(l.solid_in_rect(rect(3, 3, 2, 2)));
}

#[test]
fn solid_in_rect_ignores_cells_outside() {
    let l = room();
    assert!(!l.solid_in_rect(rect(-5, -1, 0, 2)));
    assert!(!l.solid_in_rect(rect(4, 10, 0, 2)));
    assert!(!l.solid_in_rect(rect(0, 3, 3, 9)));
    assert!(!l.solid_in_rect(rect(-3, 0, -3, 1)));
    assert!(l.solid_in_rect(rect(-3, 1, -3, 0)));
}

#[test]
fn solid_in_rect_with_extreme_bounds() {
    let l = room();
    assert!(l.solid_in_rect(rect(i32::MIN, i32::MAX, i32::MIN, i32::MAX)));
    assert!(!l.solid_in_rect(rect(i32::MAX, i32::MAX, i32::MIN, i32::MAX)));
}

#[test]
fn solid_in_rect_empty_range() {
    let l = room();
    assert!(!l.solid_in_rect(rect(3, 0, 0, 2)));
    assert!(!l.solid_in_rect(rect(0, 3, 2, 0)));
}

#[test]
fn enlarging_a_range_keeps_the_wall() {
    let l = room();
    let small = rect(1, 1, 0, 0);
    let big = rect(0, 2, -1, 1);
    assert!(l.solid_in_rect(small));
    assert!(l.solid_in_rect(big));
}

#[test]
fn spawn_points_in_row_major_order() {
    let l = Level::new(
        grid(&[&[0, 0, 0], &[0, 0, 0]]),
        layer(&[&[0, 3, 1], &[2, 1, 0]]),
    );
    let spawns = World::spawn_entities(&l);
    assert_eq!(
        spawns,
        vec![
            SpawnPoint { x: 1, y: 0, kind: EntityType::PotionSpawn },
            SpawnPoint { x: 2, y: 0, kind: EntityType::EnemySpawn },
            SpawnPoint { x: 1, y: 1, kind: EntityType::EnemySpawn },
        ]
    );
}

#[test]
fn spawn_points_follow_ragged_rows() {
    let l = Level::new(vec![], layer(&[&[], &[0, 0, 0, 1], &[1]]));
    let spawns = World::spawn_entities(&l);
    assert_eq!(
        spawns,
        vec![
            SpawnPoint { x: 3, y: 1, kind: EntityType::EnemySpawn },
            SpawnPoint { x: 0, y: 2, kind: EntityType::EnemySpawn },
        ]
    );
}

#[test]
fn bosses_do_not_spawn() {
    let l = Level::new(vec![], layer(&[&[2, 2, 0]]));
    assert!(World::spawn_entities(&l).is_empty());
}
