use rustvania::tile::{EntityType, TileType};

#[test]
fn tile_bytes_decode() {
    assert_eq!(TileType::from(0u8), TileType::Empty);
    assert_eq!(TileType::from(1u8), TileType::Wall);
    assert_eq!(TileType::from(2u8), TileType::EnemySpawn);
    assert_eq!(TileType::from(3u8), TileType::BossSpawn);
    assert_eq!(TileType::from(4u8), TileType::Empty);
    assert_eq!(TileType::from(255u8), TileType::Empty);
}

#[test]
fn entity_bytes_decode() {
    assert_eq!(EntityType::from(0u8), EntityType::Empty);
    assert_eq!(EntityType::from(1u8), EntityType::EnemySpawn);
    assert_eq!(EntityType::from(2u8), EntityType::BossSpawn);
    assert_eq!(EntityType::from(3u8), EntityType::PotionSpawn);
    assert_eq!(EntityType::from(9u8), EntityType::Empty);
}

#[test]
fn only_byte_one_is_a_wall() {
    let walls: Vec<u8> = (0u8..=255).filter(|b| TileType::from(*b) == TileType::Wall).collect();
    assert_eq!(walls, vec![1u8]);
}

#[test]
fn bytes_outside_the_codes_are_empty() {
    for b in [0u8, 4, 5, 100, 255] {
        assert_eq!(TileType::from(b), TileType::Empty);
        assert_eq!(EntityType::from(b), EntityType::Empty);
    }
}
