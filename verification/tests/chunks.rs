use tilegame::geometry::Vec2i;
use tilegame::tiles::{Category, select_category, Tile, TileChunk, TileDraw};

fn grass_variants() -> Vec<Tile> {
    vec![
        Tile::new(1, "grass1", Vec2i::new(0, 0), Vec2i::new(3, 0), 16),
        Tile::new(2, "grass2", Vec2i::new(0, 0), Vec2i::new(4, 0), 16),
        Tile::new(3, "grass3", Vec2i::new(0, 0), Vec2i::new(5, 0), 16),
    ]
}

fn dirt_variants() -> Vec<Tile> {
    vec![
        Tile::new(10, "dirt0", Vec2i::new(0, 0), Vec2i::new(6, 0), 16),
        Tile::new(11, "dirt1", Vec2i::new(0, 0), Vec2i::new(6, 1), 16),
    ]
}

#[test]
fn category_thresholds() {
    assert_eq!(select_category(-1000), Category::Grass);
    assert_eq!(select_category(-201), Category::Grass);
    assert_eq!(select_category(-200), Category::Grass);
    assert_eq!(select_category(0), Category::Grass);
    assert_eq!(select_category(199), Category::Grass);
    assert_eq!(select_category(200), Category::Dirt);
    assert_eq!(select_category(1000), Category::Dirt);
}

#[test]
fn tile_draw_scales_atlas_cell() {
    let t = Tile::new(12, "dirt2", Vec2i::new(48, 80), Vec2i::new(6, 2), 16);
    assert_eq!(
        t.draw(),
        TileDraw { x: 48, y: 80, source_x: 96, source_y: 32, source_size: 16 }
    );
}

#[test]
fn chunk_new_is_empty() {
    let c = TileChunk::new(Vec2i::new(320, 0), 20, 20, 16);
    assert_eq!(c.tiles.len(), 0);
    assert_eq!(c.width, 20);
    assert_eq!(c.height, 20);
    assert_eq!(c.sprite_size, 16);
    assert_eq!(c.position, Vec2i::new(320, 0));
}

#[test]
fn populate_20_by_20_fills_every_cell() {
    let grass = grass_variants();
    let dirt = dirt_variants();
    let mut chunk = TileChunk::new(Vec2i::new(64, 32), 20, 20, 16);
    // noise alternating well below and well above the dirt threshold
    let mut noise: Vec<i32> = Vec::new();
    for i in 0..400 {
        noise.push(if i % 2 == 0 { -500 } else { 500 });
    }
    chunk.populate(&noise, &grass, &dirt);
    assert_eq!(chunk.tiles.len(), 400);
    for idx in 0..400usize {
        let t = &chunk.tiles[idx];
        let x = (idx % 20) as i64;
        let y = (idx / 20) as i64;
        assert_eq!(t.position, Vec2i::new(x * t.tile_size + 64, y * t.tile_size + 32));
        let list = if noise[idx] < 200 { &grass } else { &dirt };
        assert!(list.iter().any(|v| v.id == t.id
            && v.name == t.name
            && v.tile_pos == t.tile_pos
            && v.tile_size == t.tile_size));
    }
}

#[test]
fn populate_with_single_variants_is_deterministic() {
    let grass = vec![Tile::new(7, "grass7", Vec2i::new(0, 0), Vec2i::new(3, 2), 16)];
    let dirt = vec![Tile::new(12, "dirt2", Vec2i::new(0, 0), Vec2i::new(6, 2), 16)];
    let mut chunk = TileChunk::new(Vec2i::new(0, 0), 3, 2, 16);
    let noise: Vec<i32> = vec![-300, 0, 199, 200, 300, 1000];
    chunk.populate(&noise, &grass, &dirt);
    let ids: Vec<u32> = chunk.tiles.iter().map(|t| t.id).collect();
    assert_eq!(ids, vec![7, 7, 7, 12, 12, 12]);
    let names: Vec<&str> = chunk.tiles.iter().map(|t| t.name).collect();
    assert_eq!(names, vec!["grass7", "grass7", "grass7", "dirt2", "dirt2", "dirt2"]);
    // row-major positions with tile size 16
    assert_eq!(chunk.tiles[4].position, Vec2i::new(16, 16));
    assert_eq!(chunk.tiles[5].position, Vec2i::new(32, 16));
}

#[test]
fn noise_point_ties_phase_to_chunk_origin() {
    let chunk = TileChunk::new(Vec2i::new(320, 640), 20, 20, 16);
    let p = chunk.noise_point(3, 5);
    assert_eq!(p.nx_num, 3 * 20 + 320);
    assert_eq!(p.nx_den, 400);
    assert_eq!(p.ny_num, 5 * 20 + 640);
    assert_eq!(p.ny_den, 400);
}
