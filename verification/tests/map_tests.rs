use platformer::map::{
    check_map, check_tileset, load_map, Layer, LayerData, TileMap, TiledObject, Tileset,
    TilesetRef,
};
use platformer::tile::FLIPPED_HORIZONTALLY_FLAG;

fn tileset() -> Tileset {
    Tileset {
        columns: 8,
        image: "tiles.png".to_string(),
        imagewidth: 256,
        imageheight: 64,
        margin: 0,
        spacing: 0,
        name: "tiles".to_string(),
        tilecount: 16,
        tileheight: 32,
        tilewidth: 32,
    }
}

fn map_with(layers: Vec<Layer>) -> TileMap {
    TileMap {
        tilewidth: 32,
        tileheight: 32,
        width: 2,
        height: 2,
        layers,
        tilesets: vec![TilesetRef { firstgid: 1, source: "tiles.json".to_string() }],
    }
}

fn object(x: i64, y: i64, w: i64, h: i64) -> TiledObject {
    TiledObject {
        id: 1,
        name: "wall".to_string(),
        class: String::new(),
        visible: true,
        x,
        y,
        width: w,
        height: h,
        rotation: 0,
    }
}

#[test]
fn grid_layer_emits_one_placement_per_nonzero_cell() {
    let layer = Layer {
        name: "ground".to_string(),
        visible: true,
        data: LayerData::Tiles(vec![0, 5, 0, FLIPPED_HORIZONTALLY_FLAG | 2]),
    };
    let map = map_with(vec![layer]);
    let ts = tileset();
    assert!(check_map(&map));
    assert!(check_tileset(&ts));
    let world = load_map(&map, &ts);
    assert_eq!(world.tiles.len(), 2);
    assert!(world.colliders.is_empty());

    // Cell 1 (column 1, row 0): tile pixel position (32, 0) in milliunits,
    // converted against a 2x2 map.
    let first = &world.tiles[0];
    assert_eq!(first.x, 32_000 - 1_000 + 16_000);
    assert_eq!(first.y, 0 + 1_000 - 16_000);
    assert_eq!(first.sprite.index, 4);
    assert!(!first.sprite.flip_x);
    assert_eq!(first.rotation_degrees, 0);

    // Cell 3 (column 1, row 1) carries a horizontal flip.
    let second = &world.tiles[1];
    assert_eq!(second.x, 32_000 - 1_000 + 16_000);
    assert_eq!(second.y, -32_000 + 1_000 - 16_000);
    assert_eq!(second.sprite.index, 1);
    assert!(second.sprite.flip_x);
}

#[test]
fn last_cell_of_a_full_grid_lands_in_the_last_column_and_row() {
    // A 2x2 grid whose data fills it exactly: the last cell must be placed at
    // column 1, row 1.
    let layer = Layer {
        name: "ground".to_string(),
        visible: true,
        data: LayerData::Tiles(vec![0, 0, 0, 1]),
    };
    let map = map_with(vec![layer]);
    let world = load_map(&map, &tileset());
    assert_eq!(world.tiles.len(), 1);
    let only = &world.tiles[0];
    // Column 1 of 2, row 1 of 2, at 32-unit tiles.
    assert_eq!(only.x, 32_000 - 1_000 + 16_000);
    assert_eq!(only.y, -32_000 + 1_000 - 16_000);
}

#[test]
fn invisible_layers_contribute_nothing() {
    let hidden_tiles = Layer {
        name: "hidden".to_string(),
        visible: false,
        data: LayerData::Tiles(vec![1, 1, 1, 1]),
    };
    let hidden_objects = Layer {
        name: "hidden walls".to_string(),
        visible: false,
        data: LayerData::Objects(vec![object(0, 0, 64_000, 32_000)]),
    };
    let map = map_with(vec![hidden_tiles, hidden_objects]);
    let world = load_map(&map, &tileset());
    assert!(world.tiles.is_empty());
    assert!(world.colliders.is_empty());
}

#[test]
fn object_layer_emits_half_extent_colliders() {
    let layer = Layer {
        name: "walls".to_string(),
        visible: true,
        data: LayerData::Objects(vec![object(0, 32_000, 64_000, 32_000)]),
    };
    let map = map_with(vec![layer]);
    let world = load_map(&map, &tileset());
    assert_eq!(world.colliders.len(), 1);
    let c = &world.colliders[0];
    assert_eq!(c.half_width, 32_000);
    assert_eq!(c.half_height, 16_000);
    assert_eq!(c.x, 0 - 1_000 + 32_000);
    assert_eq!(c.y, -32_000 + 1_000 - 16_000);
}

#[test]
fn check_map_rejects_oversized_grid_data() {
    let layer = Layer {
        name: "ground".to_string(),
        visible: true,
        data: LayerData::Tiles(vec![1, 1, 1, 1, 1]),
    };
    let map = map_with(vec![layer]);
    assert!(!check_map(&map));
}

#[test]
fn check_map_rejects_flag_only_identifiers_and_zero_dimensions() {
    let layer = Layer {
        name: "ground".to_string(),
        visible: true,
        data: LayerData::Tiles(vec![FLIPPED_HORIZONTALLY_FLAG]),
    };
    let map = map_with(vec![layer]);
    assert!(!check_map(&map));

    let mut empty = map_with(vec![]);
    empty.width = 0;
    assert!(!check_map(&empty));
}

#[test]
fn check_tileset_rejects_zero_tile_size() {
    let mut ts = tileset();
    ts.tilewidth = 0;
    assert!(!check_tileset(&ts));
}
