//! Level model and map loader. A parsed level description (tile grid layers
//! and free-form object layers) and its first tileset description are turned
//! into world-space tile placements and static colliders. Grid cells are
//! consumed in row-major order; all emitted geometry goes through the one
//! coordinate conversion in `coords`.

use vstd::prelude::*;
use vstd::arithmetic::div_mod::lemma_fundamental_div_mod_converse;
use crate::coords::{COORD_LIMIT, in_coord_range, spec_tiled_to_world_x, spec_tiled_to_world_y,
    tiled_to_world_coord};
use crate::physics::{Aabb, aabb_wf};
use crate::tile::{TileSprite, create_tile, flag_h, flag_v, spec_atlas_index, spec_tile_rotation,
    tile_index_field, tile_rotation};

verus! {

/// Largest accepted grid dimension, in tiles.
pub const MAX_MAP_DIM: u32 = 100_000;

/// Largest accepted tile edge, in pixels.
pub const MAX_TILE_DIM: u32 = 65_535;

/// Reference from a level description to a tileset description.
#[derive(Clone, Debug)]
pub struct TilesetRef {
    pub firstgid: u32,
    pub source: String,
}

/// Free-form rectangle of an object layer: top-left position and extents in
/// milliunits. The rotation is carried through unused by the physics core.
#[derive(Clone, Debug)]
pub struct TiledObject {
    pub id: u32,
    pub name: String,
    pub class: String,
    pub visible: bool,
    pub x: i64,
    pub y: i64,
    pub width: i64,
    pub height: i64,
    pub rotation: i64,
}

/// Payload of a layer: a row-major grid of raw tile identifiers (0 marks an
/// empty cell), or a list of free-form objects.
#[derive(Clone, Debug)]
pub enum LayerData {
    Tiles(Vec<u32>),
    Objects(Vec<TiledObject>),
}

/// One layer of a level.
#[derive(Clone, Debug)]
pub struct Layer {
    pub name: String,
    pub visible: bool,
    pub data: LayerData,
}

/// A parsed level description.
#[derive(Clone, Debug)]
pub struct TileMap {
    pub tilewidth: u32,
    pub tileheight: u32,
    pub width: u32,
    pub height: u32,
    pub layers: Vec<Layer>,
    pub tilesets: Vec<TilesetRef>,
}

/// A parsed tileset description.
#[derive(Clone, Debug)]
pub struct Tileset {
    pub columns: u32,
    pub image: String,
    pub imagewidth: u32,
    pub imageheight: u32,
    pub margin: u32,
    pub spacing: u32,
    pub name: String,
    pub tilecount: u32,
    pub tileheight: u32,
    pub tilewidth: u32,
}

/// One drawable tile: world-space center, rotation in degrees, and atlas
/// sprite state.
#[derive(Clone, Copy, PartialEq, Eq, Structural, Debug)]
pub struct TilePlacement {
    pub x: i64,
    pub y: i64,
    pub rotation_degrees: i32,
    pub sprite: TileSprite,
}

/// Everything the loader emits: drawable tiles and static colliders.
#[derive(Clone, Debug)]
pub struct LoadedMap {
    pub tiles: Vec<TilePlacement>,
    pub colliders: Vec<Aabb>,
}

impl TiledObject {
    /// Whether the object's position and extents are small enough for the
    /// coordinate conversion.
    pub open spec fn wf(self) -> bool {
        &&& in_coord_range(self.x as int)
        &&& in_coord_range(self.y as int)
        &&& 0 <= self.width <= COORD_LIMIT
        &&& 0 <= self.height <= COORD_LIMIT
    }
}

/// Whether every raw identifier of a grid is either 0 (an empty cell) or
/// carries a nonzero index field, so that decoding it cannot underflow.
pub open spec fn grid_cells_ok(d: Seq<u32>) -> bool {
    forall|k: int| 0 <= k < d.len() ==> (#[trigger] d[k] == 0 || tile_index_field(d[k]) >= 1)
}

/// Whether every object of a layer sits within coordinate range.
pub open spec fn objects_ok(objs: Seq<TiledObject>) -> bool {
    forall|k: int| 0 <= k < objs.len() ==> (#[trigger] objs[k]).wf()
}

impl Layer {
    /// Whether a layer fits a grid of `cells` cells: a tile grid holds at
    /// most that many identifiers, each either 0 (empty) or carrying a
    /// nonzero index field; objects sit within coordinate range.
    pub open spec fn wf(self, cells: int) -> bool {
        match self.data {
            LayerData::Tiles(d) => d@.len() <= cells && grid_cells_ok(d@),
            LayerData::Objects(objs) => objects_ok(objs@),
        }
    }
}

impl TileMap {
    /// Whether the level is well-formed: positive grid dimensions within
    /// bounds, and every layer fitting the grid.
    pub open spec fn wf(self) -> bool {
        &&& 1 <= self.width <= MAX_MAP_DIM
        &&& 1 <= self.height <= MAX_MAP_DIM
        &&& forall|i: int| 0 <= i < self.layers@.len() ==> (#[trigger] self.layers@[i]).wf(
            self.width as int * self.height as int)
    }
}

impl Tileset {
    /// Whether the tileset's tile dimensions are positive and within bounds,
    /// with at least one atlas column.
    pub open spec fn wf(self) -> bool {
        &&& 1 <= self.tilewidth <= MAX_TILE_DIM
        &&& 1 <= self.tileheight <= MAX_TILE_DIM
        &&& 1 <= self.columns
    }
}

/// Column of the cell at row-major position `i` on a grid `map_width` wide.
pub open spec fn cell_col(i: int, map_width: int) -> int {
    i % map_width
}

/// Row of the cell at row-major position `i` on a grid `map_width` wide.
pub open spec fn cell_row(i: int, map_width: int) -> int {
    i / map_width
}

/// Law: in the row-major traversal of a grid `width` cells wide and `height`
/// cells tall, the cell at position `width * height - 1` — the last cell
/// consumed from a layer whose data fills the grid exactly — falls in the
/// last column and the last row.
pub proof fn lemma_grid_traversal_last_cell(width: int, height: int)
    requires
        1 <= width,
        1 <= height,
    ensures
        cell_col(width * height - 1, width) == width - 1,
        cell_row(width * height - 1, width) == height - 1,
{
    assert(width * height - 1 == (height - 1) * width + (width - 1)) by (nonlinear_arith);
    lemma_fundamental_div_mod_converse(width * height - 1, width, height - 1, width - 1);
}

/// The drawable tile emitted for the nonzero raw identifier `raw` at
/// row-major position `i`: its grid cell's pixel position converted to a
/// world-space center, with the rotation and sprite state decoded from `raw`.
/// Tile edges `tw`, `th` are in pixels; `mw`, `mh` are the grid dimensions in
/// tiles.
pub open spec fn spec_tile_placement(raw: u32, i: int, tw: int, th: int, mw: int, mh: int) -> TilePlacement {
    TilePlacement {
        x: spec_tiled_to_world_x(cell_col(i, mw) * tw * 1000, tw * 1000, mw * 1000) as i64,
        y: spec_tiled_to_world_y(cell_row(i, mw) * th * 1000, th * 1000, mh * 1000) as i64,
        rotation_degrees: spec_tile_rotation(raw),
        sprite: TileSprite {
            index: spec_atlas_index(raw),
            flip_x: flag_h(raw),
            flip_y: flag_v(raw),
        },
    }
}

/// The drawable tiles of one grid layer, in row-major order, one per nonzero
/// cell.
pub open spec fn spec_tile_placements(data: Seq<u32>, tw: int, th: int, mw: int, mh: int) -> Seq<TilePlacement>
    decreases data.len(),
{
    if data.len() == 0 {
        Seq::empty()
    } else {
        spec_tile_placements(data.drop_last(), tw, th, mw, mh) + if data.last() == 0 {
            Seq::empty()
        } else {
            seq![spec_tile_placement(data.last(), data.len() - 1, tw, th, mw, mh)]
        }
    }
}

/// The static collider emitted for one object: its top-left position
/// converted to a world-space center, with half the object's extents as
/// half-extents.
pub open spec fn spec_object_collider(o: TiledObject, mw: int, mh: int) -> Aabb {
    Aabb {
        x: spec_tiled_to_world_x(o.x as int, o.width as int, mw * 1000) as i64,
        y: spec_tiled_to_world_y(o.y as int, o.height as int, mh * 1000) as i64,
        half_width: (o.width / 2) as i64,
        half_height: (o.height / 2) as i64,
    }
}

/// The static colliders of one object layer, in object order.
pub open spec fn spec_object_colliders(objs: Seq<TiledObject>, mw: int, mh: int) -> Seq<Aabb>
    decreases objs.len(),
{
    if objs.len() == 0 {
        Seq::empty()
    } else {
        spec_object_colliders(objs.drop_last(), mw, mh)
            + seq![spec_object_collider(objs.last(), mw, mh)]
    }
}

/// The drawable tiles a layer contributes: none unless it is a visible grid
/// layer.
pub open spec fn spec_layer_tiles(layer: Layer, tw: int, th: int, mw: int, mh: int) -> Seq<TilePlacement> {
    if layer.visible {
        match layer.data {
            LayerData::Tiles(d) => spec_tile_placements(d@, tw, th, mw, mh),
            LayerData::Objects(_) => Seq::empty(),
        }
    } else {
        Seq::empty()
    }
}

/// The static colliders a layer contributes: none unless it is a visible
/// object layer.
pub open spec fn spec_layer_colliders(layer: Layer, mw: int, mh: int) -> Seq<Aabb> {
    if layer.visible {
        match layer.data {
            LayerData::Tiles(_) => Seq::empty(),
            LayerData::Objects(objs) => spec_object_colliders(objs@, mw, mh),
        }
    } else {
        Seq::empty()
    }
}

/// The drawable tiles of a whole level, layers in order.
pub open spec fn spec_map_tiles(layers: Seq<Layer>, tw: int, th: int, mw: int, mh: int) -> Seq<TilePlacement>
    decreases layers.len(),
{
    if layers.len() == 0 {
        Seq::empty()
    } else {
        spec_map_tiles(layers.drop_last(), tw, th, mw, mh)
            + spec_layer_tiles(layers.last(), tw, th, mw, mh)
    }
}

/// The static colliders of a whole level, layers in order.
pub open spec fn spec_map_colliders(layers: Seq<Layer>, mw: int, mh: int) -> Seq<Aabb>
    decreases layers.len(),
{
    if layers.len() == 0 {
        Seq::empty()
    } else {
        spec_map_colliders(layers.drop_last(), mw, mh)
            + spec_layer_colliders(layers.last(), mw, mh)
    }
}

/// Consume one grid layer in row-major order, appending a drawable tile per
/// nonzero cell. The column counter wraps and the row advances at the start
/// of each cell, before the cell is tested for emptiness, so an all-empty
/// trailing row still advances the row counter.
fn process_tile_layer(data: &Vec<u32>, tile_w: u32, tile_h: u32, map_w: u32, map_h: u32, tiles: &mut Vec<TilePlacement>)
    requires
        1 <= map_w <= MAX_MAP_DIM,
        1 <= map_h <= MAX_MAP_DIM,
        1 <= tile_w <= MAX_TILE_DIM,
        1 <= tile_h <= MAX_TILE_DIM,
        data@.len() <= map_w as int * map_h as int,
        grid_cells_ok(data@),
    ensures
        final(tiles)@ == old(tiles)@ + spec_tile_placements(data@, tile_w as int, tile_h as int,
            map_w as int, map_h as int),
{
    let ghost tw = tile_w as int;
    let ghost th = tile_h as int;
    let ghost mw = map_w as int;
    let ghost mh = map_h as int;
    let mut curr_col: u64 = 0;
    let mut curr_row: u64 = 0;
    let mut j: usize = 0;
    while j < data.len()
        invariant
            0 <= j <= data@.len(),
            data@.len() <= mw * mh,
            1 <= map_w <= MAX_MAP_DIM,
            1 <= map_h <= MAX_MAP_DIM,
            1 <= tile_w <= MAX_TILE_DIM,
            1 <= tile_h <= MAX_TILE_DIM,
            tw == tile_w as int && th == tile_h as int && mw == map_w as int && mh == map_h as int,
            grid_cells_ok(data@),
            0 <= curr_col <= mw,
            0 <= curr_row,
            curr_row as int * mw + curr_col as int == j as int,
            tiles@ == old(tiles)@ + spec_tile_placements(data@.take(j as int), tw, th, mw, mh),
        decreases data@.len() - j,
    {
        if curr_col >= map_w as u64 {
            proof {
                assert((curr_row as int + 1) * mw == curr_row as int * mw + mw)
                    by (nonlinear_arith);
                assert(curr_row < 100_000) by (nonlinear_arith)
                    requires
                        curr_row as int * mw + mw <= mw * mh,
                        1 <= mw,
                        1 <= mh <= 100_000,
                        0 <= curr_row,
                ;
            }
            curr_row = curr_row + 1;
            curr_col = 0;
        }
        proof {
            assert(curr_row as int * mw + curr_col as int == j as int);
            assert(curr_col < mw);
            assert(curr_row < mh) by (nonlinear_arith)
                requires
                    curr_row as int * mw + curr_col as int == j as int,
                    j < mw * mh,
                    0 <= curr_col,
                    1 <= mw,
                    0 <= curr_row,
            ;
            lemma_fundamental_div_mod_converse(j as int, mw, curr_row as int, curr_col as int);
        }
        let raw = data[j];
        if raw != 0 {
            let sprite = create_tile(raw);
            let rotation_degrees = tile_rotation(raw);
            proof {
                assert(0 <= curr_col as int * tw * 1000 <= COORD_LIMIT) by (nonlinear_arith)
                    requires
                        0 <= curr_col < 100_000,
                        1 <= tw <= 65_535,
                ;
                assert(0 <= curr_row as int * th * 1000 <= COORD_LIMIT) by (nonlinear_arith)
                    requires
                        0 <= curr_row < 100_000,
                        1 <= th <= 65_535,
                ;
            }
            let src_x = (curr_col as i64) * (tile_w as i64) * 1000;
            let src_y = (curr_row as i64) * (tile_h as i64) * 1000;
            let world = tiled_to_world_coord(src_x, src_y, (tile_w as i64) * 1000,
                (tile_h as i64) * 1000, (map_w as i64) * 1000, (map_h as i64) * 1000);
            tiles.push(TilePlacement { x: world.0, y: world.1, rotation_degrees, sprite });
        }
        proof {
            assert(data@.take(j as int + 1).drop_last() =~= data@.take(j as int));
            assert(data@.take(j as int + 1).last() == data@[j as int]);
        }
        curr_col = curr_col + 1;
        j = j + 1;
    }
    proof {
        assert(data@.take(data@.len() as int) =~= data@);
    }
}

/// Convert one object layer into static colliders, one per object.
fn process_object_layer(objects: &Vec<TiledObject>, map_w: u32, map_h: u32, colliders: &mut Vec<Aabb>)
    requires
        1 <= map_w <= MAX_MAP_DIM,
        1 <= map_h <= MAX_MAP_DIM,
        objects_ok(objects@),
        forall|k: int| 0 <= k < old(colliders)@.len() ==> aabb_wf(#[trigger] old(colliders)@[k]),
    ensures
        final(colliders)@ == old(colliders)@ + spec_object_colliders(objects@, map_w as int,
            map_h as int),
        forall|k: int| 0 <= k < final(colliders)@.len() ==> aabb_wf(#[trigger] final(colliders)@[k]),
{
    let ghost mw = map_w as int;
    let ghost mh = map_h as int;
    let mut j: usize = 0;
    while j < objects.len()
        invariant
            0 <= j <= objects@.len(),
            1 <= map_w <= MAX_MAP_DIM,
            1 <= map_h <= MAX_MAP_DIM,
            mw == map_w as int && mh == map_h as int,
            objects_ok(objects@),
            colliders@ == old(colliders)@ + spec_object_colliders(objects@.take(j as int), mw, mh),
            forall|k: int| 0 <= k < colliders@.len() ==> aabb_wf(#[trigger] colliders@[k]),
        decreases objects@.len() - j,
    {
        let o = &objects[j];
        let world = tiled_to_world_coord(o.x, o.y, o.width, o.height, (map_w as i64) * 1000,
            (map_h as i64) * 1000);
        colliders.push(Aabb {
            x: world.0,
            y: world.1,
            half_width: o.width / 2,
            half_height: o.height / 2,
        });
        proof {
            assert(objects@.take(j as int + 1).drop_last() =~= objects@.take(j as int));
            assert(objects@.take(j as int + 1).last() == objects@[j as int]);
        }
        j = j + 1;
    }
    proof {
        assert(objects@.take(objects@.len() as int) =~= objects@);
    }
}

/// Build the world from a parsed level and its first tileset: one drawable
/// tile per nonzero cell of each visible grid layer, placed on the tileset's
/// tile size, and one static collider per object of each visible object
/// layer. Layers of any other kind, and invisible layers, contribute nothing.
pub fn load_map(map: &TileMap, tileset: &Tileset) -> (world: LoadedMap)
    requires
        map.wf(),
        tileset.wf(),
    ensures
        world.tiles@ == spec_map_tiles(map.layers@, tileset.tilewidth as int,
            tileset.tileheight as int, map.width as int, map.height as int),
        world.colliders@ == spec_map_colliders(map.layers@, map.width as int, map.height as int),
        forall|k: int| 0 <= k < world.colliders@.len() ==> aabb_wf(#[trigger] world.colliders@[k]),
{
    let ghost tw = tileset.tilewidth as int;
    let ghost th = tileset.tileheight as int;
    let ghost mw = map.width as int;
    let ghost mh = map.height as int;
    let mut tiles: Vec<TilePlacement> = Vec::new();
    let mut colliders: Vec<Aabb> = Vec::new();
    let mut li: usize = 0;
    while li < map.layers.len()
        invariant
            0 <= li <= map.layers@.len(),
            map.wf(),
            tileset.wf(),
            tw == tileset.tilewidth as int && th == tileset.tileheight as int,
            mw == map.width as int && mh == map.height as int,
            tiles@ == spec_map_tiles(map.layers@.take(li as int), tw, th, mw, mh),
            colliders@ == spec_map_colliders(map.layers@.take(li as int), mw, mh),
            forall|k: int| 0 <= k < colliders@.len() ==> aabb_wf(#[trigger] colliders@[k]),
        decreases map.layers@.len() - li,
    {
        let layer = &map.layers[li];
        assert(map.layers@[li as int].wf(mw * mh));
        if layer.visible {
            match &layer.data {
                LayerData::Tiles(d) => {
                    process_tile_layer(d, tileset.tilewidth, tileset.tileheight, map.width,
                        map.height, &mut tiles);
                },
                LayerData::Objects(objs) => {
                    process_object_layer(objs, map.width, map.height, &mut colliders);
                },
            }
        }
        proof {
            assert(map.layers@.take(li as int + 1).drop_last() =~= map.layers@.take(li as int));
            assert(map.layers@.take(li as int + 1).last() == map.layers@[li as int]);
        }
        li = li + 1;
    }
    proof {
        assert(map.layers@.take(map.layers@.len() as int) =~= map.layers@);
    }
    LoadedMap { tiles, colliders }
}

/// Test every raw identifier of a grid for the empty-or-nonzero-index rule.
fn check_grid_cells(d: &Vec<u32>) -> (ok: bool)
    ensures
        ok == grid_cells_ok(d@),
{
    let mut k: usize = 0;
    while k < d.len()
        invariant
            0 <= k <= d@.len(),
            forall|k2: int| 0 <= k2 < k ==> (#[trigger] d@[k2] == 0
                || tile_index_field(d@[k2]) >= 1),
        decreases d@.len() - k,
    {
        let raw = d[k];
        if raw != 0 && raw & crate::tile::TILE_INDEX_MASK == 0 {
            return false;
        }
        k = k + 1;
    }
    true
}

/// Test every object of a layer for coordinate range.
fn check_objects(objs: &Vec<TiledObject>) -> (ok: bool)
    ensures
        ok == objects_ok(objs@),
{
    let mut k: usize = 0;
    while k < objs.len()
        invariant
            0 <= k <= objs@.len(),
            forall|k2: int| 0 <= k2 < k ==> (#[trigger] objs@[k2]).wf(),
        decreases objs@.len() - k,
    {
        let o = &objs[k];
        if !(-COORD_LIMIT <= o.x && o.x <= COORD_LIMIT && -COORD_LIMIT <= o.y && o.y
            <= COORD_LIMIT && 0 <= o.width && o.width <= COORD_LIMIT && 0 <= o.height
            && o.height <= COORD_LIMIT) {
            return false;
        }
        k = k + 1;
    }
    true
}

/// Test one layer against a grid of `cells` cells.
fn check_layer(layer: &Layer, cells: u64) -> (ok: bool)
    ensures
        ok == layer.wf(cells as int),
{
    match &layer.data {
        LayerData::Tiles(d) => d.len() as u64 <= cells && check_grid_cells(d),
        LayerData::Objects(objs) => check_objects(objs),
    }
}

/// Test a parsed level for well-formedness, so that an unverified caller can
/// guard `load_map`'s precondition and abort the load on malformed content.
pub fn check_map(map: &TileMap) -> (ok: bool)
    ensures
        ok == map.wf(),
{
    if !(1 <= map.width && map.width <= MAX_MAP_DIM && 1 <= map.height
        && map.height <= MAX_MAP_DIM) {
        return false;
    }
    proof {
        assert(map.width as int * map.height as int <= 10_000_000_000) by (nonlinear_arith)
            requires
                1 <= map.width <= 100_000,
                1 <= map.height <= 100_000,
        ;
    }
    let cells: u64 = (map.width as u64) * (map.height as u64);
    let mut li: usize = 0;
    while li < map.layers.len()
        invariant
            0 <= li <= map.layers@.len(),
            1 <= map.width <= MAX_MAP_DIM,
            1 <= map.height <= MAX_MAP_DIM,
            cells == map.width as int * map.height as int,
            forall|i: int| 0 <= i < li ==> (#[trigger] map.layers@[i]).wf(
                map.width as int * map.height as int),
        decreases map.layers@.len() - li,
    {
        let layer = &map.layers[li];
        if !check_layer(layer, cells) {
            return false;
        }
        li = li + 1;
    }
    true
}

/// Test a parsed tileset for well-formedness, guarding `load_map`'s
/// precondition for unverified callers.
pub fn check_tileset(tileset: &Tileset) -> (ok: bool)
    ensures
        ok == tileset.wf(),
{
    1 <= tileset.tilewidth && tileset.tilewidth <= MAX_TILE_DIM && 1 <= tileset.tileheight
        && tileset.tileheight <= MAX_TILE_DIM && 1 <= tileset.columns
}

} // verus!
