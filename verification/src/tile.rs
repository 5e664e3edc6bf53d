//! Tile format decoder: a raw 32-bit tile identifier packs three orientation
//! flags in its high bits and a one-based atlas index in its low 28 bits.
//! Identifier 0 means "empty cell" and must be filtered out by the caller
//! before decoding.

use vstd::prelude::*;

verus! {

/// Bit 31 of a raw tile identifier: draw the tile mirrored horizontally.
pub const FLIPPED_HORIZONTALLY_FLAG: u32 = 0x8000_0000;
/// Bit 30 of a raw tile identifier: draw the tile mirrored vertically.
pub const FLIPPED_VERTICALLY_FLAG: u32 = 0x4000_0000;
/// Bit 29 of a raw tile identifier: draw the tile mirrored along the
/// anti-diagonal.
pub const FLIPPED_DIAGONALLY_FLAG: u32 = 0x2000_0000;
/// Bit 28 of a raw tile identifier: reserved for hexagonal maps; ignored.
pub const ROTATED_HEXAGONAL_120_FLAG: u32 = 0x1000_0000;
/// The low 28 bits of a raw tile identifier: the atlas index plus one.
pub const TILE_INDEX_MASK: u32 = 0x0FFF_FFFF;

/// The horizontal-flip flag of a raw tile identifier.
pub open spec fn flag_h(raw: u32) -> bool {
    raw & FLIPPED_HORIZONTALLY_FLAG != 0
}

/// The vertical-flip flag of a raw tile identifier.
pub open spec fn flag_v(raw: u32) -> bool {
    raw & FLIPPED_VERTICALLY_FLAG != 0
}

/// The anti-diagonal-flip flag of a raw tile identifier.
pub open spec fn flag_d(raw: u32) -> bool {
    raw & FLIPPED_DIAGONALLY_FLAG != 0
}

/// The one-based index field of a raw tile identifier (flag bits cleared).
pub open spec fn tile_index_field(raw: u32) -> u32 {
    raw & TILE_INDEX_MASK
}

/// The zero-based atlas index of a raw tile identifier with a nonzero index
/// field.
pub open spec fn spec_atlas_index(raw: u32) -> u32
    recommends
        tile_index_field(raw) >= 1,
{
    (tile_index_field(raw) - 1) as u32
}

/// Rotation, in degrees, called for by the orientation flags: anti-diagonal
/// together with horizontal flip rotates +90, anti-diagonal together with
/// vertical flip (and no horizontal flip) rotates -90, every other
/// combination rotates 0.
pub open spec fn spec_tile_rotation(raw: u32) -> i32 {
    if flag_d(raw) && flag_h(raw) {
        90
    } else if flag_d(raw) && flag_v(raw) {
        -90i32
    } else {
        0
    }
}

/// Rotation in degrees that a tile must be drawn with, from the orientation
/// flags of its raw identifier.
pub fn tile_rotation(raw_tile_id: u32) -> (r: i32)
    ensures
        r == spec_tile_rotation(raw_tile_id),
{
    let horizontal_flip = (raw_tile_id & FLIPPED_HORIZONTALLY_FLAG) != 0;
    let vertical_flip = (raw_tile_id & FLIPPED_VERTICALLY_FLAG) != 0;
    let anti_diag_flip = (raw_tile_id & FLIPPED_DIAGONALLY_FLAG) != 0;
    if anti_diag_flip && horizontal_flip {
        90
    } else if anti_diag_flip && vertical_flip {
        -90
    } else {
        0
    }
}

/// Drawing state of one tile: zero-based atlas index and mirror flags.
#[derive(Clone, Copy, PartialEq, Eq, Structural, Debug)]
pub struct TileSprite {
    pub index: u32,
    pub flip_x: bool,
    pub flip_y: bool,
}

/// Decode a raw tile identifier into its atlas index and mirror flags. The
/// caller guards against an empty index field, which has no atlas slot.
pub fn create_tile(raw_tile_id: u32) -> (t: TileSprite)
    requires
        tile_index_field(raw_tile_id) >= 1,
    ensures
        t.index == spec_atlas_index(raw_tile_id),
        t.flip_x == flag_h(raw_tile_id),
        t.flip_y == flag_v(raw_tile_id),
{
    let horizontal_flip = (raw_tile_id & FLIPPED_HORIZONTALLY_FLAG) != 0;
    let vertical_flip = (raw_tile_id & FLIPPED_VERTICALLY_FLAG) != 0;
    // Clear all four flag bits to recover the one-based index field.
    let actual_index: u32 = raw_tile_id & !(FLIPPED_HORIZONTALLY_FLAG
        | FLIPPED_VERTICALLY_FLAG | FLIPPED_DIAGONALLY_FLAG | ROTATED_HEXAGONAL_120_FLAG);
    assert(raw_tile_id & !(FLIPPED_HORIZONTALLY_FLAG | FLIPPED_VERTICALLY_FLAG
        | FLIPPED_DIAGONALLY_FLAG | ROTATED_HEXAGONAL_120_FLAG)
        == raw_tile_id & TILE_INDEX_MASK) by (bit_vector);
    TileSprite { index: actual_index - 1, flip_x: horizontal_flip, flip_y: vertical_flip }
}

/// The raw identifier that carries atlas index `atlas_index` under the given
/// mirror flags: the one-based index field with the chosen flag bits set.
pub open spec fn spec_encode_tile_id(atlas_index: u32, flip_h: bool, flip_v: bool, flip_d: bool) -> u32
    recommends
        atlas_index < TILE_INDEX_MASK,
{
    (((atlas_index + 1) as u32)) | (if flip_h { FLIPPED_HORIZONTALLY_FLAG } else { 0 })
        | (if flip_v { FLIPPED_VERTICALLY_FLAG } else { 0 })
        | (if flip_d { FLIPPED_DIAGONALLY_FLAG } else { 0 })
}

/// Build the raw identifier for an atlas index and orientation flags.
pub fn encode_tile_id(atlas_index: u32, flip_h: bool, flip_v: bool, flip_d: bool) -> (r: u32)
    requires
        atlas_index < TILE_INDEX_MASK,
    ensures
        r == spec_encode_tile_id(atlas_index, flip_h, flip_v, flip_d),
{
    (atlas_index + 1) | (if flip_h { FLIPPED_HORIZONTALLY_FLAG } else { 0 })
        | (if flip_v { FLIPPED_VERTICALLY_FLAG } else { 0 })
        | (if flip_d { FLIPPED_DIAGONALLY_FLAG } else { 0 })
}

/// Law: decoding a raw identifier whose reserved bit is clear and whose index
/// field is nonzero, then re-encoding the decoded atlas index under the same
/// three orientation flags, reproduces the original identifier.
pub proof fn lemma_tile_id_round_trip(raw: u32)
    requires
        tile_index_field(raw) >= 1,
        raw & ROTATED_HEXAGONAL_120_FLAG == 0,
    ensures
        spec_encode_tile_id(spec_atlas_index(raw), flag_h(raw), flag_v(raw), flag_d(raw)) == raw,
{
    assert(spec_encode_tile_id(spec_atlas_index(raw), flag_h(raw), flag_v(raw), flag_d(raw))
        == raw) by (bit_vector)
        requires
            raw & 0x0FFF_FFFFu32 >= 1,
            raw & 0x1000_0000u32 == 0,
    ;
}

/// Law: encoding an atlas index under any orientation flags and decoding the
/// result recovers the same index and flags; the reserved bit stays clear.
pub proof fn lemma_tile_id_decode_encode(atlas_index: u32, flip_h: bool, flip_v: bool, flip_d: bool)
    requires
        atlas_index < TILE_INDEX_MASK,
    ensures
        spec_atlas_index(spec_encode_tile_id(atlas_index, flip_h, flip_v, flip_d)) == atlas_index,
        flag_h(spec_encode_tile_id(atlas_index, flip_h, flip_v, flip_d)) == flip_h,
        flag_v(spec_encode_tile_id(atlas_index, flip_h, flip_v, flip_d)) == flip_v,
        flag_d(spec_encode_tile_id(atlas_index, flip_h, flip_v, flip_d)) == flip_d,
        spec_encode_tile_id(atlas_index, flip_h, flip_v, flip_d) & ROTATED_HEXAGONAL_120_FLAG == 0,
{
    assert((spec_encode_tile_id(atlas_index, flip_h, flip_v, flip_d) & 0x0FFF_FFFFu32)
        == ((atlas_index + 1) as u32)
        && flag_h(spec_encode_tile_id(atlas_index, flip_h, flip_v, flip_d)) == flip_h
        && flag_v(spec_encode_tile_id(atlas_index, flip_h, flip_v, flip_d)) == flip_v
        && flag_d(spec_encode_tile_id(atlas_index, flip_h, flip_v, flip_d)) == flip_d
        && spec_encode_tile_id(atlas_index, flip_h, flip_v, flip_d) & 0x1000_0000u32 == 0)
        by (bit_vector)
        requires
            atlas_index < 0x0FFF_FFFFu32,
    ;
}

} // verus!
