//! Boundary classification and the two preset grids that stand in for
//! missing or unreadable map files.

use vstd::prelude::*;

use crate::codec::{MapSaveError, map_record, msgpack_encoding};
use crate::map::{MapData, MapModel};
use crate::tile::{DecorationTile, SolidTile, TileClass, TileModel};

verus! {

/// Side of the square preset grids.
pub const PRESET_SIZE: usize = 16;

/// Atlas that both preset grids are drawn from.
pub const PRESET_SPRITESHEET: &'static str = "city_tiles.png";

/// Where the decoration layer is kept.
pub const DECORATION_MAP_PATH: &'static str = "decoration.beer_map";

/// Where the solid layer is kept.
pub const SOLID_MAP_PATH: &'static str = "solid.beer_map";

/// Columns of the atlas.
pub const ATLAS_COLUMNS: u32 = 27;

/// Ground texture that covers the decoration layer.
pub const GROUND_TEXTURE: u32 = 28;

/// An inclusive rectangle of cells.
#[derive(Debug, Clone, Copy, PartialEq, Eq, Structural)]
pub struct Bounds {
    pub min_x: usize,
    pub min_y: usize,
    pub max_x: usize,
    pub max_y: usize,
}

/// Where a cell lies within a [Bounds].
#[derive(Debug, Clone, Copy, PartialEq, Eq, Structural)]
pub enum Location {
    Center,
    Top,
    Bottom,
    Left,
    Right,
    TopLeft,
    TopRight,
    BottomLeft,
    BottomRight,
}

impl Bounds {
    pub open spec fn contains(self, x: int, y: int) -> bool {
        self.min_x <= x <= self.max_x && self.min_y <= y <= self.max_y
    }

    /// Corners first, then the left and right edges, then the bottom and top
    /// edges; anything else is the center.
    pub open spec fn spec_location(self, x: int, y: int) -> Location {
        if x == self.min_x && y == self.min_y {
            Location::BottomLeft
        } else if x == self.min_x && y == self.max_y {
            Location::TopLeft
        } else if x == self.max_x && y == self.min_y {
            Location::BottomRight
        } else if x == self.max_x && y == self.max_y {
            Location::TopRight
        } else if x == self.min_x {
            Location::Left
        } else if x == self.max_x {
            Location::Right
        } else if y == self.min_y {
            Location::Bottom
        } else if y == self.max_y {
            Location::Top
        } else {
            Location::Center
        }
    }

    /// Classifies cell `(x, y)`.
    pub fn location(&self, x: usize, y: usize) -> (r: Location)
        ensures
            r == self.spec_location(x as int, y as int),
    {
        if x == self.min_x && y == self.min_y {
            return Location::BottomLeft;
        }
        if x == self.min_x && y == self.max_y {
            return Location::TopLeft;
        }
        if x == self.max_x && y == self.min_y {
            return Location::BottomRight;
        }
        if x == self.max_x && y == self.max_y {
            return Location::TopRight;
        }
        if x == self.min_x {
            return Location::Left;
        }
        if x == self.max_x {
            return Location::Right;
        }
        if y == self.min_y {
            return Location::Bottom;
        }
        if y == self.max_y {
            return Location::Top;
        }
        Location::Center
    }
}

/// In a rectangle two rows tall every cell is a corner, a top or a bottom.
pub proof fn lemma_two_rows_location(b: Bounds, x: int, y: int)
    requires
        b.max_y == b.min_y + 1,
        b.contains(x, y),
    ensures
        !(b.spec_location(x, y) is Left),
        !(b.spec_location(x, y) is Right),
        !(b.spec_location(x, y) is Center),
{
}

/// Texture index of the atlas cell at `row`, `col`.
pub open spec fn atlas(row: int, col: int) -> u32 {
    (row * ATLAS_COLUMNS + col) as u32
}

/// Texture index of the atlas cell at `row`, `col`.
pub fn atlas_index(row: u32, col: u32) -> (r: u32)
    requires
        row < 64,
        col < ATLAS_COLUMNS,
    ensures
        r == atlas(row as int, col as int),
{
    row * ATLAS_COLUMNS + col
}

/// Texture of a trim cell of the decoration layer, at column `x` and row `y`
/// (rows 4 to 6).
pub open spec fn trim_texture(x: int, y: int) -> u32 {
    if x == 7 {
        if y == 6 { atlas(16, 6) } else if y == 5 { atlas(17, 4) } else { atlas(17, 6) }
    } else if x == 0 {
        if y == 6 { atlas(16, 5) } else if y == 5 { atlas(17, 2) } else { atlas(17, 5) }
    } else {
        if y == 6 { atlas(15, 1) } else if y == 5 { atlas(16, 1) } else { atlas(17, 1) }
    }
}

/// Texture of the decoration layer at `(x, y)`: trim on columns 0 to 7 of
/// rows 4 to 6, ground elsewhere.
pub open spec fn decoration_texture(x: int, y: int) -> u32 {
    if 0 <= x < 8 && 4 <= y <= 6 {
        trim_texture(x, y)
    } else {
        GROUND_TEXTURE
    }
}

/// Column of a flat index in a preset grid.
pub open spec fn col_of(i: int) -> int {
    i % 16
}

/// Row of a flat index in a preset grid.
pub open spec fn row_of(i: int) -> int {
    i / 16
}

/// The shape every preset grid has.
pub open spec fn preset_shape(m: MapModel) -> bool {
    &&& m.wf()
    &&& m.width == 16
    &&& m.slots.len() == 256
    &&& m.spritesheet == PRESET_SPRITESHEET@
}

/// Places `tile` at `(x, y)` of a preset-sized grid.
fn paint<T: TileClass>(map: &mut MapData<T>, x: usize, y: usize, tile: T)
    requires
        old(map)@.wf(),
        old(map)@.width == 16,
        old(map)@.slots.len() == 256,
        x < 16,
        y < 16,
    ensures
        final(map)@ == (MapModel {
            slots: old(map)@.slots.update(x + y * 16, Some(tile.model())),
            ..old(map)@
        }),
{
    assert(old(map)@.height() == 16);
    assert(old(map)@.index(x as int, y as int) == x + y * 16);
    *map.get_mut(x, y) = Some(tile);
}

/// The decoration layer: ground everywhere, trim on columns 0 to 7 of rows 4 to 6.
pub open spec fn decoration_model() -> MapModel {
    MapModel {
        spritesheet: PRESET_SPRITESHEET@,
        width: 16,
        slots: Seq::new(
            256,
            |i: int| Some(TileModel::Decoration { texture: decoration_texture(col_of(i), row_of(i)) }),
        ),
    }
}

/// Flat index `x + 16 * y` of a preset grid names column `x` and row `y`.
pub proof fn lemma_preset_index(x: int, y: int)
    requires
        0 <= x < 16,
        0 <= y < 16,
    ensures
        0 <= x + y * 16 < 256,
        col_of(x + y * 16) == x,
        row_of(x + y * 16) == y,
{
}

/// Each cell of the decoration layer holds the decoration tile of
/// [decoration_texture].
pub proof fn lemma_decoration_cell(x: int, y: int)
    requires
        0 <= x < 16,
        0 <= y < 16,
    ensures
        decoration_model().wf(),
        decoration_model().height() == 16,
        decoration_model().slot(x, y) == Some(
            TileModel::Decoration { texture: decoration_texture(x, y) },
        ),
{
    lemma_preset_index(x, y);
}

/// Builds the decoration layer.
pub fn generate_decoration_map() -> (r: MapData<DecorationTile>)
    ensures
        r@ == decoration_model(),
{
    let mut map = MapData::<DecorationTile>::new(16, 16, PRESET_SPRITESHEET.to_owned());
    let mut x: usize = 0;
    while x < 16
        invariant
            preset_shape(map@),
            x <= 16,
            forall|i: int|
                0 <= i < 256 ==> #[trigger] map@.slots[i] == (if col_of(i) < x {
                    Some(TileModel::Decoration { texture: GROUND_TEXTURE })
                } else {
                    None
                }),
        decreases 16 - x,
    {
        let mut y: usize = 0;
        while y < 16
            invariant
                preset_shape(map@),
                x < 16,
                y <= 16,
                forall|i: int|
                    0 <= i < 256 ==> #[trigger] map@.slots[i] == (if col_of(i) < x || (col_of(i)
                        == x && row_of(i) < y) {
                        Some(TileModel::Decoration { texture: GROUND_TEXTURE })
                    } else {
                        None
                    }),
            decreases 16 - y,
        {
            paint(&mut map, x, y, DecorationTile { texture: GROUND_TEXTURE });
            y = y + 1;
        }
        x = x + 1;
    }
    let mut x: usize = 0;
    while x < 8
        invariant
            preset_shape(map@),
            x <= 8,
            forall|i: int|
                0 <= i < 256 ==> #[trigger] map@.slots[i] == Some(
                    TileModel::Decoration {
                        texture: if col_of(i) < x && 4 <= row_of(i) <= 6 {
                            trim_texture(col_of(i), row_of(i))
                        } else {
                            GROUND_TEXTURE
                        },
                    },
                ),
        decreases 8 - x,
    {
        let (top, middle, bottom) = if x == 7 {
            (atlas_index(16, 6), atlas_index(17, 4), atlas_index(17, 6))
        } else if x == 0 {
            (atlas_index(16, 5), atlas_index(17, 2), atlas_index(17, 5))
        } else {
            (atlas_index(15, 1), atlas_index(16, 1), atlas_index(17, 1))
        };
        paint(&mut map, x, 6, DecorationTile { texture: top });
        paint(&mut map, x, 5, DecorationTile { texture: middle });
        paint(&mut map, x, 4, DecorationTile { texture: bottom });
        x = x + 1;
    }
    assert(map@.slots =~= decoration_model().slots);
    map
}

/// The wall of the preset building.
pub open spec fn wall_bounds() -> Bounds {
    Bounds { min_x: 5, min_y: 10, max_x: 10, max_y: 14 }
}

/// The roof of the preset building, the two rows right above its wall.
pub open spec fn roof_bounds() -> Bounds {
    Bounds { min_x: 5, min_y: 8, max_x: 10, max_y: 9 }
}

/// Wall texture for each place in the wall.
pub open spec fn wall_texture(loc: Location) -> u32 {
    match loc {
        Location::Center => atlas(4, 9),
        Location::Top => atlas(3, 9),
        Location::Bottom => atlas(5, 9),
        Location::Left => atlas(4, 8),
        Location::Right => atlas(4, 10),
        Location::TopLeft => atlas(3, 8),
        Location::TopRight => atlas(3, 10),
        Location::BottomLeft => atlas(5, 8),
        Location::BottomRight => atlas(5, 10),
    }
}

/// Roof texture for each place in the roof; a roof has no left, right or
/// center cells.
pub open spec fn roof_texture(loc: Location) -> u32 {
    match loc {
        Location::Top => atlas(0, 18),
        Location::TopLeft => atlas(0, 17),
        Location::TopRight => atlas(0, 19),
        Location::Bottom => atlas(3, 18),
        Location::BottomLeft => atlas(3, 17),
        Location::BottomRight => atlas(3, 19),
        _ => 0,
    }
}

pub open spec fn part_texture(roof: bool, loc: Location) -> u32 {
    if roof {
        roof_texture(loc)
    } else {
        wall_texture(loc)
    }
}

/// Texture for a place in the wall, or in the roof when `roof` is set.
fn part_texture_of(roof: bool, loc: Location) -> (r: u32)
    requires
        roof ==> !(loc is Left || loc is Right || loc is Center),
    ensures
        r == part_texture(roof, loc),
{
    if roof {
        match loc {
            Location::Top => atlas_index(0, 18),
            Location::TopLeft => atlas_index(0, 17),
            Location::TopRight => atlas_index(0, 19),
            Location::Bottom => atlas_index(3, 18),
            Location::BottomLeft => atlas_index(3, 17),
            Location::BottomRight => atlas_index(3, 19),
            Location::Left | Location::Right | Location::Center => 0,
        }
    } else {
        match loc {
            Location::Center => atlas_index(4, 9),
            Location::Top => atlas_index(3, 9),
            Location::Bottom => atlas_index(5, 9),
            Location::Left => atlas_index(4, 8),
            Location::Right => atlas_index(4, 10),
            Location::TopLeft => atlas_index(3, 8),
            Location::TopRight => atlas_index(3, 10),
            Location::BottomLeft => atlas_index(5, 8),
            Location::BottomRight => atlas_index(5, 10),
        }
    }
}

/// Covers the cells of `b` with solid tiles classified within `b`.
fn fill_part(map: &mut MapData<SolidTile>, b: Bounds, roof: bool)
    requires
        preset_shape(old(map)@),
        b.min_x <= b.max_x < 16,
        b.min_y <= b.max_y < 16,
        roof ==> b.max_y == b.min_y + 1,
    ensures
        preset_shape(final(map)@),
        forall|i: int|
            0 <= i < 256 ==> #[trigger] final(map)@.slots[i] == (if b.contains(col_of(i), row_of(i)) {
                Some(TileModel::Solid { texture: part_texture(roof, b.spec_location(col_of(i), row_of(i))) })
            } else {
                old(map)@.slots[i]
            }),
{
    let ghost start = map@.slots;
    let mut x: usize = b.min_x;
    while x <= b.max_x
        invariant
            preset_shape(map@),
            b.min_x <= x <= b.max_x + 1,
            b.min_x <= b.max_x < 16,
            b.min_y <= b.max_y < 16,
            roof ==> b.max_y == b.min_y + 1,
            forall|i: int|
                0 <= i < 256 ==> #[trigger] map@.slots[i] == (if b.contains(col_of(i), row_of(i)) && col_of(i) < x {
                    Some(TileModel::Solid { texture: part_texture(roof, b.spec_location(col_of(i), row_of(i))) })
                } else {
                    start[i]
                }),
        decreases b.max_x + 1 - x,
    {
        let mut y: usize = b.min_y;
        while y <= b.max_y
            invariant
                preset_shape(map@),
                b.min_x <= x <= b.max_x,
                b.min_y <= y <= b.max_y + 1,
                b.min_x <= b.max_x < 16,
                b.min_y <= b.max_y < 16,
                roof ==> b.max_y == b.min_y + 1,
                forall|i: int|
                    0 <= i < 256 ==> #[trigger] map@.slots[i] == (if b.contains(col_of(i), row_of(i)) && (col_of(i) < x || (col_of(i) == x && row_of(i) < y)) {
                        Some(TileModel::Solid { texture: part_texture(roof, b.spec_location(col_of(i), row_of(i))) })
                    } else {
                        start[i]
                    }),
            decreases b.max_y + 1 - y,
        {
            let loc = b.location(x, y);
            proof {
                if roof {
                    lemma_two_rows_location(b, x as int, y as int);
                }
            }
            let texture = part_texture_of(roof, loc);
            paint(map, x, y, SolidTile::new(texture));
            y = y + 1;
        }
        x = x + 1;
    }
}

/// The solid layer: a building whose wall fills [wall_bounds] and whose roof
/// fills [roof_bounds], both of solid tiles; every other cell is empty.
pub open spec fn solid_model() -> MapModel {
    MapModel {
        spritesheet: PRESET_SPRITESHEET@,
        width: 16,
        slots: Seq::new(256, |i: int| solid_slot(col_of(i), row_of(i))),
    }
}

/// The slot of the solid layer at `(x, y)`.
pub open spec fn solid_slot(x: int, y: int) -> Option<TileModel> {
    if wall_bounds().contains(x, y) {
        Some(TileModel::Solid { texture: wall_texture(wall_bounds().spec_location(x, y)) })
    } else if roof_bounds().contains(x, y) {
        Some(TileModel::Solid { texture: roof_texture(roof_bounds().spec_location(x, y)) })
    } else {
        None
    }
}

/// Each cell of the solid layer holds [solid_slot].
pub proof fn lemma_solid_cell(x: int, y: int)
    requires
        0 <= x < 16,
        0 <= y < 16,
    ensures
        solid_model().wf(),
        solid_model().height() == 16,
        solid_model().slot(x, y) == solid_slot(x, y),
{
    lemma_preset_index(x, y);
}

/// Builds the solid layer. Its tiles are of the solid kind, so that the layer
/// reads back as a grid of [SolidTile].
pub fn generate_solid_map() -> (r: MapData<SolidTile>)
    ensures
        r@ == solid_model(),
{
    let mut map = MapData::<SolidTile>::new(16, 16, PRESET_SPRITESHEET.to_owned());
    let wall = Bounds { min_x: 5, min_y: 10, max_x: 10, max_y: 14 };
    fill_part(&mut map, wall, false);
    let roof = Bounds { min_x: 5, min_y: 8, max_x: 10, max_y: 9 };
    fill_part(&mut map, roof, true);
    assert(map@.slots =~= solid_model().slots);
    map
}

/// Builds both preset layers and encodes them: the decoration layer's bytes
/// first, then the solid layer's. They belong at [DECORATION_MAP_PATH] and
/// [SOLID_MAP_PATH].
pub fn generate_preset_maps() -> (r: Result<(Vec<u8>, Vec<u8>), MapSaveError>)
    ensures
        match r {
            Ok((d, s)) => d@ == msgpack_encoding(map_record(decoration_model())) && s@
                == msgpack_encoding(map_record(solid_model())),
            Err(e) => e == MapSaveError::EncodeError,
        },
{
    let decoration = generate_decoration_map();
    let solid = generate_solid_map();
    let d = match decoration.encode() {
        Ok(d) => d,
        Err(e) => return Err(e),
    };
    let s = match solid.encode() {
        Ok(s) => s,
        Err(e) => return Err(e),
    };
    Ok((d, s))
}

} // verus!
