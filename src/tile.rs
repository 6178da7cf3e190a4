//! The closed set of tile kinds and their abstract model.

use vstd::prelude::*;

verus! {

/// Abstract value of a tile: which kind it is and its payload.
pub enum TileModel {
    Solid { texture: u32 },
    Decoration { texture: u32 },
    Door { destination: Seq<char>, texture: u32 },
}

/// Wire form of one tile: variant tag, destination (empty unless a door), texture.
pub type TileRecord = (u8, String, u32);

/// Tag written for each kind of tile.
pub const SOLID_TAG: u8 = 0;
pub const DECORATION_TAG: u8 = 1;
pub const DOOR_TAG: u8 = 2;

impl TileModel {
    pub open spec fn texture(self) -> u32 {
        match self {
            TileModel::Solid { texture } => texture,
            TileModel::Decoration { texture } => texture,
            TileModel::Door { texture, .. } => texture,
        }
    }

    /// The record that encodes this tile.
    pub open spec fn record(self) -> (u8, Seq<char>, u32) {
        match self {
            TileModel::Solid { texture } => (SOLID_TAG, Seq::empty(), texture),
            TileModel::Decoration { texture } => (DECORATION_TAG, Seq::empty(), texture),
            TileModel::Door { destination, texture } => (DOOR_TAG, destination, texture),
        }
    }
}

/// The tile a record stands for, if it is well formed: a known tag, and an
/// empty destination for every kind but doors.
pub open spec fn model_of_record(rec: (u8, Seq<char>, u32)) -> Option<TileModel> {
    if rec.0 == SOLID_TAG && rec.1.len() == 0 {
        Some(TileModel::Solid { texture: rec.2 })
    } else if rec.0 == DECORATION_TAG && rec.1.len() == 0 {
        Some(TileModel::Decoration { texture: rec.2 })
    } else if rec.0 == DOOR_TAG {
        Some(TileModel::Door { destination: rec.1, texture: rec.2 })
    } else {
        None
    }
}

/// Every tile is recovered from its record.
pub proof fn lemma_record_inverse(m: TileModel)
    ensures
        model_of_record(m.record()) == Some(m),
{
}

/// Every tile kind exposes its atlas index and its record form.
pub trait TileClass: Sized {
    /// Abstract value of the tile.
    spec fn model(&self) -> TileModel;

    /// Which tiles values of this type can hold.
    spec fn admits(m: TileModel) -> bool;

    proof fn lemma_admitted(&self)
        ensures
            Self::admits(self.model()),
    ;

    fn texture(&self) -> (r: u32)
        ensures
            r == self.model().texture(),
    ;

    fn to_record(&self) -> (r: TileRecord)
        ensures
            r.deep_view() == self.model().record(),
    ;

    /// Builds a tile from a record; `None` when the record is malformed or
    /// names a kind this type does not hold.
    fn from_record(rec: &TileRecord) -> (r: Option<Self>)
        ensures
            match r {
                Some(t) => Self::admits(t.model()) && model_of_record(rec.deep_view()) == Some(
                    t.model(),
                ),
                None => !(model_of_record(rec.deep_view()) is Some && Self::admits(
                    model_of_record(rec.deep_view()).unwrap(),
                )),
            },
    ;
}

/// A tile that doesn't allow the player to go through it.
#[derive(Debug, Clone, PartialEq, Eq)]
pub struct SolidTile {
    texture: u32,
}

impl SolidTile {
    pub fn new(texture: u32) -> (r: SolidTile)
        ensures
            r.model() == (TileModel::Solid { texture }),
    {
        SolidTile { texture }
    }
}

impl TileClass for SolidTile {
    closed spec fn model(&self) -> TileModel {
        TileModel::Solid { texture: self.texture }
    }

    open spec fn admits(m: TileModel) -> bool {
        m is Solid
    }

    proof fn lemma_admitted(&self) {
    }

    fn texture(&self) -> (r: u32) {
        self.texture
    }

    fn to_record(&self) -> (r: TileRecord) {
        (SOLID_TAG, String::new(), self.texture)
    }

    fn from_record(rec: &TileRecord) -> (r: Option<SolidTile>) {
        if rec.0 == SOLID_TAG && rec.1.as_str().is_empty() {
            Some(SolidTile { texture: rec.2 })
        } else {
            None
        }
    }
}

/// A tile that only exists for decoration purposes.
#[derive(Debug, Clone, PartialEq, Eq)]
pub struct DecorationTile {
    pub texture: u32,
}

impl TileClass for DecorationTile {
    open spec fn model(&self) -> TileModel {
        TileModel::Decoration { texture: self.texture }
    }

    open spec fn admits(m: TileModel) -> bool {
        m is Decoration
    }

    proof fn lemma_admitted(&self) {
    }

    fn texture(&self) -> (r: u32) {
        self.texture
    }

    fn to_record(&self) -> (r: TileRecord) {
        (DECORATION_TAG, String::new(), self.texture)
    }

    fn from_record(rec: &TileRecord) -> (r: Option<DecorationTile>) {
        if rec.0 == DECORATION_TAG && rec.1.as_str().is_empty() {
            Some(DecorationTile { texture: rec.2 })
        } else {
            None
        }
    }
}

/// A tile that lets the player move between scenes or locations.
#[derive(Debug, Clone, PartialEq, Eq)]
pub struct DoorTile {
    destination: String,
    texture: u32,
}

impl DoorTile {
    pub fn new(destination: String, texture: u32) -> (r: DoorTile)
        ensures
            r.model() == (TileModel::Door { destination: destination@, texture }),
    {
        DoorTile { destination, texture }
    }

    pub fn destination(&self) -> (r: &String)
        ensures
            self.model() == (TileModel::Door { destination: r@, texture: self.model().texture() }),
    {
        &self.destination
    }
}

impl TileClass for DoorTile {
    closed spec fn model(&self) -> TileModel {
        TileModel::Door { destination: self.destination@, texture: self.texture }
    }

    open spec fn admits(m: TileModel) -> bool {
        m is Door
    }

    proof fn lemma_admitted(&self) {
    }

    fn texture(&self) -> (r: u32) {
        self.texture
    }

    fn to_record(&self) -> (r: TileRecord) {
        (DOOR_TAG, self.destination.clone(), self.texture)
    }

    fn from_record(rec: &TileRecord) -> (r: Option<DoorTile>) {
        if rec.0 == DOOR_TAG {
            Some(DoorTile { destination: rec.1.clone(), texture: rec.2 })
        } else {
            None
        }
    }
}

/// A tile of any kind.
#[derive(Debug, Clone, PartialEq, Eq)]
pub enum Tile {
    Solid(SolidTile),
    Decoration(DecorationTile),
    Door(DoorTile),
}

impl TileClass for Tile {
    open spec fn model(&self) -> TileModel {
        match self {
            Tile::Solid(t) => t.model(),
            Tile::Decoration(t) => t.model(),
            Tile::Door(t) => t.model(),
        }
    }

    open spec fn admits(m: TileModel) -> bool {
        true
    }

    proof fn lemma_admitted(&self) {
    }

    fn texture(&self) -> (r: u32) {
        match self {
            Tile::Solid(t) => t.texture(),
            Tile::Decoration(t) => t.texture(),
            Tile::Door(t) => t.texture(),
        }
    }

    fn to_record(&self) -> (r: TileRecord) {
        match self {
            Tile::Solid(t) => t.to_record(),
            Tile::Decoration(t) => t.to_record(),
            Tile::Door(t) => t.to_record(),
        }
    }

    fn from_record(rec: &TileRecord) -> (r: Option<Tile>) {
        if rec.0 == SOLID_TAG {
            match SolidTile::from_record(rec) {
                Some(t) => Some(Tile::Solid(t)),
                None => None,
            }
        } else if rec.0 == DECORATION_TAG {
            match DecorationTile::from_record(rec) {
                Some(t) => Some(Tile::Decoration(t)),
                None => None,
            }
        } else {
            match DoorTile::from_record(rec) {
                Some(t) => Some(Tile::Door(t)),
                None => None,
            }
        }
    }
}

} // verus!
