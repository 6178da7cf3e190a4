//! MessagePack framing of a [MapData]: the grid goes through a record of plain
//! values (spritesheet, slots, width), which rmp_serde turns into bytes and back.

use vstd::prelude::*;

use crate::map::{MapData, MapModel};
use crate::tile::{model_of_record, TileClass, TileModel, TileRecord, DOOR_TAG};

verus! {

/// Wire form of a grid, in field order: spritesheet, slots, width.
pub type MapRecord = (String, Vec<Option<TileRecord>>, usize);

/// Abstract value of a [MapRecord].
pub type MapRecordModel = (Seq<char>, Seq<Option<(u8, Seq<char>, u32)>>, usize);

/// rmp_serde's encoding error, carried opaquely out of [write_msgpack].
#[verifier::external_type_specification]
#[verifier::external_body]
pub struct ExEncodeError(rmp_serde::encode::Error);

/// rmp_serde's decoding error, carried opaquely out of [read_msgpack].
#[verifier::external_type_specification]
#[verifier::external_body]
pub struct ExDecodeError(rmp_serde::decode::Error);

/// The MessagePack bytes that rmp_serde writes for a record.
pub uninterp spec fn msgpack_encoding(rec: MapRecordModel) -> Seq<u8>;

/// The record that rmp_serde reads from a byte sequence, if it reads one.
pub uninterp spec fn msgpack_decoding(bytes: Seq<u8>) -> Option<MapRecordModel>;

/// Relies on rmp_serde::encode::to_vec: the bytes it returns on success
/// depend on the record alone.
#[verifier::external_body]
fn write_msgpack(rec: &MapRecord) -> (r: Result<Vec<u8>, rmp_serde::encode::Error>)
    ensures
        r matches Ok(b) ==> b@ == msgpack_encoding(rec.deep_view()),
{
    rmp_serde::to_vec(rec)
}

/// Relies on rmp_serde::decode::from_slice: whether it reads a record, and
/// which, depends on the bytes alone.
#[verifier::external_body]
fn read_msgpack(bytes: &[u8]) -> (r: Result<MapRecord, rmp_serde::decode::Error>)
    ensures
        r is Ok <==> msgpack_decoding(bytes@) is Some,
        r matches Ok(v) ==> msgpack_decoding(bytes@) == Some(v.deep_view()),
{
    rmp_serde::from_slice(bytes)
}

/// Failure to read a grid.
#[derive(Debug, PartialEq, Eq, Structural)]
pub enum MapLoadError {
    /// The file could not be read.
    FileSystemError,
    /// The bytes are not a well-formed grid of this tile type.
    DecodeError,
}

/// Failure to write a grid.
#[derive(Debug, PartialEq, Eq, Structural)]
pub enum MapSaveError {
    /// The file could not be written.
    FileSystemError,
    /// The grid could not be encoded.
    EncodeError,
}

/// Record of one slot.
pub open spec fn slot_record(o: Option<TileModel>) -> Option<(u8, Seq<char>, u32)> {
    match o {
        Some(t) => Some(t.record()),
        None => None,
    }
}

/// Record of a grid.
pub open spec fn map_record(m: MapModel) -> MapRecordModel {
    (m.spritesheet, m.slots.map_values(|o: Option<TileModel>| slot_record(o)), m.width as usize)
}

/// A slot record that a grid of `T` accepts: empty, or a well-formed tile of a
/// kind that `T` holds.
pub open spec fn slot_record_ok<T: TileClass>(o: Option<(u8, Seq<char>, u32)>) -> bool {
    match o {
        Some(r) => model_of_record(r) is Some && T::admits(model_of_record(r).unwrap()),
        None => true,
    }
}

/// The slot a slot record stands for.
pub open spec fn slot_of_record(o: Option<(u8, Seq<char>, u32)>) -> Option<TileModel> {
    match o {
        Some(r) => model_of_record(r),
        None => None,
    }
}

/// The grid of `T` a record stands for: `None` unless every slot record is
/// accepted, the width is positive, and it divides the number of slots.
pub open spec fn grid_of_record<T: TileClass>(rec: MapRecordModel) -> Option<MapModel> {
    if rec.2 > 0 && rec.1.len() % (rec.2 as nat) == 0 && forall|i: int|
        0 <= i < rec.1.len() ==> #[trigger] slot_record_ok::<T>(rec.1[i]) {
        Some(
            MapModel {
                spritesheet: rec.0,
                width: rec.2 as nat,
                slots: rec.1.map_values(|o: Option<(u8, Seq<char>, u32)>| slot_of_record(o)),
            },
        )
    } else {
        None
    }
}

/// A grid read back from its own record is the grid itself.
pub proof fn lemma_record_round_trip<T: TileClass>(g: &MapData<T>)
    requires
        g@.wf(),
    ensures
        grid_of_record::<T>(map_record(g@)) == Some(g@),
{
    let rec = map_record(g@);
    g.lemma_view();
    assert forall|i: int| 0 <= i < rec.1.len() implies #[trigger] slot_record_ok::<T>(rec.1[i]) by {
        match g.tiles()[i] {
            Some(t) => {
                t.lemma_admitted();
                crate::tile::lemma_record_inverse(t.model());
            },
            None => {},
        }
    }
    let back = rec.1.map_values(|o: Option<(u8, Seq<char>, u32)>| slot_of_record(o));
    assert forall|i: int| 0 <= i < back.len() implies back[i] == g@.slots[i] by {
        match g@.slots[i] {
            Some(t) => crate::tile::lemma_record_inverse(t),
            None => {},
        }
    }
    assert(back =~= g@.slots);
}

/// A record with a slot whose variant tag names no tile kind, or whose
/// width is zero or does not divide the number of slots, stands for no grid.
pub proof fn lemma_malformed_rejected<T: TileClass>(rec: MapRecordModel, i: int)
    requires
        (0 <= i < rec.1.len() && rec.1[i] is Some && rec.1[i].unwrap().0 > DOOR_TAG) || rec.2 == 0 || rec.1.len()
            % (rec.2 as nat) != 0,
    ensures
        grid_of_record::<T>(rec) is None,
{
    if 0 <= i < rec.1.len() && rec.1[i] is Some {
        assert(!slot_record_ok::<T>(rec.1[i]) || rec.2 == 0 || rec.1.len() % (rec.2 as nat) != 0);
    }
}

impl<T: TileClass> MapData<T> {
    /// The record that stands for this grid.
    pub fn to_record(&self) -> (r: MapRecord)
        requires
            self@.wf(),
        ensures
            r.deep_view() == map_record(self@),
    {
        let n: usize = self.slot_count();
        let mut slots: Vec<Option<TileRecord>> = Vec::with_capacity(n);
        let mut i: usize = 0;
        while i < n
            invariant
                i <= n,
                n == self@.slots.len(),
                slots@.len() == i,
                forall|j: int| 0 <= j < i ==> #[trigger] slots@[j].deep_view() == slot_record(self@.slots[j]),
            decreases n - i,
        {
            let s = match self.slot_at(i) {
                Some(t) => Some(t.to_record()),
                None => None,
            };
            slots.push(s);
            i = i + 1;
        }
        let (w, _h) = self.size();
        let r = (self.spritesheet().clone(), slots, w);
        assert(r.1.deep_view() =~= map_record(self@).1);
        r
    }

    /// The grid a record stands for, or `DecodeError` where
    /// [grid_of_record] has none.
    pub fn from_record(rec: &MapRecord) -> (r: Result<MapData<T>, MapLoadError>)
        ensures
            match grid_of_record::<T>(rec.deep_view()) {
                Some(m) => r matches Ok(g) && g@ == m,
                None => r == Err::<MapData<T>, MapLoadError>(MapLoadError::DecodeError),
            },
    {
        let n: usize = rec.1.len();
        let mut tiles: Vec<Option<T>> = Vec::with_capacity(n);
        let mut i: usize = 0;
        while i < n
            invariant
                i <= n,
                n == rec.1@.len(),
                tiles@.len() == i,
                forall|j: int| 0 <= j < i ==> #[trigger] slot_record_ok::<T>(rec.deep_view().1[j]),
                forall|j: int| 0 <= j < i ==> crate::map::slot_model(#[trigger] tiles@[j]) == slot_of_record(rec.deep_view().1[j]),
            decreases n - i,
        {
            assert(rec.deep_view().1[i as int] == rec.1@[i as int].deep_view());
            let s = match &rec.1[i] {
                Some(tr) => {
                    match T::from_record(tr) {
                        Some(t) => Some(t),
                        None => {
                            assert(!slot_record_ok::<T>(rec.deep_view().1[i as int]));
                            return Err(MapLoadError::DecodeError);
                        },
                    }
                },
                None => None,
            };
            tiles.push(s);
            i = i + 1;
        }
        assert(rec.deep_view().1.len() == n);
        match MapData::from_parts(rec.0.clone(), tiles, rec.2) {
            Some(g) => {
                assert(g@.slots.len() == n);
                assert(g@.slots =~= grid_of_record::<T>(rec.deep_view()).unwrap().slots);
                Ok(g)
            },
            None => Err(MapLoadError::DecodeError),
        }
    }

    /// The MessagePack bytes of this grid.
    pub fn encode(&self) -> (r: Result<Vec<u8>, MapSaveError>)
        requires
            self@.wf(),
        ensures
            match r {
                Ok(b) => b@ == msgpack_encoding(map_record(self@)),
                Err(e) => e == MapSaveError::EncodeError,
            },
    {
        let rec = self.to_record();
        match write_msgpack(&rec) {
            Ok(b) => Ok(b),
            Err(_) => Err(MapSaveError::EncodeError),
        }
    }

    /// Reads a grid of `T` from MessagePack bytes.
    pub fn decode(bytes: &[u8]) -> (r: Result<MapData<T>, MapLoadError>)
        ensures
            match msgpack_decoding(bytes@) {
                None => r == Err::<MapData<T>, MapLoadError>(MapLoadError::DecodeError),
                Some(rec) => match grid_of_record::<T>(rec) {
                    Some(m) => r matches Ok(g) && g@ == m,
                    None => r == Err::<MapData<T>, MapLoadError>(MapLoadError::DecodeError),
                },
            },
    {
        match read_msgpack(bytes) {
            Ok(rec) => MapData::from_record(&rec),
            Err(_) => Err(MapLoadError::DecodeError),
        }
    }
}

} // verus!
