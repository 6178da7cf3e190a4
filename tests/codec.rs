use beer_map::codec::{MapLoadError, MapSaveError};
use beer_map::map::MapData;
use beer_map::tile::{DecorationTile, DoorTile, SolidTile, Tile, TileClass};

fn sample() -> MapData<Tile> {
    let mut map = MapData::<Tile>::new(2, 2, String::from("atlas.png"));
    *map.get_mut(0, 0) = Some(Tile::Solid(SolidTile::new(2)));
    *map.get_mut(1, 1) = Some(Tile::Door(DoorTile::new(String::from("room2"), 9)));
    map
}

fn rows_of<T: TileClass + Clone>(map: &MapData<T>) -> Vec<Vec<Option<T>>> {
    let mut rows = Vec::new();
    let mut it = map.iter();
    while let Some(row) = it.next() {
        rows.push(row.to_vec());
    }
    rows
}

#[test]
fn save_then_load_keeps_every_slot() {
    let map = sample();
    let bytes = map.encode().unwrap();
    let back = MapData::<Tile>::decode(&bytes).unwrap();
    assert_eq!(back.size(), (2, 2));
    assert_eq!(back.spritesheet(), "atlas.png");
    assert_eq!(rows_of(&back), rows_of(&map));
    match back.slot_at(3) {
        Some(Tile::Door(d)) => {
            assert_eq!(d.destination(), "room2");
            assert_eq!(d.texture(), 9);
        }
        other => panic!("expected a door, got {:?}", other),
    }
    assert_eq!(back.slot_at(1), &None);
    assert_eq!(back.slot_at(2), &None);
}

#[test]
fn round_trip_of_each_tile_type() {
    let mut d = MapData::<DecorationTile>::new(3, 1, String::from("x"));
    *d.get_mut(2, 0) = Some(DecorationTile { texture: 77 });
    let back = MapData::<DecorationTile>::decode(&d.encode().unwrap()).unwrap();
    assert_eq!(rows_of(&back), rows_of(&d));
    let empty = MapData::<SolidTile>::new(1, 1, String::new());
    let back = MapData::<SolidTile>::decode(&empty.encode().unwrap()).unwrap();
    assert_eq!(back.size(), (1, 1));
    assert_eq!(back.spritesheet(), "");
}

#[test]
fn record_round_trip() {
    let map = sample();
    let rec = map.to_record();
    assert_eq!(rec.2, 2);
    assert_eq!(rec.1[0], Some((0u8, String::new(), 2u32)));
    assert_eq!(rec.1[3], Some((2u8, String::from("room2"), 9u32)));
    let back = MapData::<Tile>::from_record(&rec).unwrap();
    assert_eq!(rows_of(&back), rows_of(&map));
}

#[test]
fn encoding_is_not_empty_and_differs_by_content() {
    let a = sample().encode().unwrap();
    let b = MapData::<Tile>::new(2, 2, String::from("atlas.png")).encode().unwrap();
    assert!(!a.is_empty());
    assert_ne!(a, b);
}

#[test]
fn truncated_bytes_are_rejected() {
    let bytes = sample().encode().unwrap();
    for cut in 0..bytes.len() {
        let r = MapData::<Tile>::decode(&bytes[..cut]);
        assert_eq!(r.err(), Some(MapLoadError::DecodeError), "cut at {}", cut);
    }
}

#[test]
fn unknown_variant_tag_is_rejected() {
    let rec = (String::from("a"), vec![Some((7u8, String::new(), 1u32))], 1usize);
    let bytes = rmp_serde::to_vec(&rec).unwrap();
    assert_eq!(MapData::<Tile>::decode(&bytes).err(), Some(MapLoadError::DecodeError));
    assert_eq!(MapData::<Tile>::from_record(&rec).err(), Some(MapLoadError::DecodeError));
}

#[test]
fn destination_on_a_non_door_is_rejected() {
    let rec = (String::from("a"), vec![Some((0u8, String::from("x"), 1u32))], 1usize);
    assert_eq!(MapData::<Tile>::from_record(&rec).err(), Some(MapLoadError::DecodeError));
}

#[test]
fn kind_that_the_grid_does_not_hold_is_rejected() {
    let bytes = sample().encode().unwrap();
    assert_eq!(MapData::<SolidTile>::decode(&bytes).err(), Some(MapLoadError::DecodeError));
    assert_eq!(MapData::<DecorationTile>::decode(&bytes).err(), Some(MapLoadError::DecodeError));
}

#[test]
fn bad_width_is_rejected() {
    let zero = (String::from("a"), vec![None, None], 0usize);
    assert_eq!(MapData::<Tile>::from_record(&zero).err(), Some(MapLoadError::DecodeError));
    let uneven: beer_map::codec::MapRecord = (String::from("a"), vec![None, None, None], 2usize);
    let bytes = rmp_serde::to_vec(&uneven).unwrap();
    assert_eq!(MapData::<Tile>::decode(&bytes).err(), Some(MapLoadError::DecodeError));
}

#[test]
fn error_variants_are_distinct() {
    assert_ne!(MapLoadError::FileSystemError, MapLoadError::DecodeError);
    assert_ne!(MapSaveError::FileSystemError, MapSaveError::EncodeError);
}
