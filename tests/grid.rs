use beer_map::map::MapData;
use beer_map::tile::{DecorationTile, DoorTile, SolidTile, Tile, TileClass};

fn rows_of<T: TileClass + Clone>(map: &MapData<T>) -> Vec<Vec<Option<T>>> {
    let mut rows = Vec::new();
    let mut it = map.iter();
    while let Some(row) = it.next() {
        rows.push(row.to_vec());
    }
    rows
}

#[test]
fn new_grid_has_size_and_empty_slots() {
    let map = MapData::<DecorationTile>::new(3, 2, String::from("atlas.png"));
    assert_eq!(map.size(), (3, 2));
    assert_eq!(map.spritesheet(), "atlas.png");
    let rows = rows_of(&map);
    assert_eq!(rows.len(), 2);
    for row in &rows {
        assert_eq!(row.len(), 3);
        assert!(row.iter().all(|s| s.is_none()));
    }
}

#[test]
fn write_then_read_row_zero() {
    let mut map = MapData::<DecorationTile>::new(3, 2, String::from("atlas.png"));
    *map.get_mut(1, 0) = Some(DecorationTile { texture: 5 });
    let rows = rows_of(&map);
    assert_eq!(rows[0], vec![None, Some(DecorationTile { texture: 5 }), None]);
    assert_eq!(rows[1], vec![None, None, None]);
}

#[test]
fn get_mut_addresses_x_plus_y_times_width() {
    let mut map = MapData::<SolidTile>::new(4, 3, String::from("a.png"));
    *map.get_mut(3, 2) = Some(SolidTile::new(7));
    *map.get_mut(0, 1) = Some(SolidTile::new(8));
    assert_eq!(map.slot_at(3 + 2 * 4).as_ref().map(|t| t.texture()), Some(7));
    assert_eq!(map.slot_at(4).as_ref().map(|t| t.texture()), Some(8));
    let rows = rows_of(&map);
    assert_eq!(rows[2][3], Some(SolidTile::new(7)));
    assert_eq!(rows[1][0], Some(SolidTile::new(8)));
    assert_eq!(map.get_mut(3, 2).as_ref().map(|t| t.texture()), Some(7));
}

#[test]
fn iterator_shape_and_restart() {
    let mut map = MapData::<Tile>::new(5, 4, String::from("a.png"));
    *map.get_mut(2, 3) = Some(Tile::Decoration(DecorationTile { texture: 1 }));
    let first = rows_of(&map);
    let second = rows_of(&map);
    assert_eq!(first.len(), 4);
    assert!(first.iter().all(|r| r.len() == 5));
    assert_eq!(first, second);
    assert_eq!(first[3][2], Some(Tile::Decoration(DecorationTile { texture: 1 })));
}

#[test]
fn iterator_stays_exhausted() {
    let map = MapData::<SolidTile>::new(1, 1, String::from("a.png"));
    let mut it = map.iter();
    assert!(it.next().is_some());
    assert!(it.next().is_none());
    assert!(it.next().is_none());
}

#[test]
fn from_parts_checks_width() {
    let ok = MapData::<SolidTile>::from_parts(String::from("a"), vec![None, None, None, None], 2);
    assert_eq!(ok.map(|m| m.size()), Some((2, 2)));
    assert!(MapData::<SolidTile>::from_parts(String::from("a"), vec![None, None, None], 2).is_none());
    assert!(MapData::<SolidTile>::from_parts(String::from("a"), vec![None], 0).is_none());
}

#[test]
fn texture_of_each_kind() {
    assert_eq!(SolidTile::new(3).texture(), 3);
    assert_eq!(DecorationTile { texture: 4 }.texture(), 4);
    let door = DoorTile::new(String::from("room2"), 9);
    assert_eq!(door.texture(), 9);
    assert_eq!(door.destination(), "room2");
    assert_eq!(Tile::Door(door).texture(), 9);
}
