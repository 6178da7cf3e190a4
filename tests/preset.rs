use beer_map::codec::MapLoadError;
use beer_map::loader::{start, step, LoadAction, LoadEvent, LoadState};
use beer_map::map::MapData;
use beer_map::preset::{
    atlas_index, generate_decoration_map, generate_preset_maps, generate_solid_map, Bounds,
    Location,
};
use beer_map::tile::{DecorationTile, SolidTile, TileClass};

fn texture_at<T: TileClass>(map: &MapData<T>, x: usize, y: usize) -> Option<u32> {
    map.slot_at(x + y * map.size().0).as_ref().map(|t| t.texture())
}

#[test]
fn classifier_on_building_bounds() {
    let b = Bounds { min_x: 5, min_y: 10, max_x: 10, max_y: 14 };
    assert_eq!(b.location(5, 10), Location::BottomLeft);
    assert_eq!(b.location(10, 14), Location::TopRight);
    assert_eq!(b.location(7, 10), Location::Bottom);
    assert_eq!(b.location(5, 12), Location::Left);
    assert_eq!(b.location(7, 12), Location::Center);
    assert_eq!(b.location(5, 14), Location::TopLeft);
    assert_eq!(b.location(10, 10), Location::BottomRight);
    assert_eq!(b.location(10, 12), Location::Right);
    assert_eq!(b.location(7, 14), Location::Top);
}

#[test]
fn atlas_index_is_row_major() {
    assert_eq!(atlas_index(0, 0), 0);
    assert_eq!(atlas_index(16, 6), 438);
    assert_eq!(atlas_index(3, 17), 98);
}

#[test]
fn decoration_trim_differs_between_first_and_last_column() {
    let map = generate_decoration_map();
    assert_eq!(map.size(), (16, 16));
    assert_eq!(map.spritesheet(), "city_tiles.png");
    assert_eq!(texture_at(&map, 0, 6), Some(16 * 27 + 5));
    assert_eq!(texture_at(&map, 7, 6), Some(16 * 27 + 6));
    assert_eq!(texture_at(&map, 0, 5), Some(17 * 27 + 2));
    assert_eq!(texture_at(&map, 7, 5), Some(17 * 27 + 4));
    assert_eq!(texture_at(&map, 0, 4), Some(17 * 27 + 5));
    assert_eq!(texture_at(&map, 7, 4), Some(17 * 27 + 6));
    assert_eq!(texture_at(&map, 3, 6), Some(15 * 27 + 1));
    assert_eq!(texture_at(&map, 3, 5), Some(16 * 27 + 1));
    assert_eq!(texture_at(&map, 3, 4), Some(17 * 27 + 1));
    assert_eq!(texture_at(&map, 8, 5), Some(28));
    assert_eq!(texture_at(&map, 0, 0), Some(28));
    assert_eq!(texture_at(&map, 15, 15), Some(28));
}

#[test]
fn solid_layer_building() {
    let map = generate_solid_map();
    assert_eq!(map.size(), (16, 16));
    assert_eq!(texture_at(&map, 5, 10), Some(5 * 27 + 8));
    assert_eq!(texture_at(&map, 10, 14), Some(3 * 27 + 10));
    assert_eq!(texture_at(&map, 7, 12), Some(4 * 27 + 9));
    assert_eq!(texture_at(&map, 5, 12), Some(4 * 27 + 8));
    assert_eq!(texture_at(&map, 5, 9), Some(17));
    assert_eq!(texture_at(&map, 7, 9), Some(18));
    assert_eq!(texture_at(&map, 10, 9), Some(19));
    assert_eq!(texture_at(&map, 5, 8), Some(17 + 27 * 3));
    assert_eq!(texture_at(&map, 7, 8), Some(18 + 27 * 3));
    assert_eq!(texture_at(&map, 10, 8), Some(19 + 27 * 3));
    assert_eq!(texture_at(&map, 4, 10), None);
    assert_eq!(texture_at(&map, 5, 7), None);
    assert_eq!(texture_at(&map, 11, 12), None);
    assert_eq!(texture_at(&map, 5, 15), None);
}

#[test]
fn failed_load_regenerates_and_retries_once() {
    let (mut state, mut action) = start();
    assert_eq!(action, LoadAction::Load);
    // No file: nothing to decode.
    let missing: Vec<u8> = Vec::new();
    assert_eq!(MapData::<DecorationTile>::decode(&missing).err(), Some(MapLoadError::DecodeError));
    (state, action) = step(state, LoadEvent::LoadFailed);
    assert_eq!(state, LoadState::Regenerating { generated: false });
    assert_eq!(action, LoadAction::Generate);
    let (decoration, solid) = generate_preset_maps().unwrap();
    (state, action) = step(state, LoadEvent::GenerationSucceeded);
    assert_eq!(action, LoadAction::Load);
    let d = MapData::<DecorationTile>::decode(&decoration).unwrap();
    let s = MapData::<SolidTile>::decode(&solid).unwrap();
    assert_eq!(d.size(), (16, 16));
    assert_eq!(s.size(), (16, 16));
    (state, action) = step(state, LoadEvent::LoadSucceeded);
    assert_eq!(state, LoadState::Loaded);
    assert_eq!(action, LoadAction::Stop);
}

#[test]
fn preset_bytes_decode_to_generated_maps() {
    let (decoration, solid) = generate_preset_maps().unwrap();
    let d = MapData::<DecorationTile>::decode(&decoration).unwrap();
    let s = MapData::<SolidTile>::decode(&solid).unwrap();
    let gd = generate_decoration_map();
    let gs = generate_solid_map();
    for i in 0..256 {
        assert_eq!(d.slot_at(i), gd.slot_at(i));
        assert_eq!(s.slot_at(i), gs.slot_at(i));
    }
}

#[test]
fn second_failure_gives_up() {
    let (state, _) = start();
    let (state, _) = step(state, LoadEvent::LoadFailed);
    let (state, _) = step(state, LoadEvent::GenerationSucceeded);
    let (state, action) = step(state, LoadEvent::LoadFailed);
    assert_eq!(state, LoadState::Failed);
    assert_eq!(action, LoadAction::Stop);
    assert_eq!(step(state, LoadEvent::LoadSucceeded), (LoadState::Failed, LoadAction::Stop));
}

#[test]
fn generation_failure_gives_up() {
    let (state, _) = step(LoadState::Loading, LoadEvent::LoadFailed);
    assert_eq!(step(state, LoadEvent::GenerationFailed), (LoadState::Failed, LoadAction::Stop));
}

#[test]
fn loaded_on_first_success() {
    assert_eq!(step(LoadState::Loading, LoadEvent::LoadSucceeded), (LoadState::Loaded, LoadAction::Stop));
}
