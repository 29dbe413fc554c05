use rusty_roguelike::components::Position;
use rusty_roguelike::game_map::{GameMap, TileType, MAPCOUNT, MAPHEIGHT, MAPWIDTH};
use rusty_roguelike::map_indexing_system::map_indexing_system;
use rusty_roguelike::visibility::{points_on_map, reveal_player_sight, update_viewshed};
use rusty_roguelike::components::Viewshed;

#[test]
fn new_map_is_all_solid_walls() {
    let map = GameMap::new(3);
    assert_eq!(map.width, 80);
    assert_eq!(map.height, 43);
    assert_eq!(map.depth, 3);
    assert_eq!(map.tiles.len(), MAPCOUNT);
    assert_eq!(MAPCOUNT, MAPWIDTH * MAPHEIGHT);
    assert!(map.tiles.iter().all(|t| *t == TileType::Wall));
    assert!(map.revealed_tiles.iter().all(|r| !*r));
    assert!(map.visible_tiles.iter().all(|v| !*v));
    assert!(map.blocked.iter().all(|b| !*b));
    assert!(map.tile_content.iter().all(|c| c.is_empty()));
    assert!(map.bloodstains.is_empty());
}

#[test]
fn xy_idx_is_row_major() {
    let map = GameMap::new(1);
    assert_eq!(map.xy_idx(0, 0), 0);
    assert_eq!(map.xy_idx(5, 2), 2 * 80 + 5);
    assert_eq!(map.xy_idx(79, 42), 42 * 80 + 79);
}

#[test]
fn contains_point_checks_the_grid() {
    let map = GameMap::new(1);
    assert!(map.contains_point(Position { x: 0, y: 0 }));
    assert!(map.contains_point(Position { x: 79, y: 42 }));
    assert!(!map.contains_point(Position { x: 80, y: 0 }));
    assert!(!map.contains_point(Position { x: 0, y: 43 }));
    assert!(!map.contains_point(Position { x: -1, y: 5 }));
}

#[test]
fn populate_blocked_marks_exactly_walls() {
    let mut map = GameMap::new(1);
    let idx = map.xy_idx(10, 10);
    map.tiles[idx] = TileType::Floor;
    map.populate_blocked();
    assert!(!map.blocked[idx]);
    assert!(map.blocked[map.xy_idx(10, 11)]);
}

#[test]
fn clear_content_index_empties_every_tile() {
    let mut map = GameMap::new(1);
    map.tile_content[17].push(4);
    map.tile_content[99].push(5);
    map.clear_content_index();
    assert!(map.tile_content.iter().all(|c| c.is_empty()));
}

#[test]
fn exits_open_around_a_carved_plaza() {
    let mut map = GameMap::new(1);
    for y in 9..=11 {
        for x in 9..=11 {
            let idx = map.xy_idx(x, y);
            map.tiles[idx] = TileType::Floor;
        }
    }
    map.populate_blocked();
    let center = map.xy_idx(10, 10);
    let exits = map.get_available_exits(center);
    assert_eq!(
        exits,
        vec![
            (center - 1, 100),
            (center + 1, 100),
            (center - 80, 100),
            (center + 80, 100),
            (center - 80 - 1, 145),
            (center - 80 + 1, 145),
            (center + 80 - 1, 145),
            (center + 80 + 1, 145),
        ]
    );
}

#[test]
fn exits_are_empty_inside_solid_rock() {
    let mut map = GameMap::new(1);
    map.populate_blocked();
    let exits = map.get_available_exits(map.xy_idx(10, 10));
    assert!(exits.is_empty());
}

#[test]
fn wall_glyph_joins_up_with_revealed_neighbors() {
    let mut map = GameMap::new(1);
    // Nothing revealed: an interior wall stands alone as a pillar.
    assert_eq!(map.wall_glyph(10, 10), 9);
    // The rim always draws as a plain wall.
    assert_eq!(map.wall_glyph(0, 5), 35);
    assert_eq!(map.wall_glyph(79, 5), 35);
    // A revealed wall to the north alone gives a vertical bar.
    let north = map.xy_idx(10, 9);
    map.revealed_tiles[north] = true;
    assert_eq!(map.wall_glyph(10, 10), 186);
    // North and west revealed give the south-east corner piece.
    let west = map.xy_idx(9, 10);
    map.revealed_tiles[west] = true;
    assert_eq!(map.wall_glyph(10, 10), 188);
    // All four revealed give the cross piece.
    let south = map.xy_idx(10, 11);
    let east = map.xy_idx(11, 10);
    map.revealed_tiles[south] = true;
    map.revealed_tiles[east] = true;
    assert_eq!(map.wall_glyph(10, 10), 206);
}

#[test]
fn is_opaque_is_true_exactly_on_walls() {
    let mut map = GameMap::new(1);
    let idx = map.xy_idx(4, 4);
    assert!(map.is_opaque(idx));
    map.tiles[idx] = TileType::Floor;
    assert!(!map.is_opaque(idx));
}

#[test]
fn distance_squared_is_pythagorean() {
    let map = GameMap::new(1);
    let a = map.xy_idx(0, 0);
    let b = map.xy_idx(3, 4);
    assert_eq!(map.distance_squared(a, b), 25);
    assert_eq!(map.distance_squared(b, a), 25);
    assert_eq!(map.distance_squared(a, a), 0);
}

#[test]
fn bloodstains_accumulate_without_duplicates() {
    let mut map = GameMap::new(1);
    assert!(!map.is_bloody(7));
    map.add_bloodstain(7);
    map.add_bloodstain(7);
    map.add_bloodstain(9);
    assert!(map.is_bloody(7));
    assert!(map.is_bloody(9));
    assert!(!map.is_bloody(8));
    assert_eq!(map.bloodstains.len(), 2);
}

#[test]
fn reveal_row_uncovers_one_row() {
    let mut map = GameMap::new(1);
    map.reveal_row(5);
    for x in 0..80 {
        assert!(map.revealed_tiles[map.xy_idx(x, 5)]);
        assert!(!map.revealed_tiles[map.xy_idx(x, 4)]);
        assert!(!map.revealed_tiles[map.xy_idx(x, 6)]);
    }
}

#[test]
fn tile_draw_describes_revealed_tiles_only() {
    let mut map = GameMap::new(1);
    assert_eq!(map.tile_draw(10, 10), None);

    let floor = map.xy_idx(10, 10);
    map.tiles[floor] = TileType::Floor;
    map.revealed_tiles[floor] = true;
    map.visible_tiles[floor] = true;
    let drawn = map.tile_draw(10, 10).unwrap();
    assert_eq!(drawn.glyph, 46);
    assert_eq!(drawn.tile, TileType::Floor);
    assert!(!drawn.bloody);
    assert!(drawn.visible);

    let stairs = map.xy_idx(11, 10);
    map.tiles[stairs] = TileType::DownStairs;
    map.revealed_tiles[stairs] = true;
    map.add_bloodstain(stairs);
    let drawn = map.tile_draw(11, 10).unwrap();
    assert_eq!(drawn.glyph, 62);
    assert_eq!(drawn.tile, TileType::DownStairs);
    assert!(drawn.bloody);
    assert!(!drawn.visible);
}

#[test]
fn indexing_tracks_blockers_and_occupants() {
    let mut map = GameMap::new(1);
    let idx = map.xy_idx(2, 3);
    map.tiles[idx] = TileType::Floor;
    let entities = vec![
        (1u64, Position { x: 2, y: 3 }, false),
        (2u64, Position { x: 2, y: 3 }, true),
        (3u64, Position { x: 4, y: 4 }, false),
    ];
    map_indexing_system(&mut map, &entities);
    assert!(map.blocked[idx]);
    assert_eq!(map.tile_content[idx], vec![1, 2]);
    let other = map.xy_idx(4, 4);
    assert_eq!(map.tile_content[other], vec![3]);
    assert!(map.blocked[other]); // a wall tile stays blocked
}

#[test]
fn indexing_leaves_a_clear_floor_unblocked() {
    let mut map = GameMap::new(1);
    let idx = map.xy_idx(5, 5);
    map.tiles[idx] = TileType::Floor;
    map_indexing_system(&mut map, &vec![(9u64, Position { x: 5, y: 5 }, false)]);
    assert!(!map.blocked[idx]);
    assert_eq!(map.tile_content[idx], vec![9]);
}

#[test]
fn points_on_map_drops_the_off_grid_ones() {
    let map = GameMap::new(1);
    let pts = vec![
        Position { x: 1, y: 1 },
        Position { x: -1, y: 5 },
        Position { x: 80, y: 5 },
        Position { x: 79, y: 42 },
    ];
    let kept = points_on_map(&map, &pts);
    assert_eq!(kept, vec![Position { x: 1, y: 1 }, Position { x: 79, y: 42 }]);
}

#[test]
fn update_viewshed_commits_a_filtered_sweep() {
    let map = GameMap::new(1);
    let mut viewshed = Viewshed { visible_tiles: Vec::new(), range: 8, dirty: true };
    let fov = vec![Position { x: 2, y: 2 }, Position { x: -3, y: 0 }];
    update_viewshed(&mut viewshed, &map, fov);
    assert!(!viewshed.dirty);
    assert_eq!(viewshed.visible_tiles, vec![Position { x: 2, y: 2 }]);
    assert_eq!(viewshed.range, 8);
}

#[test]
fn player_sight_replaces_visibility_and_extends_revelation() {
    let mut map = GameMap::new(1);
    let stale = map.xy_idx(9, 9);
    map.visible_tiles[stale] = true;
    map.revealed_tiles[stale] = true;

    let seen = vec![Position { x: 1, y: 1 }, Position { x: 2, y: 1 }];
    reveal_player_sight(&mut map, &seen);

    assert!(!map.visible_tiles[stale]);
    assert!(map.revealed_tiles[stale]);
    for p in &seen {
        let idx = map.xy_idx(p.x, p.y);
        assert!(map.visible_tiles[idx]);
        assert!(map.revealed_tiles[idx]);
    }
}
