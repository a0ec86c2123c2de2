use rpg_core::textbox::Textbox;
use rpg_core::tile::{Tile, TileGrid};

fn small_grid() -> TileGrid {
    let mut row0: Vec<Tile> = Vec::new();
    row0.push(Tile::new("floor".to_owned(), 0, 0, false));
    row0.push(Tile::new("wall".to_owned(), 1, 0, true));
    let mut row1: Vec<Tile> = Vec::new();
    row1.push(Tile::new("floor".to_owned(), 0, 1, false));
    row1.push(Tile::new("floor".to_owned(), 1, 1, false));
    TileGrid::new(vec![row0, row1])
}

#[test]
fn blocking_and_occupied_tiles_are_not_walkable() {
    let mut t = Tile::new("floor".to_owned(), 0, 0, false);
    assert!(t.is_walkable());
    t.set_occupied();
    assert!(!t.is_walkable());
    t.set_unoccupied();
    assert!(t.is_walkable());
    let w = Tile::new("wall".to_owned(), 1, 0, true);
    assert!(!w.is_walkable());
}

#[test]
fn grid_occupancy_is_per_tile() {
    let mut g = small_grid();
    assert!(g.is_tile_empty(0, 0));
    assert!(!g.is_tile_empty(1, 0)); // the wall
    g.set_occupied(0, 1);
    assert!(!g.is_tile_empty(0, 1));
    assert!(g.is_tile_empty(0, 0));
    assert!(g.is_tile_empty(1, 1));
    g.set_unoccupied(0, 1);
    assert!(g.is_tile_empty(0, 1));
}

#[test]
fn textbox_pages_through_and_closes_on_the_last_page() {
    let mut t = Textbox::new();
    assert!(!t.is_open());
    let pages = vec!["Hello dude, what up?".to_owned(), "Cool bro!".to_owned()];
    t.set_textboxes("Seraphine".to_owned(), &pages);
    assert!(t.is_open());
    assert_eq!(t.current_text(), "Hello dude, what up?");
    t.update(false);
    assert!(t.is_open());
    t.update(true);
    assert!(t.is_open());
    assert_eq!(t.current_text(), "Cool bro!");
    t.update(true);
    assert!(!t.is_open());
}

#[test]
fn closed_textboxes_ignore_confirm() {
    let mut t = Textbox::new();
    t.update(true);
    assert!(!t.is_open());
    assert_eq!(t.textbox_index, 0);
}
