//! The background tile importer: symbol legend lookup and bottom-up layout.

use platformer::tiles::{layout_tiles, str_eq, texture_for, TilePlacement};

fn legend() -> Vec<(char, String)> {
    vec![('#', String::from("ground")), ('.', String::from("sky"))]
}

#[test]
fn ground_symbol_gets_ground_texture() {
    let legend = legend();
    assert_eq!(texture_for(&legend, '#'), 7);
    assert_eq!(texture_for(&legend, '.'), 0);
    // A symbol the legend does not mention falls back to the default.
    assert_eq!(texture_for(&legend, '?'), 0);
}

#[test]
fn category_must_match_exactly() {
    let legend = vec![
        ('g', String::from("Ground")),
        ('h', String::from("ground ")),
        ('i', String::from("groun")),
        ('j', String::from("ground")),
    ];
    assert_eq!(texture_for(&legend, 'g'), 0);
    assert_eq!(texture_for(&legend, 'h'), 0);
    assert_eq!(texture_for(&legend, 'i'), 0);
    assert_eq!(texture_for(&legend, 'j'), 7);
}

#[test]
fn str_eq_compares_contents() {
    assert!(str_eq("ground", "ground"));
    assert!(!str_eq("ground", "Ground"));
    assert!(!str_eq("ground", "groundwork"));
    assert!(str_eq("", ""));
    assert!(!str_eq("", "g"));
}

#[test]
fn rows_are_laid_out_bottom_first() {
    let legend = legend();
    let rows = vec![String::from(".."), String::from("#.")];
    let tiles = layout_tiles(&legend, &rows);
    // The last line is the bottom row (row 0), left to right; the first
    // line sits above it.
    assert_eq!(
        tiles,
        vec![
            TilePlacement { col: 0, row_from_bottom: 0, texture: 7 },
            TilePlacement { col: 1, row_from_bottom: 0, texture: 0 },
            TilePlacement { col: 0, row_from_bottom: 1, texture: 0 },
            TilePlacement { col: 1, row_from_bottom: 1, texture: 0 },
        ]
    );
}

#[test]
fn ragged_rows_and_empty_map() {
    let legend = legend();
    let rows = vec![String::from("#"), String::from("###")];
    let tiles = layout_tiles(&legend, &rows);
    assert_eq!(tiles.len(), 4);
    assert_eq!(tiles[0], TilePlacement { col: 0, row_from_bottom: 0, texture: 7 });
    assert_eq!(tiles[2], TilePlacement { col: 2, row_from_bottom: 0, texture: 7 });
    assert_eq!(tiles[3], TilePlacement { col: 0, row_from_bottom: 1, texture: 7 });
    let empty: Vec<String> = Vec::new();
    assert_eq!(layout_tiles(&legend, &empty), Vec::new());
}
