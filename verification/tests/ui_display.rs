use flower_genetics::display::Display;
use flower_genetics::ui::{empty_string_grid, to_grid};

#[test]
fn to_grid_cuts_rows() {
    let g = to_grid("abcdef".to_string(), 4);
    assert_eq!(
        g,
        vec![
            vec!["a".to_string(), "b".to_string(), "c".to_string(), "d".to_string()],
            vec!["e".to_string(), "f".to_string()],
        ]
    );
}

#[test]
fn to_grid_exact_multiple_and_empty() {
    let g = to_grid("abcd".to_string(), 2);
    assert_eq!(g.len(), 2);
    assert_eq!(g[0], vec!["a".to_string(), "b".to_string()]);
    assert_eq!(g[1], vec!["c".to_string(), "d".to_string()]);
    let empty = to_grid(String::new(), 3);
    assert_eq!(empty.len(), 0);
}

#[test]
fn empty_grid_is_all_spaces() {
    let g = empty_string_grid((3, 2));
    assert_eq!(g.len(), 2);
    for row in &g {
        assert_eq!(row.len(), 3);
        for cell in row {
            assert_eq!(cell, " ");
        }
    }
}

#[test]
fn display_measures_template() {
    let d = Display::new();
    assert_eq!(d.board_size(), (9, 9));
    let s = d.to_string();
    // eleven rows of forty characters, newlines included
    assert_eq!(s.chars().count(), 440);
    assert!(s.starts_with("+--------------------+"));
    assert!(!s.contains('#'));
}

#[test]
fn stamp_overwrites_cells() {
    let mut d = Display::new();
    let row = vec!["X".to_string(), "Y".to_string()];
    d.stamp_row(&row, (1, 1));
    let s = d.to_string();
    let lines: Vec<&str> = s.split('\n').collect();
    assert!(lines[1].starts_with("|XY"));
    let grid = vec![
        vec!["A".to_string(), "B".to_string()],
        vec!["C".to_string(), "D".to_string()],
    ];
    d.stamp(grid, (3, 2));
    let s2 = d.to_string();
    let lines2: Vec<&str> = s2.split('\n').collect();
    assert!(lines2[2].starts_with("|  AB"));
    assert!(lines2[3].starts_with("|  CD"));
}

#[test]
fn stamp_truncates_past_width() {
    let mut d = Display::new();
    let long_row: Vec<String> = (0..60).map(|_| "Z".to_string()).collect();
    d.stamp_row(&long_row, (38, 0));
    let s = d.to_string();
    let first: Vec<char> = s.chars().take(40).collect();
    // only the cells inside the forty-character row were replaced
    assert_eq!(first[38], 'Z');
    assert_eq!(first[39], 'Z');
    assert_eq!(s.chars().count(), 440);
}

#[test]
fn reset_display_restores_template() {
    let mut d = Display::new();
    let before = d.to_string();
    d.stamp_row(&vec!["X".to_string()], (1, 1));
    assert_ne!(d.to_string(), before);
    d.reset_display();
    let after = d.to_string();
    // the reset picture repeats the template, '#' terminator included
    assert!(after.starts_with(&before));
    assert!(after.ends_with('#'));
}

#[test]
fn refresh_addresses_each_line() {
    let d = Display::new();
    let r = d.refresh();
    assert!(r.starts_with("\x1B[1H+--------------------+"));
    assert!(r.contains("\x1B[11H+"));
    assert_eq!(r.matches('\n').count(), 22); // one per template row, one per repaint line
}
