use gridview::grid::Grid;
use gridview::render::{border_line, format_cell, prompt_label, save_label, table_width, visible_cells, Border, Style};
use gridview::session::{Mode, SaveState};
use gridview::viewport::{arrows, indicator, Indicator, Viewport};

#[test]
fn ten_columns_on_sixty_one_wide_terminal() {
    let v = Viewport::compute(10, 1, 20, 61, 24, 0, 0);
    assert_eq!(v.visible_cols, 3);
    assert_eq!(v.col_skip, 0);
    let v = Viewport::compute(10, 1, 20, 61, 24, 5, 0);
    assert_eq!(v.visible_cols, 3);
    assert_eq!(v.col_skip, 3);
}

#[test]
fn rows_fit_the_terminal_height() {
    // 30 lines leave 24 for the table: 12 rows of two lines.
    let v = Viewport::compute(2, 100, 20, 80, 30, 0, 0);
    assert_eq!(v.visible_rows, 12);
    assert_eq!(v.row_skip, 0);
    let v = Viewport::compute(2, 100, 20, 80, 30, 0, 40);
    assert_eq!(v.row_skip, 29);
    let v = Viewport::compute(2, 3, 20, 80, 30, 0, 2);
    assert_eq!(v.visible_rows, 3);
    assert_eq!(v.row_skip, 0);
}

#[test]
fn tiny_terminal_shows_one_cell() {
    let v = Viewport::compute(4, 4, 20, 5, 3, 3, 2);
    assert_eq!(v, Viewport { row_skip: 2, col_skip: 3, visible_rows: 1, visible_cols: 1 });
}

#[test]
fn indicators() {
    assert_eq!(indicator(2, 3), Indicator::Boundary);
    assert_eq!(indicator(5, 3), Indicator::Scrolled);
    assert_eq!(indicator(0, 3), Indicator::Within);
    let v = Viewport::compute(10, 10, 20, 61, 12, 5, 0);
    assert_eq!(arrows(&v, 5, 0), ('▲', '▶'));
    let v = Viewport::compute(10, 10, 20, 61, 12, 2, 2);
    assert_eq!(arrows(&v, 2, 2), ('⚫', '⚫'));
}

#[test]
fn short_text_is_unchanged() {
    assert_eq!(format_cell(&"hello".to_string(), 20), "hello");
}

#[test]
fn long_text_is_cut_with_marker() {
    let s = "abcdefghijklmnopqrstuvwxyz".to_string();
    assert_eq!(format_cell(&s, 20), "abcdefghijklmnop→");
    let exact = "abcdefghijklmnopqrst".to_string();
    assert_eq!(format_cell(&exact, 20), "abcdefghijklmnop→");
    assert_eq!(format_cell(&"ab".to_string(), 2), "→");
}

#[test]
fn border_lines() {
    let top: String = border_line(Border::Top, 6, 3).into_iter().collect();
    assert_eq!(top, "┌──┬──┐");
    let mid: String = border_line(Border::Middle, 6, 3).into_iter().collect();
    assert_eq!(mid, "├──┼──┤");
    let bot: String = border_line(Border::Bottom, 6, 3).into_iter().collect();
    assert_eq!(bot, "└──┴──┘");
}

#[test]
fn cells_of_the_window() {
    let data: Vec<Vec<String>> = (0..4)
        .map(|r| (0..5).map(|c| format!("{}{}", c, r)).collect())
        .collect();
    let mut g = Grid::from_rows(data).unwrap();
    g.has_header = true;
    let v = Viewport::compute(5, 4, 20, 61, 24, 4, 1);
    assert_eq!(v.col_skip, 2);
    let cells = visible_cells(&g, &v, 4, 1, 20, 61, 24);
    assert_eq!(cells.len(), 4);
    assert_eq!(cells[0].len(), 3);
    assert_eq!(cells[0][0].text, "20");
    assert_eq!(cells[0][0].style, Style::Header);
    assert_eq!((cells[0][0].x, cells[0][0].y), (2, 5));
    assert_eq!(cells[1][2].text, "41");
    assert_eq!(cells[1][2].style, Style::Selected);
    assert_eq!((cells[1][2].x, cells[1][2].y), (42, 7));
    assert_eq!(cells[3][1].style, Style::Plain);
    assert_eq!(table_width(&v, 20, 61, 24), 60);
}

#[test]
fn labels() {
    assert_eq!(save_label(SaveState::Dirty), "edited");
    assert_eq!(save_label(SaveState::Clean), "saved");
    assert_eq!(prompt_label(Mode::Normal), None);
    assert_eq!(prompt_label(Mode::Editing), Some("Editor: "));
    assert_eq!(prompt_label(Mode::GoTo), Some("Going to: "));
    assert_eq!(prompt_label(Mode::Resize), Some("New size: "));
}

#[test]
fn scrolled_arrows_point_down_and_right() {
    let v = Viewport::compute(10, 10, 20, 20, 8, 1, 1);
    assert_eq!((v.visible_rows, v.visible_cols), (1, 1));
    assert_eq!(arrows(&v, 1, 1), ('▼', '▶'));
    let v = Viewport::compute(10, 10, 20, 61, 12, 0, 0);
    assert_eq!(arrows(&v, 0, 0), ('▲', '◀'));
}
