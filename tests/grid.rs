use gridview::grid::{resize_data, Grid, GridError};
use gridview::parse::{parse_number, parse_pair};

fn table(rows: &[&[&str]]) -> Vec<Vec<String>> {
    rows.iter().map(|r| r.iter().map(|c| c.to_string()).collect()).collect()
}

#[test]
fn resize_data_grows_with_placeholders() {
    let mut data = table(&[&["a", "b"], &["c", "d"]]);
    resize_data(&mut data, 3, 3);
    assert_eq!(data, table(&[&["a", "b", "/"], &["c", "d", "/"], &["/", "/", "/"]]));
}

#[test]
fn resize_data_shrinks() {
    let mut data = table(&[&["a", "b", "c"], &["d", "e", "f"], &["g", "h", "i"]]);
    resize_data(&mut data, 2, 1);
    assert_eq!(data, table(&[&["a", "b"]]));
}

#[test]
fn resize_data_pads_ragged_rows() {
    let mut data = table(&[&["a"], &["b", "c", "d"]]);
    resize_data(&mut data, 2, 2);
    assert_eq!(data, table(&[&["a", "/"], &["b", "c"]]));
}

#[test]
fn resize_then_get_cells() {
    let mut g = Grid::from_rows(table(&[&["a", "b"], &["c", "d"]])).unwrap();
    assert_eq!(g.resize(3, 1), Ok(()));
    assert_eq!(g.cols(), 3);
    assert_eq!(g.rows(), 1);
    assert_eq!(g.get(0, 0), Ok("a".to_string()));
    assert_eq!(g.get(1, 0), Ok("b".to_string()));
    assert_eq!(g.get(2, 0), Ok("/".to_string()));
    assert_eq!(g.get(0, 1), Err(GridError::OutOfBounds));
}

#[test]
fn resize_to_zero_is_refused() {
    let mut g = Grid::from_rows(table(&[&["a"]])).unwrap();
    assert_eq!(g.resize(0, 2), Err(GridError::EmptySize));
    assert_eq!(g.resize(2, 0), Err(GridError::EmptySize));
    assert_eq!(g.cols(), 1);
    assert_eq!(g.rows(), 1);
}

#[test]
fn set_writes_one_cell() {
    let mut g = Grid::from_rows(table(&[&["a", "b"], &["c", "d"]])).unwrap();
    assert_eq!(g.set(1, 0, "x".to_string()), Ok(()));
    assert_eq!(g.data, table(&[&["a", "x"], &["c", "d"]]));
    assert_eq!(g.set(2, 0, "y".to_string()), Err(GridError::OutOfBounds));
    assert_eq!(g.set(0, 2, "y".to_string()), Err(GridError::OutOfBounds));
    assert_eq!(g.data, table(&[&["a", "x"], &["c", "d"]]));
}

#[test]
fn from_rows_refuses_non_tables() {
    assert!(matches!(Grid::from_rows(vec![]), Err(GridError::NotRectangular)));
    assert!(matches!(Grid::from_rows(vec![vec![]]), Err(GridError::NotRectangular)));
    assert!(matches!(
        Grid::from_rows(table(&[&["a", "b"], &["c"]])),
        Err(GridError::NotRectangular)
    ));
}

#[test]
fn seed_grid() {
    let g = Grid::seed();
    assert_eq!(g.data, table(&[&["Empty"], &["0"]]));
    assert!(!g.has_header);
}

fn chars(s: &str) -> Vec<char> {
    s.chars().collect()
}

#[test]
fn pair_parsing() {
    assert_eq!(parse_pair(&chars("2,3")), Some((2, 3)));
    assert_eq!(parse_pair(&chars("10,0")), Some((10, 0)));
    assert_eq!(parse_pair(&chars("2")), None);
    assert_eq!(parse_pair(&chars("")), None);
    assert_eq!(parse_pair(&chars(",3")), None);
    assert_eq!(parse_pair(&chars("2,")), None);
    assert_eq!(parse_pair(&chars("1,2,3")), None);
    assert_eq!(parse_pair(&chars("a,3")), None);
    assert_eq!(parse_pair(&chars("2, 3")), None);
    assert_eq!(parse_pair(&chars("-1,3")), None);
}

#[test]
fn number_parsing_limits() {
    let max = usize::MAX.to_string();
    assert_eq!(parse_number(&chars(&max), 0, max.len()), Some(usize::MAX));
    let over = format!("{}0", max);
    assert_eq!(parse_number(&chars(&over), 0, over.len()), None);
    assert_eq!(parse_number(&chars("x42y"), 1, 3), Some(42));
    assert_eq!(parse_number(&chars("42"), 1, 1), None);
}
