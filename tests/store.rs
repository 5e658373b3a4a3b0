use gridview::coms::{read, StoreError};
use gridview::grid::Grid;

#[test]
fn read_keeps_every_record() {
    let g = read(b"name,age\nann,31\nbob,4\n").unwrap();
    assert_eq!(g.cols(), 2);
    assert_eq!(g.rows(), 3);
    assert_eq!(g.get(0, 0), Ok("name".to_string()));
    assert_eq!(g.get(1, 2), Ok("4".to_string()));
    assert!(!g.has_header);
}

#[test]
fn write_then_read_round_trip() {
    let text: &[u8] = b"a,\"b,c\"\n\"say \"\"hi\"\"\",d\n";
    let g = read(text).unwrap();
    assert_eq!(g.get(1, 0), Ok("b,c".to_string()));
    assert_eq!(g.get(0, 1), Ok("say \"hi\"".to_string()));
    let bytes = gridview::coms::write(&g).unwrap();
    assert_eq!(bytes, text.to_vec());
    let again = read(&bytes).unwrap();
    assert_eq!(again.data, g.data);
    let bytes2 = gridview::coms::write(&again).unwrap();
    assert_eq!(bytes2, bytes);
}

#[test]
fn write_seed_grid() {
    assert_eq!(gridview::coms::write(&Grid::seed()).unwrap(), b"Empty\n0\n".to_vec());
}

#[test]
fn read_errors() {
    assert!(matches!(read(b""), Err(StoreError::NotRectangular)));
    assert!(matches!(read(b"a,b\nc\n"), Err(StoreError::Format)));
    assert!(matches!(read(b"\xff\xfe,a\n"), Err(StoreError::Format)));
}
