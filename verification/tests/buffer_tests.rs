use asciidraw::buffer::Buffer;
use asciidraw::position::Position;

fn pos(x: i16, y: i16) -> Position {
    Position { x, y }
}

#[test]
fn new_buffer_is_blank() {
    let buffer = Buffer::new(7, 3);
    assert_eq!(buffer.height(), 3);
    assert_eq!(buffer.width(), 7);
    for row in &buffer.cells {
        assert_eq!(row.len(), 7);
        assert!(row.iter().all(|c| *c == ' '));
    }
}

#[test]
fn write_changes_exactly_one_cell() {
    let mut buffer = Buffer::new(5, 4);
    buffer.write(pos(2, 1), 'x');
    for (y, row) in buffer.cells.iter().enumerate() {
        for (x, c) in row.iter().enumerate() {
            if (x, y) == (2, 1) {
                assert_eq!(*c, 'x');
            } else {
                assert_eq!(*c, ' ');
            }
        }
    }
}

#[test]
fn later_glyph_wins_at_same_cell() {
    let mut buffer = Buffer::new(5, 4);
    let glyphs = vec![(pos(1, 1), 'a'), (pos(1, 1), 'b'), (pos(1, 1), 'c')];
    buffer.commit_glyphs(&glyphs);
    assert_eq!(buffer.cells[1][1], 'c');
}

#[test]
fn serialize_matches_grid() {
    let mut buffer = Buffer::new(4, 2);
    buffer.write(pos(0, 0), 'a');
    buffer.write(pos(3, 1), 'z');
    let rows = buffer.serialize();
    assert_eq!(rows, vec![vec!['a', ' ', ' ', ' '], vec![' ', ' ', ' ', 'z']]);
}

#[test]
fn save_round_trip_preserves_rows() {
    // Serializing to line-oriented text and reading the lines back
    // yields the rows character for character, trailing blanks included.
    let mut buffer = Buffer::new(6, 3);
    buffer.write(pos(0, 0), '┌');
    buffer.write(pos(1, 0), '─');
    buffer.write(pos(2, 0), '┐');
    buffer.write(pos(0, 1), '│');
    buffer.write(pos(2, 1), '│');
    buffer.write(pos(4, 2), '*');

    let text = buffer.to_text();
    let joined: String = text.iter().collect();
    let reread: Vec<Vec<char>> = joined.lines().map(|line| line.chars().collect()).collect();

    assert_eq!(reread, buffer.serialize());
    assert_eq!(reread[0], vec!['┌', '─', '┐', ' ', ' ', ' ']);
    assert_eq!(reread[2], vec![' ', ' ', ' ', ' ', '*', ' ']);
}

#[test]
fn to_text_terminates_every_row() {
    let buffer = Buffer::new(3, 2);
    let text: String = buffer.to_text().iter().collect();
    assert_eq!(text, "   \n   \n");
}

#[test]
fn largest_addressable_buffer() {
    // The extreme dimensions a `Position` can address.
    let mut buffer = Buffer::new(32767, 2);
    buffer.write(pos(32766, 1), '#');
    assert_eq!(buffer.cells[1][32766], '#');
}
