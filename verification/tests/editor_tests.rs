use asciidraw::editor::Editor;
use asciidraw::position::Position;

fn pos(x: i16, y: i16) -> Position {
    Position { x, y }
}

#[test]
fn new_editor_starts_at_given_position() {
    let editor = Editor::new(pos(4, 2));
    assert_eq!(editor.get_position(), pos(4, 2));
    assert_eq!(editor.get_last_position(), pos(0, 0));
}

#[test]
fn move_position_translates_and_clamps() {
    let borders = pos(9, 4);
    let mut editor = Editor::new(pos(4, 2));
    editor.move_position(pos(1, 0), borders);
    assert_eq!(editor.get_position(), pos(5, 2));
    editor.move_position(pos(0, -1), borders);
    assert_eq!(editor.get_position(), pos(5, 1));
    editor.move_position(pos(100, 100), borders);
    assert_eq!(editor.get_position(), pos(9, 4));
    editor.move_position(pos(-100, -100), borders);
    assert_eq!(editor.get_position(), pos(0, 0));
}

#[test]
fn set_last_position_captures_current() {
    let mut editor = Editor::new(pos(4, 2));
    editor.move_position(pos(1, 1), pos(9, 9));
    editor.set_last_position();
    assert_eq!(editor.get_last_position(), pos(5, 3));
    assert_eq!(editor.get_position(), pos(5, 3));
}
