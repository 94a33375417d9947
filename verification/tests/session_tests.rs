use asciidraw::app::{App, AppMode, EditorMode, Key, KeyInput};
use asciidraw::position::Position;

fn key(code: Key) -> KeyInput {
    KeyInput { code, ctrl: false }
}

fn ctrl(c: char) -> KeyInput {
    KeyInput { code: Key::Char(c), ctrl: true }
}

fn pos(x: i16, y: i16) -> Position {
    Position { x, y }
}

/// Drives the cursor to an exact position from wherever it starts.
fn park_cursor(app: &mut App, x: i16, y: i16) {
    for _ in 0..app.buffer.cells[0].len() {
        app.handle_key(key(Key::Left));
        app.handle_key(key(Key::Up));
    }
    for _ in 0..x {
        app.handle_key(key(Key::Right));
    }
    for _ in 0..y {
        app.handle_key(key(Key::Down));
    }
    assert_eq!(app.editor.current_position, pos(x, y));
}

#[test]
fn new_session_defaults() {
    let app = App::new(21, 8);
    assert_eq!(app.editor.current_position, pos(3, 4));
    assert_eq!(app.editor.last_position, pos(0, 0));
    assert_eq!(app.editor_mode, EditorMode::Explore);
    assert!(!app.selected);
    assert!(app.line_alignment);
    assert!(!app.should_quit());
    assert_eq!(app.app_mode, AppMode::Editor);
    assert_eq!(app.buffer.cells.len(), 8);
    for row in &app.buffer.cells {
        assert_eq!(row.len(), 21);
        assert!(row.iter().all(|c| *c == ' '));
    }
}

#[test]
fn movement_clamping_never_leaves_grid() {
    // Whatever run of moves is pressed, the cursor stays inside
    // [0, width) x [0, height).
    let mut app = App::new(10, 5);
    for _ in 0..30 {
        app.handle_key(key(Key::Left));
    }
    assert_eq!(app.editor.current_position.x, 0);
    for _ in 0..30 {
        app.handle_key(key(Key::Right));
    }
    assert_eq!(app.editor.current_position.x, 9);
    for _ in 0..30 {
        app.handle_key(key(Key::Up));
    }
    assert_eq!(app.editor.current_position.y, 0);
    for _ in 0..30 {
        app.handle_key(key(Key::Down));
    }
    assert_eq!(app.editor.current_position.y, 4);

    let moves = [Key::Left, Key::Down, Key::Down, Key::Right, Key::Up, Key::Left, Key::Up];
    for _ in 0..50 {
        for m in moves {
            app.handle_key(key(m));
            let p = app.editor.current_position;
            assert!(0 <= p.x && p.x < 10);
            assert!(0 <= p.y && p.y < 5);
        }
    }
}

#[test]
fn mode_chords_switch_modes() {
    let mut app = App::new(20, 10);
    app.handle_key(ctrl('w'));
    assert_eq!(app.editor_mode, EditorMode::Rectangle);
    app.handle_key(ctrl('e'));
    assert_eq!(app.editor_mode, EditorMode::Text);
    app.handle_key(ctrl('a'));
    assert_eq!(app.editor_mode, EditorMode::Line);
    app.handle_key(ctrl('d'));
    assert_eq!(app.editor_mode, EditorMode::Arrow);
    app.handle_key(ctrl('q'));
    assert_eq!(app.editor_mode, EditorMode::Explore);
}

#[test]
fn mode_switch_keeps_buffer_and_latch() {
    let mut app = App::new(20, 10);
    park_cursor(&mut app, 2, 2);
    app.handle_key(key(Key::Char(' ')));
    assert!(app.selected);
    let cells_before = app.buffer.cells.clone();
    app.handle_key(ctrl('w'));
    assert!(app.selected);
    assert_eq!(app.editor.last_position, pos(2, 2));
    assert_eq!(app.buffer.cells, cells_before);
}

#[test]
fn alignment_toggle_flips() {
    let mut app = App::new(20, 10);
    assert!(app.line_alignment);
    app.handle_key(ctrl('r'));
    assert!(!app.line_alignment);
    app.handle_key(ctrl('r'));
    assert!(app.line_alignment);
}

#[test]
fn select_toggle_commits_at_same_point() {
    // Two select actions with no movement between them: the first
    // latches the anchor, the second commits the degenerate shape at
    // that same point and releases the latch — no error.
    let mut app = App::new(20, 10);
    park_cursor(&mut app, 5, 5);
    app.handle_key(key(Key::Char(' ')));
    assert!(app.selected);
    assert_eq!(app.editor.last_position, pos(5, 5));
    app.handle_key(key(Key::Char(' ')));
    assert!(!app.selected);
    // Explore mode commits its marker at the one point.
    assert_eq!(app.buffer.cells[5][5], '*');
    let written: usize = app
        .buffer
        .cells
        .iter()
        .map(|row| row.iter().filter(|c| **c != ' ').count())
        .sum();
    assert_eq!(written, 1);
}

#[test]
fn commit_rectangle_between_anchor_and_cursor() {
    let mut app = App::new(20, 10);
    app.handle_key(ctrl('w'));
    park_cursor(&mut app, 2, 2);
    app.handle_key(key(Key::Char(' ')));
    park_cursor(&mut app, 6, 5);
    app.handle_key(key(Key::Char(' ')));
    assert_eq!(app.buffer.cells[2][2], '┌');
    assert_eq!(app.buffer.cells[2][6], '┐');
    assert_eq!(app.buffer.cells[5][6], '┘');
    assert_eq!(app.buffer.cells[5][2], '└');
    assert_eq!(app.buffer.cells[2][4], '─');
    assert_eq!(app.buffer.cells[4][2], '│');
}

#[test]
fn mode_isolation_commit_uses_current_mode() {
    // The anchor is captured while exploring; the mode is switched to
    // Rectangle before the commit. The commit must use the rectangle
    // geometry, not the mode active at capture time.
    let mut app = App::new(20, 10);
    park_cursor(&mut app, 1, 1);
    app.handle_key(key(Key::Char(' ')));
    park_cursor(&mut app, 4, 3);
    app.handle_key(ctrl('w'));
    app.handle_key(key(Key::Char(' ')));
    assert_eq!(app.buffer.cells[1][1], '┌');
    assert_eq!(app.buffer.cells[1][4], '┐');
    assert_eq!(app.buffer.cells[3][4], '┘');
    assert_eq!(app.buffer.cells[3][1], '└');
    // No stray explore marker anywhere.
    for row in &app.buffer.cells {
        assert!(!row.contains(&'*'));
    }
}

#[test]
fn escape_to_explore_keeps_selection() {
    // The escape chord resets the mode to Explore but deliberately
    // leaves the latch and the positions alone.
    let mut app = App::new(20, 10);
    app.handle_key(ctrl('a'));
    park_cursor(&mut app, 3, 3);
    app.handle_key(key(Key::Char(' ')));
    app.handle_key(ctrl('q'));
    assert_eq!(app.editor_mode, EditorMode::Explore);
    assert!(app.selected);
    assert_eq!(app.editor.last_position, pos(3, 3));
}

#[test]
fn text_mode_types_and_erases() {
    let mut app = App::new(20, 10);
    app.handle_key(ctrl('e'));
    park_cursor(&mut app, 2, 1);
    app.handle_key(key(Key::Char('h')));
    app.handle_key(key(Key::Char('i')));
    assert_eq!(app.buffer.cells[1][2], 'h');
    assert_eq!(app.buffer.cells[1][3], 'i');
    assert_eq!(app.editor.current_position, pos(4, 1));
    app.handle_key(key(Key::Backspace));
    assert_eq!(app.buffer.cells[1][4], ' ');
    assert_eq!(app.editor.current_position, pos(3, 1));
    app.handle_key(key(Key::Backspace));
    assert_eq!(app.buffer.cells[1][3], ' ');
    assert_eq!(app.editor.current_position, pos(2, 1));
}

#[test]
fn text_mode_ignores_select_toggle() {
    let mut app = App::new(20, 10);
    app.handle_key(ctrl('e'));
    park_cursor(&mut app, 2, 1);
    app.handle_key(key(Key::Char(' ')));
    // The space bar typed a blank instead of toggling the latch.
    assert!(!app.selected);
    assert_eq!(app.editor.current_position, pos(3, 1));
}

#[test]
fn quit_chord_sets_flag() {
    let mut app = App::new(20, 10);
    assert!(!app.should_quit());
    app.handle_key(ctrl('c'));
    assert!(app.should_quit());
}

#[test]
fn save_chord_requests_save_and_resumes() {
    let mut app = App::new(20, 10);
    let save = app.handle_key(key(Key::Char('x')));
    assert!(!save);
    // In explore mode the 'x' key is a no-op, not a keystroke.
    assert!(app.buffer.cells.iter().all(|row| row.iter().all(|c| *c == ' ')));
    let save = app.handle_key(ctrl('s'));
    assert!(save);
    assert_eq!(app.app_mode, AppMode::Command);
    app.complete_save();
    assert_eq!(app.app_mode, AppMode::Editor);
    let save = app.handle_key(key(Key::Right));
    assert!(!save);
}

#[test]
fn save_submode_suspends_routing() {
    let mut app = App::new(20, 10);
    let start = app.editor.current_position;
    app.handle_key(ctrl('s'));
    // While the submode is active, a key press is not routed to the
    // editor; it only re-requests the save dialog.
    let save = app.handle_key(key(Key::Right));
    assert!(save);
    assert_eq!(app.editor.current_position, start);
}

#[test]
fn preview_follows_latch_and_mode() {
    let mut app = App::new(20, 10);
    park_cursor(&mut app, 4, 2);
    let glyphs = app.preview();
    assert_eq!(glyphs, vec![(pos(4, 2), '*')]);

    app.handle_key(ctrl('w'));
    app.handle_key(key(Key::Char(' ')));
    park_cursor(&mut app, 6, 4);
    let glyphs = app.preview();
    // The live rectangle between (4,2) and (6,4), not yet committed.
    assert!(glyphs.contains(&(pos(4, 2), '┌')));
    assert!(glyphs.contains(&(pos(6, 4), '┘')));
    assert!(app.buffer.cells.iter().all(|row| row.iter().all(|c| *c == ' ')));

    app.handle_key(key(Key::Char(' ')));
    app.handle_key(ctrl('e'));
    // Latch released by the commit; text mode previews no marker.
    assert!(!app.selected);
    let glyphs = app.preview();
    assert!(glyphs.is_empty());
}
