use vstd::prelude::*;
use crate::buffer::{apply_glyphs, write_cell, Buffer, BLANK};
use crate::editor::Editor;
use crate::geometry::{
    arrow_glyphs_spec, get_line_vertices, get_rect_vertices, lemma_arrow_glyphs_in_hull,
    lemma_line_glyphs_in_hull, lemma_rect_glyphs_bounds, line_glyphs_spec, line_vertices_spec,
    rect_glyphs_spec, rect_vertices_spec, write_arrow, write_line, write_rectangle, Glyph,
    EXPLORE_MARKER,
};
use crate::position::{clamp, Position};

verus! {

/// The editor's drawing modes. Exactly one is active at a time and
/// determines how a commit or preview interprets the anchor-to-cursor
/// vector. `Rotate` and `Quit` are listed so the footer can show their
/// key bindings; they are actions, never the active mode.
#[derive(Clone, Copy, PartialEq, Eq, Structural, Debug)]
pub enum EditorMode {
    Explore,
    Rectangle,
    Text,
    Line,
    Arrow,
    Rotate,
    Quit,
}

/// Normal editing versus the transient submode that collects a save
/// filename; while the latter is active, normal key routing is
/// suspended.
#[derive(Clone, Copy, PartialEq, Eq, Structural, Debug)]
pub enum AppMode {
    Editor,
    Command,
}

/// An abstract key symbol, as decoded by the surrounding input source.
/// Keys the editor does not react to arrive as `Other`.
#[derive(Clone, Copy, PartialEq, Eq, Structural, Debug)]
pub enum Key {
    Up,
    Down,
    Left,
    Right,
    Backspace,
    Char(char),
    Other,
}

/// One key press together with its control-modifier bit.
#[derive(Clone, Copy, PartialEq, Eq, Structural, Debug)]
pub struct KeyInput {
    pub code: Key,
    pub ctrl: bool,
}

/// The glyphs the active mode stamps between the anchor (`last`) and the
/// current point: a rectangle spanned by the two points, a bent line or
/// arrow under the given alignment, a single marker in explore mode, and
/// nothing in the remaining modes.
pub open spec fn editor_write_spec(
    mode: EditorMode,
    current: Position,
    last: Position,
    line_alignment: bool,
) -> Seq<Glyph> {
    match mode {
        EditorMode::Rectangle => rect_glyphs_spec(rect_vertices_spec(last, current)),
        EditorMode::Line => line_glyphs_spec(line_vertices_spec(last, current, line_alignment)),
        EditorMode::Arrow => arrow_glyphs_spec(line_vertices_spec(last, current, line_alignment)),
        EditorMode::Explore => seq![(current, EXPLORE_MARKER)],
        EditorMode::Text => Seq::empty(),
        EditorMode::Rotate => Seq::empty(),
        EditorMode::Quit => Seq::empty(),
    }
}

/// The session state as pure mathematics: the model that every contract
/// and law of the state machine is stated over.
#[verifier::ext_equal]
pub ghost struct AppState {
    pub curr: Position,
    pub last: Position,
    pub mode: EditorMode,
    pub selected: bool,
    pub line_alignment: bool,
    pub should_quit: bool,
    pub app_mode: AppMode,
    pub grid: Seq<Seq<char>>,
}

impl AppState {
    pub open spec fn width(self) -> int {
        self.grid[0].len() as int
    }

    pub open spec fn height(self) -> int {
        self.grid.len() as int
    }

    /// The session invariant: the grid is non-empty in both dimensions
    /// and addressable by `Position`, every row has the same width, and
    /// both cursor positions lie inside the grid.
    pub open spec fn inv(self) -> bool {
        &&& 1 <= self.height() <= i16::MAX
        &&& 1 <= self.width() <= i16::MAX
        &&& forall|i: int| 0 <= i < self.height() ==> (#[trigger] self.grid[i]).len() == self.width()
        &&& 0 <= self.curr.x < self.width() && 0 <= self.curr.y < self.height()
        &&& 0 <= self.last.x < self.width() && 0 <= self.last.y < self.height()
    }

    /// Movement: the current position translated by `(dx, dy)`, each
    /// axis clamped independently into the grid.
    pub open spec fn moved(self, dx: int, dy: int) -> AppState {
        AppState {
            curr: Position {
                x: clamp(self.curr.x + dx, 0, self.width() - 1) as i16,
                y: clamp(self.curr.y + dy, 0, self.height() - 1) as i16,
            },
            ..self
        }
    }

    /// A mode switch: it changes the interpretation of later input and
    /// nothing else — neither positions, nor the latch, nor the buffer.
    pub open spec fn with_mode(self, mode: EditorMode) -> AppState {
        AppState { mode, ..self }
    }

    /// The two-phase select toggle: with the latch clear, capture the
    /// anchor at the current position; with the latch set, commit the
    /// active mode's shape between anchor and current position into the
    /// grid and clear the latch.
    pub open spec fn select_toggled(self) -> AppState {
        if self.selected {
            AppState {
                selected: false,
                grid: apply_glyphs(
                    self.grid,
                    editor_write_spec(self.mode, self.curr, self.last, self.line_alignment),
                ),
                ..self
            }
        } else {
            AppState { selected: true, last: self.curr, ..self }
        }
    }

    /// A text-mode keystroke: the character lands at the current
    /// position, then the cursor steps one cell right (clamped).
    pub open spec fn text_written(self, c: char) -> AppState {
        (AppState { grid: write_cell(self.grid, self.curr, c), ..self }).moved(1, 0)
    }

    /// A text-mode backspace: the current cell is blanked, then the
    /// cursor steps one cell left (clamped).
    pub open spec fn backspaced(self) -> AppState {
        (AppState { grid: write_cell(self.grid, self.curr, BLANK), ..self }).moved(-1, 0)
    }

    /// One key press routed in normal editing: movement, mode selection,
    /// alignment toggle, text-mode typing, or the select toggle.
    pub open spec fn editor_stepped(self, key: KeyInput) -> AppState {
        match key.code {
            Key::Right => self.moved(1, 0),
            Key::Left => self.moved(-1, 0),
            Key::Down => self.moved(0, 1),
            Key::Up => self.moved(0, -1),
            _ => {
                if key.ctrl {
                    match key.code {
                        Key::Char(c) => {
                            if c == 'q' {
                                self.with_mode(EditorMode::Explore)
                            } else if c == 'w' {
                                self.with_mode(EditorMode::Rectangle)
                            } else if c == 'e' {
                                self.with_mode(EditorMode::Text)
                            } else if c == 'a' {
                                self.with_mode(EditorMode::Line)
                            } else if c == 'd' {
                                self.with_mode(EditorMode::Arrow)
                            } else if c == 'r' {
                                AppState { line_alignment: !self.line_alignment, ..self }
                            } else {
                                self
                            }
                        },
                        _ => self,
                    }
                } else if self.mode == EditorMode::Text {
                    match key.code {
                        Key::Char(c) => self.text_written(c),
                        Key::Backspace => self.backspaced(),
                        _ => self,
                    }
                } else if key.code == (Key::Char(' ')) {
                    self.select_toggled()
                } else {
                    self
                }
            },
        }
    }

    /// One key press routed at the top level: a quit or save chord is
    /// honoured first, then the press is handled normally — unless the
    /// save submode is active, which suspends normal routing.
    pub open spec fn key_stepped(self, key: KeyInput) -> AppState {
        let quit_checked = if key.ctrl && key.code == (Key::Char('c')) {
            AppState { should_quit: true, ..self }
        } else {
            self
        };
        let save_checked = if key.ctrl && key.code == (Key::Char('s')) {
            AppState { app_mode: AppMode::Command, ..quit_checked }
        } else {
            quit_checked
        };
        match save_checked.app_mode {
            AppMode::Editor => save_checked.editor_stepped(key),
            AppMode::Command => save_checked,
        }
    }

    /// Whether this key press leaves the session collecting a save
    /// filename, so that the surrounding shell must run the save dialog.
    pub open spec fn requests_save(self, key: KeyInput) -> bool {
        (key.ctrl && key.code == (Key::Char('s'))) || self.app_mode == AppMode::Command
    }

    /// The save dialog has finished: normal key routing resumes.
    pub open spec fn save_completed(self) -> AppState {
        AppState { app_mode: AppMode::Editor, ..self }
    }
}

/// The live preview: with the latch set, the shape-in-progress between
/// anchor and cursor; otherwise a single marker at the cursor, except in
/// text mode, where the typed text itself is the feedback.
pub open spec fn preview_spec(s: AppState) -> Seq<Glyph> {
    if s.selected {
        editor_write_spec(s.mode, s.curr, s.last, s.line_alignment)
    } else if s.mode != EditorMode::Text {
        seq![(s.curr, EXPLORE_MARKER)]
    } else {
        Seq::empty()
    }
}

/// The editor session: cursor and anchor, active mode, the two-phase
/// select latch, the line-orientation toggle, the quit flag, the save
/// submode flag, and the character buffer shapes are committed into.
pub struct App {
    pub editor: Editor,
    pub editor_mode: EditorMode,
    pub selected: bool,
    pub line_alignment: bool,
    pub should_quit: bool,
    pub app_mode: AppMode,
    pub buffer: Buffer,
}

impl View for App {
    type V = AppState;

    open spec fn view(&self) -> AppState {
        AppState {
            curr: self.editor.current_position,
            last: self.editor.last_position,
            mode: self.editor_mode,
            selected: self.selected,
            line_alignment: self.line_alignment,
            should_quit: self.should_quit,
            app_mode: self.app_mode,
            grid: self.buffer.grid(),
        }
    }
}

impl App {
    pub open spec fn wf(self) -> bool {
        self@.inv()
    }

    /// A fresh session over a blank `width` x `height` grid: explore
    /// mode, latch clear, horizontal-first alignment, and the cursor at
    /// a centered-left default.
    pub fn new(width: usize, height: usize) -> (app: App)
        requires
            1 <= width <= i16::MAX,
            1 <= height <= i16::MAX,
        ensures
            app.wf(),
            app@.curr == (Position { x: (width / 7) as i16, y: (height / 2) as i16 }),
            app@.last == (Position { x: 0, y: 0 }),
            app@.mode == EditorMode::Explore,
            !app@.selected,
            app@.line_alignment,
            !app@.should_quit,
            app@.app_mode == AppMode::Editor,
            app@.width() == width,
            app@.height() == height,
            forall|i: int, j: int|
                0 <= i < height && 0 <= j < width ==> app@.grid[i][j] == BLANK,
    {
        let start = Position { x: (width / 7) as i16, y: (height / 2) as i16 };
        App {
            editor: Editor::new(start),
            editor_mode: EditorMode::Explore,
            selected: false,
            line_alignment: true,
            should_quit: false,
            app_mode: AppMode::Editor,
            buffer: Buffer::new(width, height),
        }
    }

    /// The largest legal cursor coordinates, inclusive: one less than
    /// each grid dimension.
    pub fn borders(&self) -> (b: Position)
        requires
            self.wf(),
        ensures
            b.x == self@.width() - 1,
            b.y == self@.height() - 1,
    {
        let w = self.buffer.width();
        let h = self.buffer.height();
        Position { x: (w - 1) as i16, y: (h - 1) as i16 }
    }

    /// Translates the cursor by `offset` and clamps it into the grid.
    pub fn move_position(&mut self, offset: Position)
        requires
            old(self).wf(),
            i16::MIN <= old(self)@.curr.x + offset.x <= i16::MAX,
            i16::MIN <= old(self)@.curr.y + offset.y <= i16::MAX,
        ensures
            final(self).wf(),
            final(self)@ == old(self)@.moved(offset.x as int, offset.y as int),
    {
        let borders = self.borders();
        self.editor.move_position(offset, borders);
        proof {
            assert(self@ =~= old(self)@.moved(offset.x as int, offset.y as int));
        }
    }

    /// The glyph placements of the given mode's shape between the
    /// current point and the anchor, shared by commits and previews.
    pub fn editor_write(
        editor_mode: EditorMode,
        current: Position,
        last: Position,
        line_alignment: bool,
    ) -> (glyphs: Vec<Glyph>)
        requires
            0 <= current.x && 0 <= current.y,
            0 <= last.x && 0 <= last.y,
        ensures
            glyphs@ == editor_write_spec(editor_mode, current, last, line_alignment),
    {
        match editor_mode {
            EditorMode::Rectangle => write_rectangle(get_rect_vertices(last, current)),
            EditorMode::Line => write_line(get_line_vertices(last, current, line_alignment)),
            EditorMode::Arrow => write_arrow(get_line_vertices(last, current, line_alignment)),
            EditorMode::Explore => {
                let mut glyphs: Vec<Glyph> = Vec::new();
                glyphs.push((current, EXPLORE_MARKER));
                proof {
                    assert(glyphs@ =~= seq![(current, EXPLORE_MARKER)]);
                }
                glyphs
            },
            _ => {
                let glyphs: Vec<Glyph> = Vec::new();
                proof {
                    assert(glyphs@ =~= Seq::<Glyph>::empty());
                }
                glyphs
            },
        }
    }

    /// Every glyph a commit stamps lies inside the axis-aligned hull of
    /// the anchor and the current point — so a clamped cursor can never
    /// drive a write outside the grid.
    proof fn lemma_commit_in_bounds(s: AppState)
        requires
            s.inv(),
        ensures
            forall|i: int|
                0 <= i < editor_write_spec(s.mode, s.curr, s.last, s.line_alignment).len() ==> {
                    let p = (#[trigger] editor_write_spec(
                        s.mode,
                        s.curr,
                        s.last,
                        s.line_alignment,
                    )[i]).0;
                    &&& 0 <= p.x < s.width()
                    &&& 0 <= p.y < s.height()
                },
    {
        match s.mode {
            EditorMode::Rectangle => {
                lemma_rect_glyphs_bounds(rect_vertices_spec(s.last, s.curr));
            },
            EditorMode::Line => {
                lemma_line_glyphs_in_hull(s.last, s.curr, s.line_alignment);
            },
            EditorMode::Arrow => {
                lemma_arrow_glyphs_in_hull(s.last, s.curr, s.line_alignment);
            },
            _ => {},
        }
    }

    /// The select toggle: capture the anchor, or commit the active
    /// shape between anchor and current position into the buffer.
    pub fn select(&mut self)
        requires
            old(self).wf(),
        ensures
            final(self).wf(),
            final(self)@ == old(self)@.select_toggled(),
    {
        if self.selected {
            let current = self.editor.get_position();
            let last = self.editor.get_last_position();
            let glyphs = App::editor_write(self.editor_mode, current, last, self.line_alignment);
            proof {
                App::lemma_commit_in_bounds(self@);
            }
            self.buffer.commit_glyphs(&glyphs);
            self.selected = false;
        } else {
            self.editor.set_last_position();
            self.selected = true;
        }
        proof {
            assert(self@ =~= old(self)@.select_toggled());
        }
    }

    /// Routes one key press in normal editing.
    pub fn handle_editor_input(&mut self, key: KeyInput)
        requires
            old(self).wf(),
        ensures
            final(self).wf(),
            final(self)@ == old(self)@.editor_stepped(key),
    {
        match key.code {
            Key::Right => self.move_position(Position::new(1, 0)),
            Key::Left => self.move_position(Position::new(-1, 0)),
            Key::Down => self.move_position(Position::new(0, 1)),
            Key::Up => self.move_position(Position::new(0, -1)),
            _ => {
                if key.ctrl {
                    if let Key::Char(c) = key.code {
                        if c == 'q' {
                            self.editor_mode = EditorMode::Explore;
                        } else if c == 'w' {
                            self.editor_mode = EditorMode::Rectangle;
                        } else if c == 'e' {
                            self.editor_mode = EditorMode::Text;
                        } else if c == 'a' {
                            self.editor_mode = EditorMode::Line;
                        } else if c == 'd' {
                            self.editor_mode = EditorMode::Arrow;
                        } else if c == 'r' {
                            self.line_alignment = !self.line_alignment;
                        }
                    }
                } else if self.editor_mode == EditorMode::Text {
                    if let Key::Char(c) = key.code {
                        let pos = self.editor.get_position();
                        self.buffer.write(pos, c);
                        self.move_position(Position::new(1, 0));
                    } else if key.code == Key::Backspace {
                        let pos = self.editor.get_position();
                        self.buffer.write(pos, BLANK);
                        self.move_position(Position::new(-1, 0));
                    }
                } else if key.code == Key::Char(' ') {
                    self.select();
                }
            },
        }
        proof {
            assert(self@ =~= old(self)@.editor_stepped(key));
        }
    }

    /// Routes one key press at the top level. The result says whether
    /// the session is now collecting a save filename: the surrounding
    /// shell must then run the save dialog (writing `serialize`'s rows
    /// to the named file) and call `complete_save`.
    pub fn handle_key(&mut self, key: KeyInput) -> (save: bool)
        requires
            old(self).wf(),
        ensures
            final(self).wf(),
            final(self)@ == old(self)@.key_stepped(key),
            save == old(self)@.requests_save(key),
    {
        if key.ctrl {
            if let Key::Char(c) = key.code {
                if c == 'c' {
                    self.should_quit = true;
                }
                if c == 's' {
                    self.app_mode = AppMode::Command;
                }
            }
        }
        let save = match self.app_mode {
            AppMode::Editor => {
                self.handle_editor_input(key);
                false
            },
            AppMode::Command => true,
        };
        proof {
            assert(self@ =~= old(self)@.key_stepped(key));
        }
        save
    }

    /// The save dialog has finished: normal key routing resumes.
    pub fn complete_save(&mut self)
        requires
            old(self).wf(),
        ensures
            final(self).wf(),
            final(self)@ == old(self)@.save_completed(),
    {
        self.app_mode = AppMode::Editor;
        proof {
            assert(self@ =~= old(self)@.save_completed());
        }
    }

    /// The buffer's rows, for line-oriented output by the save dialog.
    pub fn serialize(&self) -> (rows: Vec<Vec<char>>)
        requires
            self.wf(),
        ensures
            rows@.map_values(|row: Vec<char>| row@) == self@.grid,
    {
        self.buffer.serialize()
    }

    /// The glyphs of the live preview, painted by the renderer and never
    /// committed to the buffer.
    pub fn preview(&self) -> (glyphs: Vec<Glyph>)
        requires
            self.wf(),
        ensures
            glyphs@ == preview_spec(self@),
    {
        if self.selected {
            let current = self.editor.get_position();
            let last = self.editor.get_last_position();
            App::editor_write(self.editor_mode, current, last, self.line_alignment)
        } else if self.editor_mode != EditorMode::Text {
            let current = self.editor.get_position();
            let mut glyphs: Vec<Glyph> = Vec::new();
            glyphs.push((current, EXPLORE_MARKER));
            proof {
                assert(glyphs@ =~= seq![(self@.curr, EXPLORE_MARKER)]);
            }
            glyphs
        } else {
            let glyphs: Vec<Glyph> = Vec::new();
            proof {
                assert(glyphs@ =~= Seq::<Glyph>::empty());
            }
            glyphs
        }
    }

    /// Whether a quit chord has been seen.
    pub fn should_quit(&self) -> (quit: bool)
        ensures
            quit == self@.should_quit,
    {
        self.should_quit
    }
}

/// The session state after a whole run of key presses, first press
/// first.
pub open spec fn run_keys(s: AppState, keys: Seq<KeyInput>) -> AppState
    decreases keys.len(),
{
    if keys.len() == 0 {
        s
    } else {
        run_keys(s.key_stepped(keys.first()), keys.drop_first())
    }
}

/// One key press preserves the session invariant, whatever the key.
pub proof fn lemma_step_preserves_inv(s: AppState, key: KeyInput)
    requires
        s.inv(),
    ensures
        s.key_stepped(key).inv(),
{
    let quit_checked = if key.ctrl && key.code == (Key::Char('c')) {
        AppState { should_quit: true, ..s }
    } else {
        s
    };
    let save_checked = if key.ctrl && key.code == (Key::Char('s')) {
        AppState { app_mode: AppMode::Command, ..quit_checked }
    } else {
        quit_checked
    };
    lemma_editor_step_preserves_inv(save_checked, key);
}

/// Movement clamping, generalized: any run of key presses — in
/// particular any sequence of directional moves — keeps the session
/// invariant, so the cursor always satisfies `0 <= x < width` and
/// `0 <= y < height`.
pub proof fn lemma_movement_clamping(s: AppState, keys: Seq<KeyInput>)
    requires
        s.inv(),
    ensures
        run_keys(s, keys).inv(),
        0 <= run_keys(s, keys).curr.x < run_keys(s, keys).width(),
        0 <= run_keys(s, keys).curr.y < run_keys(s, keys).height(),
    decreases keys.len(),
{
    if keys.len() > 0 {
        lemma_step_preserves_inv(s, keys.first());
        lemma_movement_clamping(s.key_stepped(keys.first()), keys.drop_first());
    }
}

/// An editor-routed key press preserves the session invariant.
proof fn lemma_editor_step_preserves_inv(s: AppState, key: KeyInput)
    requires
        s.inv(),
    ensures
        s.editor_stepped(key).inv(),
{
    match key.code {
        Key::Right => {},
        Key::Left => {},
        Key::Down => {},
        Key::Up => {},
        _ => {
            if key.ctrl {
            } else if s.mode == EditorMode::Text {
                match key.code {
                    Key::Char(c) => {
                        crate::buffer::lemma_write_cell_preserves_dims(s.grid, s.curr, c);
                    },
                    Key::Backspace => {
                        crate::buffer::lemma_write_cell_preserves_dims(s.grid, s.curr, BLANK);
                    },
                    _ => {},
                }
            } else if key.code == (Key::Char(' ')) {
                if s.selected {
                    lemma_select_commit_preserves_inv(s);
                }
            }
        },
    }
}

/// A commit through the select latch preserves the session invariant:
/// every stamped glyph is in bounds, and stamping keeps the dimensions.
proof fn lemma_select_commit_preserves_inv(s: AppState)
    requires
        s.inv(),
        s.selected,
    ensures
        s.select_toggled().inv(),
{
    App::lemma_commit_in_bounds(s);
    crate::buffer::lemma_apply_glyphs_preserves_dims(
        s.grid,
        editor_write_spec(s.mode, s.curr, s.last, s.line_alignment),
    );
}

/// Select-toggle idempotence of intent: two select actions with no
/// movement between them first capture the anchor at the cursor, then
/// commit the active mode's shape degenerately at that same point, and
/// leave the latch released — never an error.
pub proof fn lemma_select_toggle_idempotent(s: AppState)
    requires
        s.inv(),
        !s.selected,
    ensures
        ({
            let s2 = s.select_toggled().select_toggled();
            &&& !s2.selected
            &&& s2.curr == s.curr
            &&& s2.last == s.curr
            &&& s2.mode == s.mode
            &&& s2.grid == apply_glyphs(
                s.grid,
                editor_write_spec(s.mode, s.curr, s.curr, s.line_alignment),
            )
            &&& s2.inv()
        }),
{
    lemma_select_commit_preserves_inv(s.select_toggled());
}

/// Mode isolation: switching modes while the latch is set touches
/// neither positions, latch nor buffer, and the commit that follows
/// uses the newly active mode's geometry, not the mode that was active
/// when the anchor was captured.
pub proof fn lemma_mode_isolation(s: AppState, mode: EditorMode)
    requires
        s.inv(),
        s.selected,
    ensures
        ({
            let switched = s.with_mode(mode);
            &&& switched.grid == s.grid
            &&& switched.curr == s.curr
            &&& switched.last == s.last
            &&& switched.selected
            &&& switched.select_toggled().grid == apply_glyphs(
                s.grid,
                editor_write_spec(mode, s.curr, s.last, s.line_alignment),
            )
        }),
{
}

} // verus!
