//! The state of the viewer and the keys that change it.

use vstd::prelude::*;
use crate::cursor::{CursorState, CursorView};

verus! {

/// A decoded key event.
#[derive(Clone, Copy, Debug, PartialEq, Eq)]
pub enum Key {
    /// A character key.
    Char(char),
    /// A character key pressed together with the control key.
    Ctrl(char),
    Up,
    Down,
    Left,
    Right,
    Home,
    End,
    PageUp,
    PageDown,
    /// Any other key.
    Other,
}

/// Whether the event loop goes on.
#[derive(Clone, Copy, Debug, PartialEq, Eq, Structural)]
pub enum EventLoopState {
    Running,
    /// The loop has ended. No key leads out of this state.
    Terminate,
}

/// The key that ends the event loop: control and `w`.
pub open spec fn is_terminate_key(key: Key) -> bool {
    key == Key::Ctrl('w')
}

/// The state of the event loop after `key` was read in a running loop.
pub open spec fn state_after(key: Key) -> EventLoopState {
    if is_terminate_key(key) {
        EventLoopState::Terminate
    } else {
        EventLoopState::Running
    }
}

/// The lines of a document as sequences of characters.
pub open spec fn lines_of(contents: Seq<String>) -> Seq<Seq<char>> {
    contents.map_values(|line: String| line@)
}

/// The viewer as a mathematical value: the cursor within the viewport, the
/// lines of the document, and the index of the line shown in the first row.
pub struct EditorView {
    pub cursor: CursorView,
    pub lines: Seq<Seq<char>>,
    pub row_offset: int,
}

impl EditorView {
    /// The number of rows in which lines are drawn.
    pub open spec fn drawable_rows(self) -> int {
        self.cursor.y_max + 1
    }

    /// The index of the line that the cursor is on.
    pub open spec fn selected_line(self) -> int {
        self.row_offset + self.cursor.y
    }

    /// The cursor is valid, and the view is either unscrolled or filled with
    /// lines down to its last row.
    pub open spec fn valid(self) -> bool {
        &&& self.cursor.valid()
        &&& self.row_offset >= 0
        &&& self.row_offset == 0 || self.row_offset + self.drawable_rows() <= self.lines.len()
    }

    /// The viewer as it starts: the cursor at the origin, the view unscrolled.
    pub open spec fn initial(cursor: CursorView, lines: Seq<Seq<char>>) -> EditorView {
        EditorView { cursor, lines, row_offset: 0 }
    }

    /// One row up. Below the first row the cursor moves. In the first row the
    /// view scrolls up by one line while a line lies above it, and nothing
    /// changes once none does.
    pub open spec fn up(self) -> EditorView {
        if self.cursor.y > 0 {
            EditorView { cursor: self.cursor.sub_y(1), ..self }
        } else if self.row_offset > 0 {
            EditorView { row_offset: self.row_offset - 1, ..self }
        } else {
            self
        }
    }

    /// One row down. Above the last row the cursor moves. In the last row the
    /// view scrolls down by one line while a line lies below it, and nothing
    /// changes once none does.
    pub open spec fn down(self) -> EditorView {
        if self.cursor.y < self.cursor.y_max {
            EditorView { cursor: self.cursor.add_y(1), ..self }
        } else if self.row_offset + self.drawable_rows() < self.lines.len() {
            EditorView { row_offset: self.row_offset + 1, ..self }
        } else {
            self
        }
    }

    /// The viewer after `key` was pressed.
    pub open spec fn press(self, key: Key) -> EditorView {
        match key {
            Key::Up => self.up(),
            Key::Down => self.down(),
            Key::Left => EditorView { cursor: self.cursor.sub_x(1), ..self },
            Key::Right => EditorView { cursor: self.cursor.add_x(1), ..self },
            Key::PageUp => EditorView { cursor: self.cursor.top(), ..self },
            Key::PageDown => EditorView { cursor: self.cursor.bottom(), ..self },
            Key::Home => EditorView { cursor: self.cursor.left(), ..self },
            Key::End => EditorView { cursor: self.cursor.right(), ..self },
            _ => self,
        }
    }

    /// The viewer after `key` was pressed `n` times.
    pub open spec fn press_n(self, key: Key, n: nat) -> EditorView
        decreases n,
    {
        if n == 0 {
            self
        } else {
            self.press_n(key, (n - 1) as nat).press(key)
        }
    }
}

/// The viewer: a cursor, the lines of the document, and the scroll offset.
pub struct EditorState {
    cursor: CursorState,
    contents: Vec<String>,
    row_offset: usize,
}

impl View for EditorState {
    type V = EditorView;

    closed spec fn view(&self) -> EditorView {
        EditorView {
            cursor: self.cursor@,
            lines: lines_of(self.contents@),
            row_offset: self.row_offset as int,
        }
    }
}

impl EditorState {
    /// What holds of every viewer at all times.
    #[verifier::type_invariant]
    pub open spec fn well_formed(self) -> bool {
        self@.valid()
    }

    /// A viewer of `contents` with the view unscrolled.
    pub fn new(cursor: CursorState, contents: Vec<String>) -> (editor: EditorState)
        ensures
            editor@ == EditorView::initial(cursor@, lines_of(contents@)),
            editor@.valid(),
    {
        proof {
            use_type_invariant(&cursor);
        }
        EditorState { cursor, contents, row_offset: 0 }
    }

    /// The cursor.
    pub fn cursor(&self) -> (cursor: &CursorState)
        ensures
            cursor@ == self@.cursor,
            self@.valid(),
    {
        proof {
            use_type_invariant(self);
        }
        &self.cursor
    }

    /// The lines of the document.
    pub fn contents(&self) -> (contents: &Vec<String>)
        ensures
            lines_of(contents@) == self@.lines,
            contents@.len() == self@.lines.len(),
    {
        &self.contents
    }

    /// The index of the line shown in the first row.
    pub fn row_offset(&self) -> (row_offset: usize)
        ensures
            row_offset == self@.row_offset,
            self@.valid(),
    {
        proof {
            use_type_invariant(self);
        }
        self.row_offset
    }
}

/// Applies one key to the viewer and says whether the event loop goes on.
/// The terminate key ends the loop and changes nothing. The arrows move the
/// cursor by one cell, and scroll the view where the cursor is at its first
/// or last row and lines lie beyond. The other navigation keys jump to an
/// edge of the grid. Any other key changes nothing.
pub fn editor_process_keypress(key: Key, editor: &mut EditorState) -> (state: EventLoopState)
    ensures
        final(editor)@ == old(editor)@.press(key),
        final(editor)@.valid(),
        state == state_after(key),
{
    proof {
        use_type_invariant(&*editor);
    }
    let mut cursor = editor.cursor;
    let state = match key {
        Key::Ctrl(c) => {
            if c == 'w' {
                EventLoopState::Terminate
            } else {
                EventLoopState::Running
            }
        },
        Key::Up => {
            if cursor.at_top() && editor.row_offset > 0 {
                editor.row_offset -= 1;
            }
            cursor.sub_y(1);
            EventLoopState::Running
        },
        Key::Down => {
            let rows: usize = cursor.display_ymax() as usize;
            let total: usize = editor.contents.len();
            assert(editor@.lines.len() == total);
            if cursor.at_bottom() && editor.row_offset + rows < total {
                editor.row_offset += 1;
            }
            cursor.add_y(1);
            EventLoopState::Running
        },
        Key::Left => {
            cursor.sub_x(1);
            EventLoopState::Running
        },
        Key::Right => {
            cursor.add_x(1);
            EventLoopState::Running
        },
        Key::PageUp => {
            cursor.top();
            EventLoopState::Running
        },
        Key::PageDown => {
            cursor.bottom();
            EventLoopState::Running
        },
        Key::Home => {
            cursor.left();
            EventLoopState::Running
        },
        Key::End => {
            cursor.right();
            EventLoopState::Running
        },
        _ => EventLoopState::Running,
    };
    editor.cursor = cursor;
    state
}

/// A key leaves a valid viewer valid, and never changes the document or the
/// size of the grid.
pub proof fn lemma_press_keeps_valid(e: EditorView, key: Key)
    requires
        e.valid(),
    ensures
        e.press(key).valid(),
        e.press(key).lines == e.lines,
        e.press(key).cursor.x_max == e.cursor.x_max,
        e.press(key).cursor.y_max == e.cursor.y_max,
{
}

/// The view scrolls only by one line at a time, and only where the cursor
/// cannot move: upwards from the first row while a line lies above the view,
/// downwards from the last row while a line lies below it. The cursor then
/// stays where it is.
pub proof fn lemma_scroll_only_at_edges(e: EditorView, key: Key)
    requires
        e.valid(),
    ensures
        e.press(key).row_offset < e.row_offset ==> {
            &&& key == Key::Up
            &&& e.cursor.y == 0
            &&& e.press(key).row_offset == e.row_offset - 1
            &&& e.press(key).cursor == e.cursor
        },
        e.press(key).row_offset > e.row_offset ==> {
            &&& key == Key::Down
            &&& e.cursor.y == e.cursor.y_max
            &&& e.row_offset + e.drawable_rows() < e.lines.len()
            &&& e.press(key).row_offset == e.row_offset + 1
            &&& e.press(key).cursor == e.cursor
        },
{
}

/// The terminate key changes nothing in the viewer.
pub proof fn lemma_terminate_changes_nothing(e: EditorView, key: Key)
    requires
        is_terminate_key(key),
    ensures
        e.press(key) == e,
        state_after(key) == EventLoopState::Terminate,
{
}

/// Where the viewer stands after the down key was pressed `n` times from the
/// first row of an unscrolled view: the cursor goes down row by row to the
/// last row, and from then on the view scrolls line by line until the last
/// line of the document is in the last row.
pub proof fn lemma_down_from_origin(e: EditorView, n: nat)
    requires
        e.valid(),
        e.cursor.y == 0,
        e.row_offset == 0,
    ensures
        ({
            let after = e.press_n(Key::Down, n);
            let spare = if e.lines.len() > e.drawable_rows() {
                e.lines.len() - e.drawable_rows()
            } else {
                0
            };
            &&& after.valid()
            &&& after.lines == e.lines
            &&& after.cursor.x == e.cursor.x
            &&& after.cursor.x_max == e.cursor.x_max
            &&& after.cursor.y_max == e.cursor.y_max
            &&& after.cursor.y == if n <= e.cursor.y_max { n as int } else { e.cursor.y_max }
            &&& after.row_offset == if n <= e.cursor.y_max {
                0
            } else if n - e.cursor.y_max <= spare {
                n - e.cursor.y_max
            } else {
                spare
            }
        }),
    decreases n,
{
    if n > 0 {
        lemma_down_from_origin(e, (n - 1) as nat);
    }
}

/// With a document of `L` lines and a view that is at most `L + 6` rows
/// high, `L + 5` presses of the down key from the first row of an unscrolled
/// view leave the cursor in the last row and the view on the last full page:
/// scrolled by `L` less the number of rows, or not at all where the document
/// is shorter than the view. The view never scrolls past the end of the
/// document. A view higher than `L + 6` rows is left out, because there the
/// cursor has not reached the last row after `L + 5` presses.
pub proof fn lemma_scroll_settles(e: EditorView)
    requires
        e.valid(),
        e.cursor.y == 0,
        e.row_offset == 0,
        e.drawable_rows() <= e.lines.len() + 6,
    ensures
        ({
            let after = e.press_n(Key::Down, e.lines.len() + 5);
            &&& after.cursor.y == e.cursor.y_max
            &&& after.row_offset == if e.lines.len() >= e.drawable_rows() {
                e.lines.len() - e.drawable_rows()
            } else {
                0
            }
        }),
{
    lemma_down_from_origin(e, e.lines.len() + 5);
}

} // verus!
