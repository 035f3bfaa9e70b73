//! The frame: the drawing operations that show the viewer on a terminal, in
//! order, and the text that they are sent as.

use vstd::prelude::*;
use vstd::string::*;
use crate::editor::{lines_of, EditorState, EditorView};
use crate::terminal::{
    clear_line_sequence, clear_line_text, goto_sequence, goto_text, hide_cursor_sequence,
    hide_cursor_text, show_cursor_sequence, show_cursor_text,
};
use crate::text::{decimal, push_decimal, push_spaces, spaces};

verus! {

/// One drawing operation as a mathematical value.
pub enum DrawOpView {
    HideCursor,
    ShowCursor,
    MoveTo { x: nat, y: nat },
    ClearLine,
    Text(Seq<char>),
    Filler,
    NewLine,
    Spaces(nat),
}

/// One drawing operation.
#[derive(Debug, PartialEq, Eq)]
pub enum DrawOp {
    /// Hide the cursor glyph.
    HideCursor,
    /// Show the cursor glyph.
    ShowCursor,
    /// Put the terminal's cursor in column `x` of row `y`, counted from one.
    MoveTo { x: u16, y: u16 },
    /// Clear the row that the terminal's cursor is in.
    ClearLine,
    /// Write the text as it is.
    Text(String),
    /// Write the glyph `~`, which marks a row with no line of the document.
    Filler,
    /// Go to the start of the next row.
    NewLine,
    /// Write that many blanks.
    Spaces(usize),
}

impl View for DrawOp {
    type V = DrawOpView;

    open spec fn view(&self) -> DrawOpView {
        match *self {
            DrawOp::HideCursor => DrawOpView::HideCursor,
            DrawOp::ShowCursor => DrawOpView::ShowCursor,
            DrawOp::MoveTo { x, y } => DrawOpView::MoveTo { x: x as nat, y: y as nat },
            DrawOp::ClearLine => DrawOpView::ClearLine,
            DrawOp::Text(text) => DrawOpView::Text(text@),
            DrawOp::Filler => DrawOpView::Filler,
            DrawOp::NewLine => DrawOpView::NewLine,
            DrawOp::Spaces(n) => DrawOpView::Spaces(n as nat),
        }
    }
}

/// The operations of `ops` as mathematical values.
pub open spec fn ops_of(ops: Seq<DrawOp>) -> Seq<DrawOpView> {
    ops.map_values(|op: DrawOp| op@)
}

/// The column, counted from zero, in which a message of `message_len` cells
/// starts when it is centred in a row of `width` cells: half of the cells
/// that the message leaves free, and zero where it leaves none.
pub open spec fn start_x(width: int, message_len: int) -> int {
    if message_len > width {
        0
    } else {
        (width - message_len) / 2
    }
}

impl EditorView {
    /// The status message: the cursor's column and row, each out of the
    /// size of the grid, and the line the cursor is on out of the number
    /// of lines, all counted from one.
    pub open spec fn footer_message(self) -> Seq<char> {
        "kilo-rust -- ["@ + decimal((self.cursor.x + 1) as nat) + "/"@ + decimal(
            (self.cursor.x_max + 1) as nat,
        ) + ", "@ + decimal((self.cursor.y + 1) as nat) + "/"@ + decimal(
            (self.cursor.y_max + 1) as nat,
        ) + ", "@ + decimal((self.selected_line() + 1) as nat) + "/"@ + decimal(self.lines.len())
            + "]"@
    }

    /// The column in which the status message starts.
    pub open spec fn footer_start_x(self) -> int {
        start_x(self.cursor.x_max + 1, self.footer_message().len() as int)
    }

    /// The footer row: cleared, then blanks up to the start column, then
    /// the status message.
    pub open spec fn footer_ops(self) -> Seq<DrawOpView> {
        seq![
            DrawOpView::ClearLine,
            DrawOpView::Spaces(self.footer_start_x() as nat),
            DrawOpView::Text(self.footer_message()),
        ]
    }

    /// What row `r` of the viewport shows: the line that the scroll offset
    /// puts there, or the filler glyph where the document has ended.
    pub open spec fn row_content(self, r: int) -> DrawOpView {
        if self.row_offset + r < self.lines.len() {
            DrawOpView::Text(self.lines[self.row_offset + r])
        } else {
            DrawOpView::Filler
        }
    }

    /// Row `r` of the viewport: cleared, written, and left for the next row.
    pub open spec fn row_ops(self, r: int) -> Seq<DrawOpView> {
        seq![DrawOpView::ClearLine, self.row_content(r), DrawOpView::NewLine]
    }

    /// The first `n` rows of the viewport, from the top.
    pub open spec fn rows_ops(self, n: nat) -> Seq<DrawOpView>
        decreases n,
    {
        if n == 0 {
            Seq::empty()
        } else {
            self.rows_ops((n - 1) as nat) + self.row_ops(n - 1)
        }
    }

    /// The rows and the footer, drawn from the origin of the terminal.
    pub open spec fn draw_ops(self) -> Seq<DrawOpView> {
        seq![DrawOpView::MoveTo { x: 1, y: 1 }] + self.rows_ops(self.drawable_rows() as nat)
            + self.footer_ops()
    }

    /// One whole frame: the cursor glyph hidden, the rows and the footer
    /// drawn, the terminal's cursor put on the viewer's cursor, and the
    /// glyph shown again.
    pub open spec fn frame_ops(self) -> Seq<DrawOpView> {
        seq![DrawOpView::HideCursor] + self.draw_ops() + seq![
            DrawOpView::MoveTo { x: (self.cursor.x + 1) as nat, y: (self.cursor.y + 1) as nat },
            DrawOpView::ShowCursor,
        ]
    }
}

/// The text that one operation is sent as.
pub open spec fn op_text(op: DrawOpView) -> Seq<char> {
    match op {
        DrawOpView::HideCursor => hide_cursor_text(),
        DrawOpView::ShowCursor => show_cursor_text(),
        DrawOpView::MoveTo { x, y } => goto_text(x, y),
        DrawOpView::ClearLine => clear_line_text(),
        DrawOpView::Text(text) => text,
        DrawOpView::Filler => seq!['~'],
        DrawOpView::NewLine => seq!['\r', '\n'],
        DrawOpView::Spaces(n) => spaces(n),
    }
}

/// The text that a sequence of operations is sent as: the texts of its
/// operations, one after the other.
pub open spec fn ops_text(ops: Seq<DrawOpView>) -> Seq<char>
    decreases ops.len(),
{
    if ops.len() == 0 {
        Seq::empty()
    } else {
        ops_text(ops.drop_last()) + op_text(ops.last())
    }
}

/// The column in which a message of `message_len` cells starts when it is
/// centred in a row of `width` cells. A message wider than the row starts in
/// column zero.
pub fn footer_start_x(width: usize, message_len: usize) -> (start: usize)
    ensures
        start == start_x(width as int, message_len as int),
{
    if message_len > width {
        0
    } else {
        (width - message_len) / 2
    }
}

/// The status message of the viewer.
pub fn footer_message(editor: &EditorState) -> (message: String)
    ensures
        message@ == editor@.footer_message(),
{
    let cursor = editor.cursor();
    let x: usize = cursor.display_x() as usize;
    let x_max: usize = cursor.display_xmax() as usize;
    let y: usize = cursor.display_y() as usize;
    let y_max: usize = cursor.display_ymax() as usize;
    let total: usize = editor.contents().len();
    let line: usize = editor.row_offset() + y;
    let mut message = String::new();
    message.append("kilo-rust -- [");
    push_decimal(&mut message, x);
    message.append("/");
    push_decimal(&mut message, x_max);
    message.append(", ");
    push_decimal(&mut message, y);
    message.append("/");
    push_decimal(&mut message, y_max);
    message.append(", ");
    push_decimal(&mut message, line);
    message.append("/");
    push_decimal(&mut message, total);
    message.append("]");
    assert(message@ =~= editor@.footer_message());
    message
}

/// The rows of the viewport and the footer as drawing operations. Drawing
/// starts at the origin of the terminal. Each row is cleared and shows the
/// line that the scroll offset puts there, whole and unwrapped, or the
/// filler glyph once the document has ended. The footer row follows.
pub fn editor_draw_rows(editor: &EditorState) -> (ops: Vec<DrawOp>)
    ensures
        ops_of(ops@) == editor@.draw_ops(),
{
    let cursor = editor.cursor();
    let contents = editor.contents();
    let offset: usize = editor.row_offset();
    let total: usize = contents.len();
    let rows: usize = cursor.display_ymax() as usize;
    let width: usize = cursor.display_xmax() as usize;

    let mut ops: Vec<DrawOp> = Vec::new();
    ops.push(DrawOp::MoveTo { x: 1, y: 1 });
    assert(ops_of(ops@) =~= seq![DrawOpView::MoveTo { x: 1, y: 1 }] + editor@.rows_ops(0));
    let mut r: usize = 0;
    while r < rows
        invariant
            r <= rows,
            rows == editor@.drawable_rows(),
            offset == editor@.row_offset,
            total == contents@.len(),
            lines_of(contents@) == editor@.lines,
            editor@.valid(),
            ops_of(ops@) == seq![DrawOpView::MoveTo { x: 1, y: 1 }] + editor@.rows_ops(r as nat),
        decreases rows - r,
    {
        let ghost before = ops@;
        ops.push(DrawOp::ClearLine);
        if offset + r < total {
            ops.push(DrawOp::Text(contents[offset + r].clone()));
        } else {
            ops.push(DrawOp::Filler);
        }
        ops.push(DrawOp::NewLine);
        assert(ops_of(ops@) =~= ops_of(before) + editor@.row_ops(r as int));
        r += 1;
        assert(ops_of(ops@) =~= seq![DrawOpView::MoveTo { x: 1, y: 1 }] + editor@.rows_ops(
            r as nat,
        ));
    }

    let message = footer_message(editor);
    let start = footer_start_x(width, message.as_str().unicode_len());
    let ghost before = ops@;
    ops.push(DrawOp::ClearLine);
    ops.push(DrawOp::Spaces(start));
    ops.push(DrawOp::Text(message));
    assert(ops_of(ops@) =~= ops_of(before) + editor@.footer_ops());
    ops
}

/// One whole frame as drawing operations: the cursor glyph is hidden, the
/// rows and the footer are drawn, the terminal's cursor is put on the cell
/// of the viewer's cursor, and the glyph is shown again.
pub fn editor_refresh_screen(editor: &EditorState) -> (ops: Vec<DrawOp>)
    ensures
        ops_of(ops@) == editor@.frame_ops(),
        positions_drawable(ops_of(ops@)),
{
    let cursor = editor.cursor();
    let mut ops: Vec<DrawOp> = Vec::new();
    ops.push(DrawOp::HideCursor);
    let mut drawn = editor_draw_rows(editor);
    let ghost drawn_ops = drawn@;
    ops.append(&mut drawn);
    ops.push(DrawOp::MoveTo { x: cursor.display_x(), y: cursor.display_y() });
    ops.push(DrawOp::ShowCursor);
    assert(ops_of(ops@) =~= seq![DrawOpView::HideCursor] + ops_of(drawn_ops) + seq![
        DrawOpView::MoveTo { x: (editor@.cursor.x + 1) as nat, y: (editor@.cursor.y + 1) as nat },
        DrawOpView::ShowCursor,
    ]);
    proof {
        lemma_frame_positions_drawable(editor@);
    }
    ops
}

/// No operation of `ops` asks for the position `(0, 0)`, which no terminal
/// has.
pub open spec fn positions_drawable(ops: Seq<DrawOpView>) -> bool {
    forall|i: int|
        0 <= i < ops.len() ==> (#[trigger] ops[i] matches DrawOpView::MoveTo { x, y } ==> !(x == 0
            && y == 0))
}

/// The text that the operations are sent to the terminal as.
pub fn encode_ops(ops: &Vec<DrawOp>) -> (text: String)
    requires
        positions_drawable(ops_of(ops@)),
    ensures
        text@ == ops_text(ops_of(ops@)),
{
    let mut text = String::new();
    let mut i: usize = 0;
    assert(ops_of(ops@).take(0) =~= Seq::empty());
    while i < ops.len()
        invariant
            i <= ops.len(),
            positions_drawable(ops_of(ops@)),
            text@ == ops_text(ops_of(ops@).take(i as int)),
        decreases ops.len() - i,
    {
        let ghost views = ops_of(ops@);
        assert(views[i as int] == ops@[i as int]@);
        match &ops[i] {
            DrawOp::HideCursor => {
                let sequence = hide_cursor_sequence();
                text.append(sequence.as_str());
            },
            DrawOp::ShowCursor => {
                let sequence = show_cursor_sequence();
                text.append(sequence.as_str());
            },
            DrawOp::MoveTo { x, y } => {
                let sequence = goto_sequence(*x, *y);
                text.append(sequence.as_str());
            },
            DrawOp::ClearLine => {
                let sequence = clear_line_sequence();
                text.append(sequence.as_str());
            },
            DrawOp::Text(line) => {
                text.append(line.as_str());
            },
            DrawOp::Filler => {
                proof {
                    reveal_strlit("~");
                }
                text.append("~");
            },
            DrawOp::NewLine => {
                proof {
                    reveal_strlit("\r\n");
                }
                text.append("\r\n");
            },
            DrawOp::Spaces(n) => {
                push_spaces(&mut text, *n);
            },
        }
        assert(views.take(i + 1).drop_last() =~= views.take(i as int));
        assert(text@ =~= ops_text(views.take(i as int)) + op_text(views[i as int]));
        i += 1;
    }
    assert(ops_of(ops@).take(i as int) =~= ops_of(ops@));
    text
}

/// Drawing a frame never asks for the position `(0, 0)`.
pub proof fn lemma_frame_positions_drawable(e: EditorView)
    requires
        e.valid(),
    ensures
        positions_drawable(e.frame_ops()),
{
    lemma_rows_move_nowhere(e, e.drawable_rows() as nat);
    let rows = e.rows_ops(e.drawable_rows() as nat);
    let ops = e.frame_ops();
    assert forall|i: int| 0 <= i < ops.len() implies (#[trigger] ops[i] matches DrawOpView::MoveTo {
        x,
        y,
    } ==> !(x == 0 && y == 0)) by {
        if 2 <= i < 2 + rows.len() {
            assert(ops[i] == rows[i - 2]);
        }
    }
}

/// The rows of the viewport are drawn without moving the terminal's cursor
/// by position.
proof fn lemma_rows_move_nowhere(e: EditorView, n: nat)
    ensures
        forall|i: int| 0 <= i < e.rows_ops(n).len() ==> !(#[trigger] e.rows_ops(n)[i] is MoveTo),
    decreases n,
{
    if n > 0 {
        lemma_rows_move_nowhere(e, (n - 1) as nat);
    }
}

/// The first `n` rows take three operations each, and row `r` among them
/// is cleared, then shows its content, then ends.
pub proof fn lemma_rows_ops_index(e: EditorView, n: nat)
    ensures
        e.rows_ops(n).len() == 3 * n,
        forall|r: int|
            0 <= r < n ==> {
                &&& #[trigger] e.rows_ops(n)[3 * r] == DrawOpView::ClearLine
                &&& e.rows_ops(n)[3 * r + 1] == e.row_content(r)
                &&& e.rows_ops(n)[3 * r + 2] == DrawOpView::NewLine
            },
    decreases n,
{
    if n > 0 {
        lemma_rows_ops_index(e, (n - 1) as nat);
    }
}

/// One whole frame as the text that is written to the terminal.
pub fn editor_frame(editor: &EditorState) -> (text: String)
    ensures
        text@ == ops_text(editor@.frame_ops()),
{
    let ops = editor_refresh_screen(editor);
    encode_ops(&ops)
}

} // verus!
