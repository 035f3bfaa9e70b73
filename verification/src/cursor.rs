//! The cursor of the viewer: one cell of a grid of fixed size.

use vstd::prelude::*;

verus! {

/// The cursor as a mathematical value: the cell `(x, y)` of a grid whose last
/// column is `x_max` and whose last row is `y_max`, all counted from zero.
pub struct CursorView {
    pub x: int,
    pub y: int,
    pub x_max: int,
    pub y_max: int,
}

impl CursorView {
    /// The cursor lies inside its grid.
    pub open spec fn in_bounds(self) -> bool {
        &&& 0 <= self.x <= self.x_max
        &&& 0 <= self.y <= self.y_max
    }

    /// The cursor lies inside its grid, and the grid is one that a terminal
    /// can address: the one-based number of its last column and of its last
    /// row fit in 16 bits.
    pub open spec fn valid(self) -> bool {
        &&& self.in_bounds()
        &&& self.x_max < u16::MAX
        &&& self.y_max < u16::MAX
    }

    /// The cursor at the origin of a grid of `width` columns and `height` rows.
    pub open spec fn origin(width: int, height: int) -> CursorView {
        CursorView { x: 0, y: 0, x_max: width - 1, y_max: height - 1 }
    }

    /// `n` columns to the right, stopping at the last column.
    pub open spec fn add_x(self, n: int) -> CursorView {
        CursorView { x: if self.x + n <= self.x_max { self.x + n } else { self.x_max }, ..self }
    }

    /// `n` columns to the left, stopping at the first column.
    pub open spec fn sub_x(self, n: int) -> CursorView {
        CursorView { x: if self.x - n >= 0 { self.x - n } else { 0 }, ..self }
    }

    /// `n` rows down, stopping at the last row.
    pub open spec fn add_y(self, n: int) -> CursorView {
        CursorView { y: if self.y + n <= self.y_max { self.y + n } else { self.y_max }, ..self }
    }

    /// `n` rows up, stopping at the first row.
    pub open spec fn sub_y(self, n: int) -> CursorView {
        CursorView { y: if self.y - n >= 0 { self.y - n } else { 0 }, ..self }
    }

    /// To the first row, in the same column.
    pub open spec fn top(self) -> CursorView {
        CursorView { y: 0, ..self }
    }

    /// To the last row, in the same column.
    pub open spec fn bottom(self) -> CursorView {
        CursorView { y: self.y_max, ..self }
    }

    /// To the first column, in the same row.
    pub open spec fn left(self) -> CursorView {
        CursorView { x: 0, ..self }
    }

    /// To the last column, in the same row.
    pub open spec fn right(self) -> CursorView {
        CursorView { x: self.x_max, ..self }
    }
}

/// A cursor on a grid of fixed size. Its coordinates count from zero and
/// never leave the grid.
#[derive(Clone, Copy, Debug, PartialEq, Eq)]
pub struct CursorState {
    x: u16,
    y: u16,
    x_max: u16,
    y_max: u16,
}

impl View for CursorState {
    type V = CursorView;

    closed spec fn view(&self) -> CursorView {
        CursorView {
            x: self.x as int,
            y: self.y as int,
            x_max: self.x_max as int,
            y_max: self.y_max as int,
        }
    }
}

impl CursorState {
    /// What holds of every cursor at all times.
    #[verifier::type_invariant]
    pub open spec fn well_formed(self) -> bool {
        self@.valid()
    }

    /// A cursor at the origin of a grid of `x_max` columns and `y_max` rows.
    pub fn new(x_max: u16, y_max: u16) -> (cursor: CursorState)
        requires
            x_max >= 1,
            y_max >= 1,
        ensures
            cursor@ == CursorView::origin(x_max as int, y_max as int),
            cursor@.valid(),
    {
        CursorState { x: 0, y: 0, x_max: x_max - 1, y_max: y_max - 1 }
    }

    /// Moves right by `x_inc` columns, or to the last column if that is nearer.
    pub fn add_x(&mut self, x_inc: u16)
        ensures
            final(self)@ == old(self)@.add_x(x_inc as int),
            final(self)@.valid(),
    {
        proof {
            use_type_invariant(&*self);
        }
        let x_new = self.x.saturating_add(x_inc);
        self.x = x_new.min(self.x_max);
    }

    /// Moves left by `x_dec` columns, or to the first column if that is nearer.
    pub fn sub_x(&mut self, x_dec: u16)
        ensures
            final(self)@ == old(self)@.sub_x(x_dec as int),
            final(self)@.valid(),
    {
        proof {
            use_type_invariant(&*self);
        }
        self.x = self.x.saturating_sub(x_dec);
    }

    /// Moves down by `y_inc` rows, or to the last row if that is nearer.
    pub fn add_y(&mut self, y_inc: u16)
        ensures
            final(self)@ == old(self)@.add_y(y_inc as int),
            final(self)@.valid(),
    {
        proof {
            use_type_invariant(&*self);
        }
        let y_new = self.y.saturating_add(y_inc);
        self.y = y_new.min(self.y_max);
    }

    /// Moves up by `y_dec` rows, or to the first row if that is nearer.
    pub fn sub_y(&mut self, y_dec: u16)
        ensures
            final(self)@ == old(self)@.sub_y(y_dec as int),
            final(self)@.valid(),
    {
        proof {
            use_type_invariant(&*self);
        }
        self.y = self.y.saturating_sub(y_dec);
    }

    /// Jumps to the first row.
    pub fn top(&mut self)
        ensures
            final(self)@ == old(self)@.top(),
            final(self)@.valid(),
    {
        proof {
            use_type_invariant(&*self);
        }
        self.y = 0;
    }

    /// Jumps to the last row.
    pub fn bottom(&mut self)
        ensures
            final(self)@ == old(self)@.bottom(),
            final(self)@.valid(),
    {
        proof {
            use_type_invariant(&*self);
        }
        self.y = self.y_max;
    }

    /// Jumps to the first column.
    pub fn left(&mut self)
        ensures
            final(self)@ == old(self)@.left(),
            final(self)@.valid(),
    {
        proof {
            use_type_invariant(&*self);
        }
        self.x = 0;
    }

    /// Jumps to the last column.
    pub fn right(&mut self)
        ensures
            final(self)@ == old(self)@.right(),
            final(self)@.valid(),
    {
        proof {
            use_type_invariant(&*self);
        }
        self.x = self.x_max;
    }

    /// The cursor's column as a terminal counts it, from one. Taking one off
    /// gives the column counted from zero again.
    pub fn display_x(&self) -> (col: u16)
        ensures
            col - 1 == self@.x,
            self@.valid(),
    {
        proof {
            use_type_invariant(self);
        }
        self.x + 1
    }

    /// The cursor's row as a terminal counts it, from one. Taking one off
    /// gives the row counted from zero again.
    pub fn display_y(&self) -> (row: u16)
        ensures
            row - 1 == self@.y,
            self@.valid(),
    {
        proof {
            use_type_invariant(self);
        }
        self.y + 1
    }

    /// The number of columns of the grid, which is also the one-based number
    /// of its last column.
    pub fn display_xmax(&self) -> (cols: u16)
        ensures
            cols - 1 == self@.x_max,
            self@.valid(),
    {
        proof {
            use_type_invariant(self);
        }
        self.x_max + 1
    }

    /// The number of rows of the grid, which is also the one-based number of
    /// its last row.
    pub fn display_ymax(&self) -> (rows: u16)
        ensures
            rows - 1 == self@.y_max,
            self@.valid(),
    {
        proof {
            use_type_invariant(self);
        }
        self.y_max + 1
    }

    /// Whether the cursor is in the last row.
    pub fn at_bottom(&self) -> (b: bool)
        ensures
            b == (self@.y == self@.y_max),
    {
        self.y == self.y_max
    }

    /// Whether the cursor is in the first row.
    pub fn at_top(&self) -> (b: bool)
        ensures
            b == (self@.y == 0),
    {
        self.y == 0
    }
}

/// One cursor movement by an amount of any size.
pub enum Move {
    Left(nat),
    Right(nat),
    Up(nat),
    Down(nat),
}

impl CursorView {
    /// The cursor after one movement.
    pub open spec fn step(self, m: Move) -> CursorView {
        match m {
            Move::Left(n) => self.sub_x(n as int),
            Move::Right(n) => self.add_x(n as int),
            Move::Up(n) => self.sub_y(n as int),
            Move::Down(n) => self.add_y(n as int),
        }
    }

    /// The cursor after the movements of `moves`, made in order.
    pub open spec fn run(self, moves: Seq<Move>) -> CursorView
        decreases moves.len(),
    {
        if moves.len() == 0 {
            self
        } else {
            self.run(moves.drop_last()).step(moves.last())
        }
    }
}

/// Whatever movements are made from a cursor inside its grid, by whatever
/// amounts, the cursor is inside the same grid after each of them.
pub proof fn lemma_moves_stay_in_bounds(c: CursorView, moves: Seq<Move>)
    requires
        c.in_bounds(),
    ensures
        forall|k: int|
            0 <= k <= moves.len() ==> {
                let after = #[trigger] c.run(moves.take(k));
                &&& after.in_bounds()
                &&& after.x_max == c.x_max
                &&& after.y_max == c.y_max
            },
    decreases moves.len(),
{
    if moves.len() > 0 {
        let shorter = moves.drop_last();
        lemma_moves_stay_in_bounds(c, shorter);
        assert forall|k: int| 0 <= k <= moves.len() implies {
            let after = #[trigger] c.run(moves.take(k));
            &&& after.in_bounds()
            &&& after.x_max == c.x_max
            &&& after.y_max == c.y_max
        } by {
            if k < moves.len() {
                assert(moves.take(k) =~= shorter.take(k));
            } else {
                assert(moves.take(k) =~= moves);
                assert(shorter.take(shorter.len() as int) =~= shorter);
                assert(c.run(shorter.take(shorter.len() as int)).in_bounds());
            }
        }
    } else {
        assert(moves.take(0) =~= moves);
    }
}

/// After a jump to the first row, upward movements leave the cursor in the
/// first row, however many they are.
pub proof fn lemma_top_then_up(c: CursorView, moves: Seq<Move>)
    requires
        forall|i: int| 0 <= i < moves.len() ==> moves[i] is Up,
    ensures
        c.top().run(moves).y == 0,
    decreases moves.len(),
{
    if moves.len() > 0 {
        lemma_top_then_up(c, moves.drop_last());
    }
}

/// After a jump to the last row, downward movements leave the cursor in the
/// last row, however many they are.
pub proof fn lemma_bottom_then_down(c: CursorView, moves: Seq<Move>)
    requires
        forall|i: int| 0 <= i < moves.len() ==> moves[i] is Down,
    ensures
        c.bottom().run(moves).y == c.y_max,
        c.bottom().run(moves).y_max == c.y_max,
    decreases moves.len(),
{
    if moves.len() > 0 {
        lemma_bottom_then_down(c, moves.drop_last());
    }
}

} // verus!
