//! The vocabulary of cursor movements and their classification.

use vstd::prelude::*;

use crate::grid::{Coords, Direction};

verus! {

/// Represents a manner in which the cursor can be moved.
///
/// The set of variants is closed: every function that reads a `Movement`
/// names each of them, so that a new variant cannot be added without
/// deciding what it means there.
#[derive(Copy, Clone, Debug, PartialEq, Eq, Structural)]
pub enum Movement {
    /// Move to the given cell.
    Position(Coords),
    /// Move a number of cells in a direction; the flag says whether the
    /// movement wraps at the edge of the screen.
    To(Direction, u32, bool),
    /// Move to the edge of the screen in a direction.
    ToEdge(Direction),
    /// Move a number of lines in a direction, scrolling the screen if the
    /// edge is reached.
    IndexTo(Direction, u32),
    /// Arguments:
    /// * Direction of the tab character.
    /// * Number of tab stops "long" the movement should be.
    /// * Whether or not the movement should wrap when it reaches the end of the screen.
    Tab(Direction, u32, bool),
    /// Move to the given column of the current row.
    Column(u32),
    /// Move to the given row, in the current column.
    Row(u32),
    /// Move a number of lines up, to the start of the line.
    PreviousLine(u32),
    /// Move a number of lines down, to the start of the line.
    NextLine(u32),
    /// Move to the start of the current line.
    ToBeginning,
    /// Move to the end of the current line.
    ToEnd,
}

impl Movement {
    /// The direction of travel of this movement for a cursor at `cursor`.
    ///
    /// A movement that names a direction travels in it. The movements to the
    /// ends of a line and by whole lines have a fixed direction. A target
    /// column or row is compared with the cursor's, and a target equal to the
    /// cursor's counts as ahead of it (right, down). A target cell is placed
    /// in reading order: left when it precedes the cursor, right otherwise,
    /// also when it lies on another row.
    pub open spec fn spec_direction(&self, cursor: Coords) -> Direction {
        match *self {
            Movement::To(d, _, _) => d,
            Movement::ToEdge(d) => d,
            Movement::IndexTo(d, _) => d,
            Movement::Tab(d, _, _) => d,
            Movement::ToBeginning => Direction::Left,
            Movement::ToEnd => Direction::Right,
            Movement::PreviousLine(_) => Direction::Up,
            Movement::NextLine(_) => Direction::Down,
            Movement::Column(n) => if n < cursor.x {
                Direction::Left
            } else {
                Direction::Right
            },
            Movement::Row(n) => if n < cursor.y {
                Direction::Up
            } else {
                Direction::Down
            },
            Movement::Position(target) => if target.precedes(cursor) {
                Direction::Left
            } else {
                Direction::Right
            },
        }
    }

    /// Whether this movement is of a kind that can scroll the screen. Only
    /// the variant counts, never what it carries.
    pub open spec fn spec_scrolls(&self) -> bool {
        match *self {
            Movement::IndexTo(_, _) => true,
            Movement::PreviousLine(_) => true,
            Movement::NextLine(_) => true,
            Movement::Position(_) => false,
            Movement::To(_, _, _) => false,
            Movement::ToEdge(_) => false,
            Movement::Tab(_, _, _) => false,
            Movement::Column(_) => false,
            Movement::Row(_) => false,
            Movement::ToBeginning => false,
            Movement::ToEnd => false,
        }
    }

    /// Returns the direction the cursor would travel in on taking this movement.
    #[verifier::when_used_as_spec(spec_direction)]
    pub fn direction(&self, cursor: Coords) -> (d: Direction)
        ensures
            d == self.spec_direction(cursor),
    {
        match *self {
            Movement::To(d, _, _)
            | Movement::ToEdge(d)
            | Movement::IndexTo(d, _)
            | Movement::Tab(d, _, _) => d,
            Movement::ToBeginning => Direction::Left,
            Movement::ToEnd => Direction::Right,
            Movement::PreviousLine(_) => Direction::Up,
            Movement::NextLine(_) => Direction::Down,
            Movement::Column(n) if n < cursor.x => Direction::Left,
            Movement::Column(_) => Direction::Right,
            Movement::Row(n) if n < cursor.y => Direction::Up,
            Movement::Row(_) => Direction::Down,
            Movement::Position(coords) => {
                if coords.y < cursor.y {
                    Direction::Left
                } else if coords.y == cursor.y && coords.x < cursor.x {
                    Direction::Left
                } else {
                    Direction::Right
                }
            },
        }
    }

    /// Returns true if this motion can cause the screen to scroll.
    #[verifier::when_used_as_spec(spec_scrolls)]
    pub fn scrolls(&self) -> (b: bool)
        ensures
            b == self.spec_scrolls(),
    {
        match *self {
            Movement::IndexTo(_, _) | Movement::PreviousLine(_) | Movement::NextLine(_) => true,
            Movement::Position(_)
            | Movement::To(_, _, _)
            | Movement::ToEdge(_)
            | Movement::Tab(_, _, _)
            | Movement::Column(_)
            | Movement::Row(_)
            | Movement::ToBeginning
            | Movement::ToEnd => false,
        }
    }
}

/// A movement that names a direction travels in that direction, wherever the
/// cursor is and whatever else the movement carries.
pub proof fn lemma_named_direction_is_kept(d: Direction, count: u32, wrap: bool, cursor: Coords)
    ensures
        Movement::To(d, count, wrap).spec_direction(cursor) == d,
        Movement::ToEdge(d).spec_direction(cursor) == d,
        Movement::IndexTo(d, count).spec_direction(cursor) == d,
        Movement::Tab(d, count, wrap).spec_direction(cursor) == d,
{
}

/// Moving to the beginning of the line is a movement to the left and moving to
/// its end a movement to the right, wherever the cursor is.
pub proof fn lemma_line_ends(cursor: Coords)
    ensures
        Movement::ToBeginning.spec_direction(cursor) == Direction::Left,
        Movement::ToEnd.spec_direction(cursor) == Direction::Right,
{
}

/// Moving to a previous line is a movement up and moving to a next line a
/// movement down, by any number of lines and wherever the cursor is.
pub proof fn lemma_line_steps(count: u32, cursor: Coords)
    ensures
        Movement::PreviousLine(count).spec_direction(cursor) == Direction::Up,
        Movement::NextLine(count).spec_direction(cursor) == Direction::Down,
{
}

/// Moving to a column travels left exactly when the column lies before the
/// cursor's, and right otherwise. The cursor's own column counts as right.
pub proof fn lemma_column_direction(column: u32, cursor: Coords)
    ensures
        Movement::Column(column).spec_direction(cursor) == Direction::Left <==> column < cursor.x,
        Movement::Column(column).spec_direction(cursor) == Direction::Right <==> column >= cursor.x,
        Movement::Column(cursor.x).spec_direction(cursor) == Direction::Right,
{
}

/// Moving to a row travels up exactly when the row lies above the cursor's,
/// and down otherwise. The cursor's own row counts as down.
pub proof fn lemma_row_direction(row: u32, cursor: Coords)
    ensures
        Movement::Row(row).spec_direction(cursor) == Direction::Up <==> row < cursor.y,
        Movement::Row(row).spec_direction(cursor) == Direction::Down <==> row >= cursor.y,
        Movement::Row(cursor.y).spec_direction(cursor) == Direction::Down,
{
}

/// Moving to a cell travels left when the cell lies on a row above the
/// cursor's, or on the cursor's row in a column before it; in every other
/// case it travels right. It never travels up or down: a target on another
/// row is told apart by the order of the rows alone.
pub proof fn lemma_position_direction(target: Coords, cursor: Coords)
    ensures
        ({
            let d = Movement::Position(target).spec_direction(cursor);
            &&& target.y < cursor.y ==> d == Direction::Left
            &&& target.y == cursor.y && target.x < cursor.x ==> d == Direction::Left
            &&& target.y == cursor.y && target.x >= cursor.x ==> d == Direction::Right
            &&& target.y > cursor.y ==> d == Direction::Right
        }),
{
}

/// A movement can scroll the screen exactly when it is an index movement or a
/// movement to a previous or next line. What the movement carries plays no
/// part.
pub proof fn lemma_scrolls_by_variant(m: Movement)
    ensures
        m.spec_scrolls() <==> (m is IndexTo || m is PreviousLine || m is NextLine),
{
}

} // verus!
