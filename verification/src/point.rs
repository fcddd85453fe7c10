//! Positions in a document, counted in rows and UTF-16 columns, and the
//! positions and ranges that travel over the wire.

use vstd::prelude::*;

verus! {

/// A position in a document: a zero-based row and a column counted in
/// UTF-16 code units.
#[derive(Clone, Copy, Debug, PartialEq, Eq, Structural)]
pub struct PointUtf16 {
    pub row: u32,
    pub column: u32,
}

/// A position as the remote endpoint writes it.
#[derive(Clone, Copy, Debug, PartialEq, Eq, Structural)]
pub struct Position {
    pub line: u32,
    pub character: u32,
}

/// A span between two wire positions.
#[derive(Clone, Copy, Debug, PartialEq, Eq, Structural)]
pub struct Range {
    pub start: Position,
    pub end: Position,
}

impl PointUtf16 {
    /// Whether `self` comes before `other` in document order, or is equal to it.
    pub open spec fn le(self, other: PointUtf16) -> bool {
        self.row < other.row || (self.row == other.row && self.column <= other.column)
    }

    /// The displacement that leads from `origin` to `self`: the number of rows
    /// crossed and, where no row is crossed, the number of columns; where rows
    /// are crossed, the column reached. `None` where `origin` lies after `self`.
    pub open spec fn minus(self, origin: PointUtf16) -> Option<PointUtf16> {
        if !origin.le(self) {
            None
        } else if self.row == origin.row {
            Some(PointUtf16 { row: 0, column: (self.column - origin.column) as u32 })
        } else {
            Some(PointUtf16 { row: (self.row - origin.row) as u32, column: self.column })
        }
    }

    /// The position reached from `self` by the displacement `delta`. `None`
    /// where a coordinate would not fit in 32 bits.
    pub open spec fn plus(self, delta: PointUtf16) -> Option<PointUtf16> {
        if delta.row == 0 {
            if self.column + delta.column <= u32::MAX {
                Some(PointUtf16 { row: self.row, column: (self.column + delta.column) as u32 })
            } else {
                None
            }
        } else if self.row + delta.row <= u32::MAX {
            Some(PointUtf16 { row: (self.row + delta.row) as u32, column: delta.column })
        } else {
            None
        }
    }

    pub fn new(row: u32, column: u32) -> (p: PointUtf16)
        ensures
            p == (PointUtf16 { row, column }),
    {
        PointUtf16 { row, column }
    }

    /// Compares two positions in document order.
    pub fn is_le(self, other: PointUtf16) -> (b: bool)
        ensures
            b == self.le(other),
    {
        self.row < other.row || (self.row == other.row && self.column <= other.column)
    }

    pub fn checked_sub(self, origin: PointUtf16) -> (d: Option<PointUtf16>)
        ensures
            d == self.minus(origin),
    {
        if !origin.is_le(self) {
            None
        } else if self.row == origin.row {
            Some(PointUtf16 { row: 0, column: self.column - origin.column })
        } else {
            Some(PointUtf16 { row: self.row - origin.row, column: self.column })
        }
    }

    pub fn checked_add(self, delta: PointUtf16) -> (p: Option<PointUtf16>)
        ensures
            p == self.plus(delta),
    {
        if delta.row == 0 {
            match self.column.checked_add(delta.column) {
                Some(column) => Some(PointUtf16 { row: self.row, column }),
                None => None,
            }
        } else {
            match self.row.checked_add(delta.row) {
                Some(row) => Some(PointUtf16 { row, column: delta.column }),
                None => None,
            }
        }
    }
}

/// The wire position of a document position.
pub open spec fn lsp_of_point(point: PointUtf16) -> Position {
    Position { line: point.row, character: point.column }
}

/// The document position of a wire position.
pub open spec fn point_of_lsp(position: Position) -> PointUtf16 {
    PointUtf16 { row: position.line, column: position.character }
}

pub fn point_to_lsp(point: PointUtf16) -> (position: Position)
    ensures
        position == lsp_of_point(point),
{
    Position { line: point.row, character: point.column }
}

pub fn point_from_lsp(position: Position) -> (point: PointUtf16)
    ensures
        point == point_of_lsp(position),
{
    PointUtf16 { row: position.line, column: position.character }
}

/// Adding to `origin` the displacement that leads from `origin` to `target`
/// reaches `target`.
pub proof fn lemma_plus_minus(target: PointUtf16, origin: PointUtf16)
    requires
        origin.le(target),
    ensures
        target.minus(origin) is Some,
        origin.plus(target.minus(origin).unwrap()) == Some(target),
{
}

} // verus!
