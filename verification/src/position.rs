//! Positions in a text: byte offsets, (row, column) points, and ranges.
//!
//! Rows, columns and byte offsets are zero-based.
use vstd::prelude::*;

verus! {

/// The largest offset, row or column that the engine can hold.
pub const ENGINE_MAX: usize = 0xffff_ffff;

/// A position in a text, as a row and a column.
#[derive(Clone, Copy, Debug, PartialEq, Eq, Structural)]
pub struct Point {
    pub row: usize,
    pub column: usize,
}

impl Point {
    /// Lexicographic order: by row, then by column.
    pub open spec fn le(self, other: Point) -> bool {
        self.row < other.row || (self.row == other.row && self.column <= other.column)
    }

    /// Both coordinates fit the engine's 32 bits.
    pub open spec fn fits_engine(self) -> bool {
        self.row <= ENGINE_MAX && self.column <= ENGINE_MAX
    }

    pub fn new(row: usize, column: usize) -> (p: Point)
        ensures
            p == (Point { row, column }),
    {
        Point { row, column }
    }

    /// Is this point at or before `other`?
    pub fn at_or_before(&self, other: &Point) -> (b: bool)
        ensures
            b == self.le(*other),
    {
        self.row < other.row || (self.row == other.row && self.column <= other.column)
    }

    pub fn within_engine(&self) -> (b: bool)
        ensures
            b == self.fits_engine(),
    {
        self.row <= ENGINE_MAX && self.column <= ENGINE_MAX
    }
}

/// A stretch of text, by bytes and by points.
#[derive(Clone, Copy, Debug, PartialEq, Eq, Structural)]
pub struct Range {
    pub start_byte: usize,
    pub end_byte: usize,
    pub start_point: Point,
    pub end_point: Point,
}

impl Range {
    /// The start is at or before the end, by bytes and by points.
    pub open spec fn wf(self) -> bool {
        self.start_byte <= self.end_byte && self.start_point.le(self.end_point)
    }

    /// The bytes from `start` to `end` are a stretch that lies inside this range.
    pub open spec fn spans_bytes(self, start: usize, end: usize) -> bool {
        self.start_byte <= start && start <= end && end <= self.end_byte
    }

    /// The points from `start` to `end` are a stretch that lies inside this range.
    pub open spec fn spans_points(self, start: Point, end: Point) -> bool {
        self.start_point.le(start) && start.le(end) && end.le(self.end_point)
    }

    /// What `new` answers.
    pub open spec fn spec_new(
        start_byte: usize,
        end_byte: usize,
        start_point: Point,
        end_point: Point,
    ) -> Option<Range> {
        if start_byte <= end_byte && start_point.le(end_point) {
            Some(Range { start_byte, end_byte, start_point, end_point })
        } else {
            None
        }
    }

    /// The range between two positions, or `None` where the end lies before
    /// the start.
    pub fn new(start_byte: usize, end_byte: usize, start_point: Point, end_point: Point) -> (r:
        Option<Range>)
        ensures
            r == Range::spec_new(start_byte, end_byte, start_point, end_point),
            r matches Some(range) ==> range.wf(),
    {
        if start_byte <= end_byte && start_point.at_or_before(&end_point) {
            Some(Range { start_byte, end_byte, start_point, end_point })
        } else {
            None
        }
    }

    pub fn contains_bytes(&self, start: usize, end: usize) -> (b: bool)
        ensures
            b == self.spans_bytes(start, end),
    {
        self.start_byte <= start && start <= end && end <= self.end_byte
    }

    pub fn contains_points(&self, start: Point, end: Point) -> (b: bool)
        ensures
            b == self.spans_points(start, end),
    {
        self.start_point.at_or_before(&start) && start.at_or_before(&end) && end.at_or_before(
            &self.end_point,
        )
    }
}

} // verus!
