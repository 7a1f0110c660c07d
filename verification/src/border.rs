//! The leaf border data: the fifteen-slot border set, the eight-slot outer
//! frame, per-line separator definitions, and terminal colors.

use vstd::prelude::*;

verus! {

/// A terminal color a border line may be painted with.
#[derive(Debug, Clone, Copy, PartialEq, Eq)]
pub enum Color {
    Black,
    Red,
    Green,
    Yellow,
    Blue,
    Magenta,
    Cyan,
    White,
    Rgb(u8, u8, u8),
}

/// A name for one of the fifteen border slots.  Slot identity is
/// load-bearing: each names a fixed geometric position of the grid.
#[derive(Debug, Clone, Copy, PartialEq, Eq)]
pub enum BorderPosition {
    Top,
    Bottom,
    Left,
    Right,
    TopLeft,
    TopRight,
    BottomLeft,
    BottomRight,
    TopIntersection,
    BottomIntersection,
    LeftIntersection,
    RightIntersection,
    Intersection,
    Horizontal,
    Vertical,
}

/// The fifteen named border slots of a rectangular grid of cells: the four
/// edges, the four corners, the five intersections, and the plain horizontal
/// and vertical line glyphs.  An unset slot means "no border drawn here".
#[derive(Debug, Clone, Copy, PartialEq, Eq)]
pub struct Borders<T> {
    pub top: Option<T>,
    pub bottom: Option<T>,
    pub left: Option<T>,
    pub right: Option<T>,
    pub top_left: Option<T>,
    pub top_right: Option<T>,
    pub bottom_left: Option<T>,
    pub bottom_right: Option<T>,
    pub top_intersection: Option<T>,
    pub bottom_intersection: Option<T>,
    pub left_intersection: Option<T>,
    pub right_intersection: Option<T>,
    pub intersection: Option<T>,
    pub horizontal: Option<T>,
    pub vertical: Option<T>,
}

/// The eight-slot outer frame of a table: the four edges and the four
/// corners, without the interior slots.
#[derive(Debug, Clone, Copy, PartialEq, Eq)]
pub struct Border<T> {
    pub top: Option<T>,
    pub bottom: Option<T>,
    pub left: Option<T>,
    pub right: Option<T>,
    pub left_top_corner: Option<T>,
    pub right_top_corner: Option<T>,
    pub left_bottom_corner: Option<T>,
    pub right_bottom_corner: Option<T>,
}

/// One horizontal separator line: its main glyph, its intersection with
/// vertical lines, and its two end glyphs.
#[derive(Debug, Clone, Copy, PartialEq, Eq)]
pub struct HorizontalLine<T> {
    pub main: Option<T>,
    pub intersection: Option<T>,
    pub left: Option<T>,
    pub right: Option<T>,
}

/// One vertical separator line: its main glyph, its intersection with
/// horizontal lines, and its two end glyphs.
#[derive(Debug, Clone, Copy, PartialEq, Eq)]
pub struct VerticalLine<T> {
    pub main: Option<T>,
    pub intersection: Option<T>,
    pub top: Option<T>,
    pub bottom: Option<T>,
}

impl<T> Borders<T> {
    /// The border set with every slot unset.
    pub open spec fn spec_empty() -> Borders<T> {
        Borders {
            top: None,
            bottom: None,
            left: None,
            right: None,
            top_left: None,
            top_right: None,
            bottom_left: None,
            bottom_right: None,
            top_intersection: None,
            bottom_intersection: None,
            left_intersection: None,
            right_intersection: None,
            intersection: None,
            horizontal: None,
            vertical: None,
        }
    }

    /// Whether every one of the fifteen slots is unset.
    pub open spec fn spec_is_empty(self) -> bool {
        self == Self::spec_empty()
    }

    /// The border set after overwriting exactly the eight outer-frame slots
    /// with the given frame; the seven interior slots are kept.
    pub open spec fn spec_with_frame(self, frame: Border<T>) -> Borders<T> {
        Borders {
            top: frame.top,
            bottom: frame.bottom,
            left: frame.left,
            right: frame.right,
            top_left: frame.left_top_corner,
            top_right: frame.right_top_corner,
            bottom_left: frame.left_bottom_corner,
            bottom_right: frame.right_bottom_corner,
            ..self
        }
    }

    /// The eight outer-frame slots of this border set.
    pub open spec fn spec_frame(self) -> Border<T> {
        Border {
            top: self.top,
            bottom: self.bottom,
            left: self.left,
            right: self.right,
            left_top_corner: self.top_left,
            right_top_corner: self.top_right,
            left_bottom_corner: self.bottom_left,
            right_bottom_corner: self.bottom_right,
        }
    }

    /// Builds the border set with every slot unset.
    pub fn empty() -> (r: Borders<T>)
        ensures
            r == Self::spec_empty(),
    {
        Borders {
            top: None,
            bottom: None,
            left: None,
            right: None,
            top_left: None,
            top_right: None,
            bottom_left: None,
            bottom_right: None,
            top_intersection: None,
            bottom_intersection: None,
            left_intersection: None,
            right_intersection: None,
            intersection: None,
            horizontal: None,
            vertical: None,
        }
    }

    /// The value of one named slot.
    pub open spec fn spec_slot(self, pos: BorderPosition) -> Option<T> {
        match pos {
            BorderPosition::Top => self.top,
            BorderPosition::Bottom => self.bottom,
            BorderPosition::Left => self.left,
            BorderPosition::Right => self.right,
            BorderPosition::TopLeft => self.top_left,
            BorderPosition::TopRight => self.top_right,
            BorderPosition::BottomLeft => self.bottom_left,
            BorderPosition::BottomRight => self.bottom_right,
            BorderPosition::TopIntersection => self.top_intersection,
            BorderPosition::BottomIntersection => self.bottom_intersection,
            BorderPosition::LeftIntersection => self.left_intersection,
            BorderPosition::RightIntersection => self.right_intersection,
            BorderPosition::Intersection => self.intersection,
            BorderPosition::Horizontal => self.horizontal,
            BorderPosition::Vertical => self.vertical,
        }
    }

    /// The border set after overwriting one named slot and no other.
    pub open spec fn spec_with_slot(self, pos: BorderPosition, value: Option<T>) -> Borders<T> {
        match pos {
            BorderPosition::Top => Borders { top: value, ..self },
            BorderPosition::Bottom => Borders { bottom: value, ..self },
            BorderPosition::Left => Borders { left: value, ..self },
            BorderPosition::Right => Borders { right: value, ..self },
            BorderPosition::TopLeft => Borders { top_left: value, ..self },
            BorderPosition::TopRight => Borders { top_right: value, ..self },
            BorderPosition::BottomLeft => Borders { bottom_left: value, ..self },
            BorderPosition::BottomRight => Borders { bottom_right: value, ..self },
            BorderPosition::TopIntersection => Borders { top_intersection: value, ..self },
            BorderPosition::BottomIntersection => Borders { bottom_intersection: value, ..self },
            BorderPosition::LeftIntersection => Borders { left_intersection: value, ..self },
            BorderPosition::RightIntersection => Borders { right_intersection: value, ..self },
            BorderPosition::Intersection => Borders { intersection: value, ..self },
            BorderPosition::Horizontal => Borders { horizontal: value, ..self },
            BorderPosition::Vertical => Borders { vertical: value, ..self },
        }
    }

    /// Overwrites one named slot and no other.
    pub fn set_slot(&mut self, pos: BorderPosition, value: Option<T>)
        ensures
            *final(self) == old(self).spec_with_slot(pos, value),
    {
        match pos {
            BorderPosition::Top => self.top = value,
            BorderPosition::Bottom => self.bottom = value,
            BorderPosition::Left => self.left = value,
            BorderPosition::Right => self.right = value,
            BorderPosition::TopLeft => self.top_left = value,
            BorderPosition::TopRight => self.top_right = value,
            BorderPosition::BottomLeft => self.bottom_left = value,
            BorderPosition::BottomRight => self.bottom_right = value,
            BorderPosition::TopIntersection => self.top_intersection = value,
            BorderPosition::BottomIntersection => self.bottom_intersection = value,
            BorderPosition::LeftIntersection => self.left_intersection = value,
            BorderPosition::RightIntersection => self.right_intersection = value,
            BorderPosition::Intersection => self.intersection = value,
            BorderPosition::Horizontal => self.horizontal = value,
            BorderPosition::Vertical => self.vertical = value,
        }
    }

    /// Reports whether every slot is unset.
    pub fn is_empty(&self) -> (r: bool)
        ensures
            r == self.spec_is_empty(),
    {
        self.top.is_none() && self.bottom.is_none() && self.left.is_none()
            && self.right.is_none() && self.top_left.is_none() && self.top_right.is_none()
            && self.bottom_left.is_none() && self.bottom_right.is_none()
            && self.top_intersection.is_none() && self.bottom_intersection.is_none()
            && self.left_intersection.is_none() && self.right_intersection.is_none()
            && self.intersection.is_none() && self.horizontal.is_none()
            && self.vertical.is_none()
    }
}

impl<T: Copy> Borders<T> {
    /// Reads one named slot.
    pub fn slot(&self, pos: BorderPosition) -> (r: Option<T>)
        ensures
            r == self.spec_slot(pos),
    {
        match pos {
            BorderPosition::Top => self.top,
            BorderPosition::Bottom => self.bottom,
            BorderPosition::Left => self.left,
            BorderPosition::Right => self.right,
            BorderPosition::TopLeft => self.top_left,
            BorderPosition::TopRight => self.top_right,
            BorderPosition::BottomLeft => self.bottom_left,
            BorderPosition::BottomRight => self.bottom_right,
            BorderPosition::TopIntersection => self.top_intersection,
            BorderPosition::BottomIntersection => self.bottom_intersection,
            BorderPosition::LeftIntersection => self.left_intersection,
            BorderPosition::RightIntersection => self.right_intersection,
            BorderPosition::Intersection => self.intersection,
            BorderPosition::Horizontal => self.horizontal,
            BorderPosition::Vertical => self.vertical,
        }
    }
}

} // verus!
