//! The grid-configuration backends a theme is applied onto.
//!
//! [`ColoredConfig`] is the full dynamic backend: base border characters,
//! base border colors, and per-line character and color overrides keyed by
//! row or column index.  [`CompactConfig`] and [`CompactMultilineConfig`]
//! are the two compact backends; they keep only the base border characters
//! and have no color or override surface.

use vstd::prelude::*;

use crate::border::Borders;
use crate::border::Color;
use crate::border::HorizontalLine;
use crate::border::VerticalLine;
use crate::lines::Lines;

verus! {

/// The whole border state of a full dynamic backend, as one mathematical
/// value: the contracts of [`ColoredConfig`] speak of nothing else.
#[verifier::ext_equal]
pub struct ConfigState {
    pub borders: Borders<char>,
    pub colors: Borders<Color>,
    pub horizontals: Map<usize, HorizontalLine<char>>,
    pub verticals: Map<usize, VerticalLine<char>>,
    pub horizontal_colors: Map<usize, HorizontalLine<Color>>,
    pub vertical_colors: Map<usize, VerticalLine<Color>>,
}

impl ConfigState {
    /// The state of a fresh backend: everything unset.
    pub open spec fn init() -> ConfigState {
        ConfigState {
            borders: Borders::spec_empty(),
            colors: Borders::spec_empty(),
            horizontals: Map::empty(),
            verticals: Map::empty(),
            horizontal_colors: Map::empty(),
            vertical_colors: Map::empty(),
        }
    }
}

/// The full dynamic backend configuration, capable of per-line overrides
/// and of color.
#[derive(Debug, Clone, PartialEq, Eq)]
pub struct ColoredConfig {
    borders: Borders<char>,
    colors: Borders<Color>,
    horizontals: Lines<HorizontalLine<char>>,
    verticals: Lines<VerticalLine<char>>,
    horizontal_colors: Lines<HorizontalLine<Color>>,
    vertical_colors: Lines<VerticalLine<Color>>,
}

impl View for ColoredConfig {
    type V = ConfigState;

    closed spec fn view(&self) -> ConfigState {
        ConfigState {
            borders: self.borders,
            colors: self.colors,
            horizontals: self.horizontals@,
            verticals: self.verticals@,
            horizontal_colors: self.horizontal_colors@,
            vertical_colors: self.vertical_colors@,
        }
    }
}

impl ColoredConfig {
    /// Builds a fresh configuration with no border state.
    pub fn new() -> (r: Self)
        ensures
            r@ == ConfigState::init(),
    {
        ColoredConfig {
            borders: Borders::empty(),
            colors: Borders::empty(),
            horizontals: Lines::new(),
            verticals: Lines::new(),
            horizontal_colors: Lines::new(),
            vertical_colors: Lines::new(),
        }
    }

    /// Unsets every base border character.
    pub fn remove_borders(&mut self)
        ensures
            final(self)@ == (ConfigState { borders: Borders::spec_empty(), ..old(self)@ }),
    {
        self.borders = Borders::empty();
    }

    /// Unsets every base border color.
    pub fn remove_borders_colors(&mut self)
        ensures
            final(self)@ == (ConfigState { colors: Borders::spec_empty(), ..old(self)@ }),
    {
        self.colors = Borders::empty();
    }

    /// Drops every registered horizontal line character override.
    pub fn remove_horizontal_chars(&mut self)
        ensures
            final(self)@ == (ConfigState {
                horizontals: Map::empty(),
                ..old(self)@
            }),
    {
        self.horizontals = Lines::new();
    }

    /// Drops every registered vertical line character override.
    pub fn remove_vertical_chars(&mut self)
        ensures
            final(self)@ == (ConfigState { verticals: Map::empty(), ..old(self)@ }),
    {
        self.verticals = Lines::new();
    }

    /// Drops every registered horizontal line color override.
    pub fn remove_color_line_horizontal(&mut self)
        ensures
            final(self)@ == (ConfigState {
                horizontal_colors: Map::empty(),
                ..old(self)@
            }),
    {
        self.horizontal_colors = Lines::new();
    }

    /// Drops every registered vertical line color override.
    pub fn remove_color_line_vertical(&mut self)
        ensures
            final(self)@ == (ConfigState {
                vertical_colors: Map::empty(),
                ..old(self)@
            }),
    {
        self.vertical_colors = Lines::new();
    }

    /// Installs the base border characters.
    pub fn set_borders(&mut self, borders: Borders<char>)
        ensures
            final(self)@ == (ConfigState { borders: borders, ..old(self)@ }),
    {
        self.borders = borders;
    }

    /// Installs the base border colors.
    pub fn set_borders_color(&mut self, colors: Borders<Color>)
        ensures
            final(self)@ == (ConfigState { colors: colors, ..old(self)@ }),
    {
        self.colors = colors;
    }

    /// Registers a horizontal line override at the given row, overwriting
    /// the one already there if any.
    pub fn insert_horizontal_line(&mut self, row: usize, line: HorizontalLine<char>)
        ensures
            final(self)@ == (ConfigState {
                horizontals: old(self)@.horizontals.insert(row, line),
                ..old(self)@
            }),
    {
        self.horizontals.insert(row, line);
    }

    /// Registers a vertical line override at the given column, overwriting
    /// the one already there if any.
    pub fn insert_vertical_line(&mut self, column: usize, line: VerticalLine<char>)
        ensures
            final(self)@ == (ConfigState {
                verticals: old(self)@.verticals.insert(column, line),
                ..old(self)@
            }),
    {
        self.verticals.insert(column, line);
    }

    /// Reads the base border characters back out.
    pub fn get_borders(&self) -> (r: Borders<char>)
        ensures
            r == self@.borders,
    {
        self.borders
    }

    /// Reads the base border colors back out.
    pub fn get_color_borders(&self) -> (r: Borders<Color>)
        ensures
            r == self@.colors,
    {
        self.colors
    }

    /// Reads the registered horizontal line overrides back out.
    pub fn get_horizontal_lines(&self) -> (r: Lines<HorizontalLine<char>>)
        ensures
            r@ == self@.horizontals,
    {
        self.horizontals.clone()
    }

    /// Reads the registered vertical line overrides back out.
    pub fn get_vertical_lines(&self) -> (r: Lines<VerticalLine<char>>)
        ensures
            r@ == self@.verticals,
    {
        self.verticals.clone()
    }
}

/// A compact backend configuration: base border characters only, for cells
/// of a single line.
#[derive(Debug, Clone, Copy, PartialEq, Eq)]
pub struct CompactConfig {
    borders: Borders<char>,
}

impl View for CompactConfig {
    type V = Borders<char>;

    closed spec fn view(&self) -> Borders<char> {
        self.borders
    }
}

impl CompactConfig {
    /// Builds a fresh configuration with no borders.
    pub fn new() -> (r: Self)
        ensures
            r@ == Borders::<char>::spec_empty(),
    {
        CompactConfig { borders: Borders::empty() }
    }

    /// The configuration with the given borders installed in place of
    /// whatever was configured before.
    pub fn set_borders(self, borders: Borders<char>) -> (r: Self)
        ensures
            r@ == borders,
    {
        CompactConfig { borders }
    }

    /// Reads the border characters back out.
    pub fn get_borders(&self) -> (r: Borders<char>)
        ensures
            r == self@,
    {
        self.borders
    }
}

/// A compact backend configuration for cells of several lines; its border
/// surface is the same as [`CompactConfig`]'s.
#[derive(Debug, Clone, Copy, PartialEq, Eq)]
pub struct CompactMultilineConfig {
    config: CompactConfig,
}

impl View for CompactMultilineConfig {
    type V = Borders<char>;

    closed spec fn view(&self) -> Borders<char> {
        self.config@
    }
}

impl CompactMultilineConfig {
    /// Builds a fresh configuration with no borders.
    pub fn new() -> (r: Self)
        ensures
            r@ == Borders::<char>::spec_empty(),
    {
        CompactMultilineConfig { config: CompactConfig::new() }
    }

    /// Installs the given borders in place of whatever was configured
    /// before.
    pub fn set_borders(&mut self, borders: Borders<char>)
        ensures
            final(self)@ == borders,
    {
        self.config = self.config.set_borders(borders);
    }

    /// Reads the border characters back out.
    pub fn get_borders(&self) -> (r: Borders<char>)
        ensures
            r == self@,
    {
        self.config.get_borders()
    }
}

} // verus!
