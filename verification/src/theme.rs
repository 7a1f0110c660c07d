//! The canonical, backend-agnostic border theme and its application.
//!
//! A [`Theme`] carries one border set of characters, one border set of
//! colors, an optional special-cased separator for line index 1, and two
//! sparse index-to-line override collections.  It is produced from an erased
//! style builder ([`Theme::from_style`]), from a raw border set
//! ([`Theme::from_borders`]), or from an existing backend configuration
//! ([`Theme::from_config`]), and is consumed by one of the three `apply`
//! operations.
//!
//! Application onto the full dynamic backend is clear-then-rebuild, in a
//! fixed order: clear everything, install the line-1 shortcut, install the
//! general override maps (a general entry at index 1 overwrites the
//! shortcut), install the base characters, and install the base colors only
//! when at least one color slot is set.  The state the backend holds
//! afterwards is [`ThemeState::applied`] of the theme alone.

use vstd::prelude::*;

use crate::border::Border;
use crate::border::BorderPosition;
use crate::border::Borders;
use crate::border::Color;
use crate::border::HorizontalLine;
use crate::border::VerticalLine;
use crate::config::ColoredConfig;
use crate::config::CompactConfig;
use crate::config::CompactMultilineConfig;
use crate::config::ConfigState;
use crate::lines::entries_map;
use crate::lines::lemma_entries_map_take_step;
use crate::lines::Lines;

verus! {

/// The mathematical content of a [`Theme`]: the contracts of its methods
/// speak of nothing else.
#[verifier::ext_equal]
pub struct ThemeState {
    pub chars: Borders<char>,
    pub colors: Borders<Color>,
    pub horizontal1: Option<HorizontalLine<char>>,
    pub horizontals: Option<Map<usize, HorizontalLine<char>>>,
    pub verticals: Option<Map<usize, VerticalLine<char>>>,
}

impl ThemeState {
    /// The state of a freshly made theme: everything unset, both override
    /// collections untouched.
    pub open spec fn init() -> ThemeState {
        ThemeState {
            chars: Borders::spec_empty(),
            colors: Borders::spec_empty(),
            horizontal1: None,
            horizontals: None,
            verticals: None,
        }
    }

    /// The horizontal override map the theme asks a full backend to hold:
    /// the line-1 shortcut first, overwritten by the general map, whose
    /// entries always win.
    pub open spec fn effective_horizontals(self) -> Map<usize, HorizontalLine<char>> {
        let base = match self.horizontal1 {
            Some(line) => Map::<usize, HorizontalLine<char>>::empty().insert(1usize, line),
            None => Map::<usize, HorizontalLine<char>>::empty(),
        };
        match self.horizontals {
            Some(m) => base.union_prefer_right(m),
            None => base,
        }
    }

    /// The vertical override map the theme asks a full backend to hold.
    pub open spec fn effective_verticals(self) -> Map<usize, VerticalLine<char>> {
        match self.verticals {
            Some(m) => m,
            None => Map::<usize, VerticalLine<char>>::empty(),
        }
    }

    /// The horizontal override in force at one row after application.
    pub open spec fn horizontal_at(self, row: usize) -> Option<HorizontalLine<char>> {
        if self.effective_horizontals().dom().contains(row) {
            Some(self.effective_horizontals()[row])
        } else {
            None
        }
    }

    /// The vertical override in force at one column after application.
    pub open spec fn vertical_at(self, column: usize) -> Option<VerticalLine<char>> {
        if self.effective_verticals().dom().contains(column) {
            Some(self.effective_verticals()[column])
        } else {
            None
        }
    }

    /// What the general horizontal override getter observes at one row: it
    /// consults the general map only, never the line-1 shortcut.
    pub open spec fn line_horizontal(self, row: usize) -> Option<HorizontalLine<char>> {
        match self.horizontals {
            Some(m) => if m.dom().contains(row) {
                Some(m[row])
            } else {
                None
            },
            None => None,
        }
    }

    /// What the general vertical override getter observes at one column.
    pub open spec fn line_vertical(self, column: usize) -> Option<VerticalLine<char>> {
        match self.verticals {
            Some(m) => if m.dom().contains(column) {
                Some(m[column])
            } else {
                None
            },
            None => None,
        }
    }

    /// The full-backend border state that applying this theme produces,
    /// whatever the backend held before.
    pub open spec fn applied(self) -> ConfigState {
        ConfigState {
            borders: self.chars,
            colors: self.colors,
            horizontals: self.effective_horizontals(),
            verticals: self.effective_verticals(),
            horizontal_colors: Map::empty(),
            vertical_colors: Map::empty(),
        }
    }
}

/// The erased form of a compile-time style builder: its base border
/// characters and its fixed list of declared horizontal lines, each bound to
/// a row index.
#[derive(Debug, Clone, PartialEq, Eq)]
pub struct Style {
    pub borders: Borders<char>,
    pub horizontals: Vec<(usize, HorizontalLine<char>)>,
}

impl Style {
    /// The declared horizontal line at one row; of several declarations at
    /// the same row the last one wins.
    pub open spec fn spec_horizontal_at(self, row: usize) -> Option<HorizontalLine<char>> {
        if entries_map(self.horizontals@).dom().contains(row) {
            Some(entries_map(self.horizontals@)[row])
        } else {
            None
        }
    }
}

/// A raw border theme: the canonical representation every source converges
/// to and every backend consumes.
#[derive(Debug, Clone, PartialEq, Eq)]
pub struct Theme {
    border: TableBorders,
    lines: BorderLines,
}

#[derive(Debug, Clone, PartialEq, Eq)]
struct TableBorders {
    chars: Borders<char>,
    colors: Borders<Color>,
}

#[derive(Debug, Clone, PartialEq, Eq)]
struct BorderLines {
    horizontal1: Option<HorizontalLine<char>>,
    horizontals: Option<Lines<HorizontalLine<char>>>,
    verticals: Option<Lines<VerticalLine<char>>>,
}

impl View for Theme {
    type V = ThemeState;

    closed spec fn view(&self) -> ThemeState {
        ThemeState {
            chars: self.border.chars,
            colors: self.border.colors,
            horizontal1: self.lines.horizontal1,
            horizontals: match self.lines.horizontals {
                Some(l) => Some(l@),
                None => None,
            },
            verticals: match self.lines.verticals {
                Some(l) => Some(l@),
                None => None,
            },
        }
    }
}

/// Searches a declared horizontal line list for the entry at the given row;
/// of several entries at the same row the last one wins.
pub fn hlines_find(lines: &Vec<(usize, HorizontalLine<char>)>, search: usize) -> (r: Option<
    HorizontalLine<char>,
>)
    ensures
        r == (if entries_map(lines@).dom().contains(search) {
            Some(entries_map(lines@)[search])
        } else {
            None::<HorizontalLine<char>>
        }),
{
    let mut line: Option<HorizontalLine<char>> = None;
    let n = lines.len();
    let mut i: usize = 0;
    while i < n
        invariant
            n == lines@.len(),
            i <= n,
            line == (if entries_map(lines@.take(i as int)).dom().contains(search) {
                Some(entries_map(lines@.take(i as int))[search])
            } else {
                None::<HorizontalLine<char>>
            }),
        decreases n - i,
    {
        let (num, hline) = lines[i];
        proof {
            lemma_entries_map_take_step(lines@, i as int);
        }
        if num == search {
            line = Some(hline);
        }
        i += 1;
    }
    proof {
        assert(lines@.take(n as int) =~= lines@);
    }
    line
}

impl Theme {
    /// Builds a theme out of an erased style builder: its border characters
    /// are taken whole, colors start empty, and of its declared horizontal
    /// lines only the entry at row index 1 is carried over, into the line-1
    /// shortcut slot.  All other declared lines are not imported.
    pub fn from_style(style: Style) -> (r: Theme)
        ensures
            r@ == (ThemeState {
                chars: style.borders,
                colors: Borders::spec_empty(),
                horizontal1: style.spec_horizontal_at(1),
                horizontals: None::<Map<usize, HorizontalLine<char>>>,
                verticals: None::<Map<usize, VerticalLine<char>>>,
            }),
    {
        let horizontal1 = hlines_find(&style.horizontals, 1);
        Theme::_new(
            TableBorders::new(style.borders, Borders::empty()),
            BorderLines::new(horizontal1, None, None),
        )
    }

    /// Creates a new theme with no borders, no colors, and both override
    /// collections untouched.
    pub fn new() -> (r: Theme)
        ensures
            r@ == ThemeState::init(),
    {
        Theme::_new(
            TableBorders::new(Borders::empty(), Borders::empty()),
            BorderLines::new(None, None, None),
        )
    }

    /// Builds a theme out of a raw character border set; colors and both
    /// override collections start empty.
    pub fn from_borders(borders: Borders<char>) -> (r: Theme)
        ensures
            r@ == (ThemeState { chars: borders, ..ThemeState::init() }),
    {
        Theme::_new(
            TableBorders::new(borders, Borders::empty()),
            BorderLines::new(None, None, None),
        )
    }

    /// Reads a theme back out of an existing full-backend configuration:
    /// its border characters, its border colors, and every registered line
    /// override, copied verbatim into the general maps.  The line-1
    /// shortcut is not used on this path.
    pub fn from_config(cfg: ColoredConfig) -> (r: Theme)
        ensures
            r@ == (ThemeState {
                chars: cfg@.borders,
                colors: cfg@.colors,
                horizontal1: None::<HorizontalLine<char>>,
                horizontals: Some(cfg@.horizontals),
                verticals: Some(cfg@.verticals),
            }),
    {
        let borders = cfg.get_borders();
        let colors = cfg.get_color_borders();
        let horizontals = cfg.get_horizontal_lines();
        let verticals = cfg.get_vertical_lines();
        Theme::_new(
            TableBorders::new(borders, colors),
            BorderLines::new(None, Some(horizontals), Some(verticals)),
        )
    }

    fn _new(border: TableBorders, lines: BorderLines) -> (r: Self)
        ensures
            r.border == border,
            r.lines == lines,
    {
        Theme { border, lines }
    }
}

impl Default for Theme {
    /// The default theme is the empty one.
    fn default() -> (r: Theme)
        ensures
            r@ == ThemeState::init(),
    {
        Theme::new()
    }
}

impl Theme {
    /// Overwrites exactly the eight outer-frame character slots; the seven
    /// interior slots are kept.
    pub fn set_border_frame(&mut self, frame: Border<char>)
        ensures
            final(self)@ == (ThemeState {
                chars: old(self)@.chars.spec_with_frame(frame),
                ..old(self)@
            }),
    {
        self.border.chars.top = frame.top;
        self.border.chars.bottom = frame.bottom;
        self.border.chars.left = frame.left;
        self.border.chars.right = frame.right;
        self.border.chars.top_left = frame.left_top_corner;
        self.border.chars.top_right = frame.right_top_corner;
        self.border.chars.bottom_left = frame.left_bottom_corner;
        self.border.chars.bottom_right = frame.right_bottom_corner;
    }

    /// Overwrites exactly the eight outer-frame color slots; the seven
    /// interior slots are kept.
    pub fn set_border_color_frame(&mut self, frame: Border<Color>)
        ensures
            final(self)@ == (ThemeState {
                colors: old(self)@.colors.spec_with_frame(frame),
                ..old(self)@
            }),
    {
        self.border.colors.top = frame.top;
        self.border.colors.bottom = frame.bottom;
        self.border.colors.left = frame.left;
        self.border.colors.right = frame.right;
        self.border.colors.top_left = frame.left_top_corner;
        self.border.colors.top_right = frame.right_top_corner;
        self.border.colors.bottom_left = frame.left_bottom_corner;
        self.border.colors.bottom_right = frame.right_bottom_corner;
    }

    /// Replaces the whole character border set.
    pub fn set_borders(&mut self, borders: Borders<char>)
        ensures
            final(self)@ == (ThemeState { chars: borders, ..old(self)@ }),
    {
        self.border.chars = borders;
    }

    /// Replaces the whole color border set.
    pub fn set_borders_colors(&mut self, borders: Borders<Color>)
        ensures
            final(self)@ == (ThemeState { colors: borders, ..old(self)@ }),
    {
        self.border.colors = borders;
    }

    /// Reads the character border set back out.
    pub fn get_borders(&self) -> (r: Borders<char>)
        ensures
            r == self@.chars,
    {
        self.border.chars
    }

    /// Reads the color border set back out.
    pub fn get_borders_colors(&self) -> (r: Borders<Color>)
        ensures
            r == self@.colors,
    {
        self.border.colors
    }

    /// Reads the eight outer-frame character slots back out.
    pub fn get_border_frame(&self) -> (r: Border<char>)
        ensures
            r == self@.chars.spec_frame(),
    {
        Border {
            top: self.border.chars.top,
            bottom: self.border.chars.bottom,
            left: self.border.chars.left,
            right: self.border.chars.right,
            left_top_corner: self.border.chars.top_left,
            right_top_corner: self.border.chars.top_right,
            left_bottom_corner: self.border.chars.bottom_left,
            right_bottom_corner: self.border.chars.bottom_right,
        }
    }

    /// Reads the eight outer-frame color slots back out.
    pub fn get_border_color_frame(&self) -> (r: Border<Color>)
        ensures
            r == self@.colors.spec_frame(),
    {
        Border {
            top: self.border.colors.top,
            bottom: self.border.colors.bottom,
            left: self.border.colors.left,
            right: self.border.colors.right,
            left_top_corner: self.border.colors.top_left,
            right_top_corner: self.border.colors.top_right,
            left_bottom_corner: self.border.colors.bottom_left,
            right_bottom_corner: self.border.colors.bottom_right,
        }
    }
}

impl Theme {
    /// Sets the border character of one named slot.
    pub fn set_border_char(&mut self, pos: BorderPosition, c: char)
        ensures
            final(self)@ == (ThemeState {
                chars: old(self)@.chars.spec_with_slot(pos, Some(c)),
                ..old(self)@
            }),
    {
        self.border.chars.set_slot(pos, Some(c));
    }

    /// Unsets the border character of one named slot.
    pub fn remove_border_char(&mut self, pos: BorderPosition)
        ensures
            final(self)@ == (ThemeState {
                chars: old(self)@.chars.spec_with_slot(pos, None::<char>),
                ..old(self)@
            }),
    {
        self.border.chars.set_slot(pos, None);
    }

    /// Reads the border character of one named slot.
    pub fn get_border_char(&self, pos: BorderPosition) -> (r: Option<char>)
        ensures
            r == self@.chars.spec_slot(pos),
    {
        self.border.chars.slot(pos)
    }

    /// Sets the border color of one named slot.
    pub fn set_border_color(&mut self, pos: BorderPosition, color: Color)
        ensures
            final(self)@ == (ThemeState {
                colors: old(self)@.colors.spec_with_slot(pos, Some(color)),
                ..old(self)@
            }),
    {
        self.border.colors.set_slot(pos, Some(color));
    }

    /// Unsets the border color of one named slot.
    pub fn remove_border_color(&mut self, pos: BorderPosition)
        ensures
            final(self)@ == (ThemeState {
                colors: old(self)@.colors.spec_with_slot(pos, None::<Color>),
                ..old(self)@
            }),
    {
        self.border.colors.set_slot(pos, None);
    }

    /// Reads the border color of one named slot.
    pub fn get_border_color(&self, pos: BorderPosition) -> (r: Option<Color>)
        ensures
            r == self@.colors.spec_slot(pos),
    {
        self.border.colors.slot(pos)
    }
}

impl Theme {
    /// Replaces the general horizontal override map wholesale.
    pub fn set_lines_horizontal(&mut self, lines: Lines<HorizontalLine<char>>)
        ensures
            final(self)@ == (ThemeState { horizontals: Some(lines@), ..old(self)@ }),
    {
        self.lines.horizontals = Some(lines);
    }

    /// Replaces the general vertical override map wholesale.
    pub fn set_lines_vertical(&mut self, lines: Lines<VerticalLine<char>>)
        ensures
            final(self)@ == (ThemeState { verticals: Some(lines@), ..old(self)@ }),
    {
        self.lines.verticals = Some(lines);
    }

    /// Inserts a vertical line override at the given column, creating the
    /// general map if it was untouched.
    pub fn insert_line_vertical(&mut self, line: usize, vertical: VerticalLine<char>)
        ensures
            final(self)@ == (ThemeState {
                verticals: Some(
                    match old(self)@.verticals {
                        Some(m) => m.insert(line, vertical),
                        None => Map::<usize, VerticalLine<char>>::empty().insert(line, vertical),
                    },
                ),
                ..old(self)@
            }),
    {
        match &mut self.lines.verticals {
            Some(verticals) => {
                verticals.insert(line, vertical);
            },
            None => {
                let mut verticals = Lines::new();
                verticals.insert(line, vertical);
                self.lines.verticals = Some(verticals);
            },
        }
    }

    /// Inserts a horizontal line override at the given row, creating the
    /// general map if it was untouched.
    pub fn insert_line_horizontal(&mut self, line: usize, horizontal: HorizontalLine<char>)
        ensures
            final(self)@ == (ThemeState {
                horizontals: Some(
                    match old(self)@.horizontals {
                        Some(m) => m.insert(line, horizontal),
                        None => Map::<usize, HorizontalLine<char>>::empty().insert(
                            line,
                            horizontal,
                        ),
                    },
                ),
                ..old(self)@
            }),
    {
        match &mut self.lines.horizontals {
            Some(horizontals) => {
                horizontals.insert(line, horizontal);
            },
            None => {
                let mut horizontals = Lines::new();
                horizontals.insert(line, horizontal);
                self.lines.horizontals = Some(horizontals);
            },
        }
    }

    /// Fetches the vertical override at the given column.  Only the general
    /// map is consulted.
    pub fn get_line_vertical(&self, column: usize) -> (r: Option<VerticalLine<char>>)
        ensures
            r == self@.line_vertical(column),
    {
        match &self.lines.verticals {
            Some(lines) => lines.get(column),
            None => None,
        }
    }

    /// Fetches the horizontal override at the given row.  Only the general
    /// map is consulted: the line-1 shortcut is never observed here, only
    /// during application.
    pub fn get_line_horizontal(&self, row: usize) -> (r: Option<HorizontalLine<char>>)
        ensures
            r == self@.line_horizontal(row),
    {
        match &self.lines.horizontals {
            Some(lines) => lines.get(row),
            None => None,
        }
    }
}

impl Theme {
    /// Applies the theme onto a full dynamic backend: clear everything,
    /// install the overrides (line-1 shortcut first, general maps after, so
    /// a general entry at index 1 wins), install the base characters, and
    /// install the colors only when at least one color slot is set.  The
    /// state the backend holds afterwards does not depend on what it held
    /// before.
    pub fn apply_colored(self, cfg: &mut ColoredConfig)
        ensures
            final(cfg)@ == self@.applied(),
    {
        let ghost state = self@;
        cfg_clear_borders(cfg);
        cfg_set_custom_lines(cfg, self.lines);
        proof {
            assert(Map::<usize, HorizontalLine<char>>::empty().union_prefer_right(
                state.effective_horizontals(),
            ) =~= state.effective_horizontals());
            assert(Map::<usize, VerticalLine<char>>::empty().union_prefer_right(
                state.effective_verticals(),
            ) =~= state.effective_verticals());
        }
        cfg_set_borders(cfg, self.border);
    }

    /// Applies the theme onto a compact single-line backend: only the base
    /// border characters are installed; colors and every override are
    /// ignored.
    pub fn apply_compact(self, cfg: &mut CompactConfig)
        ensures
            final(cfg)@ == self@.chars,
    {
        *cfg = cfg.set_borders(self.border.chars);
    }

    /// Applies the theme onto a compact multi-line backend: only the base
    /// border characters are installed; colors and every override are
    /// ignored.
    pub fn apply_compact_multiline(self, cfg: &mut CompactMultilineConfig)
        ensures
            final(cfg)@ == self@.chars,
    {
        cfg.set_borders(self.border.chars);
    }
}

impl TableBorders {
    fn new(chars: Borders<char>, colors: Borders<Color>) -> (r: Self)
        ensures
            r.chars == chars,
            r.colors == colors,
    {
        TableBorders { chars, colors }
    }
}

impl BorderLines {
    fn new(
        horizontal1: Option<HorizontalLine<char>>,
        horizontals: Option<Lines<HorizontalLine<char>>>,
        verticals: Option<Lines<VerticalLine<char>>>,
    ) -> (r: Self)
        ensures
            r.horizontal1 == horizontal1,
            r.horizontals == horizontals,
            r.verticals == verticals,
    {
        BorderLines { horizontal1, horizontals, verticals }
    }
}

/// The horizontal override map that installing these border lines adds.
spec fn lines_horizontals(lines: BorderLines) -> Map<usize, HorizontalLine<char>> {
    let base = match lines.horizontal1 {
        Some(line) => Map::<usize, HorizontalLine<char>>::empty().insert(1usize, line),
        None => Map::<usize, HorizontalLine<char>>::empty(),
    };
    match lines.horizontals {
        Some(l) => base.union_prefer_right(l@),
        None => base,
    }
}

/// The vertical override map that installing these border lines adds.
spec fn lines_verticals(lines: BorderLines) -> Map<usize, VerticalLine<char>> {
    match lines.verticals {
        Some(l) => l@,
        None => Map::<usize, VerticalLine<char>>::empty(),
    }
}

/// Clears every piece of border state the full backend holds: base
/// characters, base colors, and all four override collections.
fn cfg_clear_borders(cfg: &mut ColoredConfig)
    ensures
        final(cfg)@ == ConfigState::init(),
{
    cfg.remove_borders();
    cfg.remove_borders_colors();
    cfg.remove_vertical_chars();
    cfg.remove_horizontal_chars();
    cfg.remove_color_line_horizontal();
    cfg.remove_color_line_vertical();
}

/// Installs the base character border set, and the color border set only
/// when at least one color slot is set: an all-unset color set means "do not
/// touch color".
fn cfg_set_borders(cfg: &mut ColoredConfig, border: TableBorders)
    ensures
        final(cfg)@ == (ConfigState {
            borders: border.chars,
            colors: if border.colors.spec_is_empty() {
                old(cfg)@.colors
            } else {
                border.colors
            },
            ..old(cfg)@
        }),
{
    cfg.set_borders(border.chars);
    if !border.colors.is_empty() {
        cfg.set_borders_color(border.colors);
    }
}

/// Registers the line overrides on the full backend: the line-1 shortcut
/// first, then every entry of the general horizontal map, then every entry
/// of the general vertical map.  Later insertions overwrite earlier ones at
/// the same index.
fn cfg_set_custom_lines(cfg: &mut ColoredConfig, lines: BorderLines)
    ensures
        final(cfg)@ == (ConfigState {
            horizontals: old(cfg)@.horizontals.union_prefer_right(lines_horizontals(lines)),
            verticals: old(cfg)@.verticals.union_prefer_right(lines_verticals(lines)),
            ..old(cfg)@
        }),
{
    let ghost lines0 = lines;
    let BorderLines { horizontal1, horizontals, verticals } = lines;

    if let Some(line) = horizontal1 {
        cfg.insert_horizontal_line(1, line);
    }

    if let Some(hlines) = horizontals {
        let ghost st0 = cfg@;
        let ghost s = hlines.spec_entries();
        let n = hlines.len();
        let mut i: usize = 0;
        while i < n
            invariant
                n == s.len(),
                s == hlines.spec_entries(),
                i <= n,
                cfg@ == (ConfigState {
                    horizontals: st0.horizontals.union_prefer_right(
                        entries_map(s.take(i as int)),
                    ),
                    ..st0
                }),
            decreases n - i,
        {
            let (row, line) = hlines.entry_at(i);
            cfg.insert_horizontal_line(row, line);
            proof {
                lemma_entries_map_take_step(s, i as int);
                assert(st0.horizontals.union_prefer_right(entries_map(s.take(i as int))).insert(
                    row,
                    line,
                ) =~= st0.horizontals.union_prefer_right(entries_map(s.take(i as int + 1))));
            }
            i += 1;
        }
        proof {
            assert(s.take(n as int) =~= s);
        }
    } else {
        proof {
            assert(cfg@.horizontals.union_prefer_right(
                Map::<usize, HorizontalLine<char>>::empty(),
            ) =~= cfg@.horizontals);
        }
    }

    if let Some(vlines) = verticals {
        let ghost st0 = cfg@;
        let ghost s = vlines.spec_entries();
        let n = vlines.len();
        let mut i: usize = 0;
        while i < n
            invariant
                n == s.len(),
                s == vlines.spec_entries(),
                i <= n,
                cfg@ == (ConfigState {
                    verticals: st0.verticals.union_prefer_right(entries_map(s.take(i as int))),
                    ..st0
                }),
            decreases n - i,
        {
            let (column, line) = vlines.entry_at(i);
            cfg.insert_vertical_line(column, line);
            proof {
                lemma_entries_map_take_step(s, i as int);
                assert(st0.verticals.union_prefer_right(entries_map(s.take(i as int))).insert(
                    column,
                    line,
                ) =~= st0.verticals.union_prefer_right(entries_map(s.take(i as int + 1))));
            }
            i += 1;
        }
        proof {
            assert(s.take(n as int) =~= s);
        }
    } else {
        proof {
            assert(cfg@.verticals.union_prefer_right(Map::<usize, VerticalLine<char>>::empty())
                =~= cfg@.verticals);
        }
    }

    proof {
        assert(cfg@.horizontals =~= old(cfg)@.horizontals.union_prefer_right(
            lines_horizontals(lines0),
        ));
        assert(cfg@.verticals =~= old(cfg)@.verticals.union_prefer_right(
            lines_verticals(lines0),
        ));
    }
}

} // verus!
