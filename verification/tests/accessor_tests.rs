use table_theme::border::BorderPosition;
use table_theme::border::Borders;
use table_theme::border::Color;
use table_theme::border::HorizontalLine;
use table_theme::border::VerticalLine;
use table_theme::config::ColoredConfig;
use table_theme::lines::Lines;
use table_theme::theme::hlines_find;
use table_theme::theme::Style;
use table_theme::theme::Theme;

fn mark_h(c: char) -> HorizontalLine<char> {
    HorizontalLine { main: Some(c), intersection: None, left: None, right: None }
}

fn mark_v(c: char) -> VerticalLine<char> {
    VerticalLine { main: Some(c), intersection: None, top: None, bottom: None }
}

#[test]
fn builder_line1_is_not_visible_through_the_general_getter() {
    let style = Style { borders: Borders::empty(), horizontals: vec![(1, mark_h('x'))] };
    let theme = Theme::from_style(style);
    assert_eq!(theme.get_line_horizontal(1), None);
}

#[test]
fn builder_import_takes_only_the_line_at_index_one() {
    let style = Style {
        borders: Borders::empty(),
        horizontals: vec![(0, mark_h('a')), (1, mark_h('b')), (3, mark_h('c'))],
    };
    let theme = Theme::from_style(style);

    let mut cfg = ColoredConfig::new();
    theme.apply_colored(&mut cfg);
    assert_eq!(cfg.get_horizontal_lines().get(0), None);
    assert_eq!(cfg.get_horizontal_lines().get(1), Some(mark_h('b')));
    assert_eq!(cfg.get_horizontal_lines().get(3), None);
}

#[test]
fn hlines_find_takes_the_last_declaration() {
    let declared = vec![(1, mark_h('a')), (2, mark_h('b')), (1, mark_h('c'))];
    assert_eq!(hlines_find(&declared, 1), Some(mark_h('c')));
    assert_eq!(hlines_find(&declared, 2), Some(mark_h('b')));
    assert_eq!(hlines_find(&declared, 5), None);
    assert_eq!(hlines_find(&Vec::new(), 1), None);
}

#[test]
fn from_borders_starts_with_no_colors_and_no_overrides() {
    let mut borders = Borders::empty();
    borders.set_slot(BorderPosition::Top, Some('-'));
    let theme = Theme::from_borders(borders);

    assert_eq!(theme.get_borders(), borders);
    assert_eq!(theme.get_borders_colors(), Borders::empty());
    assert_eq!(theme.get_line_horizontal(1), None);
    assert_eq!(theme.get_line_vertical(0), None);
}

#[test]
fn default_theme_is_the_empty_theme() {
    assert_eq!(Theme::default(), Theme::new());
    assert_eq!(Theme::new().get_borders(), Borders::empty());
}

#[test]
fn set_get_and_remove_border_chars() {
    let mut theme = Theme::new();
    theme.set_border_char(BorderPosition::TopLeft, '1');
    theme.set_border_char(BorderPosition::BottomRight, '2');
    assert_eq!(theme.get_border_char(BorderPosition::TopLeft), Some('1'));
    assert_eq!(theme.get_border_char(BorderPosition::BottomRight), Some('2'));
    assert_eq!(theme.get_border_char(BorderPosition::Left), None);

    theme.remove_border_char(BorderPosition::TopLeft);
    assert_eq!(theme.get_border_char(BorderPosition::TopLeft), None);
    assert_eq!(theme.get_border_char(BorderPosition::BottomRight), Some('2'));
}

#[test]
fn set_get_and_remove_border_colors() {
    let mut theme = Theme::new();
    theme.set_border_color(BorderPosition::Horizontal, Color::Cyan);
    assert_eq!(theme.get_border_color(BorderPosition::Horizontal), Some(Color::Cyan));
    assert_eq!(theme.get_border_char(BorderPosition::Horizontal), None);

    theme.remove_border_color(BorderPosition::Horizontal);
    assert_eq!(theme.get_border_color(BorderPosition::Horizontal), None);
}

#[test]
fn insert_line_overwrites_the_previous_line_at_the_index() {
    let mut theme = Theme::new();
    theme.insert_line_horizontal(2, mark_h('a'));
    theme.insert_line_horizontal(2, mark_h('b'));
    assert_eq!(theme.get_line_horizontal(2), Some(mark_h('b')));

    theme.insert_line_vertical(7, mark_v('c'));
    theme.insert_line_vertical(7, mark_v('d'));
    assert_eq!(theme.get_line_vertical(7), Some(mark_v('d')));
}

#[test]
fn wholesale_line_maps_replace_earlier_inserts() {
    let mut theme = Theme::new();
    theme.insert_line_horizontal(2, mark_h('a'));

    let mut lines = Lines::new();
    lines.insert(5, mark_h('b'));
    theme.set_lines_horizontal(lines);

    assert_eq!(theme.get_line_horizontal(2), None);
    assert_eq!(theme.get_line_horizontal(5), Some(mark_h('b')));

    let mut verticals = Lines::new();
    verticals.insert(0, mark_v('v'));
    theme.set_lines_vertical(verticals);
    assert_eq!(theme.get_line_vertical(0), Some(mark_v('v')));
}

#[test]
fn lines_collection_basics() {
    let mut lines: Lines<HorizontalLine<char>> = Lines::new();
    assert_eq!(lines.len(), 0);
    assert_eq!(lines.get(3), None);

    lines.insert(3, mark_h('a'));
    lines.insert(9, mark_h('b'));
    lines.insert(3, mark_h('c'));
    assert_eq!(lines.len(), 2);
    assert_eq!(lines.get(3), Some(mark_h('c')));
    assert_eq!(lines.get(9), Some(mark_h('b')));
    assert_eq!(lines.get(4), None);

    let copy = lines.clone();
    assert_eq!(copy, lines);
    assert_eq!(copy.entry_at(0), (9, mark_h('b')));
    assert_eq!(copy.entry_at(1), (3, mark_h('c')));
}

#[test]
fn config_inserts_are_read_back_out() {
    let mut cfg = ColoredConfig::new();
    cfg.insert_horizontal_line(1, mark_h('h'));
    cfg.insert_vertical_line(4, mark_v('v'));

    assert_eq!(cfg.get_horizontal_lines().get(1), Some(mark_h('h')));
    assert_eq!(cfg.get_vertical_lines().get(4), Some(mark_v('v')));
    assert_eq!(cfg.get_borders(), Borders::empty());
}
