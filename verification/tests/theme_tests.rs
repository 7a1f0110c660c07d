use table_theme::border::Border;
use table_theme::border::BorderPosition;
use table_theme::border::Borders;
use table_theme::border::Color;
use table_theme::border::HorizontalLine;
use table_theme::border::VerticalLine;
use table_theme::config::ColoredConfig;
use table_theme::config::CompactConfig;
use table_theme::config::CompactMultilineConfig;
use table_theme::theme::Style;
use table_theme::theme::Theme;

fn hline(c: char) -> HorizontalLine<char> {
    HorizontalLine { main: Some(c), intersection: Some('+'), left: None, right: None }
}

fn vline(c: char) -> VerticalLine<char> {
    VerticalLine { main: Some(c), intersection: Some('+'), top: None, bottom: None }
}

fn sample_theme() -> Theme {
    let mut theme = Theme::new();
    theme.set_border_char(BorderPosition::Top, '-');
    theme.set_border_char(BorderPosition::Vertical, '|');
    theme.set_border_color(BorderPosition::Top, Color::Red);
    theme.insert_line_horizontal(1, hline('='));
    theme.insert_line_vertical(2, vline('!'));
    theme
}

#[test]
fn application_is_idempotent() {
    let mut once = ColoredConfig::new();
    sample_theme().apply_colored(&mut once);

    let mut twice = ColoredConfig::new();
    sample_theme().apply_colored(&mut twice);
    sample_theme().apply_colored(&mut twice);

    assert_eq!(twice, once);
}

#[test]
fn application_leaves_no_residue() {
    let mut first = Theme::new();
    first.set_border_char(BorderPosition::Bottom, '_');
    first.set_border_color(BorderPosition::Bottom, Color::Blue);
    first.insert_line_horizontal(3, hline('#'));

    let mut after_both = ColoredConfig::new();
    first.apply_colored(&mut after_both);
    sample_theme().apply_colored(&mut after_both);

    let mut after_second_alone = ColoredConfig::new();
    sample_theme().apply_colored(&mut after_second_alone);

    assert_eq!(after_both, after_second_alone);
}

#[test]
fn one_color_slot_overwrites_the_whole_color_set() {
    let mut first = Theme::new();
    first.set_border_color(BorderPosition::Top, Color::Red);
    first.set_border_color(BorderPosition::Bottom, Color::Green);

    let mut cfg = ColoredConfig::new();
    first.apply_colored(&mut cfg);
    assert_eq!(cfg.get_color_borders().bottom, Some(Color::Green));

    let mut second = Theme::new();
    second.set_border_color(BorderPosition::Top, Color::Yellow);
    second.apply_colored(&mut cfg);

    let colors = cfg.get_color_borders();
    assert_eq!(colors.top, Some(Color::Yellow));
    assert_eq!(colors.bottom, None);
}

#[test]
fn all_empty_color_set_leaves_no_colors_behind() {
    let mut first = Theme::new();
    first.set_border_color(BorderPosition::Top, Color::Red);

    let mut cfg = ColoredConfig::new();
    first.apply_colored(&mut cfg);
    assert_eq!(cfg.get_color_borders().top, Some(Color::Red));

    let mut second = Theme::new();
    second.set_border_char(BorderPosition::Top, '-');
    second.apply_colored(&mut cfg);

    assert_eq!(cfg.get_color_borders(), Borders::empty());
    assert_eq!(cfg.get_borders().top, Some('-'));
}

#[test]
fn general_map_entry_wins_over_line1_shortcut() {
    let x = hline('x');
    let y = hline('y');
    let z = hline('z');

    let style = Style { borders: Borders::empty(), horizontals: vec![(1, x)] };
    let mut theme = Theme::from_style(style);
    theme.insert_line_horizontal(1, y);
    theme.insert_line_horizontal(2, z);

    let mut cfg = ColoredConfig::new();
    theme.apply_colored(&mut cfg);
    assert_eq!(cfg.get_horizontal_lines().get(1), Some(y));
    assert_eq!(cfg.get_horizontal_lines().get(2), Some(z));
}

#[test]
fn line1_shortcut_is_in_force_without_a_map_entry() {
    let x = hline('x');
    let z = hline('z');

    let style = Style { borders: Borders::empty(), horizontals: vec![(1, x)] };
    let mut theme = Theme::from_style(style);
    theme.insert_line_horizontal(2, z);

    let mut cfg = ColoredConfig::new();
    theme.apply_colored(&mut cfg);
    assert_eq!(cfg.get_horizontal_lines().get(1), Some(x));
    assert_eq!(cfg.get_horizontal_lines().get(2), Some(z));
}

#[test]
fn round_trip_reproduces_the_configuration() {
    let mut source = ColoredConfig::new();
    let mut theme = sample_theme();
    theme.insert_line_horizontal(4, hline('~'));
    theme.apply_colored(&mut source);

    let rebuilt_theme = Theme::from_config(source.clone());
    let mut rebuilt = ColoredConfig::new();
    rebuilt_theme.apply_colored(&mut rebuilt);

    assert_eq!(rebuilt, source);
}

#[test]
fn frame_set_and_read_back() {
    let frame = Border {
        top: Some('a'),
        bottom: Some('b'),
        left: Some('c'),
        right: Some('d'),
        left_top_corner: Some('e'),
        right_top_corner: Some('f'),
        left_bottom_corner: Some('g'),
        right_bottom_corner: Some('h'),
    };

    let mut theme = Theme::new();
    theme.set_border_char(BorderPosition::Intersection, '+');
    theme.set_border_char(BorderPosition::Horizontal, '-');
    theme.set_border_frame(frame);

    assert_eq!(theme.get_border_frame(), frame);
    assert_eq!(theme.get_border_char(BorderPosition::Intersection), Some('+'));
    assert_eq!(theme.get_border_char(BorderPosition::Horizontal), Some('-'));
    assert_eq!(theme.get_border_char(BorderPosition::TopLeft), Some('e'));
}

#[test]
fn color_frame_set_and_read_back() {
    let frame = Border {
        top: Some(Color::Red),
        bottom: Some(Color::Green),
        left: Some(Color::Blue),
        right: Some(Color::Yellow),
        left_top_corner: Some(Color::Cyan),
        right_top_corner: Some(Color::Magenta),
        left_bottom_corner: Some(Color::White),
        right_bottom_corner: Some(Color::Rgb(1, 2, 3)),
    };

    let mut theme = Theme::new();
    theme.set_border_color(BorderPosition::Intersection, Color::Black);
    theme.set_border_color_frame(frame);

    assert_eq!(theme.get_border_color_frame(), frame);
    assert_eq!(theme.get_border_color(BorderPosition::Intersection), Some(Color::Black));
}

#[test]
fn compact_backend_ignores_colors_and_overrides() {
    let mut chars_only = Theme::new();
    chars_only.set_border_char(BorderPosition::Top, '-');
    chars_only.set_border_char(BorderPosition::Vertical, '|');

    let full = sample_theme();

    let mut from_full = CompactConfig::new();
    full.apply_compact(&mut from_full);
    let mut from_chars_only = CompactConfig::new();
    chars_only.apply_compact(&mut from_chars_only);

    assert_eq!(from_full, from_chars_only);
    assert_eq!(from_full.get_borders().top, Some('-'));
    assert_eq!(from_full.get_borders().horizontal, None);
}

#[test]
fn compact_multiline_backend_ignores_colors_and_overrides() {
    let full = sample_theme();
    let mut cfg = CompactMultilineConfig::new();
    full.apply_compact_multiline(&mut cfg);

    assert_eq!(cfg.get_borders().top, Some('-'));
    assert_eq!(cfg.get_borders().vertical, Some('|'));
    assert_eq!(cfg.get_borders().bottom, None);
}
