use novel_tui::setting::{
    BasicSetting, Color, NovelSetting, SearchSetting, Style, ThemeColors, ThemeConfig,
};

fn colors() -> ThemeColors {
    ThemeColors {
        text_color: Color::White,
        primary_color: Color::Blue,
        warning_color: Color::Yellow,
        error_color: Color::Red,
        success_color: Color::Green,
        info_color: Color::Rgb(1, 2, 3),
    }
}

fn fg(color: Color) -> Style {
    Style { fg: Some(color), bold: false, dim: false }
}

#[test]
fn styles_are_built_step_by_step() {
    assert_eq!(Style::new(), Style { fg: None, bold: false, dim: false });
    assert_eq!(Style::default(), Style::new());
    assert_eq!(Style::new().fg(Color::Red), fg(Color::Red));
    assert_eq!(Style::new().bold(), Style { fg: None, bold: true, dim: false });
    assert_eq!(Style::new().dim(), Style { fg: None, bold: false, dim: true });
    assert_eq!(
        Style::new().dim().fg(Color::Indexed(7)).bold(),
        Style { fg: Some(Color::Indexed(7)), bold: true, dim: true }
    );
    assert_eq!(Style::new().fg(Color::Red).fg(Color::Blue), fg(Color::Blue));
}

#[test]
fn a_theme_follows_from_its_colors() {
    let theme = ThemeConfig::from_colors(colors());
    let dim = Style { fg: None, bold: false, dim: true };
    let note = Style { fg: Some(Color::Rgb(1, 2, 3)), bold: false, dim: true };
    let loud = Style { fg: Some(Color::Yellow), bold: true, dim: false };
    assert_eq!(theme.colors, colors());
    assert_eq!(theme.logo, fg(Color::LightGreen));
    assert_eq!(theme.highlight, fg(Color::Blue));
    assert_eq!(theme.selected, fg(Color::Green));
    assert_eq!(theme.empty, loud);
    assert_eq!(theme.detail_info, loud);
    assert_eq!(
        theme.basic,
        BasicSetting { text: fg(Color::White), border: dim, border_title: Style::new(), border_info: note }
    );
    assert_eq!(
        theme.search,
        SearchSetting {
            success_border: fg(Color::Green),
            error_border: fg(Color::Red),
            error_border_info: fg(Color::Rgb(1, 2, 3)),
            placeholder: fg(Color::Blue),
            text: fg(Color::White),
        }
    );
    assert_eq!(
        theme.novel,
        NovelSetting {
            chapter: Style::new(),
            page: note,
            content: fg(Color::White),
            progress: note,
            border: dim,
        }
    );
}

#[test]
fn each_dialog_is_in_one_color() {
    let theme = ThemeConfig::from_colors(colors());
    let dialog = |color: Color| BasicSetting {
        text: fg(color),
        border: Style { fg: Some(color), bold: false, dim: true },
        border_title: Style::new(),
        border_info: Style::new(),
    };
    assert_eq!(theme.loading_modal, dialog(Color::Blue));
    assert_eq!(theme.warning_modal, dialog(Color::Yellow));
    assert_eq!(theme.error_modal, dialog(Color::Red));
}

#[test]
fn the_default_theme_has_the_standard_colors() {
    let theme = ThemeConfig::default();
    let standard = ThemeColors {
        text_color: Color::Reset,
        primary_color: Color::LightBlue,
        warning_color: Color::LightYellow,
        error_color: Color::LightRed,
        success_color: Color::LightGreen,
        info_color: Color::Gray,
    };
    assert_eq!(theme.colors, standard);
    assert_eq!(theme, ThemeConfig::from_colors(standard));
    assert_eq!(theme.basic.text, fg(Color::Reset));
    assert_eq!(theme.error_modal.text, fg(Color::LightRed));
}

#[test]
fn default_settings_have_no_style() {
    let plain = Style::new();
    assert_eq!(
        BasicSetting::default(),
        BasicSetting { text: plain, border: plain, border_title: plain, border_info: plain }
    );
    assert_eq!(SearchSetting::default().placeholder, plain);
    assert_eq!(NovelSetting::default().content, plain);
}
