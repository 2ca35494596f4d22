//! The theme: which style each part of the screen is drawn in.
//!
//! A whole theme follows from six colors. The styles are plain values here;
//! whoever draws turns them into the styles of the terminal library.

use vstd::prelude::*;

verus! {

/// A terminal color.
#[derive(Clone, Copy, Debug, PartialEq, Eq)]
pub enum Color {
    /// The terminal's own foreground or background.
    Reset,
    Black,
    Red,
    Green,
    Yellow,
    Blue,
    Magenta,
    Cyan,
    Gray,
    DarkGray,
    LightRed,
    LightGreen,
    LightYellow,
    LightBlue,
    LightMagenta,
    LightCyan,
    White,
    Rgb(u8, u8, u8),
    Indexed(u8),
}

/// How text is drawn: its color, if it has one of its own, and whether it is
/// bold or dim.
#[derive(Clone, Copy, Debug, PartialEq, Eq)]
pub struct Style {
    pub fg: Option<Color>,
    pub bold: bool,
    pub dim: bool,
}

impl Style {
    /// The style that changes nothing.
    pub open spec fn plain() -> Style {
        Style { fg: None, bold: false, dim: false }
    }

    /// This style in another color.
    pub open spec fn colored(self, color: Color) -> Style {
        Style { fg: Some(color), bold: self.bold, dim: self.dim }
    }

    /// This style, bold.
    pub open spec fn bolded(self) -> Style {
        Style { fg: self.fg, bold: true, dim: self.dim }
    }

    /// This style, dim.
    pub open spec fn dimmed(self) -> Style {
        Style { fg: self.fg, bold: self.bold, dim: true }
    }

    pub fn new() -> (style: Style)
        ensures
            style == Style::plain(),
    {
        Style { fg: None, bold: false, dim: false }
    }

    pub fn fg(self, color: Color) -> (style: Style)
        ensures
            style == self.colored(color),
    {
        Style { fg: Some(color), bold: self.bold, dim: self.dim }
    }

    pub fn bold(self) -> (style: Style)
        ensures
            style == self.bolded(),
    {
        Style { fg: self.fg, bold: true, dim: self.dim }
    }

    pub fn dim(self) -> (style: Style)
        ensures
            style == self.dimmed(),
    {
        Style { fg: self.fg, bold: self.bold, dim: true }
    }
}

impl Default for Style {
    fn default() -> (style: Style)
        ensures
            style == Style::plain(),
    {
        Style::new()
    }
}

/// The six colors from which a theme follows.
#[derive(Clone, Copy, Debug, PartialEq, Eq)]
pub struct ThemeColors {
    pub text_color: Color,
    pub primary_color: Color,
    pub warning_color: Color,
    pub error_color: Color,
    pub success_color: Color,
    pub info_color: Color,
}

/// The styles of a framed area.
#[derive(Clone, Copy, Debug, PartialEq, Eq)]
pub struct BasicSetting {
    pub text: Style,
    pub border: Style,
    pub border_title: Style,
    pub border_info: Style,
}

/// The styles of the search field.
#[derive(Clone, Copy, Debug, PartialEq, Eq)]
pub struct SearchSetting {
    pub success_border: Style,
    pub error_border: Style,
    pub error_border_info: Style,
    pub placeholder: Style,
    pub text: Style,
}

/// The styles of the reading page.
#[derive(Clone, Copy, Debug, PartialEq, Eq)]
pub struct NovelSetting {
    pub chapter: Style,
    pub page: Style,
    pub content: Style,
    pub progress: Style,
    pub border: Style,
}

/// A theme.
#[derive(Clone, Copy, Debug, PartialEq, Eq)]
pub struct ThemeConfig {
    pub colors: ThemeColors,
    pub logo: Style,
    pub highlight: Style,
    pub selected: Style,
    pub empty: Style,
    pub detail_info: Style,
    pub basic: BasicSetting,
    pub loading_modal: BasicSetting,
    pub warning_modal: BasicSetting,
    pub error_modal: BasicSetting,
    pub search: SearchSetting,
    pub novel: NovelSetting,
}

impl BasicSetting {
    /// A framed area with no style of its own.
    pub open spec fn plain() -> BasicSetting {
        BasicSetting {
            text: Style::plain(),
            border: Style::plain(),
            border_title: Style::plain(),
            border_info: Style::plain(),
        }
    }

    /// A dialog in one color: its text in that color, its border dim and in
    /// that color.
    pub open spec fn dialog(color: Color) -> BasicSetting {
        BasicSetting {
            text: Style::plain().colored(color),
            border: Style::plain().dimmed().colored(color),
            border_title: Style::plain(),
            border_info: Style::plain(),
        }
    }
}

impl Default for BasicSetting {
    fn default() -> (setting: BasicSetting)
        ensures
            setting == BasicSetting::plain(),
    {
        BasicSetting {
            text: Style::new(),
            border: Style::new(),
            border_title: Style::new(),
            border_info: Style::new(),
        }
    }
}

impl Default for SearchSetting {
    fn default() -> (setting: SearchSetting)
        ensures
            setting == (SearchSetting {
                success_border: Style::plain(),
                error_border: Style::plain(),
                error_border_info: Style::plain(),
                placeholder: Style::plain(),
                text: Style::plain(),
            }),
    {
        SearchSetting {
            success_border: Style::new(),
            error_border: Style::new(),
            error_border_info: Style::new(),
            placeholder: Style::new(),
            text: Style::new(),
        }
    }
}

impl Default for NovelSetting {
    fn default() -> (setting: NovelSetting)
        ensures
            setting == (NovelSetting {
                chapter: Style::plain(),
                page: Style::plain(),
                content: Style::plain(),
                progress: Style::plain(),
                border: Style::plain(),
            }),
    {
        NovelSetting {
            chapter: Style::new(),
            page: Style::new(),
            content: Style::new(),
            progress: Style::new(),
            border: Style::new(),
        }
    }
}

impl ThemeColors {
    /// The colors of the theme that is used when none is configured.
    pub open spec fn standard() -> ThemeColors {
        ThemeColors {
            text_color: Color::Reset,
            primary_color: Color::LightBlue,
            warning_color: Color::LightYellow,
            error_color: Color::LightRed,
            success_color: Color::LightGreen,
            info_color: Color::Gray,
        }
    }
}

impl ThemeConfig {
    /// The theme that follows from `colors`.
    ///
    /// Text is drawn in the text color and borders are dim. Notes on a border
    /// are dim and in the info color. The three dialogs are each in one
    /// color: primary for loading, then warning and error. What stands out
    /// (an empty list, the details of a book) is bold and in the warning
    /// color. The logo is light green whatever the colors.
    pub open spec fn themed(colors: ThemeColors) -> ThemeConfig {
        let border = Style::plain().dimmed();
        let border_info = Style::plain().dimmed().colored(colors.info_color);
        ThemeConfig {
            colors,
            logo: Style::plain().colored(Color::LightGreen),
            highlight: Style::plain().colored(colors.primary_color),
            selected: Style::plain().colored(colors.success_color),
            empty: Style::plain().colored(colors.warning_color).bolded(),
            detail_info: Style::plain().colored(colors.warning_color).bolded(),
            basic: BasicSetting {
                text: Style::plain().colored(colors.text_color),
                border,
                border_title: Style::plain(),
                border_info,
            },
            loading_modal: BasicSetting::dialog(colors.primary_color),
            warning_modal: BasicSetting::dialog(colors.warning_color),
            error_modal: BasicSetting::dialog(colors.error_color),
            search: SearchSetting {
                success_border: Style::plain().colored(colors.success_color),
                error_border: Style::plain().colored(colors.error_color),
                error_border_info: Style::plain().colored(colors.info_color),
                placeholder: Style::plain().colored(colors.primary_color),
                text: Style::plain().colored(colors.text_color),
            },
            novel: NovelSetting {
                chapter: Style::plain(),
                page: border_info,
                content: Style::plain().colored(colors.text_color),
                progress: border_info,
                border,
            },
        }
    }

    /// Builds the theme that follows from `colors`.
    pub fn from_colors(colors: ThemeColors) -> (theme: ThemeConfig)
        ensures
            theme == ThemeConfig::themed(colors),
    {
        let ThemeColors {
            text_color,
            primary_color,
            warning_color,
            error_color,
            success_color,
            info_color,
        } = colors;

        let plain = BasicSetting::default();
        let basic = BasicSetting {
            text: Style::new().fg(text_color),
            border: Style::new().dim(),
            border_title: plain.border_title,
            border_info: Style::new().dim().fg(info_color),
        };
        ThemeConfig {
            colors,
            detail_info: Style::new().fg(warning_color).bold(),
            logo: Style::new().fg(Color::LightGreen),
            selected: Style::new().fg(success_color),
            highlight: Style::new().fg(primary_color),
            empty: Style::new().fg(warning_color).bold(),
            search: SearchSetting {
                success_border: Style::new().fg(success_color),
                error_border: Style::new().fg(error_color),
                error_border_info: Style::new().fg(info_color),
                placeholder: Style::new().fg(primary_color),
                text: Style::new().fg(text_color),
            },
            loading_modal: BasicSetting {
                border: basic.border.fg(primary_color),
                text: Style::new().fg(primary_color),
                border_title: plain.border_title,
                border_info: plain.border_info,
            },
            warning_modal: BasicSetting {
                border: basic.border.fg(warning_color),
                text: Style::new().fg(warning_color),
                border_title: plain.border_title,
                border_info: plain.border_info,
            },
            error_modal: BasicSetting {
                border: basic.border.fg(error_color),
                text: Style::new().fg(error_color),
                border_title: plain.border_title,
                border_info: plain.border_info,
            },
            novel: NovelSetting {
                content: Style::new().fg(text_color),
                chapter: basic.border_title,
                page: basic.border_info,
                progress: basic.border_info,
                border: basic.border,
            },
            basic,
        }
    }
}

impl Default for ThemeConfig {
    fn default() -> (theme: ThemeConfig)
        ensures
            theme == ThemeConfig::themed(ThemeColors::standard()),
    {
        let colors = ThemeColors {
            text_color: Color::Reset,
            primary_color: Color::LightBlue,
            warning_color: Color::LightYellow,
            error_color: Color::LightRed,
            success_color: Color::LightGreen,
            info_color: Color::Gray,
        };
        ThemeConfig::from_colors(colors)
    }
}

} // verus!
