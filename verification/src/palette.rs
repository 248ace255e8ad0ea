//! The single owner of the program's UI colors: title strip, tabs, caption buttons, status line,
//! the editor's base, selection and caret-line colors, and the file-type icons. High contrast
//! always uses the system's colors.

use crate::theme::{
    blend, frappe, latte, macchiato, mocha, rgb, Flavor, SystemTheme, Theme, ThemePreference,
};
use vstd::prelude::*;

verus! {

/// Every color is a Windows `COLORREF` (`0x00BBGGRR`).
#[derive(Clone, Copy, Debug, PartialEq, Eq, Structural)]
pub struct Palette {
    pub strip_background: u32,
    pub editor_background: u32,
    pub editor_foreground: u32,
    pub muted_foreground: u32,
    pub hover_foreground: u32,
    pub hover_background: u32,
    pub pressed_background: u32,
    pub close_hover_background: u32,
    pub close_hover_foreground: u32,
    pub close_pressed_background: u32,
    pub selection_background: u32,
    pub inactive_selection_background: u32,
    /// Selected text's own color. `None` leaves the syntax colors showing through, which is what
    /// the themed palettes want; high contrast forces the system pair to stay legible.
    pub selection_foreground: Option<u32>,
    pub caret_line_background: u32,
    /// Line numbers in the editor gutter, on `editor_background`.
    pub line_number_foreground: u32,
    /// Resting caption-button glyphs and status-line text on `strip_background`.
    pub strip_foreground: u32,
    /// Error text on `editor_background` or the panel.
    pub error_foreground: u32,
    /// Whether the frame and editor scrollbars should ask for the dark system styling.
    pub dark_frame: bool,
    /// The system's high-contrast colors: only system color pairs may be drawn, never a blend.
    pub high_contrast: bool,
}

/// The system colors that high contrast draws with, as the system reported them.
#[derive(Clone, Copy, Debug, PartialEq, Eq, Structural)]
pub struct SystemColors {
    pub button_face: u32,
    pub button_text: u32,
    pub window: u32,
    pub window_text: u32,
    pub highlight: u32,
    pub highlight_text: u32,
}

/// The Light theme's palette.
pub open spec fn light_palette() -> Palette {
    Palette {
        strip_background: crate::theme::rgb_color(243, 243, 243),
        editor_background: crate::theme::rgb_color(255, 255, 255),
        editor_foreground: crate::theme::rgb_color(0, 0, 0),
        muted_foreground: crate::theme::rgb_color(96, 96, 96),
        hover_foreground: crate::theme::rgb_color(0, 0, 0),
        hover_background: crate::theme::rgb_color(224, 224, 224),
        pressed_background: crate::theme::rgb_color(204, 204, 204),
        close_hover_background: crate::theme::rgb_color(0xC4, 0x2B, 0x1C),
        close_hover_foreground: crate::theme::rgb_color(255, 255, 255),
        close_pressed_background: crate::theme::rgb_color(0x94, 0x1F, 0x15),
        selection_background: crate::theme::rgb_color(173, 214, 255),
        inactive_selection_background: crate::theme::rgb_color(229, 235, 241),
        selection_foreground: None,
        caret_line_background: crate::theme::rgb_color(245, 247, 250),
        line_number_foreground: crate::theme::rgb_color(110, 118, 129),
        strip_foreground: crate::theme::rgb_color(32, 32, 32),
        error_foreground: crate::theme::rgb_color(0xA1, 0x26, 0x0D),
        dark_frame: false,
        high_contrast: false,
    }
}

/// The Light theme's palette.
fn light() -> (palette: Palette)
    ensures
        palette == light_palette(),
{
    Palette {
        strip_background: rgb(243, 243, 243),
        editor_background: rgb(255, 255, 255),
        editor_foreground: rgb(0, 0, 0),
        muted_foreground: rgb(96, 96, 96),
        hover_foreground: rgb(0, 0, 0),
        hover_background: rgb(224, 224, 224),
        pressed_background: rgb(204, 204, 204),
        close_hover_background: rgb(0xC4, 0x2B, 0x1C),
        close_hover_foreground: rgb(255, 255, 255),
        close_pressed_background: rgb(0x94, 0x1F, 0x15),
        selection_background: rgb(173, 214, 255),
        inactive_selection_background: rgb(229, 235, 241),
        selection_foreground: None,
        caret_line_background: rgb(245, 247, 250),
        line_number_foreground: rgb(110, 118, 129),
        strip_foreground: rgb(32, 32, 32),
        error_foreground: rgb(0xA1, 0x26, 0x0D),
        dark_frame: false,
        high_contrast: false,
    }
}

/// The Dark theme's palette.
pub open spec fn dark_palette() -> Palette {
    Palette {
        strip_background: crate::theme::rgb_color(37, 37, 38),
        editor_background: crate::theme::rgb_color(30, 30, 30),
        editor_foreground: crate::theme::rgb_color(212, 212, 212),
        muted_foreground: crate::theme::rgb_color(150, 150, 150),
        hover_foreground: crate::theme::rgb_color(240, 240, 240),
        hover_background: crate::theme::rgb_color(55, 55, 58),
        pressed_background: crate::theme::rgb_color(72, 72, 76),
        close_hover_background: crate::theme::rgb_color(0xC4, 0x2B, 0x1C),
        close_hover_foreground: crate::theme::rgb_color(255, 255, 255),
        close_pressed_background: crate::theme::rgb_color(0x94, 0x1F, 0x15),
        selection_background: crate::theme::rgb_color(38, 79, 120),
        inactive_selection_background: crate::theme::rgb_color(58, 61, 65),
        selection_foreground: None,
        caret_line_background: crate::theme::rgb_color(40, 40, 40),
        line_number_foreground: crate::theme::rgb_color(133, 133, 133),
        strip_foreground: crate::theme::rgb_color(212, 212, 212),
        error_foreground: crate::theme::rgb_color(0xF4, 0x87, 0x71),
        dark_frame: true,
        high_contrast: false,
    }
}

/// The Dark theme's palette.
fn dark() -> (palette: Palette)
    ensures
        palette == dark_palette(),
{
    Palette {
        strip_background: rgb(37, 37, 38),
        editor_background: rgb(30, 30, 30),
        editor_foreground: rgb(212, 212, 212),
        muted_foreground: rgb(150, 150, 150),
        hover_foreground: rgb(240, 240, 240),
        hover_background: rgb(55, 55, 58),
        pressed_background: rgb(72, 72, 76),
        close_hover_background: rgb(0xC4, 0x2B, 0x1C),
        close_hover_foreground: rgb(255, 255, 255),
        close_pressed_background: rgb(0x94, 0x1F, 0x15),
        selection_background: rgb(38, 79, 120),
        inactive_selection_background: rgb(58, 61, 65),
        selection_foreground: None,
        caret_line_background: rgb(40, 40, 40),
        line_number_foreground: rgb(133, 133, 133),
        strip_foreground: rgb(212, 212, 212),
        error_foreground: rgb(0xF4, 0x87, 0x71),
        dark_frame: true,
        high_contrast: false,
    }
}

/// A Catppuccin flavor in the program's roles, per the Catppuccin style guide: `mantle` chrome
/// around a `base` editor, `overlay2` selection at about a quarter of its opacity, `text` caret
/// line at about a tenth.
pub open spec fn catppuccin_palette(flavor: Flavor, dark: bool) -> Palette {
    Palette {
        strip_background: flavor.mantle,
        editor_background: flavor.base,
        editor_foreground: flavor.text,
        muted_foreground: flavor.subtext0,
        hover_foreground: flavor.text,
        hover_background: flavor.surface0,
        pressed_background: flavor.surface1,
        close_hover_background: flavor.red,
        close_hover_foreground: flavor.crust,
        close_pressed_background: flavor.maroon,
        selection_background: crate::theme::blended(flavor.overlay2, flavor.base, 64),
        inactive_selection_background: crate::theme::blended(flavor.overlay2, flavor.base, 38),
        selection_foreground: None,
        caret_line_background: crate::theme::blended(flavor.text, flavor.base, 26),
        line_number_foreground: flavor.overlay1,
        strip_foreground: flavor.text,
        error_foreground: flavor.red,
        dark_frame: dark,
        high_contrast: false,
    }
}

fn catppuccin(flavor: &Flavor, dark: bool) -> (palette: Palette)
    ensures
        palette == catppuccin_palette(*flavor, dark),
{
    Palette {
        strip_background: flavor.mantle,
        editor_background: flavor.base,
        editor_foreground: flavor.text,
        muted_foreground: flavor.subtext0,
        hover_foreground: flavor.text,
        hover_background: flavor.surface0,
        pressed_background: flavor.surface1,
        close_hover_background: flavor.red,
        close_hover_foreground: flavor.crust,
        close_pressed_background: flavor.maroon,
        selection_background: blend(flavor.overlay2, flavor.base, 64),
        inactive_selection_background: blend(flavor.overlay2, flavor.base, 38),
        selection_foreground: None,
        caret_line_background: blend(flavor.text, flavor.base, 26),
        line_number_foreground: flavor.overlay1,
        strip_foreground: flavor.text,
        error_foreground: flavor.red,
        dark_frame: dark,
        high_contrast: false,
    }
}

/// The palette of a theme outside high contrast.
pub open spec fn themed_palette(theme: Theme) -> Palette {
    match theme {
        Theme::Light => light_palette(),
        Theme::Dark => dark_palette(),
        _ => catppuccin_palette(flavor_of(theme), theme.dark()),
    }
}

/// The swatches a theme's icons come from: its own flavor's, Latte's for Light and Mocha's for
/// Dark.
pub open spec fn flavor_of(theme: Theme) -> Flavor {
    match theme {
        Theme::Light | Theme::CatppuccinLatte => crate::theme::latte_flavor(),
        Theme::CatppuccinFrappe => crate::theme::frappe_flavor(),
        Theme::CatppuccinMacchiato => crate::theme::macchiato_flavor(),
        Theme::Dark | Theme::CatppuccinMocha => crate::theme::mocha_flavor(),
    }
}

/// High contrast: system pairs only.
pub open spec fn contrast_palette(system: SystemColors) -> Palette {
    Palette {
        strip_background: system.button_face,
        editor_background: system.window,
        editor_foreground: system.window_text,
        muted_foreground: system.button_text,
        hover_foreground: system.highlight_text,
        hover_background: system.highlight,
        pressed_background: system.highlight,
        close_hover_background: system.highlight,
        close_hover_foreground: system.highlight_text,
        close_pressed_background: system.highlight,
        selection_background: system.highlight,
        inactive_selection_background: system.highlight,
        selection_foreground: Some(system.highlight_text),
        caret_line_background: system.window,
        line_number_foreground: system.window_text,
        strip_foreground: system.button_text,
        error_foreground: system.window_text,
        dark_frame: false,
        high_contrast: true,
    }
}

impl Palette {
    /// The palette of a theme, or the system's colors in high contrast.
    pub open spec fn of_theme(theme: Theme, high_contrast: bool, system: SystemColors) -> Palette {
        if high_contrast {
            contrast_palette(system)
        } else {
            themed_palette(theme)
        }
    }

    /// The palette of the first paint, which asks nothing of the system.
    pub fn neutral() -> (palette: Self)
        ensures
            palette == light_palette(),
    {
        light()
    }

    pub fn for_theme(theme: Theme, high_contrast: bool, system: &SystemColors) -> (palette: Self)
        ensures
            palette == Self::of_theme(theme, high_contrast, *system),
    {
        if high_contrast {
            Self::high_contrast(system)
        } else {
            match theme {
                Theme::Light => light(),
                Theme::Dark => dark(),
                Theme::CatppuccinLatte => catppuccin(&latte(), false),
                Theme::CatppuccinFrappe => catppuccin(&frappe(), true),
                Theme::CatppuccinMacchiato => catppuccin(&macchiato(), true),
                Theme::CatppuccinMocha => catppuccin(&mocha(), true),
            }
        }
    }

    /// The palette of a system that was read, or not yet.
    pub open spec fn of_cached(
        theme: Option<SystemTheme>,
        preference: ThemePreference,
        system: SystemColors,
    ) -> Palette {
        match theme {
            None => light_palette(),
            Some(theme) => Self::of_theme(
                theme.effective(preference),
                theme.high_contrast,
                system,
            ),
        }
    }

    /// `None` means that the system's theme has not been read yet: the neutral palette.
    pub fn for_cached_theme(
        theme: Option<SystemTheme>,
        preference: ThemePreference,
        system: &SystemColors,
    ) -> (palette: Self)
        ensures
            palette == Self::of_cached(theme, preference, *system),
    {
        match theme {
            None => Self::neutral(),
            Some(theme) => Self::for_theme(
                theme.effective_theme(preference),
                theme.high_contrast,
                system,
            ),
        }
    }

    pub fn active_tab_background(&self) -> (color: u32)
        ensures
            color == self.editor_background,
    {
        self.editor_background
    }

    /// The side panel's background: halfway between the strip and the editor, channel by channel.
    pub fn panel_background(&self) -> (color: u32)
        ensures
            color == halfway(self.strip_background, self.editor_background),
    {
        let strip: u32 = self.strip_background;
        let editor: u32 = self.editor_background;
        let red: u32 = (strip % 0x100 + editor % 0x100) / 2;
        let green: u32 = (strip / 0x100 % 0x100 + editor / 0x100 % 0x100) / 2;
        let blue: u32 = (strip / 0x1_0000 % 0x100 + editor / 0x1_0000 % 0x100) / 2;
        red + 0x100 * green + 0x1_0000 * blue
    }

    fn high_contrast(system: &SystemColors) -> (palette: Self)
        ensures
            palette == contrast_palette(*system),
    {
        Palette {
            strip_background: system.button_face,
            editor_background: system.window,
            editor_foreground: system.window_text,
            muted_foreground: system.button_text,
            hover_foreground: system.highlight_text,
            hover_background: system.highlight,
            pressed_background: system.highlight,
            close_hover_background: system.highlight,
            close_hover_foreground: system.highlight_text,
            close_pressed_background: system.highlight,
            selection_background: system.highlight,
            inactive_selection_background: system.highlight,
            selection_foreground: Some(system.highlight_text),
            caret_line_background: system.window,
            line_number_foreground: system.window_text,
            strip_foreground: system.button_text,
            error_foreground: system.window_text,
            dark_frame: false,
            high_contrast: true,
        }
    }
}

/// The color halfway between two others, channel by channel, rounded down.
pub open spec fn halfway(a: u32, b: u32) -> u32 {
    (half_of(a, b, 0) + 0x100 * half_of(a, b, 1) + 0x1_0000 * half_of(a, b, 2)) as u32
}

pub open spec fn half_of(a: u32, b: u32, index: int) -> int {
    (crate::theme::channel(a, index) + crate::theme::channel(b, index)) / 2
}

/// The color halfway between two others lies, in each channel, between their channels; it does not
/// depend on which comes first.
pub proof fn halfway_lies_between(a: u32, b: u32, index: int)
    requires
        0 <= index < 3,
    ensures
        crate::theme::channel(halfway(a, b), index) == half_of(a, b, index),
        crate::theme::channel(a, index) <= crate::theme::channel(b, index) ==> {
            &&& crate::theme::channel(a, index) <= half_of(a, b, index)
            &&& half_of(a, b, index) <= crate::theme::channel(b, index)
        },
        halfway(a, b) == halfway(b, a),
{
    let (r, g, u) = (half_of(a, b, 0), half_of(a, b, 1), half_of(a, b, 2));
    assert(0 <= r < 0x100 && 0 <= g < 0x100 && 0 <= u < 0x100);
    let whole = r + 0x100 * g + 0x1_0000 * u;
    assert(halfway(a, b) == whole);
    assert(whole % 0x100 == r && whole / 0x100 % 0x100 == g && whole / 0x1_0000 % 0x100 == u);
}

/// High contrast looks the same in every theme.
pub proof fn high_contrast_ignores_the_theme(a: Theme, b: Theme, system: SystemColors)
    ensures
        Palette::of_theme(a, true, system) == Palette::of_theme(b, true, system),
        FileIcons::of_theme(a, true, system) == FileIcons::of_theme(b, true, system),
{
}

/// No two themes share an editor background or a strip background, and the frame is dark exactly
/// in the dark themes.
pub proof fn themes_look_different(a: Theme, b: Theme, system: SystemColors)
    ensures
        a != b ==> {
            let (pa, pb) = (Palette::of_theme(a, false, system), Palette::of_theme(b, false, system));
            pa.strip_background != pb.strip_background && pa.editor_background
                != pb.editor_background
        },
        Palette::of_theme(a, false, system).dark_frame == a.dark(),
        Palette::of_theme(a, false, system).selection_foreground is None,
{
}

/// A file-type icon's color role.
#[derive(Clone, Copy, Debug, PartialEq, Eq, Structural)]
pub enum IconColor {
    Blue,
    Yellow,
    Peach,
    Green,
    Maroon,
    Overlay2,
}

/// The Notebook view's file-type icon colors: six Catppuccin roles. High contrast uses the muted
/// system color for all of them.
#[derive(Clone, Copy, Debug, PartialEq, Eq, Structural)]
pub struct FileIcons {
    pub blue: u32,
    pub yellow: u32,
    pub peach: u32,
    pub green: u32,
    pub maroon: u32,
    pub overlay2: u32,
}

/// A flavor's swatches for the six roles.
pub open spec fn flavor_icons(flavor: Flavor) -> FileIcons {
    FileIcons {
        blue: flavor.blue,
        yellow: flavor.yellow,
        peach: flavor.peach,
        green: flavor.green,
        maroon: flavor.maroon,
        overlay2: flavor.overlay2,
    }
}

fn file_icons(flavor: &Flavor) -> (icons: FileIcons)
    ensures
        icons == flavor_icons(*flavor),
{
    FileIcons {
        blue: flavor.blue,
        yellow: flavor.yellow,
        peach: flavor.peach,
        green: flavor.green,
        maroon: flavor.maroon,
        overlay2: flavor.overlay2,
    }
}

impl FileIcons {
    /// All six roles in one color.
    pub open spec fn muted(color: u32) -> FileIcons {
        FileIcons {
            blue: color,
            yellow: color,
            peach: color,
            green: color,
            maroon: color,
            overlay2: color,
        }
    }

    pub open spec fn of_theme(theme: Theme, high_contrast: bool, system: SystemColors) -> FileIcons {
        if high_contrast {
            Self::muted(contrast_palette(system).muted_foreground)
        } else {
            flavor_icons(flavor_of(theme))
        }
    }

    /// The icons of the neutral first-paint palette.
    pub fn neutral() -> (icons: Self)
        ensures
            icons == flavor_icons(flavor_of(Theme::Light)),
    {
        file_icons(&latte())
    }

    pub fn for_theme(theme: Theme, high_contrast: bool, system: &SystemColors) -> (icons: Self)
        ensures
            icons == Self::of_theme(theme, high_contrast, *system),
    {
        if high_contrast {
            let muted: u32 = Palette::for_theme(theme, true, system).muted_foreground;
            FileIcons {
                blue: muted,
                yellow: muted,
                peach: muted,
                green: muted,
                maroon: muted,
                overlay2: muted,
            }
        } else {
            match theme {
                Theme::Light | Theme::CatppuccinLatte => file_icons(&latte()),
                Theme::CatppuccinFrappe => file_icons(&frappe()),
                Theme::CatppuccinMacchiato => file_icons(&macchiato()),
                Theme::Dark | Theme::CatppuccinMocha => file_icons(&mocha()),
            }
        }
    }

    /// The icons of a system that was read, or not yet.
    pub open spec fn of_cached(
        theme: Option<SystemTheme>,
        preference: ThemePreference,
        system: SystemColors,
    ) -> FileIcons {
        match theme {
            None => flavor_icons(flavor_of(Theme::Light)),
            Some(theme) => Self::of_theme(
                theme.effective(preference),
                theme.high_contrast,
                system,
            ),
        }
    }

    /// `None` means that the system's theme has not been read yet: the neutral icons.
    pub fn for_cached_theme(
        theme: Option<SystemTheme>,
        preference: ThemePreference,
        system: &SystemColors,
    ) -> (icons: Self)
        ensures
            icons == Self::of_cached(theme, preference, *system),
    {
        match theme {
            None => Self::neutral(),
            Some(theme) => Self::for_theme(
                theme.effective_theme(preference),
                theme.high_contrast,
                system,
            ),
        }
    }

    /// The color a role is drawn in.
    pub open spec fn role(self, role: IconColor) -> u32 {
        match role {
            IconColor::Blue => self.blue,
            IconColor::Yellow => self.yellow,
            IconColor::Peach => self.peach,
            IconColor::Green => self.green,
            IconColor::Maroon => self.maroon,
            IconColor::Overlay2 => self.overlay2,
        }
    }

    pub fn color(&self, role: IconColor) -> (color: u32)
        ensures
            color == self.role(role),
    {
        match role {
            IconColor::Blue => self.blue,
            IconColor::Yellow => self.yellow,
            IconColor::Peach => self.peach,
            IconColor::Green => self.green,
            IconColor::Maroon => self.maroon,
            IconColor::Overlay2 => self.overlay2,
        }
    }
}

} // verus!
