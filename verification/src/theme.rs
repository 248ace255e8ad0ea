//! The themes a user can pick, what the system says about its own, and the Catppuccin swatches
//! that four of the themes are made of.

use vstd::prelude::*;

verus! {

#[derive(Clone, Copy, Debug, PartialEq, Eq, Structural)]
pub enum Theme {
    Light,
    Dark,
    CatppuccinLatte,
    CatppuccinFrappe,
    CatppuccinMacchiato,
    CatppuccinMocha,
}

/// What the user asked for: the system's light or dark, Catppuccin by day and night, or one theme.
#[derive(Clone, Copy, Debug, PartialEq, Eq, Structural)]
pub enum ThemePreference {
    System,
    /// Latte while the system is light, Mocha while it is dark.
    Catppuccin,
    Fixed(Theme),
}

/// The system's own appearance when it was last read.
#[derive(Clone, Copy, Debug, PartialEq, Eq, Structural)]
pub struct SystemTheme {
    pub dark: bool,
    pub high_contrast: bool,
}

impl Theme {
    pub open spec fn dark(self) -> bool {
        self != Theme::Light && self != Theme::CatppuccinLatte
    }

    pub fn is_dark(self) -> (dark: bool)
        ensures
            dark == self.dark(),
    {
        match self {
            Theme::Light | Theme::CatppuccinLatte => false,
            _ => true,
        }
    }

    /// Every theme, in the order settings list them.
    pub fn all() -> (themes: [Theme; 6])
        ensures
            themes@ == seq![
                Theme::Light,
                Theme::Dark,
                Theme::CatppuccinLatte,
                Theme::CatppuccinFrappe,
                Theme::CatppuccinMacchiato,
                Theme::CatppuccinMocha,
            ],
    {
        [
            Theme::Light,
            Theme::Dark,
            Theme::CatppuccinLatte,
            Theme::CatppuccinFrappe,
            Theme::CatppuccinMacchiato,
            Theme::CatppuccinMocha,
        ]
    }
}

impl SystemTheme {
    /// The theme in effect: a fixed one, else one that follows the system's light or dark.
    pub open spec fn effective(self, preference: ThemePreference) -> Theme {
        match preference {
            ThemePreference::Fixed(theme) => theme,
            ThemePreference::System => if self.dark {
                Theme::Dark
            } else {
                Theme::Light
            },
            ThemePreference::Catppuccin => if self.dark {
                Theme::CatppuccinMocha
            } else {
                Theme::CatppuccinLatte
            },
        }
    }

    pub fn effective_theme(self, preference: ThemePreference) -> (theme: Theme)
        ensures
            theme == self.effective(preference),
    {
        match preference {
            ThemePreference::Fixed(theme) => theme,
            ThemePreference::System => if self.dark {
                Theme::Dark
            } else {
                Theme::Light
            },
            ThemePreference::Catppuccin => if self.dark {
                Theme::CatppuccinMocha
            } else {
                Theme::CatppuccinLatte
            },
        }
    }
}

/// A preference that follows the system is dark exactly while the system is, and a fixed theme stays
/// as it is.
pub proof fn preferences_follow_the_system(system: SystemTheme, theme: Theme)
    ensures
        system.effective(ThemePreference::System).dark() == system.dark,
        system.effective(ThemePreference::Catppuccin).dark() == system.dark,
        system.effective(ThemePreference::Fixed(theme)) == theme,
{
}

/// A color as Windows holds it: red in the lowest byte, then green, then blue.
pub open spec fn rgb_color(red: u8, green: u8, blue: u8) -> u32 {
    (red + 0x100 * green + 0x1_0000 * blue) as u32
}

pub fn rgb(red: u8, green: u8, blue: u8) -> (color: u32)
    ensures
        color == rgb_color(red, green, blue),
{
    red as u32 + 0x100 * (green as u32) + 0x1_0000 * (blue as u32)
}

/// Channel 0, 1 or 2 of a color: its red, green or blue.
pub open spec fn channel(color: u32, index: int) -> int {
    if index == 0 {
        color as int % 0x100
    } else if index == 1 {
        color as int / 0x100 % 0x100
    } else {
        color as int / 0x1_0000 % 0x100
    }
}

/// `top` over `bottom` at `alpha` of 255, in one channel.
pub open spec fn mixed(top: int, bottom: int, alpha: int) -> int {
    (top * alpha + bottom * (255 - alpha)) / 255
}

/// `top` over `bottom` at an opacity of `alpha` of 255, channel by channel.
pub open spec fn blended(top: u32, bottom: u32, alpha: u8) -> u32 {
    (mixed(channel(top, 0), channel(bottom, 0), alpha as int)
        + 0x100 * mixed(channel(top, 1), channel(bottom, 1), alpha as int)
        + 0x1_0000 * mixed(channel(top, 2), channel(bottom, 2), alpha as int)) as u32
}

fn mix(top: u32, bottom: u32, alpha: u8) -> (value: u32)
    requires
        top < 0x100,
        bottom < 0x100,
    ensures
        value == mixed(top as int, bottom as int, alpha as int),
        value < 0x100,
{
    let alpha: u32 = alpha as u32;
    let rest: u32 = 255 - alpha;
    assert(top * alpha + bottom * rest <= 255 * 255 && 0 <= top * alpha && 0 <= bottom * rest) by (nonlinear_arith)
        requires
            top <= 255,
            bottom <= 255,
            alpha + rest == 255,
    ;
    (top * alpha + bottom * rest) / 255
}

/// `top` over `bottom` at an opacity of `alpha` of 255.
pub fn blend(top: u32, bottom: u32, alpha: u8) -> (color: u32)
    ensures
        color == blended(top, bottom, alpha),
{
    let red: u32 = mix(top % 0x100, bottom % 0x100, alpha);
    let green: u32 = mix(top / 0x100 % 0x100, bottom / 0x100 % 0x100, alpha);
    let blue: u32 = mix(top / 0x1_0000 % 0x100, bottom / 0x1_0000 % 0x100, alpha);
    red + 0x100 * green + 0x1_0000 * blue
}

/// The swatches of one Catppuccin flavor that the program draws with.
#[derive(Clone, Copy, Debug, PartialEq, Eq, Structural)]
pub struct Flavor {
    pub red: u32,
    pub maroon: u32,
    pub peach: u32,
    pub yellow: u32,
    pub green: u32,
    pub blue: u32,
    pub text: u32,
    pub subtext0: u32,
    pub overlay2: u32,
    pub overlay1: u32,
    pub surface1: u32,
    pub surface0: u32,
    pub base: u32,
    pub mantle: u32,
    pub crust: u32,
}

/// The Latte flavor's swatches.
pub open spec fn latte_flavor() -> Flavor {
    Flavor {
        red: 0x0039_0FD2,
        maroon: 0x0053_45E6,
        peach: 0x000B_64FE,
        yellow: 0x001D_8EDF,
        green: 0x002B_A040,
        blue: 0x00F5_661E,
        text: 0x0069_4F4C,
        subtext0: 0x0085_6F6C,
        overlay2: 0x0093_7F7C,
        overlay1: 0x00A1_8F8C,
        surface1: 0x00CC_C0BC,
        surface0: 0x00DA_D0CC,
        base: 0x00F5_F1EF,
        mantle: 0x00EF_E9E6,
        crust: 0x00E8_E0DC,
    }
}

pub fn latte() -> (flavor: Flavor)
    ensures
        flavor == latte_flavor(),
{
    Flavor {
        red: 0x0039_0FD2,
        maroon: 0x0053_45E6,
        peach: 0x000B_64FE,
        yellow: 0x001D_8EDF,
        green: 0x002B_A040,
        blue: 0x00F5_661E,
        text: 0x0069_4F4C,
        subtext0: 0x0085_6F6C,
        overlay2: 0x0093_7F7C,
        overlay1: 0x00A1_8F8C,
        surface1: 0x00CC_C0BC,
        surface0: 0x00DA_D0CC,
        base: 0x00F5_F1EF,
        mantle: 0x00EF_E9E6,
        crust: 0x00E8_E0DC,
    }
}

/// The Frappe flavor's swatches.
pub open spec fn frappe_flavor() -> Flavor {
    Flavor {
        red: 0x0084_82E7,
        maroon: 0x009C_99EA,
        peach: 0x0076_9FEF,
        yellow: 0x0090_C8E5,
        green: 0x0089_D1A6,
        blue: 0x00EE_AA8C,
        text: 0x00F5_D0C6,
        subtext0: 0x00CE_ADA5,
        overlay2: 0x00BB_9C94,
        overlay1: 0x00A7_8B83,
        surface1: 0x006D_5751,
        surface0: 0x0059_4541,
        base: 0x0046_3430,
        mantle: 0x003C_2C29,
        crust: 0x0034_2623,
    }
}

pub fn frappe() -> (flavor: Flavor)
    ensures
        flavor == frappe_flavor(),
{
    Flavor {
        red: 0x0084_82E7,
        maroon: 0x009C_99EA,
        peach: 0x0076_9FEF,
        yellow: 0x0090_C8E5,
        green: 0x0089_D1A6,
        blue: 0x00EE_AA8C,
        text: 0x00F5_D0C6,
        subtext0: 0x00CE_ADA5,
        overlay2: 0x00BB_9C94,
        overlay1: 0x00A7_8B83,
        surface1: 0x006D_5751,
        surface0: 0x0059_4541,
        base: 0x0046_3430,
        mantle: 0x003C_2C29,
        crust: 0x0034_2623,
    }
}

/// The Macchiato flavor's swatches.
pub open spec fn macchiato_flavor() -> Flavor {
    Flavor {
        red: 0x0096_87ED,
        maroon: 0x00A0_99EE,
        peach: 0x007F_A9F5,
        yellow: 0x009F_D4EE,
        green: 0x0095_DAA6,
        blue: 0x00F4_AD8A,
        text: 0x00F5_D3CA,
        subtext0: 0x00CB_ADA5,
        overlay2: 0x00B7_9A93,
        overlay1: 0x00A2_8780,
        surface1: 0x0064_4D49,
        surface0: 0x004F_3A36,
        base: 0x003A_2724,
        mantle: 0x0030_201E,
        crust: 0x0026_1918,
    }
}

pub fn macchiato() -> (flavor: Flavor)
    ensures
        flavor == macchiato_flavor(),
{
    Flavor {
        red: 0x0096_87ED,
        maroon: 0x00A0_99EE,
        peach: 0x007F_A9F5,
        yellow: 0x009F_D4EE,
        green: 0x0095_DAA6,
        blue: 0x00F4_AD8A,
        text: 0x00F5_D3CA,
        subtext0: 0x00CB_ADA5,
        overlay2: 0x00B7_9A93,
        overlay1: 0x00A2_8780,
        surface1: 0x0064_4D49,
        surface0: 0x004F_3A36,
        base: 0x003A_2724,
        mantle: 0x0030_201E,
        crust: 0x0026_1918,
    }
}

/// The Mocha flavor's swatches.
pub open spec fn mocha_flavor() -> Flavor {
    Flavor {
        red: 0x00A8_8BF3,
        maroon: 0x00AC_A0EB,
        peach: 0x0087_B3FA,
        yellow: 0x00AF_E2F9,
        green: 0x00A1_E3A6,
        blue: 0x00FA_B489,
        text: 0x00F4_D6CD,
        subtext0: 0x00C8_ADA6,
        overlay2: 0x00B2_9993,
        overlay1: 0x009C_847F,
        surface1: 0x005A_4745,
        surface0: 0x0044_3231,
        base: 0x002E_1E1E,
        mantle: 0x0025_1818,
        crust: 0x001B_1111,
    }
}

pub fn mocha() -> (flavor: Flavor)
    ensures
        flavor == mocha_flavor(),
{
    Flavor {
        red: 0x00A8_8BF3,
        maroon: 0x00AC_A0EB,
        peach: 0x0087_B3FA,
        yellow: 0x00AF_E2F9,
        green: 0x00A1_E3A6,
        blue: 0x00FA_B489,
        text: 0x00F4_D6CD,
        subtext0: 0x00C8_ADA6,
        overlay2: 0x00B2_9993,
        overlay1: 0x009C_847F,
        surface1: 0x005A_4745,
        surface0: 0x0044_3231,
        base: 0x002E_1E1E,
        mantle: 0x0025_1818,
        crust: 0x001B_1111,
    }
}

} // verus!
