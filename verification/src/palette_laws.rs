//! What holds of every theme's colors: text stands out, high contrast draws system pairs, and the
//! icons of a theme can be told apart.

use crate::palette::{FileIcons, IconColor, Palette, SystemColors};
use crate::theme::{Flavor, SystemTheme, Theme, ThemePreference};
use vstd::prelude::*;

verus! {

/// How far apart two colors are in one channel.
pub open spec fn apart(a: u32, b: u32, index: int) -> int {
    let (x, y) = (crate::theme::channel(a, index), crate::theme::channel(b, index));
    if x >= y {
        x - y
    } else {
        y - x
    }
}

/// In every flavor the text and the muted text stand out from the editor's background in each
/// channel, and the text from the strip's: lighter in a dark flavor, darker in the light one.
pub proof fn text_stands_out(theme: Theme, index: int)
    requires
        0 <= index < 3,
    ensures
        ({
            let flavor = crate::palette::flavor_of(theme);
            let (text, back) = (
                crate::theme::channel(flavor.text, index),
                crate::theme::channel(flavor.base, index),
            );
            &&& apart(flavor.text, flavor.base, index) > 100
            &&& apart(flavor.subtext0, flavor.base, index) > 100
            &&& apart(flavor.text, flavor.mantle, index) > 100
            &&& theme.dark() ==> text > back
            &&& !theme.dark() ==> text < back
        }),
{
}

/// In the Light and the Dark theme the text and the muted text stand out as far.
pub proof fn plain_text_stands_out(dark: bool, index: int)
    requires
        0 <= index < 3,
    ensures
        ({
            let palette = if dark {
                crate::palette::dark_palette()
            } else {
                crate::palette::light_palette()
            };
            &&& apart(palette.editor_foreground, palette.editor_background, index) > 100
            &&& apart(palette.muted_foreground, palette.editor_background, index) > 100
            &&& apart(palette.strip_foreground, palette.strip_background, index) > 100
            &&& palette.dark_frame == dark
            &&& crate::theme::channel(palette.editor_foreground, index) > crate::theme::channel(
                palette.editor_background,
                index,
            ) <==> dark
        }),
{
}

/// High contrast draws nothing but system pairs: each color that text is drawn in stands with the
/// background that the system gives it.
pub proof fn high_contrast_draws_system_pairs(theme: Theme, system: SystemColors)
    ensures
        ({
            let palette = Palette::of_theme(theme, true, system);
            &&& (palette.editor_foreground, palette.editor_background) == (
                system.window_text,
                system.window,
            )
            &&& (palette.strip_foreground, palette.strip_background) == (
                system.button_text,
                system.button_face,
            )
            &&& (palette.hover_foreground, palette.hover_background) == (
                system.highlight_text,
                system.highlight,
            )
            &&& (palette.close_hover_foreground, palette.close_hover_background) == (
                system.highlight_text,
                system.highlight,
            )
            &&& palette.selection_foreground == Some(system.highlight_text)
            &&& palette.selection_background == system.highlight
            &&& palette.inactive_selection_background == system.highlight
            &&& palette.pressed_background == system.highlight
            &&& palette.close_pressed_background == system.highlight
            &&& palette.caret_line_background == palette.editor_background
            &&& palette.error_foreground == palette.editor_foreground
            &&& palette.line_number_foreground == palette.editor_foreground
            &&& palette.muted_foreground == palette.strip_foreground
            &&& palette.high_contrast
            &&& !Palette::of_theme(theme, false, system).high_contrast
        }),
{
}

/// A Catppuccin theme draws its flavor: the editor on the base, the strip on the darker mantle, and
/// the selection a blend of the two it lies between, the stronger the nearer it is to the overlay.
pub proof fn a_flavor_fills_its_roles(flavor: Flavor, dark: bool)
    ensures
        ({
            let palette = crate::palette::catppuccin_palette(flavor, dark);
            &&& palette.editor_background == flavor.base
            &&& palette.strip_background == flavor.mantle
            &&& palette.editor_foreground == flavor.text
            &&& palette.strip_foreground == flavor.text
            &&& palette.hover_foreground == flavor.text
            &&& palette.muted_foreground == flavor.subtext0
            &&& palette.line_number_foreground == flavor.overlay1
            &&& palette.hover_background == flavor.surface0
            &&& palette.pressed_background == flavor.surface1
            &&& palette.close_hover_background == flavor.red
            &&& palette.close_hover_foreground == flavor.crust
            &&& palette.close_pressed_background == flavor.maroon
            &&& palette.error_foreground == flavor.red
            &&& palette.dark_frame == dark
        }),
{
}

/// A theme draws the icons of its own flavor; Light those of Latte and Dark those of Mocha. In high
/// contrast all are one color.
pub proof fn icons_follow_the_flavor(theme: Theme, system: SystemColors, a: IconColor, b: IconColor)
    ensures
        FileIcons::of_theme(Theme::Light, false, system) == FileIcons::of_theme(
            Theme::CatppuccinLatte,
            false,
            system,
        ),
        FileIcons::of_theme(Theme::Dark, false, system) == FileIcons::of_theme(
            Theme::CatppuccinMocha,
            false,
            system,
        ),
        a != b ==> FileIcons::of_theme(theme, false, system).role(a) != FileIcons::of_theme(
            theme,
            false,
            system,
        ).role(b),
        FileIcons::of_theme(theme, true, system).role(a) == Palette::of_theme(
            theme,
            true,
            system,
        ).muted_foreground,
        FileIcons::of_theme(theme, true, system).role(a) == FileIcons::of_theme(
            theme,
            true,
            system,
        ).role(b),
{
}

/// Before the system was read everything is drawn as in the light theme; after, as the preference
/// and the system say.
pub proof fn an_unread_system_is_light(
    theme: SystemTheme,
    preference: ThemePreference,
    system: SystemColors,
)
    ensures
        Palette::of_cached(None, preference, system) == Palette::of_theme(
            Theme::Light,
            false,
            system,
        ),
        FileIcons::of_cached(None, preference, system) == FileIcons::of_theme(
            Theme::Light,
            false,
            system,
        ),
        Palette::of_cached(Some(theme), preference, system).high_contrast == theme.high_contrast,
        preference != ThemePreference::Fixed(theme.effective(preference)) && !theme.high_contrast
            ==> Palette::of_cached(Some(theme), preference, system).dark_frame == theme.dark,
        !theme.high_contrast ==> Palette::of_cached(
            Some(theme),
            ThemePreference::Fixed(Theme::Dark),
            system,
        ) == Palette::of_theme(Theme::Dark, false, system),
        FileIcons::of_cached(Some(theme), preference, system) == FileIcons::of_theme(
            theme.effective(preference),
            theme.high_contrast,
            system,
        ),
{
}

/// In each flavor the greys run in one order, from the crust at the edge to the text: each is
/// lighter than the one before in a dark flavor, and the text is the darkest in the light one.
pub proof fn greys_run_in_order(theme: Theme, index: int)
    requires
        0 <= index < 3,
    ensures
        ({
            let flavor = crate::palette::flavor_of(theme);
            let shade = |color: u32| crate::theme::channel(color, index);
            &&& shade(flavor.crust) < shade(flavor.mantle) < shade(flavor.base)
            &&& theme.dark() ==> shade(flavor.base) < shade(flavor.surface0) < shade(
                flavor.surface1,
            ) < shade(flavor.overlay1) < shade(flavor.overlay2) < shade(flavor.subtext0) < shade(
                flavor.text,
            )
            &&& !theme.dark() ==> shade(flavor.crust) > shade(flavor.surface0) > shade(
                flavor.surface1,
            ) > shade(flavor.overlay1) > shade(flavor.overlay2) > shade(flavor.subtext0) > shade(
                flavor.text,
            )
        }),
{
}

} // verus!
