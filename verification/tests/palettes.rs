use fastpad::palette::{FileIcons, IconColor, Palette, SystemColors};
use fastpad::theme::{
    frappe, latte, macchiato, mocha, rgb, SystemTheme, Theme, ThemePreference,
};

const SYSTEM: SystemColors = SystemColors {
    button_face: 0x00f0_f0f0,
    button_text: 0x0000_0001,
    window: 0x00ff_ffff,
    window_text: 0x0000_0000,
    highlight: 0x00d7_7800,
    highlight_text: 0x00ff_fffe,
};

#[test]
fn every_theme_has_a_distinct_palette_and_neutral_is_light() {
    let all = Theme::all();
    for (index, theme) in all.into_iter().enumerate() {
        let palette = Palette::for_theme(theme, false, &SYSTEM);
        for other in &all[index + 1..] {
            let other = Palette::for_theme(*other, false, &SYSTEM);
            assert_ne!(palette.strip_background, other.strip_background);
            assert_ne!(palette.editor_background, other.editor_background);
        }
        assert_eq!(palette.dark_frame, theme.is_dark());
        assert_eq!(palette.selection_foreground, None);
        assert_ne!(palette.selection_background, palette.editor_background);
        assert_ne!(palette.caret_line_background, palette.editor_background);
        assert_ne!(palette.selection_background, palette.caret_line_background);
    }
    assert_eq!(Palette::neutral(), Palette::for_theme(Theme::Light, false, &SYSTEM));
}

#[test]
fn catppuccin_palettes_use_the_flavor_swatches() {
    let palette = Palette::for_theme(Theme::CatppuccinMocha, false, &SYSTEM);
    assert_eq!(palette.editor_background, mocha().base);
    assert_eq!(palette.strip_background, mocha().mantle);
    assert_eq!(palette.editor_foreground, mocha().text);
    let light = Palette::for_theme(Theme::CatppuccinLatte, false, &SYSTEM);
    assert_eq!(light.editor_background, latte().base);
    assert!(!light.dark_frame);
}

#[test]
fn active_tab_background_is_the_editor_background() {
    for high_contrast in [false, true] {
        for theme in Theme::all() {
            let palette = Palette::for_theme(theme, high_contrast, &SYSTEM);
            assert_eq!(palette.active_tab_background(), palette.editor_background);
        }
    }
}

#[test]
fn editor_backgrounds_match_the_lexer_style_tables() {
    let tables = [
        (Theme::Light, rgb(255, 255, 255)),
        (Theme::Dark, rgb(30, 30, 30)),
        (Theme::CatppuccinLatte, latte().base),
        (Theme::CatppuccinFrappe, frappe().base),
        (Theme::CatppuccinMacchiato, macchiato().base),
        (Theme::CatppuccinMocha, mocha().base),
    ];
    for (theme, background) in tables {
        assert_eq!(
            Palette::for_theme(theme, false, &SYSTEM).editor_background,
            background
        );
    }
    assert_eq!(
        Palette::for_theme(Theme::Dark, false, &SYSTEM).editor_background,
        rgb(30, 30, 30)
    );
    assert_eq!(
        Palette::for_theme(Theme::Light, false, &SYSTEM).editor_background,
        rgb(255, 255, 255)
    );
}

#[test]
fn high_contrast_uses_system_colors_regardless_of_theme() {
    let palette = Palette::for_theme(Theme::Dark, true, &SYSTEM);
    for theme in Theme::all() {
        assert_eq!(palette, Palette::for_theme(theme, true, &SYSTEM));
    }
    assert_eq!(palette.editor_background, SYSTEM.window);
    assert_eq!(palette.editor_foreground, SYSTEM.window_text);
    assert_eq!(palette.selection_background, SYSTEM.highlight);
    assert_eq!(palette.hover_background, SYSTEM.highlight);
    assert_eq!(palette.close_hover_background, SYSTEM.highlight);
    assert_eq!(palette.close_hover_foreground, SYSTEM.highlight_text);
    assert_eq!(palette.selection_foreground, Some(SYSTEM.highlight_text));
    assert!(!palette.dark_frame);
}

#[test]
fn close_hover_is_red_with_a_white_glyph_in_the_system_themes() {
    for theme in [Theme::Light, Theme::Dark] {
        let palette = Palette::for_theme(theme, false, &SYSTEM);
        assert_eq!(palette.close_hover_background, rgb(0xC4, 0x2B, 0x1C));
        assert_eq!(palette.close_hover_foreground, rgb(255, 255, 255));
    }
    for theme in Theme::all() {
        let palette = Palette::for_theme(theme, false, &SYSTEM);
        assert_ne!(palette.muted_foreground, palette.hover_foreground);
        assert_ne!(palette.close_hover_background, palette.close_hover_foreground);
    }
}

#[test]
fn the_error_color_stands_apart_from_the_text_and_the_background() {
    for theme in Theme::all() {
        let palette = Palette::for_theme(theme, false, &SYSTEM);
        assert_ne!(palette.error_foreground, palette.editor_background, "{theme:?}");
        assert_ne!(palette.error_foreground, palette.editor_foreground, "{theme:?}");
        assert_ne!(palette.error_foreground, palette.muted_foreground, "{theme:?}");
    }
    assert_eq!(
        Palette::for_theme(Theme::CatppuccinMocha, true, &SYSTEM).error_foreground,
        SYSTEM.window_text,
        "high contrast keeps the system text color"
    );
}

/// WCAG relative luminance of a color.
fn luminance(color: u32) -> f64 {
    let channel = |shift: u32| {
        let value = f64::from((color >> shift) & 0xFF) / 255.0;
        if value <= 0.040_45 {
            value / 12.92
        } else {
            ((value + 0.055) / 1.055).powf(2.4)
        }
    };
    0.2126 * channel(0) + 0.7152 * channel(8) + 0.0722 * channel(16)
}

fn contrast(a: u32, b: u32) -> f64 {
    let (a, b) = (luminance(a), luminance(b));
    (a.max(b) + 0.05) / (a.min(b) + 0.05)
}

#[test]
fn file_icon_colours_come_from_the_themes_flavour_and_high_contrast_mutes_them() {
    let flavors = [
        (Theme::Light, latte()),
        (Theme::Dark, mocha()),
        (Theme::CatppuccinLatte, latte()),
        (Theme::CatppuccinFrappe, frappe()),
        (Theme::CatppuccinMacchiato, macchiato()),
        (Theme::CatppuccinMocha, mocha()),
    ];
    for (theme, flavor) in flavors {
        let icons = FileIcons::for_theme(theme, false, &SYSTEM);
        assert_eq!(
            (icons.blue, icons.yellow, icons.peach, icons.green, icons.maroon, icons.overlay2),
            (
                flavor.blue,
                flavor.yellow,
                flavor.peach,
                flavor.green,
                flavor.maroon,
                flavor.overlay2
            ),
            "{theme:?}"
        );
        let muted = Palette::for_theme(theme, true, &SYSTEM).muted_foreground;
        let system = FileIcons::for_theme(theme, true, &SYSTEM);
        assert!([
            system.blue,
            system.yellow,
            system.peach,
            system.green,
            system.maroon,
            system.overlay2
        ]
        .iter()
        .all(|&color| color == muted));
    }
    assert_eq!(
        FileIcons::neutral(),
        FileIcons::for_theme(Theme::Light, false, &SYSTEM)
    );
}

#[test]
fn file_icon_colours_stay_visible_on_selected_and_hovered_rows() {
    for theme in Theme::all() {
        let palette = Palette::for_theme(theme, false, &SYSTEM);
        let icons = FileIcons::for_theme(theme, false, &SYSTEM);
        for color in [
            icons.blue,
            icons.yellow,
            icons.peach,
            icons.green,
            icons.maroon,
            icons.overlay2,
        ] {
            for background in [
                palette.selection_background,
                palette.inactive_selection_background,
                palette.hover_background,
                palette.panel_background(),
            ] {
                let ratio = contrast(color, background);
                assert!(
                    ratio >= 1.5,
                    "{theme:?}: {color:06x} on {background:06x} is {ratio:.2}:1"
                );
            }
        }
    }
}

#[test]
fn a_fixed_theme_wins_over_the_systems_and_high_contrast_over_both() {
    let dark = SystemTheme { dark: true, high_contrast: false };
    assert_eq!(
        Palette::for_cached_theme(Some(dark), ThemePreference::System, &SYSTEM),
        Palette::for_theme(Theme::Dark, false, &SYSTEM)
    );
    assert_eq!(
        Palette::for_cached_theme(Some(dark), ThemePreference::Fixed(Theme::Light), &SYSTEM),
        Palette::neutral()
    );
    let contrast = SystemTheme { dark: true, high_contrast: true };
    assert_eq!(
        Palette::for_cached_theme(Some(contrast), ThemePreference::Fixed(Theme::Light), &SYSTEM)
            .editor_background,
        SYSTEM.window
    );
    assert_eq!(
        Palette::for_cached_theme(None, ThemePreference::System, &SYSTEM),
        Palette::neutral()
    );
    let light = SystemTheme { dark: false, high_contrast: false };
    for (system, theme) in [(dark, Theme::CatppuccinMocha), (light, Theme::CatppuccinLatte)] {
        assert_eq!(
            Palette::for_cached_theme(Some(system), ThemePreference::Catppuccin, &SYSTEM),
            Palette::for_theme(theme, false, &SYSTEM)
        );
    }
    let icons = FileIcons::for_cached_theme(Some(dark), ThemePreference::System, &SYSTEM);
    assert_eq!(icons.color(IconColor::Peach), mocha().peach);
}
