use fastpad::item_icon::{
    draw_item_icon, draw_minimal_icon, icon_color, image_tried, IconShape, IconStep,
};
use fastpad::palette::{FileIcons, IconColor, Palette, SystemColors};
use fastpad::theme::Theme;

const SYSTEM: SystemColors = SystemColors {
    window: 0x0000_0001,
    window_text: 0x0000_0002,
    button_face: 0x0000_0003,
    button_text: 0x0000_0004,
    highlight: 0x0000_0005,
    highlight_text: 0x0000_0006,
};

#[test]
fn a_mask_has_its_roles_color_or_the_rows_muted_one() {
    let (palette, icons) = (Palette::neutral(), FileIcons::neutral());
    assert_eq!(icon_color(IconColor::Peach, 0x77, &palette, &icons), icons.peach);
    assert_eq!(icon_color(IconColor::Blue, 0x77, &palette, &icons), icons.blue);
    let contrast = Palette::for_theme(Theme::Dark, true, &SYSTEM);
    assert_eq!(icon_color(IconColor::Peach, 0x77, &contrast, &icons), 0x77);
}

#[test]
fn a_bitmap_that_cannot_be_drawn_gives_way_to_the_minimal_icon() {
    let (palette, icons) = (Palette::neutral(), FileIcons::neutral());
    let mask = IconShape::Mask(IconColor::Green);
    assert_eq!(draw_item_icon(IconShape::Image, 0, &palette, &icons), IconStep::Image);
    assert_eq!(draw_item_icon(mask, 0, &palette, &icons), IconStep::Mask(icons.green));
    assert_eq!(image_tried(true), IconStep::Done);
    assert_eq!(image_tried(false), IconStep::Minimal);
    assert_eq!(draw_minimal_icon(mask, 0, &palette, &icons), IconStep::Mask(icons.green));
    assert_eq!(draw_minimal_icon(IconShape::Image, 0, &palette, &icons), IconStep::Done);
}
