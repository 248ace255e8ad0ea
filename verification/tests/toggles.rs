use fastpad::geometry::{Point, Rect};
use fastpad::messages::{WM_CHAR, WM_KEYDOWN, WM_SYSCHAR, WM_SYSKEYDOWN};
use fastpad::option_toggles::{
    alt_key, alt_option, hit, is_toggle_char, label, paint, reserved_width, toggle_rects, tooltip,
    MatchOptions, SearchOption,
};
use fastpad::palette::Palette;

const FIELD: Rect = Rect { left: 8, top: 5, right: 252, bottom: 33 };

const ALT_DOWN: isize = 1 << 29;

fn edges(rect: Rect) -> (i32, i32, i32, i32) {
    (rect.left, rect.top, rect.right, rect.bottom)
}

#[test]
fn the_toggles_sit_inside_the_right_end_of_the_field_and_scale_with_dpi() {
    let rects = toggle_rects(FIELD, 96);
    assert_eq!(edges(rects[0]), (179, 8, 201, 30));
    assert_eq!(edges(rects[1]), (203, 8, 225, 30));
    assert_eq!(edges(rects[2]), (227, 8, 249, 30));
    assert!(FIELD.right - reserved_width(96) < rects[0].left, "the box stops short");
    let field = Rect { left: 12, top: 8, right: 378, bottom: 51 };
    let rects = toggle_rects(field, 144);
    assert_eq!(rects[2].right, 378 - 5);
    assert_eq!(rects[2].right - rects[2].left, 33);
    assert_eq!(rects[1].right, rects[2].left - 3);
    assert_eq!(rects[2].top - field.top, field.bottom - rects[2].bottom, "centered");
    assert!(field.right - reserved_width(144) < rects[0].left);
}

#[test]
fn a_point_hits_the_toggle_under_it_and_nothing_in_the_gaps() {
    let rects = toggle_rects(FIELD, 96);
    assert_eq!(hit(&rects, Point { x: 179, y: 8 }), Some(SearchOption::Case));
    assert_eq!(hit(&rects, Point { x: 214, y: 19 }), Some(SearchOption::WholeWord));
    assert_eq!(hit(&rects, Point { x: 248, y: 29 }), Some(SearchOption::Regex));
    assert_eq!(hit(&rects, Point { x: 202, y: 19 }), None, "the gap");
    assert_eq!(hit(&rects, Point { x: 249, y: 19 }), None, "the right padding");
    assert_eq!(hit(&rects, Point { x: 214, y: 30 }), None, "below");
    assert_eq!(hit(&rects, Point { x: 100, y: 19 }), None, "over the text");
}

#[test]
fn alt_c_w_and_r_are_the_three_options_and_nothing_else() {
    assert_eq!(alt_key(u32::from(b'C')), Some(SearchOption::Case));
    assert_eq!(alt_key(u32::from(b'W')), Some(SearchOption::WholeWord));
    assert_eq!(alt_key(u32::from(b'R')), Some(SearchOption::Regex));
    for other in *b"FESVZcw" {
        assert_eq!(alt_key(u32::from(other)), None, "{}", char::from(other));
    }
}

#[test]
fn only_an_alt_letter_key_down_flips_an_option_and_only_its_character_is_swallowed() {
    let c = usize::from(b'C');
    assert_eq!(alt_option(WM_SYSKEYDOWN, c, ALT_DOWN), Some(SearchOption::Case));
    assert_eq!(
        alt_option(WM_SYSKEYDOWN, usize::from(b'R'), ALT_DOWN),
        Some(SearchOption::Regex)
    );
    assert_eq!(alt_option(WM_SYSKEYDOWN, c, 0), None, "no Alt: F10");
    assert_eq!(alt_option(WM_KEYDOWN, c, ALT_DOWN), None);
    assert_eq!(alt_option(WM_SYSKEYDOWN, usize::from(b'F'), ALT_DOWN), None);
    assert!(is_toggle_char(WM_SYSCHAR, usize::from(b'c'), ALT_DOWN));
    assert!(is_toggle_char(WM_SYSCHAR, usize::from(b'W'), ALT_DOWN));
    assert!(is_toggle_char(WM_SYSCHAR, usize::from(b'r'), ALT_DOWN));
    assert!(!is_toggle_char(WM_SYSCHAR, usize::from(b'f'), ALT_DOWN));
    assert!(!is_toggle_char(WM_SYSCHAR, usize::from(b'c'), 0));
    assert!(!is_toggle_char(WM_CHAR, usize::from(b'c'), ALT_DOWN));
}

#[test]
fn labels_and_tooltips_name_each_option_and_its_shortcut() {
    assert_eq!(label(SearchOption::Case), "Match case");
    assert_eq!(label(SearchOption::WholeWord), "Match whole word");
    assert_eq!(label(SearchOption::Regex), "Use regular expression");
    assert_eq!(tooltip(SearchOption::Case), "Match case (Alt+C)");
    assert_eq!(tooltip(SearchOption::WholeWord), "Match whole word (Alt+W)");
    assert_eq!(tooltip(SearchOption::Regex), "Use regular expression (Alt+R)");
}

#[test]
fn an_on_toggle_is_filled_a_hovered_one_shaded_and_an_off_one_left_clear() {
    let palette = Palette {
        selection_background: 0x0000_00ff,
        hover_background: 0x0000_ff00,
        ..Palette::neutral()
    };
    let background = 0x0080_8080;
    let rects = toggle_rects(FIELD, 96);
    let options = MatchOptions { case: true, ..MatchOptions::default() };
    let looks = paint(&rects, options, Some(SearchOption::WholeWord), &palette);
    // What a 260 x 40 canvas filled with `background` holds near a toggle's corner.
    let corner = |rect: Rect| {
        let (x, y) = (rect.left + 1, rect.top + 1);
        let mut color = background;
        for look in &looks {
            let inside = look.rect.left <= x
                && x < look.rect.right
                && look.rect.top <= y
                && y < look.rect.bottom;
            if let (true, Some(fill)) = (inside, look.background) {
                color = fill;
            }
        }
        color
    };
    assert_eq!(corner(rects[0]), palette.selection_background, "on");
    assert_eq!(corner(rects[1]), palette.hover_background, "hovered");
    assert_eq!(corner(rects[2]), background, "off");
}

#[test]
fn flipping_an_option_twice_leaves_it_as_it_was() {
    let options = MatchOptions { case: true, ..MatchOptions::default() };
    for option in [SearchOption::Case, SearchOption::WholeWord, SearchOption::Regex] {
        let flipped = options.toggled(option);
        assert_ne!(flipped.get(option), options.get(option));
        assert_eq!(flipped.toggled(option), options);
    }
}
