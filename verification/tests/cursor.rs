use fastpad::panel_cursor::{step, Cursor, Shape};
use fastpad::row_list::ListKey;

const SHAPE: Shape = Shape { editors: 2, root: true, tree: 3 };

#[test]
fn up_and_down_cross_from_open_editors_through_the_root_into_the_tree() {
    let down = |cursor, tree| step(cursor, tree, ListKey::Down, SHAPE).unwrap();
    assert_eq!(down(Cursor::EditorsHeader, None), (Cursor::Editor(0), None));
    assert_eq!(down(Cursor::Editor(1), None), (Cursor::Root, None));
    assert_eq!(down(Cursor::Root, None), (Cursor::Tree, Some(0)));
    assert_eq!(
        down(Cursor::Tree, Some(2)),
        (Cursor::Tree, Some(2)),
        "stays on the last"
    );
    let up = |cursor, tree| step(cursor, tree, ListKey::Up, SHAPE).unwrap();
    assert_eq!(up(Cursor::Tree, Some(0)), (Cursor::Root, None));
    assert_eq!(up(Cursor::Root, None), (Cursor::Editor(1), None));
    assert_eq!(up(Cursor::EditorsHeader, None), (Cursor::EditorsHeader, None));
}

#[test]
fn home_end_and_collapsed_sections() {
    assert_eq!(
        step(Cursor::Root, None, ListKey::End, SHAPE),
        Some((Cursor::Tree, Some(2)))
    );
    assert_eq!(
        step(Cursor::Tree, Some(1), ListKey::Home, SHAPE),
        Some((Cursor::EditorsHeader, None))
    );
    assert_eq!(step(Cursor::Tree, Some(1), ListKey::PageDown, SHAPE), None);
    let collapsed = Shape { editors: 0, root: true, tree: 0 };
    assert_eq!(
        step(Cursor::EditorsHeader, None, ListKey::Down, collapsed),
        Some((Cursor::Root, None))
    );
    assert_eq!(
        step(Cursor::Root, None, ListKey::Down, collapsed),
        Some((Cursor::Root, None))
    );
    let no_notebook = Shape { editors: 1, root: false, tree: 0 };
    assert_eq!(
        step(Cursor::Editor(0), None, ListKey::Down, no_notebook),
        Some((Cursor::Editor(0), None))
    );
}

#[test]
fn up_takes_back_what_down_did_between_the_ends() {
    let mut row = (Cursor::EditorsHeader, None);
    for _ in 0..6 {
        let below = step(row.0, row.1, ListKey::Down, SHAPE).unwrap();
        assert_eq!(step(below.0, below.1, ListKey::Up, SHAPE), Some(row));
        row = below;
    }
    assert_eq!(row, (Cursor::Tree, Some(2)));
}
