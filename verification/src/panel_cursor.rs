//! The Notebook view's one keyboard selection: Up and Down run from the Open Editors header
//! through its rows, the notebook's root row and the tree's rows, as one list.

use crate::row_list::ListKey;
use vstd::prelude::*;

verus! {

#[derive(Clone, Copy, Debug, PartialEq, Eq, Structural)]
pub enum Cursor {
    EditorsHeader,
    Editor(usize),
    Root,
    /// The tree's own selection is the row.
    Tree,
}

/// How many rows each part has.
#[derive(Clone, Copy, Debug, PartialEq, Eq, Structural)]
pub struct Shape {
    pub editors: usize,
    pub root: bool,
    pub tree: usize,
}

impl Shape {
    /// The rows of all parts can be counted.
    pub open spec fn countable(self) -> bool {
        self.editors + self.tree + 3 <= usize::MAX
    }

    /// The rows of the root part: one or none.
    pub open spec fn roots(self) -> int {
        if self.root {
            1
        } else {
            0
        }
    }

    /// The last row's position; the header's is 0.
    pub open spec fn last(self) -> int {
        self.editors + self.roots() + self.tree
    }

    /// Where a row stands in the one list. A row that is gone stands for its nearest.
    pub open spec fn position(self, cursor: Cursor, tree_selected: Option<usize>) -> int {
        match cursor {
            Cursor::EditorsHeader => 0,
            Cursor::Editor(index) => 1 + vstd::math::min(
                index as int,
                vstd::math::max(self.editors - 1, 0),
            ),
            Cursor::Root => self.editors + self.roots(),
            Cursor::Tree => if self.tree > 0 {
                let selected = match tree_selected {
                    Some(selected) => selected as int,
                    None => 0,
                };
                self.editors + self.roots() + 1 + vstd::math::min(selected, self.tree - 1)
            } else {
                self.last()
            },
        }
    }

    /// The row at a position, with the tree's row where it is one.
    pub open spec fn row(self, position: int) -> (Cursor, Option<usize>) {
        if position <= 0 {
            (Cursor::EditorsHeader, None)
        } else if position <= self.editors {
            (Cursor::Editor((position - 1) as usize), None)
        } else if self.root && position == self.editors + 1 {
            (Cursor::Root, None)
        } else {
            (Cursor::Tree, Some((position - self.editors - 1 - self.roots()) as usize))
        }
    }

    /// The row is one of the list's.
    pub open spec fn has(self, cursor: Cursor, tree_selected: Option<usize>) -> bool {
        match cursor {
            Cursor::EditorsHeader => tree_selected is None,
            Cursor::Editor(index) => index < self.editors && tree_selected is None,
            Cursor::Root => self.root && tree_selected is None,
            Cursor::Tree => tree_selected matches Some(index) && index < self.tree,
        }
    }

    /// Where a key moves the selection; a page key moves within its own section.
    pub open spec fn moved(self, cursor: Cursor, tree_selected: Option<usize>, key: ListKey) -> Option<
        (Cursor, Option<usize>),
    > {
        let now = self.position(cursor, tree_selected);
        match key {
            ListKey::Up => Some(self.row(now - 1)),
            ListKey::Down => Some(self.row(vstd::math::min(now + 1, self.last()))),
            ListKey::Home => Some(self.row(0)),
            ListKey::End => Some(self.row(self.last())),
            ListKey::PageUp | ListKey::PageDown => None,
        }
    }
}

pub fn last(shape: Shape) -> (position: usize)
    requires
        shape.countable(),
    ensures
        position == shape.last(),
{
    let roots: usize = if shape.root {
        1
    } else {
        0
    };
    shape.editors + roots + shape.tree
}

pub fn index_of(cursor: Cursor, tree_selected: Option<usize>, shape: Shape) -> (position: usize)
    requires
        shape.countable(),
    ensures
        position == shape.position(cursor, tree_selected),
{
    let roots: usize = if shape.root {
        1
    } else {
        0
    };
    match cursor {
        Cursor::EditorsHeader => 0,
        Cursor::Editor(index) => 1 + index.min(shape.editors.saturating_sub(1)),
        Cursor::Root => shape.editors + roots,
        Cursor::Tree => if shape.tree > 0 {
            let selected: usize = match tree_selected {
                Some(selected) => selected.min(shape.tree - 1),
                None => 0,
            };
            shape.editors + roots + 1 + selected
        } else {
            last(shape)
        },
    }
}

pub fn cursor_at(index: usize, shape: Shape) -> (row: (Cursor, Option<usize>))
    requires
        shape.countable(),
    ensures
        row == shape.row(index as int),
{
    if index == 0 {
        return (Cursor::EditorsHeader, None);
    }
    if index <= shape.editors {
        return (Cursor::Editor(index - 1), None);
    }
    let after_editors: usize = index - shape.editors - 1;
    if shape.root && after_editors == 0 {
        return (Cursor::Root, None);
    }
    let roots: usize = if shape.root {
        1
    } else {
        0
    };
    (Cursor::Tree, Some(after_editors - roots))
}

/// Where `key` moves the selection. `None` for a page key: the section's own list pages.
pub fn step(cursor: Cursor, tree_selected: Option<usize>, key: ListKey, shape: Shape) -> (moved: Option<
    (Cursor, Option<usize>),
>)
    requires
        shape.countable(),
    ensures
        moved == shape.moved(cursor, tree_selected, key),
{
    let now: usize = index_of(cursor, tree_selected, shape);
    let target: usize = match key {
        ListKey::Up => now.saturating_sub(1),
        ListKey::Down => (now + 1).min(last(shape)),
        ListKey::Home => 0,
        ListKey::End => last(shape),
        ListKey::PageUp | ListKey::PageDown => return None,
    };
    Some(cursor_at(target, shape))
}

/// A row of the list stands at one position, and the row at that position is the row itself.
pub proof fn rows_and_positions_match(shape: Shape, cursor: Cursor, tree_selected: Option<usize>)
    requires
        shape.countable(),
        shape.has(cursor, tree_selected),
    ensures
        0 <= shape.position(cursor, tree_selected) <= shape.last(),
        shape.row(shape.position(cursor, tree_selected)) == (cursor, tree_selected),
{
}

/// Every position up to the last holds a row of the list, which stands there.
pub proof fn positions_hold_rows(shape: Shape, position: int)
    requires
        shape.countable(),
        0 <= position <= shape.last(),
    ensures
        shape.has(shape.row(position).0, shape.row(position).1),
        shape.position(shape.row(position).0, shape.row(position).1) == position,
{
}

/// Wherever the selection was, an arrow, Home or End leaves it on a row of the list.
pub proof fn a_move_lands_on_a_row(
    shape: Shape,
    cursor: Cursor,
    tree_selected: Option<usize>,
    key: ListKey,
)
    requires
        shape.countable(),
        shape.moved(cursor, tree_selected, key) is Some,
    ensures
        ({
            let row = shape.moved(cursor, tree_selected, key)->0;
            shape.has(row.0, row.1)
        }),
{
}

/// Up takes back what Down did, except on the last row, and Down what Up did, except on the first.
pub proof fn up_and_down_undo_each_other(shape: Shape, cursor: Cursor, tree_selected: Option<usize>)
    requires
        shape.countable(),
        shape.has(cursor, tree_selected),
    ensures
        shape.position(cursor, tree_selected) < shape.last() ==> {
            let below = shape.moved(cursor, tree_selected, ListKey::Down)->0;
            shape.moved(below.0, below.1, ListKey::Up) == Some((cursor, tree_selected))
        },
        shape.position(cursor, tree_selected) > 0 ==> {
            let above = shape.moved(cursor, tree_selected, ListKey::Up)->0;
            shape.moved(above.0, above.1, ListKey::Down) == Some((cursor, tree_selected))
        },
{
    let now = shape.position(cursor, tree_selected);
    rows_and_positions_match(shape, cursor, tree_selected);
    if now < shape.last() {
        positions_hold_rows(shape, now + 1);
    }
    if now > 0 {
        positions_hold_rows(shape, now - 1);
    }
}

} // verus!
