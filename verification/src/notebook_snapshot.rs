//! What a rebuild of the Notebook view takes from the library and the notebook lists.

use crate::notebook_view::{snapshot_mode, Mode, RebuildKey, Snapshot};
use crate::tree::{flatten, NoteTree, TreeRow};
use crate::tree_paint::RecentName;
use vstd::prelude::*;

verus! {

/// How the open notebook's library is, and which sections are set to be expanded.
#[derive(Clone, Copy, Debug, PartialEq, Eq, Structural)]
pub struct LibraryFacts {
    pub loaded: bool,
    /// The last load failed.
    pub failed: bool,
    /// Bumped whenever a folder is expanded or collapsed.
    pub expansion: u64,
    pub root_expanded: bool,
    pub editors_expanded: bool,
    /// The notebook is one of the favorites.
    pub favorite: bool,
    /// The scan stopped at its limit.
    pub truncated: bool,
}

/// What the rows depend on besides the library itself.
pub fn rebuild_key(root: &Option<String>, facts: LibraryFacts) -> (key: RebuildKey)
    ensures
        crate::text::maybe(key.root) == crate::text::maybe(*root),
        key.loaded == facts.loaded,
        key.failed == facts.failed,
        key.expansion == facts.expansion,
        key.root_expanded == facts.root_expanded,
{
    RebuildKey {
        root: match root {
            Some(root) => Some(root.clone()),
            None => None,
        },
        loaded: facts.loaded,
        failed: facts.failed,
        expansion: facts.expansion,
        root_expanded: facts.root_expanded,
    }
}

/// The rows of a notebook: the tree's visible ones once it is loaded.
pub open spec fn rows_of(
    open: bool,
    facts: LibraryFacts,
    tree: NoteTree,
    expanded: Seq<String>,
) -> Seq<TreeRow> {
    if open && facts.loaded {
        crate::tree::visible(
            tree.entries@,
            crate::tree::open_keys(expanded),
            tree.entries.len() as int,
        )
    } else {
        Seq::empty()
    }
}

/// What a snapshot holds.
pub open spec fn read_off(
    taken: Snapshot,
    root: Option<String>,
    name: String,
    facts: LibraryFacts,
    tree: NoteTree,
    expanded: Seq<String>,
    recent: Vec<String>,
    recent_names: Vec<RecentName>,
) -> bool {
    &&& taken.root == root
    &&& taken.rows@ == rows_of(root is Some, facts, tree, expanded)
    &&& taken.mode == crate::notebook_view::mode_from(
        root is Some,
        facts.loaded,
        facts.failed,
        taken.rows@.len(),
    )
    &&& taken.truncated == (taken.mode == Mode::Tree && facts.truncated)
    &&& root is None ==> taken.recent == recent && taken.recent_names == recent_names
    &&& root is Some ==> taken.recent.len() == 0 && taken.recent_names.len() == 0
    &&& root is Some ==> taken.name == name
    &&& root is None ==> taken.name@ == Seq::<char>::empty()
    &&& taken.favorite == (root is Some && facts.favorite)
    &&& taken.root_expanded == (root is None || facts.root_expanded)
    &&& taken.editors_expanded == facts.editors_expanded
    &&& crate::text::maybe(taken.key.root) == crate::text::maybe(root)
    &&& taken.key.loaded == facts.loaded
    &&& taken.key.failed == facts.failed
    &&& taken.key.expansion == facts.expansion
    &&& taken.key.root_expanded == facts.root_expanded
}

/// Reads everything the rows need. Without a notebook the recent ones are listed; with one, its
/// tree, of which nothing shows until it is loaded.
pub fn snapshot(
    root: Option<String>,
    name: String,
    facts: LibraryFacts,
    tree: &NoteTree,
    expanded: &Vec<String>,
    recent: Vec<String>,
    recent_names: Vec<RecentName>,
) -> (taken: Snapshot)
    ensures
        read_off(taken, root, name, facts, *tree, expanded@, recent, recent_names),
{
    let key = rebuild_key(&root, facts);
    let open: bool = root.is_some();
    let rows: Vec<TreeRow> = if open && facts.loaded {
        flatten(tree, expanded)
    } else {
        Vec::new()
    };
    assert(rows@ == rows_of(open, facts, *tree, expanded@));
    let mode: Mode = snapshot_mode(open, facts.loaded, facts.failed, rows.len());
    let truncated: bool = mode == Mode::Tree && facts.truncated;
    if open {
        Snapshot {
            mode,
            rows,
            truncated,
            recent: Vec::new(),
            recent_names: Vec::new(),
            root,
            name,
            favorite: facts.favorite,
            root_expanded: facts.root_expanded,
            editors_expanded: facts.editors_expanded,
            key,
        }
    } else {
        Snapshot {
            mode,
            rows,
            truncated,
            recent,
            recent_names,
            root,
            name: String::new(),
            favorite: false,
            root_expanded: true,
            editors_expanded: facts.editors_expanded,
            key,
        }
    }
}

} // verus!
