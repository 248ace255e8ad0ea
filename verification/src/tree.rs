//! The notebook's folder tree and the rows it shows: folders and notes in the order a walk from
//! the root meets them, each with its depth.

use crate::paths::same_path;
use crate::text::{has_text, text_of};
use vstd::prelude::*;

verus! {

/// What a row stands for, over paths of type `T` (relative to the notebook).
#[derive(Debug, PartialEq, Eq)]
pub enum Kind<T> {
    Folder(T),
    Note(T),
    /// The row of a name that is being typed.
    Draft,
    /// An unsaved tab's row, by its document's number.
    Unsaved(u64),
}

pub type RowKind = Kind<String>;

pub type KindModel = Kind<Seq<char>>;

/// What a row stands for, its path as characters.
pub open spec fn kind_model(kind: RowKind) -> KindModel {
    match kind {
        Kind::Folder(path) => Kind::Folder(path@),
        Kind::Note(path) => Kind::Note(path@),
        Kind::Draft => Kind::Draft,
        Kind::Unsaved(id) => Kind::Unsaved(id),
    }
}

pub open spec fn maybe_kind(kind: Option<RowKind>) -> Option<KindModel> {
    match kind {
        Some(kind) => Some(kind_model(kind)),
        None => None,
    }
}

/// What a row is known by: two rows stand for one thing where their paths are one.
pub open spec fn kind_key(kind: KindModel) -> KindModel {
    match kind {
        Kind::Folder(path) => Kind::Folder(crate::paths::path_key(path)),
        Kind::Note(path) => Kind::Note(crate::paths::path_key(path)),
        _ => kind,
    }
}

pub fn copy_kind(kind: &RowKind) -> (copy: RowKind)
    ensures
        copy == *kind,
{
    match kind {
        Kind::Folder(path) => Kind::Folder(path.clone()),
        Kind::Note(path) => Kind::Note(path.clone()),
        Kind::Draft => Kind::Draft,
        Kind::Unsaved(id) => Kind::Unsaved(*id),
    }
}

/// Whether two rows stand for one thing.
pub fn same_kind(a: &RowKind, b: &RowKind) -> (same: bool)
    ensures
        same == (kind_key(kind_model(*a)) == kind_key(kind_model(*b))),
{
    match (a, b) {
        (Kind::Folder(x), Kind::Folder(y)) => same_path(x.as_str(), y.as_str()),
        (Kind::Note(x), Kind::Note(y)) => same_path(x.as_str(), y.as_str()),
        (Kind::Draft, Kind::Draft) => true,
        (Kind::Unsaved(x), Kind::Unsaved(y)) => *x == *y,
        _ => false,
    }
}

/// A row of the tree.
#[derive(Debug, PartialEq, Eq)]
pub struct TreeRow {
    pub kind: RowKind,
    /// 0 for the root's children.
    pub depth: u16,
    pub name: String,
    pub pinned: bool,
    pub expanded: bool,
}

impl Clone for TreeRow {
    fn clone(&self) -> (copy: Self)
        ensures
            copy == *self,
    {
        TreeRow {
            kind: copy_kind(&self.kind),
            depth: self.depth,
            name: self.name.clone(),
            pinned: self.pinned,
            expanded: self.expanded,
        }
    }
}

/// What the rows are known by, in order.
pub open spec fn kinds(rows: Seq<TreeRow>) -> Seq<KindModel> {
    rows.map_values(|row: TreeRow| kind_key(kind_model(row.kind)))
}

/// The first row that stands for `kind`.
pub open spec fn place(rows: Seq<TreeRow>, kind: KindModel) -> Option<usize> {
    match kinds(rows).index_of_first(kind_key(kind)) {
        Some(index) => Some(index as usize),
        None => None,
    }
}

pub fn row_index(rows: &Vec<TreeRow>, kind: &RowKind) -> (index: Option<usize>)
    ensures
        index == place(rows@, kind_model(*kind)),
        index matches Some(index) ==> index < rows.len() && kind_key(
            kind_model(rows@[index as int].kind),
        ) == kind_key(kind_model(*kind)),
{
    let ghost all = kinds(rows@);
    let ghost model = kind_key(kind_model(*kind));
    proof {
        all.index_of_first_ensures(model);
    }
    let mut at: usize = 0;
    while at < rows.len()
        invariant
            at <= rows.len(),
            all == kinds(rows@),
            model == kind_key(kind_model(*kind)),
            forall|i: int| 0 <= i < at ==> all[i] != model,
            match all.index_of_first(model) {
                Some(index) => 0 <= index < all.len() && all[index] == model && forall|j: int|
                    0 <= j < index < all.len() ==> all[j] != model,
                None => !all.contains(model),
            },
        decreases rows.len() - at,
    {
        if same_kind(&rows[at].kind, kind) {
            assert(all[at as int] == model);
            return Some(at);
        }
        at = at + 1;
    }
    None
}

/// The row a row lies under: the nearest above it that is less deep.
pub open spec fn is_parent(rows: Seq<TreeRow>, parent: int, index: int) -> bool {
    &&& 0 <= parent < index < rows.len()
    &&& rows[parent].depth < rows[index].depth
    &&& forall|between: int|
        parent < between < index ==> (#[trigger] rows[between]).depth >= rows[index].depth
}

/// The row that row `index` lies under; `None` at the top level.
pub fn parent_index(rows: &Vec<TreeRow>, index: usize) -> (parent: Option<usize>)
    ensures
        match parent {
            Some(parent) => is_parent(rows@, parent as int, index as int),
            None => index < rows.len() ==> forall|above: int|
                0 <= above < index ==> (#[trigger] rows@[above]).depth >= rows@[index as int].depth,
        },
        index >= rows.len() ==> parent is None,
{
    if index >= rows.len() {
        return None;
    }
    let depth: u16 = rows[index].depth;
    let mut at: usize = index;
    while at > 0
        invariant
            at <= index < rows.len(),
            depth == rows@[index as int].depth,
            forall|between: int| at <= between < index ==> (#[trigger] rows@[between]).depth >= depth,
        decreases at,
    {
        at = at - 1;
        if rows[at].depth < depth {
            return Some(at);
        }
    }
    None
}

/// The folders of a relative path, from the outermost in: what stands before each separator.
pub open spec fn folders_of(path: Seq<char>) -> Seq<Seq<char>>
    decreases path.len(),
{
    if path.len() == 0 {
        Seq::empty()
    } else if crate::paths::is_separator(path.last()) {
        folders_of(path.drop_last()).push(path.drop_last())
    } else {
        folders_of(path.drop_last())
    }
}

/// The folders that `path` lies in, from the outermost in.
pub fn ancestors(path: &str) -> (folders: Vec<String>)
    ensures
        crate::text::texts(folders@) == folders_of(path@),
{
    let chars = crate::text::chars_of(path);
    let mut folders: Vec<String> = Vec::new();
    let mut at: usize = 0;
    assert(crate::text::texts(folders@) =~= Seq::<Seq<char>>::empty());
    while at < chars.len()
        invariant
            at <= chars.len(),
            crate::text::texts(folders@) == folders_of(chars@.take(at as int)),
        decreases chars.len() - at,
    {
        let ghost now = chars@.take(at + 1);
        assert(now.drop_last() == chars@.take(at as int));
        assert(now.last() == chars@[at as int]);
        if chars[at] == '\\' || chars[at] == '/' {
            let folder = text_of(&chars, 0, at);
            assert(folder@ == chars@.take(at as int));
            let ghost before = folders@;
            folders.push(folder);
            assert(crate::text::texts(folders@) == crate::text::texts(before).push(folder@));
        }
        at = at + 1;
    }
    assert(chars@.take(at as int) == chars@);
    folders
}

/// What `str::to_lowercase` gives for a text.
pub uninterp spec fn lowercased(text: Seq<char>) -> Seq<char>;

/// `str::to_lowercase` of std: the text in Unicode lowercase. The mapping is a table of its own, and
/// a letter's lowercase can depend on what stands around it, so the result only has a name here.
#[verifier::external_body]
fn to_lowercase(text: &str) -> (lower: String)
    ensures
        lower@ == lowercased(text@),
{
    text.to_lowercase()
}

/// The keys under which expanded folders are remembered: their paths in lowercase.
pub open spec fn open_keys(expanded: Seq<String>) -> Seq<Seq<char>> {
    expanded.map_values(|path: String| lowercased(path@))
}

/// How an expanded folder is known: by its path in lowercase.
pub fn expanded_key(path: &String) -> (key: String)
    ensures
        key@ == lowercased(path@),
{
    to_lowercase(path.as_str())
}

/// The tree as a walk from the root meets it: each folder before what it holds, which is deeper.
#[derive(Debug)]
pub struct NoteTree {
    pub entries: Vec<TreeRow>,
}

/// Entry `index` is a folder that is not open.
pub open spec fn collapsed(entries: Seq<TreeRow>, keys: Seq<Seq<char>>, index: int) -> bool {
    entries[index].kind matches Kind::Folder(path) && !keys.contains(lowercased(path@))
}

/// Entry `index` lies below entry `above`.
pub open spec fn lies_below(entries: Seq<TreeRow>, above: int, index: int) -> bool {
    forall|between: int|
        above < between <= index ==> (#[trigger] entries[between]).depth > entries[above].depth
}

/// Entry `index` lies below a folder that is not open.
pub open spec fn hidden(entries: Seq<TreeRow>, keys: Seq<Seq<char>>, index: int) -> bool {
    exists|above: int|
        0 <= above < index && #[trigger] collapsed(entries, keys, above) && lies_below(
            entries,
            above,
            index,
        )
}

/// The row of an entry: a folder knows whether it is open.
pub open spec fn row_of(entry: TreeRow, keys: Seq<Seq<char>>) -> TreeRow {
    TreeRow {
        expanded: match entry.kind {
            Kind::Folder(path) => keys.contains(lowercased(path@)),
            _ => entry.expanded,
        },
        ..entry
    }
}

/// The rows of the entries that no folder hides, in order.
pub open spec fn visible(entries: Seq<TreeRow>, keys: Seq<Seq<char>>, upto: int) -> Seq<TreeRow>
    decreases upto,
{
    if upto <= 0 {
        Seq::empty()
    } else if hidden(entries, keys, upto - 1) {
        visible(entries, keys, upto - 1)
    } else {
        visible(entries, keys, upto - 1).push(row_of(entries[upto - 1], keys))
    }
}

/// The keys of several paths.
pub fn lower_keys(paths: &Vec<String>) -> (keys: Vec<String>)
    ensures
        crate::text::texts(keys@) == open_keys(paths@),
{
    let mut keys: Vec<String> = Vec::new();
    let mut at: usize = 0;
    let ghost wanted = open_keys(paths@);
    while at < paths.len()
        invariant
            at <= paths.len(),
            wanted == open_keys(paths@),
            crate::text::texts(keys@) == wanted.take(at as int),
        decreases paths.len() - at,
    {
        let key = expanded_key(&paths[at]);
        let ghost before = keys@;
        keys.push(key);
        at = at + 1;
        assert(crate::text::texts(keys@) == crate::text::texts(before).push(key@));
        assert(wanted.take(at as int) == wanted.take(at - 1).push(key@));
    }
    assert(wanted.take(at as int) == wanted);
    keys
}

/// The visible rows of `tree` with `expanded` folders open, however their paths are capitalized.
pub fn flatten(tree: &NoteTree, expanded: &Vec<String>) -> (rows: Vec<TreeRow>)
    ensures
        rows@ == visible(tree.entries@, open_keys(expanded@), tree.entries.len() as int),
{
    let keys = lower_keys(expanded);
    rows_of(&tree.entries, &keys)
}

fn rows_of(entries: &Vec<TreeRow>, keys: &Vec<String>) -> (rows: Vec<TreeRow>)
    ensures
        rows@ == visible(entries@, crate::text::texts(keys@), entries.len() as int),
{
    let ghost open = crate::text::texts(keys@);
    let mut rows: Vec<TreeRow> = Vec::new();
    let mut under: Option<u16> = None;
    let ghost mut cover: int = 0;
    let mut at: usize = 0;
    while at < entries.len()
        invariant
            at <= entries.len(),
            open == crate::text::texts(keys@),
            rows@ == visible(entries@, open, at as int),
            // The folder that hides what follows, while anything does.
            under matches Some(depth) ==> {
                &&& 0 <= cover < at
                &&& entries@[cover].depth == depth
                &&& collapsed(entries@, open, cover)
                &&& lies_below(entries@, cover, at - 1)
            },
            // Every closed folder that reaches this far lies at or below it.
            forall|above: int|
                0 <= above < at && #[trigger] collapsed(entries@, open, above) && lies_below(
                    entries@,
                    above,
                    at - 1,
                ) ==> (under matches Some(depth) && depth <= entries@[above].depth),
        decreases entries.len() - at,
    {
        let entry = &entries[at];
        let skipped: bool = match under {
            Some(depth) => entry.depth > depth,
            None => false,
        };
        proof {
            if skipped {
                assert(lies_below(entries@, cover, at as int));
                assert(hidden(entries@, open, at as int));
            } else if hidden(entries@, open, at as int) {
                let above = choose|above: int|
                    0 <= above < at && #[trigger] collapsed(entries@, open, above) && lies_below(
                        entries@,
                        above,
                        at as int,
                    );
                assert(lies_below(entries@, above, at - 1));
                assert(entries@[at as int].depth > entries@[above].depth);
            }
        }
        let ghost was = under;
        if !skipped {
            let mut row = entry.clone();
            under = None;
            match &entry.kind {
                Kind::Folder(path) => {
                    let opened: bool = has_text(keys, &expanded_key(path));
                    row.expanded = opened;
                    if !opened {
                        under = Some(entry.depth);
                        proof {
                            cover = at as int;
                        }
                    }
                },
                _ => {},
            }
            assert(row == row_of(*entry, open));
            rows.push(row);
        }
        proof {
            assert forall|above: int|
                0 <= above < at + 1 && #[trigger] collapsed(entries@, open, above) && lies_below(
                    entries@,
                    above,
                    at as int,
                ) implies (under matches Some(depth) && depth <= entries@[above].depth) by {
                if above < at {
                    assert(lies_below(entries@, above, at - 1));
                    assert(entries@[at as int].depth > entries@[above].depth);
                    assert(was matches Some(depth) && depth <= entries@[above].depth);
                }
            }
        }
        at = at + 1;
    }
    rows
}

/// With every folder open, every entry shows.
pub proof fn an_open_tree_hides_nothing(entries: Seq<TreeRow>, keys: Seq<Seq<char>>, upto: int)
    requires
        0 <= upto <= entries.len(),
        forall|index: int| 0 <= index < entries.len() ==> !#[trigger] collapsed(entries, keys, index),
    ensures
        visible(entries, keys, upto).len() == upto,
        forall|index: int|
            0 <= index < upto ==> #[trigger] visible(entries, keys, upto)[index] == row_of(
                entries[index],
                keys,
            ),
    decreases upto,
{
    if upto > 0 {
        an_open_tree_hides_nothing(entries, keys, upto - 1);
        assert(!hidden(entries, keys, upto - 1));
    }
}

/// A row that is shown does not lie below a closed folder.
pub proof fn closing_a_folder_hides_what_it_holds(
    entries: Seq<TreeRow>,
    keys: Seq<Seq<char>>,
    folder: int,
    index: int,
)
    requires
        0 <= folder < index < entries.len(),
        collapsed(entries, keys, folder),
        lies_below(entries, folder, index),
    ensures
        visible(entries, keys, index + 1) == visible(entries, keys, index),
{
    assert(hidden(entries, keys, index));
}

/// The first row of a tree always shows.
pub proof fn the_first_entry_shows(entries: Seq<TreeRow>, keys: Seq<Seq<char>>)
    requires
        entries.len() > 0,
    ensures
        visible(entries, keys, 1) == seq![row_of(entries[0], keys)],
{
    assert(!hidden(entries, keys, 0));
    assert(visible(entries, keys, 0) == Seq::<TreeRow>::empty());
    assert(visible(entries, keys, 1) == seq![row_of(entries[0], keys)]);
}

} // verus!
