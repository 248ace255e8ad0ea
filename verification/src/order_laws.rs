//! What holds of the order that results are listed in and of the rows that a tree shows.

use crate::search_lines::TextHit;
use crate::tree::{Kind, TreeRow};
use vstd::prelude::*;

verus! {

/// Nothing but digits.
pub open spec fn all_digits(name: Seq<char>) -> bool {
    forall|i: int| 0 <= i < name.len() ==> crate::search_hits::is_digit(#[trigger] name[i])
}

proof fn digits_run_to_the_end(name: Seq<char>, at: int)
    requires
        all_digits(name),
        0 <= at <= name.len(),
    ensures
        crate::search_hits::run_end(name, at) == name.len(),
    decreases name.len() - at,
{
    if at < name.len() {
        digits_run_to_the_end(name, at + 1);
    }
}

proof fn a_number_is_its_length_and_digits(name: Seq<char>)
    requires
        all_digits(name),
        0 < name.len() <= u32::MAX,
        name[0] != '0',
    ensures
        crate::search_hits::natural(name, 0) == seq![('0' as u32 + 1) as u32, name.len() as u32]
            + crate::search_hits::codes(name),
{
    digits_run_to_the_end(name, 0);
    assert(crate::search_hits::zeros_end(name, 0, name.len() as int) == 0);
    assert(name.subrange(0, name.len() as int) =~= name);
    assert(crate::search_hits::natural(name, name.len() as int) =~= Seq::<u32>::empty());
}

/// Keys that start the same are ordered by what follows.
pub proof fn a_common_start_decides_nothing(start: Seq<u32>, a: Seq<u32>, b: Seq<u32>)
    ensures
        crate::search_hits::less(start + a, start + b) == crate::search_hits::less(a, b),
    decreases start.len(),
{
    if start.len() == 0 {
        assert(start + a =~= a);
        assert(start + b =~= b);
    } else {
        a_common_start_decides_nothing(start.drop_first(), a, b);
        assert((start + a).drop_first() =~= start.drop_first() + a);
        assert((start + b).drop_first() =~= start.drop_first() + b);
    }
}

/// Numbers in names are listed by their value: of two numbers without leading zeros the one with
/// fewer digits comes first, and of two as long the one that is less at their first difference.
pub proof fn numbers_are_listed_by_value(a: Seq<char>, b: Seq<char>)
    requires
        all_digits(a),
        all_digits(b),
        0 < a.len() <= b.len() <= u32::MAX,
        a[0] != '0',
        b[0] != '0',
    ensures
        a.len() < b.len() ==> crate::search_hits::less(
            crate::search_hits::natural(a, 0),
            crate::search_hits::natural(b, 0),
        ),
        a.len() == b.len() ==> crate::search_hits::less(
            crate::search_hits::natural(a, 0),
            crate::search_hits::natural(b, 0),
        ) == crate::search_hits::less(crate::search_hits::codes(a), crate::search_hits::codes(b)),
{
    a_number_is_its_length_and_digits(a);
    a_number_is_its_length_and_digits(b);
    let digit = ('0' as u32 + 1) as u32;
    let (x, y) = (crate::search_hits::codes(a), crate::search_hits::codes(b));
    assert(seq![digit, a.len() as u32] + x =~= seq![digit] + (seq![a.len() as u32] + x));
    assert(seq![digit, b.len() as u32] + y =~= seq![digit] + (seq![b.len() as u32] + y));
    a_common_start_decides_nothing(
        seq![digit],
        seq![a.len() as u32] + x,
        seq![b.len() as u32] + y,
    );
    if a.len() == b.len() {
        a_common_start_decides_nothing(seq![a.len() as u32], x, y);
    }
}

/// Leading zeros decide nothing: a number sorts with them as without.
pub proof fn leading_zeros_decide_nothing(name: Seq<char>)
    requires
        all_digits(name),
        0 < name.len() < u32::MAX,
    ensures
        crate::search_hits::natural(seq!['0'] + name, 0) == crate::search_hits::natural(name, 0),
{
    let more = seq!['0'] + name;
    assert(all_digits(more)) by {
        assert forall|i: int| 0 <= i < more.len() implies crate::search_hits::is_digit(
            #[trigger] more[i],
        ) by {
            if i > 0 {
                assert(more[i] == name[i - 1]);
            }
        }
    }
    digits_run_to_the_end(name, 0);
    digits_run_to_the_end(more, 0);
    let (end, longer) = (name.len() as int, more.len() as int);
    zeros_end_together(name, more, 0);
    assert(crate::search_hits::zeros_end(more, 0, longer) == crate::search_hits::zeros_end(
        more,
        1,
        longer,
    ));
    let first = crate::search_hits::zeros_end(name, 0, end);
    zeros_stop_inside(name, 0);
    assert(more.subrange(first + 1, longer) =~= name.subrange(first, end));
    assert(crate::search_hits::natural(name, end) =~= Seq::<u32>::empty());
    assert(crate::search_hits::natural(more, longer) =~= Seq::<u32>::empty());
}

proof fn zeros_stop_inside(name: Seq<char>, at: int)
    requires
        0 <= at <= name.len(),
    ensures
        at <= crate::search_hits::zeros_end(name, at, name.len() as int) <= name.len(),
    decreases name.len() - at,
{
    if at < name.len() && name[at] == '0' {
        zeros_stop_inside(name, at + 1);
    }
}

proof fn zeros_end_together(name: Seq<char>, more: Seq<char>, at: int)
    requires
        0 <= at <= name.len(),
        more == seq!['0'] + name,
    ensures
        crate::search_hits::zeros_end(more, at + 1, more.len() as int)
            == crate::search_hits::zeros_end(name, at, name.len() as int) + 1,
    decreases name.len() - at,
{
    if at < name.len() {
        assert(more[at + 1] == name[at]);
        if name[at] == '0' {
            zeros_end_together(name, more, at + 1);
        }
    }
}

/// The names differ in the case of their letters at most.
pub open spec fn same_but_for_case(a: Seq<char>, b: Seq<char>) -> bool {
    &&& a.len() == b.len()
    &&& forall|i: int|
        0 <= i < a.len() ==> crate::search_hits::folded(#[trigger] a[i])
            == crate::search_hits::folded(b[i])
}

proof fn a_digit_is_its_own_fold(a: char, b: char)
    requires
        crate::search_hits::folded(a) == crate::search_hits::folded(b),
    ensures
        crate::search_hits::is_digit(a) == crate::search_hits::is_digit(b),
        crate::search_hits::is_digit(a) ==> a == b,
{
    assert('A' <= a && a <= 'Z' ==> 65 <= a as u32 <= 90);
    assert('A' <= b && b <= 'Z' ==> 65 <= b as u32 <= 90);
    assert(crate::search_hits::is_digit(a) ==> 48 <= a as u32 <= 57);
    assert(crate::search_hits::is_digit(b) ==> 48 <= b as u32 <= 57);
}

proof fn codes_are_above_zero(ch: char)
    ensures
        (ch as u32 + 1) as u32 > 0,
{
}

proof fn runs_end_together(a: Seq<char>, b: Seq<char>, at: int)
    requires
        same_but_for_case(a, b),
        0 <= at <= a.len(),
    ensures
        crate::search_hits::run_end(a, at) == crate::search_hits::run_end(b, at),
        forall|i: int|
            at <= i < crate::search_hits::run_end(a, at) ==> #[trigger] a[i] == b[i],
    decreases a.len() - at,
{
    if at < a.len() {
        assert(crate::search_hits::folded(a[at]) == crate::search_hits::folded(b[at]));
        a_digit_is_its_own_fold(a[at], b[at]);
        if crate::search_hits::is_digit(a[at]) || crate::search_hits::is_digit(b[at]) {
            runs_end_together(a, b, at + 1);
        }
    }
}

proof fn zeros_run_together(a: Seq<char>, b: Seq<char>, at: int, end: int)
    requires
        0 <= at <= end <= a.len(),
        a.len() == b.len(),
        forall|i: int| at <= i < end ==> #[trigger] a[i] == b[i],
    ensures
        crate::search_hits::zeros_end(a, at, end) == crate::search_hits::zeros_end(b, at, end),
        at <= crate::search_hits::zeros_end(a, at, end) <= end,
    decreases end - at,
{
    if at < end {
        assert(a[at] == b[at]);
        zeros_run_together(a, b, at + 1, end);
    }
}

/// The case of letters decides nothing: two names that differ in it alone sort alike.
pub proof fn case_decides_nothing(a: Seq<char>, b: Seq<char>, at: int)
    requires
        same_but_for_case(a, b),
        0 <= at <= a.len(),
    ensures
        crate::search_hits::natural(a, at) == crate::search_hits::natural(b, at),
    decreases a.len() - at,
{
    if at < a.len() {
        assert(crate::search_hits::folded(a[at]) == crate::search_hits::folded(b[at]));
        a_digit_is_its_own_fold(a[at], b[at]);
        if crate::search_hits::is_digit(a[at]) {
            crate::search_hits::run_end_moves(a, at);
            runs_end_together(a, b, at);
            let end = crate::search_hits::run_end(a, at);
            zeros_run_together(a, b, at, end);
            let first = crate::search_hits::zeros_end(a, at, end);
            assert(a.subrange(first, end) =~= b.subrange(first, end));
            case_decides_nothing(a, b, end);
        } else {
            case_decides_nothing(a, b, at + 1);
        }
    }
}

/// Of two notes of one name, the one at the notebook's root comes first; of two at the root, or in
/// one folder, their paths decide.
pub proof fn the_root_comes_before_a_folder(a: TextHit, b: TextHit)
    requires
        crate::search_hits::natural(a.name@, 0) == crate::search_hits::natural(b.name@, 0),
    ensures
        a.folder@.len() == 0 && b.folder@.len() > 0 ==> crate::search_hits::less(
            crate::search_hits::hit_key(a),
            crate::search_hits::hit_key(b),
        ),
        a.folder@ == b.folder@ ==> crate::search_hits::less(
            crate::search_hits::hit_key(a),
            crate::search_hits::hit_key(b),
        ) == crate::search_hits::less(
            crate::search_hits::codes(crate::paths::path_key(a.path@)),
            crate::search_hits::codes(crate::paths::path_key(b.path@)),
        ),
{
    let name = crate::search_hits::natural(a.name@, 0) + seq![0u32];
    let (p, q) = (
        crate::search_hits::codes(crate::paths::path_key(a.path@)),
        crate::search_hits::codes(crate::paths::path_key(b.path@)),
    );
    let (f, g) = (
        crate::search_hits::codes(a.folder@),
        crate::search_hits::codes(b.folder@),
    );
    assert(crate::search_hits::hit_key(a) =~= name + (f + seq![0u32] + p));
    assert(crate::search_hits::hit_key(b) =~= name + (g + seq![0u32] + q));
    a_common_start_decides_nothing(name, f + seq![0u32] + p, g + seq![0u32] + q);
    if a.folder@.len() == 0 && b.folder@.len() > 0 {
        let (x, y) = (f + seq![0u32] + p, g + seq![0u32] + q);
        assert(x[0] == 0);
        assert(y[0] == g[0]);
        assert(g[0] == (b.folder@[0] as u32 + 1) as u32);
        codes_are_above_zero(b.folder@[0]);
    }
    if a.folder@ == b.folder@ {
        assert(f + seq![0u32] + p =~= (f + seq![0u32]) + p);
        a_common_start_decides_nothing(f + seq![0u32], p, q);
    }
}

/// A name that differs from another at a letter is listed by that letter, whatever follows.
pub proof fn the_name_decides_first(a: TextHit, b: TextHit, at: int)
    requires
        0 <= at < crate::search_hits::natural(a.name@, 0).len(),
        at < crate::search_hits::natural(b.name@, 0).len(),
        crate::search_hits::natural(a.name@, 0).take(at) == crate::search_hits::natural(
            b.name@,
            0,
        ).take(at),
        crate::search_hits::natural(a.name@, 0)[at] < crate::search_hits::natural(b.name@, 0)[at],
    ensures
        crate::search_hits::less(crate::search_hits::hit_key(a), crate::search_hits::hit_key(b)),
{
    let (x, y) = (crate::search_hits::hit_key(a), crate::search_hits::hit_key(b));
    let (m, n) = (
        crate::search_hits::natural(a.name@, 0),
        crate::search_hits::natural(b.name@, 0),
    );
    let start = m.take(at);
    assert(x =~= start + x.subrange(at, x.len() as int)) by {
        assert(x.take(at) =~= start);
    }
    assert(y =~= start + y.subrange(at, y.len() as int)) by {
        assert(y.take(at) =~= n.take(at));
    }
    a_common_start_decides_nothing(
        start,
        x.subrange(at, x.len() as int),
        y.subrange(at, y.len() as int),
    );
    assert(x.subrange(at, x.len() as int)[0] == m[at]);
    assert(y.subrange(at, y.len() as int)[0] == n[at]);
}

/// A row shows its entry as it is, but for whether its folder is open: that is read off the folders
/// that are, whatever the case of their paths.
pub proof fn a_row_shows_its_entry(entry: TreeRow, expanded: Seq<String>)
    ensures
        ({
            let row = crate::tree::row_of(entry, crate::tree::open_keys(expanded));
            &&& row.kind == entry.kind && row.name == entry.name && row.depth == entry.depth
                && row.pinned == entry.pinned
            &&& entry.kind matches Kind::Folder(path) ==> (row.expanded
                <==> crate::replace_laws::names_note(expanded, path@))
            &&& !(entry.kind is Folder) ==> row == entry
        }),
{
    if let Kind::Folder(path) = entry.kind {
        let keys = crate::tree::open_keys(expanded);
        let key = crate::tree::lowercased(path@);
        if keys.contains(key) {
            let i = choose|i: int| 0 <= i < keys.len() && keys[i] == key;
            assert(crate::tree::lowercased(expanded[i]@) == key);
        }
        if crate::replace_laws::names_note(expanded, path@) {
            let i = choose|i: int|
                0 <= i < expanded.len() && crate::tree::lowercased((#[trigger] expanded[i])@)
                    == key;
            assert(keys[i] == key);
        }
    }
}

/// An entry has a row exactly where every folder it lies in is open.
pub proof fn an_entry_shows_where_its_folders_are_open(
    entries: Seq<TreeRow>,
    keys: Seq<Seq<char>>,
    index: int,
)
    requires
        0 <= index < entries.len(),
    ensures
        crate::tree::visible(entries, keys, index + 1) == (if forall|above: int|
            0 <= above < index && (forall|between: int|
                above < between <= index ==> (#[trigger] entries[between]).depth
                    > entries[above].depth) && (#[trigger] entries[above]).kind is Folder
                ==> keys.contains(crate::tree::lowercased(entries[above].kind->Folder_0@)) {
            crate::tree::visible(entries, keys, index).push(
                crate::tree::row_of(entries[index], keys),
            )
        } else {
            crate::tree::visible(entries, keys, index)
        }),
{
    let open = forall|above: int|
        0 <= above < index && (forall|between: int|
            above < between <= index ==> (#[trigger] entries[between]).depth
                > entries[above].depth) && (#[trigger] entries[above]).kind is Folder
            ==> keys.contains(crate::tree::lowercased(entries[above].kind->Folder_0@));
    if crate::tree::hidden(entries, keys, index) {
        let above = choose|above: int|
            0 <= above < index && #[trigger] crate::tree::collapsed(entries, keys, above)
                && crate::tree::lies_below(entries, above, index);
        assert(entries[above].kind is Folder);
        assert(!open);
    } else if !open {
        let above = choose|above: int|
            0 <= above < index && (forall|between: int|
                above < between <= index ==> (#[trigger] entries[between]).depth
                    > entries[above].depth) && (#[trigger] entries[above]).kind is Folder
                && !keys.contains(crate::tree::lowercased(entries[above].kind->Folder_0@));
        assert(crate::tree::collapsed(entries, keys, above));
        assert(crate::tree::lies_below(entries, above, index));
    }
}

/// Rows stand for one thing where they are of one kind and their paths are one; a folder and a note
/// of one path are two.
pub proof fn a_folder_is_no_note(a: Seq<char>, b: Seq<char>, id: u64, other: u64)
    ensures
        crate::tree::kind_key(Kind::Folder(a)) != crate::tree::kind_key(Kind::Note(b)),
        crate::tree::kind_key(Kind::Folder(a)) == crate::tree::kind_key(Kind::Folder(b))
            <==> crate::paths::path_key(a) == crate::paths::path_key(b),
        crate::tree::kind_key(Kind::Note(a)) == crate::tree::kind_key(Kind::Note(b))
            <==> crate::paths::path_key(a) == crate::paths::path_key(b),
        crate::tree::kind_key(Kind::Unsaved(id)) == crate::tree::kind_key(Kind::Unsaved(other))
            <==> id == other,
        crate::tree::kind_key(Kind::Draft) != crate::tree::kind_key(Kind::Note(a)),
{
}

/// The folders of a path are starts of it, each longer than the one before; a path with a name in a
/// folder lies in that folder and in all that hold it.
pub proof fn a_path_lies_in_its_folders(path: Seq<char>, separator: char, name: Seq<char>)
    requires
        crate::paths::is_separator(separator),
        forall|i: int| 0 <= i < name.len() ==> !crate::paths::is_separator(#[trigger] name[i]),
    ensures
        crate::tree::folders_of(path.push(separator) + name) == crate::tree::folders_of(path).push(
            path,
        ),
        crate::tree::folders_of(name) == Seq::<Seq<char>>::empty(),
    decreases name.len(),
{
    if name.len() == 0 {
        assert(path.push(separator) + name =~= path.push(separator));
        assert(path.push(separator).drop_last() =~= path);
    } else {
        let front = name.drop_last();
        a_path_lies_in_its_folders(path, separator, front);
        let whole = path.push(separator) + name;
        assert(whole.last() == name.last());
        assert(name.last() == name[name.len() - 1]);
        assert(whole.drop_last() =~= path.push(separator) + front);
    }
}

} // verus!
