//! What holds of every path: its key says what it is made of, its folder has all of its components
//! but the last, and what is put in a folder comes last.

use crate::paths::{self, Opening};
use vstd::prelude::*;

verus! {

/// A component's text: it is not empty and holds no `\`.
spec fn is_part(name: Seq<char>) -> bool {
    name.len() > 0 && !name.contains('\\')
}

spec fn are_parts(names: Seq<Seq<char>>) -> bool {
    forall|i: int| 0 <= i < names.len() ==> is_part(#[trigger] names[i])
}

/// Nothing before the next separator is one.
proof fn no_separator_before(path: Seq<char>, at: int, verbatim: bool)
    requires
        0 <= at,
    ensures
        forall|i: int|
            at <= i < paths::next_separator(path, at, verbatim) ==> !paths::splits(
                verbatim,
                #[trigger] path[i],
            ),
        paths::next_separator(path, at, verbatim) < path.len() ==> paths::splits(
            verbatim,
            path[paths::next_separator(path, at, verbatim)],
        ),
    decreases path.len() - at,
{
    if at < path.len() && !paths::splits(verbatim, path[at]) {
        no_separator_before(path, at + 1, verbatim);
    }
}

/// The next separator is the first one.
proof fn next_separator_is(path: Seq<char>, at: int, end: int, verbatim: bool)
    requires
        0 <= at <= end <= path.len(),
        forall|i: int| at <= i < end ==> !paths::splits(verbatim, #[trigger] path[i]),
        end < path.len() ==> paths::splits(verbatim, path[end]),
    ensures
        paths::next_separator(path, at, verbatim) == end,
    decreases end - at,
{
    if at < end {
        next_separator_is(path, at + 1, end, verbatim);
    }
}

proof fn names_are_parts(path: Seq<char>, at: int, verbatim: bool)
    requires
        0 <= at,
    ensures
        are_parts(paths::names_from(path, at, verbatim)),
    decreases path.len() + 1 - at,
{
    if at < path.len() {
        paths::next_separator_is_bounded(path, at, verbatim);
        no_separator_before(path, at, verbatim);
        let end = paths::next_separator(path, at, verbatim);
        let name = path.subrange(at, end);
        names_are_parts(path, end + 1, verbatim);
        assert forall|i: int| 0 <= i < name.len() implies name[i] != '\\' by {
            assert(name[i] == path[at + i]);
        }
    }
}

proof fn components_are_parts(path: Seq<char>)
    ensures
        are_parts(paths::components(path)),
{
    paths::prefix_is_bounded(path);
    names_are_parts(path, paths::body_start(path), paths::opening(path).verbatim());
}

/// Two texts with a `\` behind a first part without one have the same first part and rest.
proof fn parts_are_told_apart(a: Seq<char>, rest_a: Seq<char>, b: Seq<char>, rest_b: Seq<char>)
    requires
        !a.contains('\\'),
        !b.contains('\\'),
        a.push('\\') + rest_a == b.push('\\') + rest_b,
    ensures
        a == b,
        rest_a == rest_b,
{
    let (x, y) = (a.push('\\') + rest_a, b.push('\\') + rest_b);
    if a.len() < b.len() {
        assert(x[a.len() as int] == '\\');
        assert(y[a.len() as int] == b[a.len() as int]);
    } else if b.len() < a.len() {
        assert(y[b.len() as int] == '\\');
        assert(x[b.len() as int] == a[b.len() as int]);
    }
    assert(a =~= x.take(a.len() as int));
    assert(b =~= y.take(b.len() as int));
    assert(rest_a =~= x.skip(a.len() as int + 1));
    assert(rest_b =~= y.skip(b.len() as int + 1));
}

proof fn running_on_starts_with_the_first(names: Seq<Seq<char>>)
    requires
        names.len() > 0,
    ensures
        paths::run_on(names) == names[0].push('\\') + paths::run_on(names.drop_first()),
    decreases names.len(),
{
    if names.len() == 1 {
        assert(names.drop_last() =~= Seq::<Seq<char>>::empty());
        assert(names.drop_first() =~= Seq::<Seq<char>>::empty());
        assert(paths::run_on(names) =~= names[0].push('\\') + paths::run_on(names.drop_first()));
    } else {
        running_on_starts_with_the_first(names.drop_last());
        assert(names.drop_last().drop_first() =~= names.drop_first().drop_last());
        assert(paths::run_on(names) =~= names[0].push('\\') + paths::run_on(names.drop_first()));
    }
}

proof fn run_on_names_are_told_apart(a: Seq<Seq<char>>, b: Seq<Seq<char>>)
    requires
        are_parts(a),
        are_parts(b),
        paths::run_on(a) == paths::run_on(b),
    ensures
        a == b,
    decreases a.len(),
{
    if a.len() > 0 {
        running_on_starts_with_the_first(a);
    }
    if b.len() > 0 {
        running_on_starts_with_the_first(b);
    }
    if a.len() > 0 && b.len() > 0 {
        assert(is_part(a[0]) && is_part(b[0]));
        parts_are_told_apart(a[0], paths::run_on(a.drop_first()), b[0], paths::run_on(b.drop_first()));
        assert(are_parts(a.drop_first())) by {
            assert forall|i: int| 0 <= i < a.len() - 1 implies is_part(
                #[trigger] a.drop_first()[i],
            ) by {
                assert(is_part(a[i + 1]));
            }
        }
        assert(are_parts(b.drop_first())) by {
            assert forall|i: int| 0 <= i < b.len() - 1 implies is_part(
                #[trigger] b.drop_first()[i],
            ) by {
                assert(is_part(b[i + 1]));
            }
        }
        run_on_names_are_told_apart(a.drop_first(), b.drop_first());
        assert(a =~= seq![a[0]] + a.drop_first());
        assert(b =~= seq![b[0]] + b.drop_first());
    } else {
        assert(a.len() > 0 ==> paths::run_on(a).len() > 0);
        assert(b.len() > 0 ==> paths::run_on(b).len() > 0);
        assert(a =~= b);
    }
}

/// Components after a root, where one shows.
spec fn rooted(root: bool, names: Seq<Seq<char>>) -> Seq<char> {
    (if root {
        seq!['\\']
    } else {
        Seq::empty()
    }) + paths::run_on(names)
}

/// What a path is known by after what it opens with.
spec fn after_prefix(path: Seq<char>) -> Seq<char> {
    rooted(paths::shows_root(path), paths::components(path))
}

proof fn subrange_without(path: Seq<char>, from: int, to: int, verbatim: bool)
    requires
        0 <= from <= to <= path.len(),
        forall|i: int| from <= i < to ==> !paths::splits(verbatim, #[trigger] path[i]),
    ensures
        !path.subrange(from, to).contains('\\'),
{
    let part = path.subrange(from, to);
    assert forall|i: int| 0 <= i < part.len() implies part[i] != '\\' by {
        assert(part[i] == path[from + i]);
    }
}

/// What a path opens with is told apart from what follows.
proof fn prefixes_are_told_apart(a: Seq<char>, b: Seq<char>)
    requires
        paths::opening(a) == paths::opening(b),
        paths::prefix_names(a).push('\\') + after_prefix(a) == paths::prefix_names(b).push('\\') + after_prefix(
            b,
        ),
    ensures
        paths::prefix_names(a) == paths::prefix_names(b),
        after_prefix(a) == after_prefix(b),
{
    let verbatim = paths::opening(a).verbatim();
    let shared = paths::opening(a) == Opening::Share || paths::opening(a) == Opening::VerbatimShare;
    paths::prefix_is_bounded(a);
    paths::prefix_is_bounded(b);
    paths::next_separator_is_bounded(a, paths::prefix_start(a), verbatim);
    paths::next_separator_is_bounded(b, paths::prefix_start(b), verbatim);
    no_separator_before(a, paths::prefix_start(a), verbatim);
    no_separator_before(b, paths::prefix_start(b), verbatim);
    let (start, first_a, first_b) = (
        paths::prefix_start(a),
        paths::first_end(a),
        paths::first_end(b),
    );
    if shared {
        paths::next_separator_is_bounded(a, first_a + 1, verbatim);
        paths::next_separator_is_bounded(b, first_b + 1, verbatim);
        no_separator_before(a, first_a + 1, verbatim);
        no_separator_before(b, first_b + 1, verbatim);
        subrange_without(a, start, first_a, verbatim);
        subrange_without(b, start, first_b, verbatim);
        let share_a = if paths::prefix_end(a) > first_a {
            a.subrange(first_a + 1, paths::prefix_end(a))
        } else {
            Seq::empty()
        };
        let share_b = if paths::prefix_end(b) > first_b {
            b.subrange(first_b + 1, paths::prefix_end(b))
        } else {
            Seq::empty()
        };
        if paths::prefix_end(a) > first_a {
            subrange_without(a, first_a + 1, paths::prefix_end(a), verbatim);
        }
        if paths::prefix_end(b) > first_b {
            subrange_without(b, first_b + 1, paths::prefix_end(b), verbatim);
        }
        let (server_a, server_b) = (a.subrange(start, first_a), b.subrange(start, first_b));
        let rest_a = share_a.push('\\') + after_prefix(a);
        let rest_b = share_b.push('\\') + after_prefix(b);
        assert(paths::prefix_names(a).push('\\') + after_prefix(a) =~= server_a.push('\\') + rest_a);
        assert(paths::prefix_names(b).push('\\') + after_prefix(b) =~= server_b.push('\\') + rest_b);
        parts_are_told_apart(server_a, rest_a, server_b, rest_b);
        parts_are_told_apart(share_a, after_prefix(a), share_b, after_prefix(b));
    } else {
        if paths::opening(a) == Opening::Device || paths::opening(a) == Opening::Verbatim {
            subrange_without(a, start, first_a, verbatim);
            subrange_without(b, start, first_b, verbatim);
        }
        parts_are_told_apart(
            paths::prefix_names(a),
            after_prefix(a),
            paths::prefix_names(b),
            after_prefix(b),
        );
    }
}

proof fn roots_are_told_apart(
    root_a: bool,
    names_a: Seq<Seq<char>>,
    root_b: bool,
    names_b: Seq<Seq<char>>,
)
    requires
        are_parts(names_a),
        are_parts(names_b),
        rooted(root_a, names_a) == rooted(root_b, names_b),
    ensures
        root_a == root_b,
        names_a == names_b,
{
    let (a, b) = (rooted(root_a, names_a), rooted(root_b, names_b));
    starts_with_its_root(root_a, names_a);
    starts_with_its_root(root_b, names_b);
    if root_a {
        assert(paths::run_on(names_a) =~= a.drop_first());
        assert(paths::run_on(names_b) =~= b.drop_first());
    } else {
        assert(paths::run_on(names_a) =~= a);
        assert(paths::run_on(names_b) =~= b);
    }
    run_on_names_are_told_apart(names_a, names_b);
}

proof fn starts_with_its_root(root: bool, names: Seq<Seq<char>>)
    requires
        are_parts(names),
    ensures
        root <==> rooted(root, names).len() > 0 && rooted(root, names)[0] == '\\',
{
    if names.len() > 0 {
        running_on_starts_with_the_first(names);
        assert(is_part(names[0]));
        assert(paths::run_on(names)[0] == names[0][0]);
        assert(names[0].contains(names[0][0]));
    }
}

proof fn a_key_has_its_parts(path: Seq<char>)
    ensures
        paths::path_key(path).len() > 0,
        paths::path_key(path)[0] == paths::mark(paths::opening(path)),
        paths::path_key(path).drop_first() == paths::prefix_names(path).push('\\') + after_prefix(
            path,
        ),
{
    let rest = paths::prefix_names(path).push('\\') + after_prefix(path);
    assert(paths::path_key(path) =~= seq![paths::mark(paths::opening(path))] + rest);
    assert(paths::path_key(path).drop_first() =~= rest);
}

/// Two texts are one path exactly where they open with the same, both or neither show a root, and
/// they have the same components.
pub proof fn one_key_is_one_path(a: Seq<char>, b: Seq<char>)
    ensures
        paths::path_key(a) == paths::path_key(b) <==> {
            &&& paths::opening(a) == paths::opening(b)
            &&& paths::prefix_names(a) == paths::prefix_names(b)
            &&& paths::shows_root(a) == paths::shows_root(b)
            &&& paths::components(a) == paths::components(b)
        },
{
    if paths::path_key(a) == paths::path_key(b) {
        a_key_has_its_parts(a);
        a_key_has_its_parts(b);
        marks_are_told_apart(paths::opening(a), paths::opening(b));
        prefixes_are_told_apart(a, b);
        components_are_parts(a);
        components_are_parts(b);
        roots_are_told_apart(
            paths::shows_root(a),
            paths::components(a),
            paths::shows_root(b),
            paths::components(b),
        );
    }
}

proof fn marks_are_told_apart(a: Opening, b: Opening)
    requires
        paths::mark(a) == paths::mark(b),
    ensures
        a == b,
{
}

/// A separator at the end adds no component.
proof fn a_last_separator_adds_nothing(path: Seq<char>, end: char, at: int, verbatim: bool)
    requires
        0 <= at <= path.len(),
        paths::splits(verbatim, end),
    ensures
        paths::names_from(path.push(end), at, verbatim) == paths::names_from(path, at, verbatim),
    decreases path.len() - at,
{
    let longer = path.push(end);
    paths::next_separator_is_bounded(path, at, verbatim);
    no_separator_before(path, at, verbatim);
    let stop = paths::next_separator(path, at, verbatim);
    assert forall|i: int| at <= i < stop implies !paths::splits(verbatim, #[trigger] longer[i]) by {
        assert(longer[i] == path[i]);
    }
    next_separator_is(longer, at, stop, verbatim);
    if at < path.len() {
        assert(longer.subrange(at, stop) =~= path.subrange(at, stop));
        if stop < path.len() {
            a_last_separator_adds_nothing(path, end, stop + 1, verbatim);
        } else {
            assert(paths::names_from(longer, stop + 1, verbatim) =~= Seq::<Seq<char>>::empty());
            assert(paths::names_from(path, stop + 1, verbatim) =~= Seq::<Seq<char>>::empty());
        }
    } else {
        assert(longer.subrange(at, stop).len() == 0);
        assert(paths::names_from(longer, stop + 1, verbatim) =~= Seq::<Seq<char>>::empty());
    }
}

/// A name after the last separator is one more component, where it counts.
proof fn a_last_name_comes_last(path: Seq<char>, name: Seq<char>, at: int, verbatim: bool)
    requires
        0 <= at <= path.len(),
        at == path.len() || paths::splits(verbatim, path.last()),
        name.len() > 0,
        forall|i: int| 0 <= i < name.len() ==> !paths::splits(verbatim, #[trigger] name[i]),
    ensures
        paths::names_from(path + name, at, verbatim) == paths::names_from(path, at, verbatim) + (if paths::counts(
            name,
            verbatim,
        ) {
            seq![name]
        } else {
            Seq::empty()
        }),
    decreases path.len() - at,
{
    let whole = path + name;
    if at == path.len() {
        assert forall|i: int| at <= i < whole.len() implies !paths::splits(
            verbatim,
            #[trigger] whole[i],
        ) by {
            assert(whole[i] == name[i - at]);
        }
        next_separator_is(whole, at, whole.len() as int, verbatim);
        assert(whole.subrange(at, whole.len() as int) =~= name);
        assert(paths::names_from(whole, whole.len() as int + 1, verbatim) =~= Seq::<Seq<char>>::empty());
        assert(paths::names_from(whole, at, verbatim) =~= paths::names_from(path, at, verbatim) + (if paths::counts(
            name,
            verbatim,
        ) {
            seq![name]
        } else {
            Seq::empty()
        }));
    } else {
        paths::next_separator_is_bounded(path, at, verbatim);
        no_separator_before(path, at, verbatim);
        let stop = paths::next_separator(path, at, verbatim);
        assert(paths::splits(verbatim, path[path.len() - 1]));
        assert(stop < path.len());
        assert forall|i: int| at <= i < stop implies !paths::splits(verbatim, #[trigger] whole[i]) by {
            assert(whole[i] == path[i]);
        }
        assert(whole[stop] == path[stop]);
        next_separator_is(whole, at, stop, verbatim);
        assert(whole.subrange(at, stop) =~= path.subrange(at, stop));
        a_last_name_comes_last(path, name, stop + 1, verbatim);
        assert(paths::names_from(whole, at, verbatim) =~= paths::names_from(path, at, verbatim) + (if paths::counts(
            name,
            verbatim,
        ) {
            seq![name]
        } else {
            Seq::empty()
        }));
    }
}

/// What is trimmed off the end adds no component.
proof fn trimming_takes_nothing(path: Seq<char>, from: int, end: int, verbatim: bool)
    requires
        0 <= from <= end <= path.len(),
    ensures
        from <= paths::trimmed(path, from, end, verbatim) <= end,
        paths::names_from(path.take(paths::trimmed(path, from, end, verbatim)), from, verbatim) == paths::names_from(
            path.take(end),
            from,
            verbatim,
        ),
        paths::trimmed(path, from, end, verbatim) > from ==> {
            let last = paths::trimmed(path, from, end, verbatim) - 1;
            &&& !paths::splits(verbatim, path[last])
            &&& verbatim || path[last] != '.' || (last != from && !paths::is_separator(path[last - 1]))
        },
    decreases end,
{
    if end > from {
        let shorter = path.take(end - 1);
        let last = path[end - 1];
        if paths::splits(verbatim, last) {
            a_last_separator_adds_nothing(shorter, last, from, verbatim);
            assert(path.take(end) =~= shorter.push(last));
            trimming_takes_nothing(path, from, end - 1, verbatim);
        } else if !verbatim && last == '.' && (end - 1 == from || paths::is_separator(path[end - 2])) {
            assert(end - 1 > from ==> shorter.last() == path[end - 2]);
            a_last_name_comes_last(shorter, seq!['.'], from, verbatim);
            assert(path.take(end) =~= shorter + seq!['.']);
            assert(paths::names_from(shorter, from, verbatim) + Seq::<Seq<char>>::empty() =~= paths::names_from(
                shorter,
                from,
                verbatim,
            ));
            trimming_takes_nothing(path, from, end - 1, verbatim);
        }
    }
}

proof fn a_last_component_is_cut_off(path: Seq<char>, from: int, end: int, verbatim: bool)
    requires
        0 <= from < end <= path.len(),
        !paths::splits(verbatim, path[end - 1]),
        verbatim || path[end - 1] != '.' || (end - 1 != from && !paths::is_separator(path[end - 2])),
    ensures
        ({
            let start = paths::last_start(path, from, end, verbatim);
            &&& from <= start < end
            &&& paths::names_from(path.take(end), from, verbatim) == paths::names_from(
                path.take(start),
                from,
                verbatim,
            ).push(path.subrange(start, end))
        }),
{
    last_starts_after_a_separator(path, from, end, verbatim);
    let start = paths::last_start(path, from, end, verbatim);
    let name = path.subrange(start, end);
    let before = path.take(start);
    assert(start > from ==> before.last() == path[start - 1]);
    assert forall|i: int| 0 <= i < name.len() implies !paths::splits(verbatim, #[trigger] name[i]) by {
        assert(name[i] == path[start + i]);
    }
    assert(paths::counts(name, verbatim)) by {
        if !verbatim && name == seq!['.'] {
            assert(name.len() == 1 && name[0] == '.');
            assert(path[end - 1] == name[0]);
        }
    }
    a_last_name_comes_last(before, name, from, verbatim);
    assert(path.take(end) =~= before + name);
    assert(paths::names_from(before, from, verbatim) + seq![name] =~= paths::names_from(
        before,
        from,
        verbatim,
    ).push(name));
}

proof fn last_starts_after_a_separator(path: Seq<char>, from: int, end: int, verbatim: bool)
    requires
        0 <= from <= end <= path.len(),
    ensures
        ({
            let start = paths::last_start(path, from, end, verbatim);
            &&& from <= start <= end
            &&& start == from || paths::splits(verbatim, path[start - 1])
            &&& end > from && !paths::splits(verbatim, path[end - 1]) ==> start < end
            &&& forall|i: int| start <= i < end ==> !paths::splits(verbatim, #[trigger] path[i])
        }),
    decreases end,
{
    if end > from && !paths::splits(verbatim, path[end - 1]) {
        last_starts_after_a_separator(path, from, end - 1, verbatim);
    }
}

/// A path cut off after what it opens with opens with the same.
proof fn a_cut_path_opens_the_same(path: Seq<char>, end: int)
    requires
        paths::prefix_end(path) <= end <= path.len(),
    ensures
        paths::opening(path.take(end)) == paths::opening(path),
        paths::prefix_end(path.take(end)) == paths::prefix_end(path),
        paths::prefix_names(path.take(end)) == paths::prefix_names(path),
{
    let cut = path.take(end);
    let verbatim = paths::opening(path).verbatim();
    paths::prefix_is_bounded(path);
    paths::next_separator_is_bounded(path, paths::prefix_start(path), verbatim);
    no_separator_before(path, paths::prefix_start(path), verbatim);
    let first = paths::first_end(path);
    assert(forall|i: int| 0 <= i < end ==> #[trigger] cut[i] == path[i]);
    match paths::opening(path) {
        Opening::Bare => {
            paths::next_separator_is_bounded(cut, 2, false);
            no_separator_before(cut, 2, false);
            let server = paths::next_separator(cut, 2, false);
            if 2 < server {
                paths::next_separator_is_bounded(cut, server + 1, false);
                no_separator_before(cut, server + 1, false);
                let share = paths::next_separator(cut, server + 1, false);
                if server + 1 < share {
                    assert forall|i: int| 2 <= i < server implies !paths::splits(
                        false,
                        #[trigger] path[i],
                    ) by {
                        assert(cut[i] == path[i]);
                    }
                    assert(cut[server] == path[server]);
                    next_separator_is(path, 2, server, false);
                    paths::next_separator_is_bounded(path, server + 1, false);
                    no_separator_before(path, server + 1, false);
                    if paths::next_separator(path, server + 1, false) < share {
                        assert(paths::splits(false, path[paths::next_separator(path, server + 1, false)]));
                        assert(paths::splits(false, cut[paths::next_separator(path, server + 1, false)]));
                    }
                }
            }
        },
        Opening::Drive | Opening::VerbatimDrive => {},
        Opening::Device => {
            next_separator_is(cut, 4, first, false);
        },
        Opening::Verbatim => {
            if paths::drive_at(cut, 4) {
                assert(!paths::splits(true, path[4]) && !paths::splits(true, path[5]));
                assert(first >= 6) by {
                    if first == 4 {
                        assert(paths::splits(true, path[4]));
                    } else if first == 5 {
                        assert(paths::splits(true, path[5]));
                    }
                }
            }
            next_separator_is(cut, 4, first, true);
        },
        Opening::Share => {
            no_separator_before(path, first + 1, false);
            next_separator_is(cut, 2, first, false);
            next_separator_is(cut, first + 1, paths::prefix_end(path), false);
        },
        Opening::VerbatimShare => {
            paths::next_separator_is_bounded(path, first + 1, true);
            no_separator_before(path, first + 1, true);
            next_separator_is(cut, 8, first, true);
            let stop = paths::next_separator(path, first + 1, true);
            if stop > first + 1 {
                next_separator_is(cut, first + 1, stop, true);
            } else {
                paths::next_separator_is_bounded(cut, first + 1, true);
                if first + 1 < end {
                    assert(paths::splits(true, path[first + 1]));
                    next_separator_is(cut, first + 1, first + 1, true);
                }
            }
        },
    }
    assert(paths::prefix_names(cut) =~= paths::prefix_names(path)) by {
        if paths::opening(path) == Opening::Device || paths::opening(path) == Opening::Verbatim {
            assert(cut.subrange(4, first) =~= path.subrange(4, first));
        } else if paths::opening(path) == Opening::Share || paths::opening(path) == Opening::VerbatimShare {
            assert(cut.subrange(paths::prefix_start(path), first) =~= path.subrange(
                paths::prefix_start(path),
                first,
            ));
            if paths::prefix_end(path) > first {
                assert(cut.subrange(first + 1, paths::prefix_end(path)) =~= path.subrange(
                    first + 1,
                    paths::prefix_end(path),
                ));
            }
        }
    }
}

/// A path has a folder exactly where it has components, and the folder has all of them but the
/// last: it opens with the same and shows a root where the path does.
pub proof fn a_folder_has_all_components_but_the_last(path: Seq<char>)
    ensures
        paths::parent_of(path) is Some <==> paths::components(path).len() > 0,
        paths::parent_of(path) matches Some(folder) ==> {
            &&& paths::opening(folder) == paths::opening(path)
            &&& paths::prefix_names(folder) == paths::prefix_names(path)
            &&& paths::shows_root(folder) == paths::shows_root(path)
            &&& paths::components(folder) == paths::components(path).drop_last()
        },
{
    let (body, verbatim) = (paths::body_start(path), paths::opening(path).verbatim());
    paths::prefix_is_bounded(path);
    let end = paths::last_end(path);
    trimming_takes_nothing(path, body, path.len() as int, verbatim);
    assert(path.take(path.len() as int) =~= path);
    let dotted = paths::opening(path) == Opening::Bare && paths::opens_with_dot(path);
    let head = if dotted {
        seq![seq!['.']]
    } else {
        Seq::empty()
    };
    assert(paths::components(path) =~= head + paths::names_from(path, body, verbatim));
    if end > body {
        a_last_component_is_cut_off(path, body, end, verbatim);
        let start = paths::last_start(path, body, end, verbatim);
        trimming_takes_nothing(path, body, start, verbatim);
        let stop = paths::trimmed(path, body, start, verbatim);
        let folder = path.take(stop);
        a_cut_path_opens_the_same(path, stop);
        assert(forall|i: int| 0 <= i < stop ==> #[trigger] folder[i] == path[i]);
        assert(paths::root_separated(folder) == paths::root_separated(path));
        assert(paths::opens_with_dot(folder) == paths::opens_with_dot(path));
        assert(paths::components(folder) =~= head + paths::names_from(folder, body, verbatim));
        assert(paths::components(folder) =~= paths::components(path).drop_last());
    } else {
        assert(paths::names_from(path.take(body), body, verbatim) =~= Seq::<Seq<char>>::empty());
        if dotted {
            let empty = Seq::<char>::empty();
            assert(paths::components(empty) =~= paths::components(path).drop_last());
            assert(paths::prefix_names(empty) =~= paths::prefix_names(path));
        }
    }
}

/// A name that a file or a folder can have: one component that stands for something.
pub open spec fn is_plain(name: Seq<char>) -> bool {
    &&& name.len() > 0
    &&& forall|i: int| 0 <= i < name.len() ==> !paths::is_separator(#[trigger] name[i])
    &&& paths::is_name(name)
    &&& paths::opening(name) == Opening::Bare
}

/// A name put in `folder` comes after what the folder opens with. It does not where the folder is
/// the start of a share or a device, such as `\\server`, or is verbatim without a separator.
pub open spec fn takes(folder: Seq<char>, name: Seq<char>) -> bool {
    &&& paths::opening(paths::joined(folder, name)) == paths::opening(folder)
    &&& paths::prefix_end(paths::joined(folder, name)) == paths::prefix_end(folder)
    &&& paths::opening(folder).verbatim() ==> paths::root_separated(folder)
}

proof fn written_names_are_read(prefix: Seq<char>, names: Seq<Seq<char>>)
    requires
        names.len() > 0,
        are_parts(names),
    ensures
        paths::names_from(prefix + paths::written(names), prefix.len() as int + 1, true) == names,
        paths::written(names).len() > 0,
        paths::written(names)[0] == '\\',
    decreases names.len(),
{
    let (rest, last) = (names.drop_last(), names.last());
    let at = prefix.len() as int + 1;
    let before = prefix + paths::written(rest);
    assert(is_part(names[names.len() - 1]));
    assert forall|i: int| 0 <= i < last.len() implies !paths::splits(true, #[trigger] last[i]) by {
        assert(last.contains(last[i]));
    }
    if rest.len() > 0 {
        assert forall|i: int| 0 <= i < rest.len() implies is_part(#[trigger] rest[i]) by {
            assert(is_part(names[i]));
        }
        written_names_are_read(prefix, rest);
        a_last_separator_adds_nothing(before, '\\', at, true);
    } else {
        assert(before =~= prefix);
        assert(paths::names_from(before.push('\\'), at, true) =~= rest);
    }
    a_last_name_comes_last(before.push('\\'), last, at, true);
    assert(prefix + paths::written(names) =~= before.push('\\') + last);
    assert(rest + seq![last] =~= names);
}

proof fn a_joined_name_comes_last(folder: Seq<char>, name: Seq<char>)
    requires
        is_plain(name),
        takes(folder, name),
    ensures
        paths::prefix_names(paths::joined(folder, name)) == paths::prefix_names(folder),
        paths::shows_root(paths::joined(folder, name)) == paths::shows_root(folder),
        paths::components(paths::joined(folder, name)) == paths::components(folder).push(name),
{
    let path = paths::joined(folder, name);
    let verbatim = paths::opening(folder).verbatim();
    let prefix = paths::prefix_end(folder);
    paths::prefix_is_bounded(folder);
    paths::prefix_is_bounded(path);
    paths::prefix_is_bounded(name);
    assert(!paths::root_separated(name));
    if verbatim {
        components_are_parts(folder);
        let names = paths::components(folder).push(name);
        let front = folder.take(prefix);
        assert(!name.contains('\\'));
        assert(are_parts(names));
        assert(!paths::opens_with_dot(name)) by {
            if paths::opens_with_dot(name) {
                assert(name =~= seq!['.']);
            }
        }
        a_last_name_comes_last(Seq::empty(), name, 0, false);
        assert(Seq::<char>::empty() + name =~= name);
        assert(paths::names_from(Seq::<char>::empty(), 0, false) =~= Seq::<Seq<char>>::empty());
        assert(paths::components(name) =~= seq![name]);
        assert(paths::components(name).drop_last() =~= Seq::<Seq<char>>::empty());
        assert(paths::walked(paths::components(folder), paths::components(name)) == names) by {
            assert(paths::walked(paths::components(folder), paths::components(name).drop_last()) == paths::components(folder));
        }
        written_names_are_read(front, names);
        assert(path == front + paths::written(names));
        assert(path[prefix] == '\\');
        a_cut_path_opens_the_same(path, prefix);
        a_cut_path_opens_the_same(folder, prefix);
        assert(path.take(prefix) =~= front);
    } else {
        let before = path.take(path.len() - name.len());
        let body = paths::body_start(path);
        assert(path =~= before + name);
        assert(path.take(folder.len() as int) =~= folder);
        assert(before =~= folder || before =~= folder.push('\\'));
        assert(forall|i: int| 0 <= i < folder.len() ==> #[trigger] folder[i] == path[i]);
        a_cut_path_opens_the_same(path, folder.len() as int);
        assert(paths::opens_with_dot(path) == paths::opens_with_dot(folder)) by {
            if folder.len() == prefix {
                if paths::opens_with_dot(path) {
                    assert(path[prefix] == name[0]);
                    if name.len() > 1 {
                        assert(path[prefix + 1] == name[1]);
                    } else {
                        assert(name =~= seq!['.']);
                    }
                }
            } else if folder.len() == prefix + 1 && folder[prefix] == '.' {
                assert(path[prefix + 1] == '\\');
            }
        }
        assert(paths::shows_root(path) == paths::shows_root(folder)) by {
            if folder.len() == prefix && paths::root_separated(path) {
                if paths::opening(folder) == Opening::Bare || paths::opening(folder) == Opening::Drive {
                    assert(path[prefix] == name[0]);
                }
            }
        }
        assert(paths::names_from(before, body, false) == paths::names_from(folder, paths::body_start(folder), false))
            by {
            if folder.len() == prefix && paths::root_separated(path) {
                assert(before.len() == body);
                assert(paths::names_from(before, body, false) =~= Seq::<Seq<char>>::empty());
                assert(paths::names_from(folder, prefix, false) =~= Seq::<Seq<char>>::empty());
            } else {
                assert(body == paths::body_start(folder));
                if before != folder {
                    a_last_separator_adds_nothing(folder, '\\', body, false);
                }
            }
        }
        assert(body <= before.len());
        assert(body == before.len() || paths::splits(false, before.last()));
        a_last_name_comes_last(before, name, body, false);
        assert(paths::components(path) =~= paths::components(folder).push(name));
    }
}

/// What is put in a folder under a plain name has that name, and lies in that folder.
pub proof fn joining_and_splitting(folder: Seq<char>, name: Seq<char>)
    requires
        is_plain(name),
        takes(folder, name),
    ensures
        paths::file_name_of(paths::joined(folder, name)) == Some(name),
        paths::parent_of(paths::joined(folder, name)) is Some,
        paths::path_key(paths::parent_of(paths::joined(folder, name))->0) == paths::path_key(folder),
{
    let path = paths::joined(folder, name);
    a_joined_name_comes_last(folder, name);
    a_folder_has_all_components_but_the_last(path);
    assert(paths::components(path).drop_last() =~= paths::components(folder));
    one_key_is_one_path(paths::parent_of(path)->0, folder);
}

} // verus!
