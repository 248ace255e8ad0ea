//! Windows paths as text. Components are separated by `\` or `/`; a path may open with a drive
//! (`C:`), a share (`\\server\share`) or a device (`\\.\name`), and has a root where a separator
//! follows. A component `.` stands for nothing, except first in a path without a root. What follows
//! `\\?\` is verbatim: there only `\` separates, and `.` is a component like any other.

use crate::text::{chars_of, join2, text_of};
use vstd::prelude::*;

verus! {

pub open spec fn is_separator(ch: char) -> bool {
    ch == '\\' || ch == '/'
}

fn separates(ch: char) -> (is: bool)
    ensures
        is == is_separator(ch),
{
    ch == '\\' || ch == '/'
}

/// What separates components, in a verbatim path or another.
pub open spec fn splits(verbatim: bool, ch: char) -> bool {
    ch == '\\' || (!verbatim && ch == '/')
}

fn splits_at(verbatim: bool, ch: char) -> (is: bool)
    ensures
        is == splits(verbatim, ch),
{
    ch == '\\' || (!verbatim && ch == '/')
}

/// The first character from `at` on that separates components; the path's end without one.
pub open spec fn next_separator(path: Seq<char>, at: int, verbatim: bool) -> int
    decreases path.len() - at,
{
    if at >= path.len() {
        path.len() as int
    } else if splits(verbatim, path[at]) {
        at
    } else {
        next_separator(path, at + 1, verbatim)
    }
}

/// What a path opens with.
#[derive(Clone, Copy, Debug, PartialEq, Eq, Structural)]
pub enum Opening {
    Bare,
    /// `C:`
    Drive,
    /// `\\server\share`
    Share,
    /// `\\.\name`
    Device,
    /// `\\?\name`
    Verbatim,
    /// `\\?\C:`
    VerbatimDrive,
    /// `\\?\UNC\server\share`
    VerbatimShare,
}

impl Opening {
    pub open spec fn verbatim(self) -> bool {
        self == Opening::Verbatim || self == Opening::VerbatimDrive || self
            == Opening::VerbatimShare
    }

    fn is_verbatim(self) -> (verbatim: bool)
        ensures
            verbatim == self.verbatim(),
    {
        match self {
            Opening::Verbatim | Opening::VerbatimDrive | Opening::VerbatimShare => true,
            _ => false,
        }
    }
}

/// A letter and a colon stand at `at`.
pub open spec fn drive_at(path: Seq<char>, at: int) -> bool {
    &&& at + 1 < path.len()
    &&& 'a' <= path[at] <= 'z' || 'A' <= path[at] <= 'Z'
    &&& path[at + 1] == ':'
}

/// The path starts with `\\?\`, written with these characters alone.
pub open spec fn opens_verbatim(path: Seq<char>) -> bool {
    path.len() >= 4 && path[0] == '\\' && path[1] == '\\' && path[2] == '?' && path[3] == '\\'
}

pub open spec fn opening(path: Seq<char>) -> Opening {
    if drive_at(path, 0) {
        Opening::Drive
    } else if !(path.len() >= 2 && is_separator(path[0]) && is_separator(path[1])) {
        Opening::Bare
    } else if opens_verbatim(path) {
        if path.len() >= 8 && path[4] == 'U' && path[5] == 'N' && path[6] == 'C' && is_separator(
            path[7],
        ) {
            Opening::VerbatimShare
        } else if drive_at(path, 4) && (path.len() == 6 || is_separator(path[6])) {
            Opening::VerbatimDrive
        } else {
            Opening::Verbatim
        }
    } else if path.len() >= 4 && path[2] == '.' && is_separator(path[3]) {
        Opening::Device
    } else {
        let server = next_separator(path, 2, false);
        if 2 < server && server + 1 < next_separator(path, server + 1, false) {
            Opening::Share
        } else {
            Opening::Bare
        }
    }
}

/// Where the first name of the prefix starts.
pub open spec fn prefix_start(path: Seq<char>) -> int {
    match opening(path) {
        Opening::Bare | Opening::Drive => 0,
        Opening::Share => 2,
        Opening::Device | Opening::Verbatim | Opening::VerbatimDrive => 4,
        Opening::VerbatimShare => 8,
    }
}

/// Where the first name of the prefix ends: a server's, a device's or a verbatim name.
pub open spec fn first_end(path: Seq<char>) -> int {
    next_separator(path, prefix_start(path), opening(path).verbatim())
}

/// How much of a path what it opens with takes.
pub open spec fn prefix_end(path: Seq<char>) -> int {
    match opening(path) {
        Opening::Bare => 0,
        Opening::Drive => 2,
        Opening::VerbatimDrive => 6,
        Opening::Device | Opening::Verbatim => first_end(path),
        Opening::Share => next_separator(path, first_end(path) + 1, false),
        // A share without a name takes no separator before it.
        Opening::VerbatimShare => {
            let end = next_separator(path, first_end(path) + 1, true);
            if end > first_end(path) + 1 {
                end
            } else {
                first_end(path)
            }
        },
    }
}

/// A separator follows what the path opens with, or starts the path.
pub open spec fn root_separated(path: Seq<char>) -> bool {
    prefix_end(path) < path.len() && is_separator(path[prefix_end(path)])
}

/// The path starts at a root: all but a drive are one, with or without a separator.
pub open spec fn has_root(path: Seq<char>) -> bool {
    root_separated(path) || (opening(path) != Opening::Bare && opening(path) != Opening::Drive)
}

/// The root counts as a component: not where a verbatim path has no separator for it.
pub open spec fn shows_root(path: Seq<char>) -> bool {
    root_separated(path) || opening(path) == Opening::Share || opening(path) == Opening::Device
}

/// The first component is `.`, and there is no root before it.
pub open spec fn opens_with_dot(path: Seq<char>) -> bool {
    let start = prefix_end(path);
    &&& !has_root(path)
    &&& start < path.len() && path[start] == '.'
    &&& start + 1 == path.len() || is_separator(path[start + 1])
}

/// Where a path's components start, after its root or its first `.`.
pub open spec fn body_start(path: Seq<char>) -> int {
    if root_separated(path) || opens_with_dot(path) {
        prefix_end(path) + 1
    } else {
        prefix_end(path)
    }
}

/// A name between two separators that stands for something.
pub open spec fn counts(name: Seq<char>, verbatim: bool) -> bool {
    name.len() > 0 && (verbatim || name != seq!['.'])
}

/// The components from `at` on.
pub open spec fn names_from(path: Seq<char>, at: int, verbatim: bool) -> Seq<Seq<char>>
    decreases path.len() + 1 - at,
{
    if at < 0 || at >= path.len() {
        Seq::empty()
    } else {
        proof {
            next_separator_is_bounded(path, at, verbatim);
        }
        let end = next_separator(path, at, verbatim);
        let name = path.subrange(at, end);
        let rest = names_from(path, end + 1, verbatim);
        if counts(name, verbatim) {
            seq![name] + rest
        } else {
            rest
        }
    }
}

/// The components of a path after its root: names, `..`, `.` where it counts.
pub open spec fn components(path: Seq<char>) -> Seq<Seq<char>> {
    let rest = names_from(path, body_start(path), opening(path).verbatim());
    if opening(path) == Opening::Bare && opens_with_dot(path) {
        seq![seq!['.']] + rest
    } else {
        rest
    }
}

/// Names a file or a folder, and is no way to one.
pub open spec fn is_name(component: Seq<char>) -> bool {
    component != seq!['.'] && component != seq!['.', '.']
}

/// A path's last component, unless it has none or that is `.` or `..`.
pub open spec fn file_name_of(path: Seq<char>) -> Option<Seq<char>> {
    if components(path).len() > 0 && is_name(components(path).last()) {
        Some(components(path).last())
    } else {
        None
    }
}

/// A path's file name, or the whole path where it has none.
pub open spec fn name_of(path: Seq<char>) -> Seq<char> {
    match file_name_of(path) {
        Some(name) => name,
        None => path,
    }
}

/// Where the last `.` of `name` is; -1 without one.
pub open spec fn last_dot(name: Seq<char>) -> int
    decreases name.len(),
{
    if name.len() == 0 {
        -1
    } else if name.last() == '.' {
        name.len() - 1
    } else {
        last_dot(name.drop_last())
    }
}

/// What follows the last `.` of a path's file name. A name that starts with its only `.` has none.
pub open spec fn extension_of(path: Seq<char>) -> Option<Seq<char>> {
    match file_name_of(path) {
        Some(name) if last_dot(name) > 0 => Some(
            name.subrange(last_dot(name) + 1, name.len() as int),
        ),
        _ => None,
    }
}

/// A path's file name without its extension, or the whole path where it has no file name.
pub open spec fn stem_of(path: Seq<char>) -> Seq<char> {
    match file_name_of(path) {
        Some(name) => if last_dot(name) > 0 {
            name.subrange(0, last_dot(name))
        } else {
            name
        },
        None => path,
    }
}

/// Where what lies from `from` to `end` ends without separators and `.` that count for nothing.
pub open spec fn trimmed(path: Seq<char>, from: int, end: int, verbatim: bool) -> int
    decreases end,
{
    if end <= from || end <= 0 {
        from
    } else if splits(verbatim, path[end - 1]) || (!verbatim && path[end - 1] == '.' && (end - 1
        == from || is_separator(path[end - 2]))) {
        trimmed(path, from, end - 1, verbatim)
    } else {
        end
    }
}

/// Where the last component from `from` to `end` starts.
pub open spec fn last_start(path: Seq<char>, from: int, end: int, verbatim: bool) -> int
    decreases end,
{
    if end <= from || end <= 0 || splits(verbatim, path[end - 1]) {
        end
    } else {
        last_start(path, from, end - 1, verbatim)
    }
}

/// Where a path's last component ends; where its components start, if there is none after a root
/// or a first `.`.
pub open spec fn last_end(path: Seq<char>) -> int {
    trimmed(path, body_start(path), path.len() as int, opening(path).verbatim())
}

/// The folder a path lies in: the path up to its last component, without the separators before
/// that. A root keeps its separator. There is none for a path without components, such as a root;
/// that of a single relative component is empty.
pub open spec fn parent_of(path: Seq<char>) -> Option<Seq<char>> {
    let body = body_start(path);
    let verbatim = opening(path).verbatim();
    if last_end(path) > body {
        let start = last_start(path, body, last_end(path), verbatim);
        Some(path.take(trimmed(path, body, start, verbatim)))
    } else if opening(path) == Opening::Bare && opens_with_dot(path) {
        Some(Seq::empty())
    } else {
        None
    }
}

/// A drive's letter without its case.
pub open spec fn raised(letter: char) -> char {
    if 'a' <= letter <= 'z' {
        (letter as u32 - 32) as char
    } else {
        letter
    }
}

/// A character for each way to open a path.
pub open spec fn mark(opening: Opening) -> char {
    match opening {
        Opening::Bare => '-',
        Opening::Drive => 'd',
        Opening::Share => 's',
        Opening::Device => 'n',
        Opening::Verbatim => 'v',
        Opening::VerbatimDrive => 'D',
        Opening::VerbatimShare => 'S',
    }
}

/// What a path opens with, however it is written: a drive's letter, or the names of a server and a
/// share, a device or a verbatim path.
pub open spec fn prefix_names(path: Seq<char>) -> Seq<char> {
    let (start, first, end) = (prefix_start(path), first_end(path), prefix_end(path));
    match opening(path) {
        Opening::Bare => Seq::empty(),
        Opening::Drive | Opening::VerbatimDrive => seq![raised(path[start])],
        Opening::Device | Opening::Verbatim => path.subrange(start, first),
        Opening::Share | Opening::VerbatimShare => path.subrange(start, first).push('\\') + (if end
            > first {
            path.subrange(first + 1, end)
        } else {
            Seq::empty()
        }),
    }
}

/// The components one after another, each with a `\` behind it, which none of them holds.
pub open spec fn run_on(names: Seq<Seq<char>>) -> Seq<char>
    decreases names.len(),
{
    if names.len() == 0 {
        Seq::empty()
    } else {
        run_on(names.drop_last()) + names.last().push('\\')
    }
}

/// What a path is known by. Two paths are one where they open with the same, both or neither show
/// a root, and their components are the same, however each is written: exactly then their keys are.
pub open spec fn path_key(path: Seq<char>) -> Seq<char> {
    seq![mark(opening(path))] + prefix_names(path).push('\\') + (if shows_root(path) {
        seq!['\\']
    } else {
        Seq::empty()
    }) + run_on(components(path))
}

/// What each path of a list is known by.
pub open spec fn path_keys(paths: Seq<String>) -> Seq<Seq<char>> {
    paths.map_values(|path: String| path_key(path@))
}

/// What an optional path is known by.
pub open spec fn maybe_key(path: Option<Seq<char>>) -> Option<Seq<char>> {
    match path {
        Some(path) => Some(path_key(path)),
        None => None,
    }
}

/// The components after one more: `..` takes the name before it away, `.` nothing.
pub open spec fn stepped(names: Seq<Seq<char>>, name: Seq<char>) -> Seq<Seq<char>> {
    if name == seq!['.'] {
        names
    } else if name == seq!['.', '.'] {
        if names.len() > 0 && is_name(names.last()) {
            names.drop_last()
        } else {
            names
        }
    } else {
        names.push(name)
    }
}

/// The components after several more.
pub open spec fn walked(names: Seq<Seq<char>>, more: Seq<Seq<char>>) -> Seq<Seq<char>>
    decreases more.len(),
{
    if more.len() == 0 {
        names
    } else {
        stepped(walked(names, more.drop_last()), more.last())
    }
}

/// The components with a `\` before each.
pub open spec fn written(names: Seq<Seq<char>>) -> Seq<char>
    decreases names.len(),
{
    if names.len() == 0 {
        Seq::empty()
    } else {
        written(names.drop_last()).push('\\') + names.last()
    }
}

/// `relative` under a verbatim `folder`, where `.` and `..` lead nowhere: they are resolved first.
pub open spec fn resolved(folder: Seq<char>, relative: Seq<char>) -> Seq<char> {
    let start = if root_separated(relative) {
        Seq::empty()
    } else {
        components(folder)
    };
    let names = walked(start, components(relative));
    let prefix = folder.take(prefix_end(folder));
    if names.len() == 0 && (root_separated(folder) || root_separated(relative)) {
        prefix.push('\\')
    } else {
        prefix + written(names)
    }
}

/// `relative` under `folder`. One that opens with a drive, a share or the like stands for itself;
/// one with a root alone keeps what the folder opens with. A drive without a root takes no
/// separator.
pub open spec fn joined(folder: Seq<char>, relative: Seq<char>) -> Seq<char> {
    if opening(relative) != Opening::Bare {
        relative
    } else if opening(folder).verbatim() && relative.len() > 0 {
        resolved(folder, relative)
    } else if root_separated(relative) {
        folder.take(prefix_end(folder)) + relative
    } else if folder.len() == 0 || is_separator(folder.last()) || (opening(folder) == Opening::Drive
        && folder.len() == 2) {
        folder + relative
    } else {
        folder.push('\\') + relative
    }
}

/// `start` with several components under it, one after another.
pub open spec fn gathered(start: Seq<char>, names: Seq<Seq<char>>) -> Seq<char>
    decreases names.len(),
{
    if names.len() == 0 {
        start
    } else {
        joined(gathered(start, names.drop_last()), names.last())
    }
}

/// A path written anew from what it opens with, its root and its components.
pub open spec fn rewritten(path: Seq<char>) -> Seq<char> {
    let prefix = path.take(prefix_end(path));
    let start = if shows_root(path) {
        joined(prefix, seq!['\\'])
    } else {
        prefix
    };
    gathered(start, components(path))
}

/// The next separator lies in the path, from where it is looked for on.
pub proof fn next_separator_is_bounded(path: Seq<char>, at: int, verbatim: bool)
    requires
        0 <= at,
    ensures
        at < path.len() ==> at <= next_separator(path, at, verbatim) <= path.len(),
        at >= path.len() ==> next_separator(path, at, verbatim) == path.len(),
    decreases path.len() - at,
{
    if at < path.len() && !splits(verbatim, path[at]) {
        next_separator_is_bounded(path, at + 1, verbatim);
    }
}

/// What a path opens with lies in it, before its components.
pub proof fn prefix_is_bounded(path: Seq<char>)
    ensures
        0 <= prefix_start(path) <= prefix_end(path) <= body_start(path) <= path.len(),
        opening(path) != Opening::Bare ==> prefix_start(path) <= path.len(),
        opening(path) == Opening::Share ==> 2 < first_end(path) && first_end(path) + 1 < prefix_end(
            path,
        ),
        opening(path) == Opening::VerbatimShare ==> 8 <= first_end(path) <= prefix_end(path),
{
    let verbatim = opening(path).verbatim();
    next_separator_is_bounded(path, prefix_start(path), verbatim);
    if opening(path) == Opening::Share || opening(path) == Opening::VerbatimShare {
        next_separator_is_bounded(path, first_end(path) + 1, verbatim);
    }
}

fn find_separator(path: &Vec<char>, from: usize, verbatim: bool) -> (at: usize)
    ensures
        from <= path.len() ==> from <= at,
        at == next_separator(path@, from as int, verbatim),
        at <= path.len(),
{
    if from >= path.len() {
        return path.len();
    }
    let mut at: usize = from;
    while at < path.len() && !splits_at(verbatim, path[at])
        invariant
            from <= at <= path.len(),
            next_separator(path@, from as int, verbatim) == next_separator(
                path@,
                at as int,
                verbatim,
            ),
        decreases path.len() - at,
    {
        at = at + 1;
    }
    at
}

fn has_drive_at(path: &Vec<char>, at: usize) -> (drive: bool)
    requires
        at <= 4,
    ensures
        drive == drive_at(path@, at as int),
{
    at + 1 < path.len() && (('a' <= path[at] && path[at] <= 'z') || ('A' <= path[at] && path[at]
        <= 'Z')) && path[at + 1] == ':'
}

fn opening_of(path: &Vec<char>) -> (opened: Opening)
    ensures
        opened == opening(path@),
{
    if has_drive_at(path, 0) {
        return Opening::Drive;
    }
    if path.len() < 2 || !separates(path[0]) || !separates(path[1]) {
        return Opening::Bare;
    }
    if path.len() >= 4 && path[0] == '\\' && path[1] == '\\' && path[2] == '?' && path[3] == '\\' {
        if path.len() >= 8 && path[4] == 'U' && path[5] == 'N' && path[6] == 'C' && separates(
            path[7],
        ) {
            return Opening::VerbatimShare;
        }
        if has_drive_at(path, 4) && (path.len() == 6 || separates(path[6])) {
            return Opening::VerbatimDrive;
        }
        return Opening::Verbatim;
    }
    if path.len() >= 4 && path[2] == '.' && separates(path[3]) {
        return Opening::Device;
    }
    let server: usize = find_separator(path, 2, false);
    proof {
        next_separator_is_bounded(path@, server + 1, false);
    }
    if 2 < server && server < path.len() && server + 1 < find_separator(path, server + 1, false) {
        Opening::Share
    } else {
        Opening::Bare
    }
}

/// A path taken apart: where its parts are, and whether it has them.
struct Shape {
    opening: Opening,
    verbatim: bool,
    /// Where the prefix's names start, its first name ends, and all of it ends.
    start: usize,
    first: usize,
    end: usize,
    separated: bool,
    dotted: bool,
    body: usize,
}

impl Shape {
    spec fn of(self, path: Seq<char>) -> bool {
        &&& self.opening == opening(path)
        &&& self.verbatim == opening(path).verbatim()
        &&& self.start == prefix_start(path)
        &&& self.first == first_end(path)
        &&& self.end == prefix_end(path)
        &&& self.separated == root_separated(path)
        &&& self.dotted == opens_with_dot(path)
        &&& self.body == body_start(path)
        &&& self.start <= self.end <= self.body <= path.len()
    }
}

fn shape_of(path: &Vec<char>) -> (shape: Shape)
    ensures
        shape.of(path@),
{
    proof {
        prefix_is_bounded(path@);
    }
    let opening: Opening = opening_of(path);
    let verbatim: bool = opening.is_verbatim();
    let start: usize = match opening {
        Opening::Bare | Opening::Drive => 0,
        Opening::Share => 2,
        Opening::Device | Opening::Verbatim | Opening::VerbatimDrive => 4,
        Opening::VerbatimShare => 8,
    };
    let first: usize = find_separator(path, start, verbatim);
    let end: usize = match opening {
        Opening::Bare => 0,
        Opening::Drive => 2,
        Opening::VerbatimDrive => 6,
        Opening::Device | Opening::Verbatim => first,
        Opening::Share => find_separator(path, first + 1, false),
        Opening::VerbatimShare => if first < path.len() {
            let end: usize = find_separator(path, first + 1, true);
            if end > first + 1 {
                end
            } else {
                first
            }
        } else {
            proof {
                next_separator_is_bounded(path@, first + 1, true);
            }
            first
        },
    };
    let separated: bool = end < path.len() && separates(path[end]);
    let rooted: bool = separated || (opening != Opening::Bare && opening != Opening::Drive);
    let dotted: bool = !rooted && end < path.len() && path[end] == '.' && (end + 1 == path.len()
        || separates(path[end + 1]));
    let body: usize = if separated || dotted {
        end + 1
    } else {
        end
    };
    Shape { opening, verbatim, start, first, end, separated, dotted, body }
}

fn trim(path: &Vec<char>, from: usize, end: usize, verbatim: bool) -> (trim: usize)
    requires
        from <= end <= path.len(),
    ensures
        trim == trimmed(path@, from as int, end as int, verbatim),
        from <= trim <= end,
{
    let mut at: usize = end;
    while at > from
        invariant
            from <= at <= end <= path.len(),
            trimmed(path@, from as int, end as int, verbatim) == trimmed(
                path@,
                from as int,
                at as int,
                verbatim,
            ),
        decreases at,
    {
        let last: char = path[at - 1];
        let skipped: bool = splits_at(verbatim, last) || (!verbatim && last == '.' && (at - 1
            == from || separates(path[at - 2])));
        if !skipped {
            return at;
        }
        at = at - 1;
    }
    at
}

fn start_of_last(path: &Vec<char>, from: usize, end: usize, verbatim: bool) -> (start: usize)
    requires
        from <= end <= path.len(),
    ensures
        start == last_start(path@, from as int, end as int, verbatim),
        from <= start <= end,
{
    let mut at: usize = end;
    while at > from && !splits_at(verbatim, path[at - 1])
        invariant
            from <= at <= end <= path.len(),
            last_start(path@, from as int, end as int, verbatim) == last_start(
                path@,
                from as int,
                at as int,
                verbatim,
            ),
        decreases at,
    {
        at = at - 1;
    }
    at
}

fn is_dot(name: &str) -> (dot: bool)
    ensures
        dot == (name@ == seq!['.']),
{
    let chars = chars_of(name);
    let dot: bool = chars.len() == 1 && chars[0] == '.';
    assert(dot == (name@ == seq!['.'])) by {
        if dot {
            assert(name@ =~= seq!['.']);
        }
    }
    dot
}

fn is_dots(name: &str) -> (dots: bool)
    ensures
        dots == (name@ == seq!['.', '.']),
{
    let chars = chars_of(name);
    let dots: bool = chars.len() == 2 && chars[0] == '.' && chars[1] == '.';
    assert(dots == (name@ == seq!['.', '.'])) by {
        if dots {
            assert(name@ =~= seq!['.', '.']);
        } else if name@ == seq!['.', '.'] {
            assert(chars@[0] == '.' && chars@[1] == '.');
        }
    }
    dots
}

fn names(path: &Vec<char>, shape: &Shape) -> (names: Vec<String>)
    requires
        shape.of(path@),
    ensures
        crate::text::texts(names@) == components(path@),
{
    let mut names: Vec<String> = Vec::new();
    let verbatim: bool = shape.verbatim;
    if shape.opening == Opening::Bare && shape.dotted {
        let mut dot = String::new();
        dot.push('.');
        assert(dot@ =~= seq!['.']);
        names.push(dot);
        assert(crate::text::texts(names@) =~= seq![seq!['.']]);
    }
    let mut at: usize = shape.body;
    assert(components(path@) =~= crate::text::texts(names@) + names_from(
        path@,
        at as int,
        verbatim,
    ));
    while at < path.len()
        invariant
            shape.of(path@),
            verbatim == shape.verbatim,
            at <= path.len(),
            components(path@) == crate::text::texts(names@) + names_from(
                path@,
                at as int,
                verbatim,
            ),
        decreases path.len() - at,
    {
        let end: usize = find_separator(path, at, verbatim);
        let name = text_of(path, at, end);
        let ghost before = names@;
        let ghost rest = names_from(path@, end + 1, verbatim);
        if end > at && (verbatim || !is_dot(name.as_str())) {
            names.push(name);
            assert(crate::text::texts(names@) =~= crate::text::texts(before).push(name@));
            assert(crate::text::texts(names@) + rest =~= crate::text::texts(before) + (seq![name@]
                + rest));
        }
        assert(components(path@) == crate::text::texts(names@) + rest);
        if end >= path.len() {
            assert(rest =~= Seq::<Seq<char>>::empty());
            assert(crate::text::texts(names@) + rest =~= crate::text::texts(names@));
            return names;
        }
        at = end + 1;
    }
    assert(names_from(path@, at as int, verbatim) =~= Seq::<Seq<char>>::empty());
    assert(crate::text::texts(names@) + names_from(path@, at as int, verbatim)
        =~= crate::text::texts(names@));
    names
}

/// The last component of `path`, where it is a file's or a folder's name.
fn own_name(path: &Vec<char>) -> (name: Option<String>)
    ensures
        crate::text::maybe(name) == file_name_of(path@),
{
    let mut all = names(path, &shape_of(path));
    let ghost parts = all@;
    assert(crate::text::texts(parts).len() == parts.len());
    match all.pop() {
        Some(name) => {
            assert(crate::text::texts(parts).last() == name@);
            if is_dot(name.as_str()) || is_dots(name.as_str()) {
                None
            } else {
                Some(name)
            }
        },
        None => None,
    }
}

/// The file name of `path`, or the whole path where it has none.
pub fn file_name(path: &str) -> (name: String)
    ensures
        name@ == name_of(path@),
{
    match own_name(&chars_of(path)) {
        Some(name) => name,
        None => path.to_owned(),
    }
}

proof fn last_dot_skips(name: Seq<char>, from: int)
    requires
        0 <= from <= name.len(),
        forall|i: int| from <= i < name.len() ==> name[i] != '.',
    ensures
        last_dot(name) == last_dot(name.take(from)),
    decreases name.len() - from,
{
    if from < name.len() {
        assert(name.drop_last().take(from) == name.take(from));
        last_dot_skips(name.drop_last(), from);
    } else {
        assert(name.take(from) == name);
    }
}

/// Where the extension of `name` starts, after its `.`; `None` without one.
fn start_of_extension(name: &Vec<char>) -> (start: Option<usize>)
    ensures
        start is Some <==> last_dot(name@) > 0,
        start matches Some(start) ==> start == last_dot(name@) + 1 && start <= name.len(),
{
    let mut at: usize = name.len();
    while at > 0 && name[at - 1] != '.'
        invariant
            at <= name.len(),
            forall|i: int| at <= i < name.len() ==> name@[i] != '.',
        decreases at,
    {
        at = at - 1;
    }
    proof {
        last_dot_skips(name@, at as int);
    }
    if at > 1 {
        Some(at)
    } else {
        None
    }
}

/// The extension of the file that `path` names.
pub fn extension(path: &str) -> (extension: Option<String>)
    ensures
        crate::text::maybe(extension) == extension_of(path@),
{
    match own_name(&chars_of(path)) {
        Some(name) => {
            let chars = chars_of(name.as_str());
            match start_of_extension(&chars) {
                Some(start) => Some(text_of(&chars, start, chars.len())),
                None => None,
            }
        },
        None => None,
    }
}

/// The name of the file that `path` names, without its extension.
pub fn file_stem(path: &str) -> (stem: String)
    ensures
        stem@ == stem_of(path@),
{
    match own_name(&chars_of(path)) {
        Some(name) => {
            let chars = chars_of(name.as_str());
            match start_of_extension(&chars) {
                Some(start) => text_of(&chars, 0, start - 1),
                None => name,
            }
        },
        None => path.to_owned(),
    }
}

/// The folder that `path` lies in.
pub fn parent(path: &str) -> (folder: Option<String>)
    ensures
        crate::text::maybe(folder) == parent_of(path@),
{
    let chars = chars_of(path);
    let shape = shape_of(&chars);
    let end: usize = trim(&chars, shape.body, chars.len(), shape.verbatim);
    if end > shape.body {
        let start: usize = start_of_last(&chars, shape.body, end, shape.verbatim);
        let stop: usize = trim(&chars, shape.body, start, shape.verbatim);
        let folder = text_of(&chars, 0, stop);
        assert(folder@ =~= path@.take(stop as int));
        Some(folder)
    } else if shape.opening == Opening::Bare && shape.dotted {
        let folder = String::new();
        assert(folder@ =~= Seq::<char>::empty());
        Some(folder)
    } else {
        None
    }
}

fn raise(letter: char) -> (upper: char)
    ensures
        upper == raised(letter),
{
    if 'a' <= letter && letter <= 'z' {
        (letter as u8 - 32) as char
    } else {
        letter
    }
}

fn mark_of(opening: Opening) -> (ch: char)
    ensures
        ch == mark(opening),
{
    match opening {
        Opening::Bare => '-',
        Opening::Drive => 'd',
        Opening::Share => 's',
        Opening::Device => 'n',
        Opening::Verbatim => 'v',
        Opening::VerbatimDrive => 'D',
        Opening::VerbatimShare => 'S',
    }
}

fn names_of_prefix(path: &Vec<char>, shape: &Shape) -> (names: String)
    requires
        shape.of(path@),
    ensures
        names@ == prefix_names(path@),
{
    proof {
        prefix_is_bounded(path@);
    }
    match shape.opening {
        Opening::Bare => {
            let none = String::new();
            assert(none@ =~= Seq::<char>::empty());
            none
        },
        Opening::Drive | Opening::VerbatimDrive => {
            let mut letter = String::new();
            letter.push(raise(path[shape.start]));
            assert(letter@ =~= seq![raised(path@[shape.start as int])]);
            letter
        },
        Opening::Device | Opening::Verbatim => text_of(path, shape.start, shape.first),
        Opening::Share | Opening::VerbatimShare => {
            let mut names = text_of(path, shape.start, shape.first);
            names.push('\\');
            if shape.end > shape.first {
                names.append(text_of(path, shape.first + 1, shape.end).as_str());
            }
            assert(names@ =~= prefix_names(path@));
            names
        },
    }
}

/// What `path` is known by, however it is written.
pub fn key_of_path(path: &str) -> (key: String)
    ensures
        key@ == path_key(path@),
{
    let chars = chars_of(path);
    let shape = shape_of(&chars);
    let mut key = String::new();
    key.push(mark_of(shape.opening));
    key.append(names_of_prefix(&chars, &shape).as_str());
    key.push('\\');
    let root: bool = shape.separated || shape.opening == Opening::Share || shape.opening
        == Opening::Device;
    if root {
        key.push('\\');
    }
    let all = names(&chars, &shape);
    let ghost parts = components(path@);
    let ghost head = key@;
    assert(head =~= seq![mark(opening(path@))] + prefix_names(path@).push('\\') + (if shows_root(
        path@,
    ) {
        seq!['\\']
    } else {
        Seq::empty()
    }));
    let mut at: usize = 0;
    assert(parts.take(0) =~= Seq::<Seq<char>>::empty());
    assert(head + run_on(parts.take(0)) =~= head);
    while at < all.len()
        invariant
            at <= all.len(),
            crate::text::texts(all@) == parts,
            key@ == head + run_on(parts.take(at as int)),
        decreases all.len() - at,
    {
        key.append(all[at].as_str());
        key.push('\\');
        proof {
            let now = parts.take(at + 1);
            assert(parts[at as int] == all@[at as int]@);
            assert(now.drop_last() =~= parts.take(at as int));
            assert(now.last() == all@[at as int]@);
        }
        at = at + 1;
        assert(key@ =~= head + run_on(parts.take(at as int)));
    }
    assert(parts.take(at as int) =~= parts);
    key
}

/// Whether two texts are one path.
pub fn same_path(a: &str, b: &str) -> (same: bool)
    ensures
        same == (path_key(a@) == path_key(b@)),
{
    key_of_path(a) == key_of_path(b)
}

/// Whether two optional texts are one path, or both none.
pub fn same_maybe_path(a: &Option<String>, b: &Option<String>) -> (same: bool)
    ensures
        same == (maybe_key(crate::text::maybe(*a)) == maybe_key(crate::text::maybe(*b))),
{
    match (a, b) {
        (Some(a), Some(b)) => same_path(a.as_str(), b.as_str()),
        (None, None) => true,
        _ => false,
    }
}

/// Whether two lists are of the same paths.
pub fn same_paths(a: &Vec<String>, b: &Vec<String>) -> (same: bool)
    ensures
        same == (path_keys(a@) == path_keys(b@)),
{
    if a.len() != b.len() {
        assert(path_keys(a@).len() != path_keys(b@).len());
        return false;
    }
    let mut at: usize = 0;
    while at < a.len()
        invariant
            a.len() == b.len(),
            at <= a.len(),
            forall|i: int| 0 <= i < at ==> path_key(#[trigger] a@[i]@) == path_key(b@[i]@),
        decreases a.len() - at,
    {
        if !same_path(a[at].as_str(), b[at].as_str()) {
            assert(path_keys(a@)[at as int] != path_keys(b@)[at as int]);
            return false;
        }
        at = at + 1;
    }
    assert(path_keys(a@) =~= path_keys(b@));
    true
}

fn walk(names: Vec<String>, more: &Vec<String>) -> (walk: Vec<String>)
    ensures
        crate::text::texts(walk@) == walked(
            crate::text::texts(names@),
            crate::text::texts(more@),
        ),
{
    let ghost start = crate::text::texts(names@);
    let ghost steps = crate::text::texts(more@);
    let mut walk = names;
    let mut at: usize = 0;
    assert(steps.take(0) =~= Seq::<Seq<char>>::empty());
    while at < more.len()
        invariant
            at <= more.len(),
            steps == crate::text::texts(more@),
            crate::text::texts(walk@) == walked(start, steps.take(at as int)),
        decreases more.len() - at,
    {
        let ghost before = walk@;
        proof {
            let now = steps.take(at + 1);
            assert(now.drop_last() =~= steps.take(at as int));
            assert(now.last() == more@[at as int]@);
            assert(crate::text::texts(before).len() == before.len());
        }
        if is_dots(more[at].as_str()) {
            if walk.len() > 0 {
                let last = walk[walk.len() - 1].as_str();
                assert(crate::text::texts(before).last() == last@);
                if !is_dot(last) && !is_dots(last) {
                    walk.pop();
                    assert(crate::text::texts(walk@) =~= crate::text::texts(before).drop_last());
                }
            }
        } else if !is_dot(more[at].as_str()) {
            walk.push(more[at].clone());
            assert(crate::text::texts(walk@) =~= crate::text::texts(before).push(
                more@[at as int]@,
            ));
        }
        at = at + 1;
    }
    assert(steps.take(at as int) =~= steps);
    walk
}

fn write_names(text: &mut String, names: &Vec<String>)
    ensures
        final(text)@ == old(text)@ + written(crate::text::texts(names@)),
{
    let ghost start = text@;
    let ghost all = crate::text::texts(names@);
    let mut at: usize = 0;
    assert(all.take(0) =~= Seq::<Seq<char>>::empty());
    assert(start + written(all.take(0)) =~= start);
    while at < names.len()
        invariant
            at <= names.len(),
            all == crate::text::texts(names@),
            text@ == start + written(all.take(at as int)),
        decreases names.len() - at,
    {
        text.push('\\');
        text.append(names[at].as_str());
        proof {
            let now = all.take(at + 1);
            assert(now.drop_last() =~= all.take(at as int));
            assert(now.last() == names@[at as int]@);
        }
        at = at + 1;
        assert(text@ =~= start + written(all.take(at as int)));
    }
    assert(all.take(at as int) =~= all);
}

fn resolve(folder: &Vec<char>, relative: &Vec<char>) -> (path: String)
    ensures
        path@ == resolved(folder@, relative@),
{
    let (above, below) = (shape_of(folder), shape_of(relative));
    let start: Vec<String> = if below.separated {
        let none: Vec<String> = Vec::new();
        assert(crate::text::texts(none@) =~= Seq::<Seq<char>>::empty());
        none
    } else {
        names(folder, &above)
    };
    let all = walk(start, &names(relative, &below));
    let mut path = text_of(folder, 0, above.end);
    assert(path@ =~= folder@.take(above.end as int));
    assert(crate::text::texts(all@).len() == all.len());
    if all.len() == 0 && (above.separated || below.separated) {
        path.push('\\');
    } else {
        write_names(&mut path, &all);
    }
    path
}

/// `relative` under `folder`.
pub fn join(folder: &str, relative: &str) -> (path: String)
    ensures
        path@ == joined(folder@, relative@),
{
    let (above, below) = (chars_of(folder), chars_of(relative));
    let (shape, rest) = (shape_of(&above), shape_of(&below));
    if rest.opening != Opening::Bare {
        return relative.to_owned();
    }
    if shape.verbatim && below.len() > 0 {
        return resolve(&above, &below);
    }
    if rest.separated {
        let prefix = text_of(&above, 0, shape.end);
        assert(prefix@ =~= folder@.take(shape.end as int));
        return join2(prefix.as_str(), relative);
    }
    if above.len() == 0 || separates(above[above.len() - 1]) || (shape.opening == Opening::Drive
        && above.len() == 2) {
        join2(folder, relative)
    } else {
        let mut path = folder.to_owned();
        path.push('\\');
        join2(path.as_str(), relative)
    }
}

/// `path` written anew: one separator between its components, and none behind the last.
pub fn rewrite(path: &str) -> (text: String)
    ensures
        text@ == rewritten(path@),
{
    let chars = chars_of(path);
    let shape = shape_of(&chars);
    let mut text = text_of(&chars, 0, shape.end);
    assert(text@ =~= path@.take(shape.end as int));
    if shape.separated || shape.opening == Opening::Share || shape.opening == Opening::Device {
        let mut root = String::new();
        root.push('\\');
        assert(root@ =~= seq!['\\']);
        text = join(text.as_str(), root.as_str());
    }
    let all = names(&chars, &shape);
    let ghost parts = components(path@);
    let ghost start = text@;
    let mut at: usize = 0;
    assert(parts.take(0) =~= Seq::<Seq<char>>::empty());
    while at < all.len()
        invariant
            at <= all.len(),
            crate::text::texts(all@) == parts,
            text@ == gathered(start, parts.take(at as int)),
        decreases all.len() - at,
    {
        text = join(text.as_str(), all[at].as_str());
        proof {
            let now = parts.take(at + 1);
            assert(now.drop_last() =~= parts.take(at as int));
            assert(now.last() == all@[at as int]@);
        }
        at = at + 1;
    }
    assert(parts.take(at as int) =~= parts);
    text
}

} // verus!
