use fastpad::paths::{
    extension, file_name, file_stem, join, key_of_path, parent, rewrite, same_maybe_path, same_path,
    same_paths,
};

#[test]
fn paths_are_joined_and_taken_apart() {
    assert_eq!(join("C:\\Notes", "a.md"), "C:\\Notes\\a.md");
    assert_eq!(join("C:\\", "a.md"), "C:\\a.md");
    assert_eq!(join("", "a.md"), "a.md");
    assert_eq!(join("C:", "a.md"), "C:a.md", "the drive's own current folder");
    assert_eq!(parent("work\\old\\a.md").as_deref(), Some("work\\old"));
    assert_eq!(parent("a.md").as_deref(), Some(""));
    assert_eq!(file_name("work/a.md"), "a.md");
    assert_eq!(file_stem("work\\a.tar.gz"), "a.tar");
    assert_eq!(file_stem(".profile"), ".profile");
    assert_eq!(extension("a.tar.gz").as_deref(), Some("gz"));
    assert_eq!(extension("C:\\x.d\\notes"), None);
    assert_eq!(extension(".profile"), None);
}

#[test]
fn a_file_name_is_the_last_component_that_stands_for_something() {
    assert_eq!(file_name("a/b/"), "b");
    assert_eq!(file_name("a\\."), "a");
    assert_eq!(file_name("a\\.\\"), "a");
    assert_eq!(file_name("C:todo.md"), "todo.md");
    assert_eq!(file_name("C:\\todo.md"), "todo.md");
    assert_eq!(file_name("\\\\server\\share\\todo.md"), "todo.md");
    assert_eq!(file_name("a\\..."), "...");
    for whole in ["..", "a\\..", "C:\\", "C:", "\\", "", ".", "\\\\server\\share"] {
        assert_eq!(file_name(whole), whole, "no file name");
        assert_eq!(file_stem(whole), whole);
        assert_eq!(extension(whole), None);
    }
    assert_eq!(file_stem("a.b/c.md/"), "c");
    assert_eq!(extension("a.b/c.md/").as_deref(), Some("md"));
}

#[test]
fn a_root_keeps_its_separator_as_a_parent() {
    let above = |path: &str| parent(path);
    assert_eq!(above("C:\\a").as_deref(), Some("C:\\"));
    assert_eq!(above("\\a").as_deref(), Some("\\"));
    assert_eq!(above("C:a").as_deref(), Some("C:"));
    assert_eq!(above("\\\\s\\h\\f").as_deref(), Some("\\\\s\\h\\"));
    assert_eq!(above("a\\.\\b\\").as_deref(), Some("a"));
    assert_eq!(above(".\\b").as_deref(), Some("."));
    assert_eq!(above(".").as_deref(), Some(""));
    for top in ["C:\\", "C:", "\\", "", "\\\\s\\h", "\\\\s\\h\\"] {
        assert_eq!(above(top), None);
    }
}

#[test]
fn a_first_dot_stays_after_a_drive() {
    assert_eq!(parent(r"C:.\b").as_deref(), Some("C:."));
    assert_eq!(parent("C:."), None);
    assert_eq!(file_name("C:."), "C:.");
}

#[test]
fn only_a_backslash_separates_in_a_verbatim_path() {
    assert_eq!(file_name(r"\\?\C:\a/b"), "a/b");
    assert_eq!(parent(r"\\?\C:\a/b").as_deref(), Some(r"\\?\C:\"));
    assert_eq!(file_name(r"\\?\C:\a\."), r"\\?\C:\a\.", "a component like any other");
    assert_eq!(parent(r"\\?\C:\a\.").as_deref(), Some(r"\\?\C:\a"));
    assert_eq!(file_name(r"\\?\UNC\s\h\f.md"), "f.md");
    assert_eq!(parent(r"\\?\UNC\s\h\f.md").as_deref(), Some(r"\\?\UNC\s\h\"));
    assert_eq!(file_name(r"\\?\pics\of\cats.png"), "cats.png");
    assert_eq!(file_name(r"//?/C:/a"), "a", "a share named ?");
    assert_eq!(parent(r"//?/C:/a").as_deref(), Some("//?/C:/"));
    for top in [r"\\?\C:", r"\\?\C:\", r"\\?\UNC\s\h", r"\\?\UNC\s", r"\\?\pics", r"\\.\COM42"] {
        assert_eq!(parent(top), None);
        assert_eq!(file_name(top), top);
    }
}

#[test]
fn a_joined_path_with_a_root_or_a_drive_replaces_the_folder() {
    assert_eq!(join(r"C:\notes", r"D:\a.md"), r"D:\a.md");
    assert_eq!(join(r"C:\notes", "D:a.md"), "D:a.md");
    assert_eq!(join(r"C:\notes", r"\\s\h\a.md"), r"\\s\h\a.md");
    assert_eq!(join(r"C:\notes", r"\a.md"), r"C:\a.md");
    assert_eq!(join(r"\\s\h\notes", "/a.md"), r"\\s\h/a.md");
    assert_eq!(join("notes", r"\a.md"), r"\a.md");
    assert_eq!(join(r"C:\notes", ""), r"C:\notes\");
    assert_eq!(join("C:", r"..\foo\."), r"C:..\foo\.");
}

#[test]
fn a_verbatim_folder_takes_no_ways_up() {
    assert_eq!(join(r"\\?\C:\bar", "../foo"), r"\\?\C:\foo");
    assert_eq!(join(r"\\?\C:\bar", "../../foo"), r"\\?\C:\foo");
    assert_eq!(join(r"\\?\C:\", "../foo"), r"\\?\C:\foo");
    assert_eq!(join(r"\\?\A:\x\y", "/foo"), r"\\?\A:\foo");
    assert_eq!(join(r"\\?\A:\x\y", r"..\foo\."), r"\\?\A:\x\foo");
    assert_eq!(join(r"\\?\A:\x\y", r"\"), r"\\?\A:\");
    assert_eq!(join(r"\\?\C:", "a"), r"\\?\C:\a");
    assert_eq!(join(r"\\?\C:\a", ".."), r"\\?\C:\");
    assert_eq!(join(r"\\?\C:\a", ""), r"\\?\C:\a\");
}

#[test]
fn paths_are_one_where_their_components_are() {
    for (a, b) in [
        ("a/b.md", r"a\b.md"),
        ("a//b/", r"a\b"),
        (r"a\.\b", r"a\b"),
        (r"c:\a", "C:/a"),
        (r"\\s\h", "//s/h/"),
        (r"\\?\c:\a", r"\\?\C:\a\"),
        (r"C:.\a", "C:a"),
    ] {
        assert!(same_path(a, b), "{a} and {b}");
        assert_eq!(key_of_path(a), key_of_path(b));
    }
    for (a, b) in [
        ("a", "A"),
        (r".\a", "a"),
        (r"a\..\b", "b"),
        (r"C:\a", "C:a"),
        (r"C:\a", r"\\?\C:\a"),
        (r"\\?\C:\a/b", r"\\?\C:\a\b"),
        (r"\\?\C:", r"\\?\C:\"),
        ("//?/C:/a", r"\\?\C:\a"),
        (r"\a", "a"),
        ("", "."),
    ] {
        assert!(!same_path(a, b), "{a} and {b}");
    }
    let some = |path: &str| Some(path.to_owned());
    assert!(same_maybe_path(&some("a/b"), &some(r"a\b")) && same_maybe_path(&None, &None));
    assert!(!same_maybe_path(&some("a"), &None));
    let list = |paths: &[&str]| paths.iter().map(|path| (*path).to_owned()).collect::<Vec<_>>();
    assert!(same_paths(&list(&["a/b", "c"]), &list(&[r"a\b", "c/"])));
    assert!(!same_paths(&list(&["a", "b"]), &list(&["b", "a"])));
    assert!(!same_paths(&list(&["a"]), &list(&["a", "b"])));
}

#[test]
fn a_path_is_written_anew_from_its_components() {
    assert_eq!(rewrite("C:/a/./b//c/"), r"C:\a\b\c");
    assert_eq!(rewrite(r"\\s\h"), r"\\s\h\");
    assert_eq!(rewrite("C:a/b"), r"C:a\b");
    assert_eq!(rewrite("./a/"), r".\a");
    assert_eq!(rewrite("/"), r"\");
    assert_eq!(rewrite(r"\\?\C:\a\..\b"), r"\\?\C:\b");
    assert_eq!(rewrite(""), "");
}

#[test]
fn what_is_put_in_a_folder_lies_in_it_under_its_name() {
    for folder in ["a", r"C:\", "C:", "", ".", r"\\s\h", r"\\?\C:\x", "a/.", r"\\.\dev"] {
        let path = join(folder, "n.md");
        assert_eq!(file_name(&path), "n.md");
        assert!(same_path(&parent(&path).unwrap(), folder), "{path}");
    }
}
