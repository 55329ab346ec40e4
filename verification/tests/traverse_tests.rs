use datesort::traverse::{plan_root, EntryAction, EntryKind, RootKind, RootPlan, Traversal};

#[test]
fn the_root_decides_the_mode() {
    assert_eq!(plan_root(RootKind::Missing), RootPlan::PathNotFound);
    assert_eq!(plan_root(RootKind::File), RootPlan::SingleFile);
    assert_eq!(plan_root(RootKind::Directory), RootPlan::WalkTree);
}

#[test]
fn files_are_emitted_and_directories_descended() {
    let mut walk = Traversal::new(String::from("root"));
    assert!(!walk.is_done());
    assert_eq!(walk.next_dir(), Some(String::from("root")));

    // Entries of root/: a.txt, b.txt, and the subdirectory sub.
    assert_eq!(
        walk.on_entry(EntryKind::RegularFile, String::from("root/a.txt")),
        EntryAction::Emit
    );
    assert_eq!(
        walk.on_entry(EntryKind::RegularFile, String::from("root/b.txt")),
        EntryAction::Emit
    );
    assert_eq!(
        walk.on_entry(EntryKind::Directory, String::from("root/sub")),
        EntryAction::Descend
    );

    assert_eq!(walk.next_dir(), Some(String::from("root/sub")));
    assert_eq!(
        walk.on_entry(EntryKind::RegularFile, String::from("root/sub/c.txt")),
        EntryAction::Emit
    );
    assert_eq!(walk.next_dir(), None);
    assert!(walk.is_done());
}

#[test]
fn an_unreadable_entry_is_skipped_and_the_walk_goes_on() {
    let mut walk = Traversal::new(String::from("root"));
    assert_eq!(walk.next_dir(), Some(String::from("root")));
    assert_eq!(
        walk.on_entry(EntryKind::Unreadable, String::from("root/locked")),
        EntryAction::Skip
    );
    // The sibling after the unreadable entry is still processed.
    assert_eq!(
        walk.on_entry(EntryKind::RegularFile, String::from("root/ok.txt")),
        EntryAction::Emit
    );
    assert_eq!(walk.next_dir(), None);
}

#[test]
fn the_walk_is_depth_first() {
    let mut walk = Traversal::new(String::from("r"));
    walk.next_dir();
    walk.on_entry(EntryKind::Directory, String::from("r/one"));
    walk.on_entry(EntryKind::Directory, String::from("r/two"));
    // The most recently discovered directory is read next.
    assert_eq!(walk.next_dir(), Some(String::from("r/two")));
    walk.on_entry(EntryKind::Directory, String::from("r/two/deep"));
    assert_eq!(walk.next_dir(), Some(String::from("r/two/deep")));
    assert_eq!(walk.next_dir(), Some(String::from("r/one")));
    assert_eq!(walk.next_dir(), None);
}
