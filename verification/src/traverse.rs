//! Traversal decisions: what to do with the supplied root, and with each
//! directory entry met while walking. The walk is an explicit worklist of
//! directories still to be read; reading a directory is filesystem work done
//! outside, and each entry's classification comes back here as a plain value.

use vstd::prelude::*;

verus! {

/// How the filesystem classified the supplied root path.
#[derive(Clone, Copy, Debug, PartialEq, Eq, Structural)]
pub enum RootKind {
    /// The path does not exist.
    Missing,
    /// The path is a regular file.
    File,
    /// The path is a directory.
    Directory,
}

/// How a run starts.
#[derive(Clone, Copy, Debug, PartialEq, Eq, Structural)]
pub enum RootPlan {
    /// Nothing to do: the whole run fails fast and emits no work item.
    PathNotFound,
    /// Single-file mode: emit exactly the root itself, with its parent
    /// directory as the working root.
    SingleFile,
    /// Directory mode: walk the tree under the root, with the root itself as
    /// the working root.
    WalkTree,
}

/// Decide how to treat the supplied root. A missing path is the one fatal
/// error of a run; a regular file is relocated alone; a directory is walked.
pub fn plan_root(kind: RootKind) -> (r: RootPlan)
    ensures
        kind == RootKind::Missing <==> r == RootPlan::PathNotFound,
        kind == RootKind::File <==> r == RootPlan::SingleFile,
        kind == RootKind::Directory <==> r == RootPlan::WalkTree,
{
    match kind {
        RootKind::Missing => RootPlan::PathNotFound,
        RootKind::File => RootPlan::SingleFile,
        RootKind::Directory => RootPlan::WalkTree,
    }
}

/// How the filesystem classified one directory entry.
#[derive(Clone, Copy, Debug, PartialEq, Eq, Structural)]
pub enum EntryKind {
    /// A subdirectory: descend into it later.
    Directory,
    /// A regular file: one work item.
    RegularFile,
    /// The entry could not be read (permissions, or a race with a concurrent
    /// deletion).
    Unreadable,
}

/// What the traverser does with one entry.
#[derive(Clone, Copy, Debug, PartialEq, Eq, Structural)]
pub enum EntryAction {
    /// The entry joined the worklist of directories to read.
    Descend,
    /// The entry is a work item: send it to the execution layer.
    Emit,
    /// The entry was skipped; a diagnostic is surfaced and the walk of its
    /// siblings goes on.
    Skip,
}

/// The walk's own state: the directories discovered and not yet read. The
/// walk is over when none is pending (depth is unbounded; a symlink loop can
/// keep the worklist forever non-empty, a documented limitation).
pub struct Traversal {
    pending: Vec<String>,
}

impl Traversal {
    /// The directories still to be read, most recently discovered last.
    pub closed spec fn pending_dirs(self) -> Seq<Seq<char>> {
        self.pending@.map_values(|d: String| d@)
    }

    /// A walk starts with the root directory alone pending.
    pub fn new(root: String) -> (r: Traversal)
        ensures
            r.pending_dirs() == seq![root@],
    {
        let t = Traversal { pending: vec![root] };
        proof {
            assert(t.pending_dirs() =~= seq![t.pending@[0]@]);
        }
        t
    }

    /// Take one pending directory to read next, depth-first; `None` exactly
    /// when the walk is over.
    pub fn next_dir(&mut self) -> (r: Option<String>)
        ensures
            old(self).pending_dirs().len() == 0 ==> r is None && final(self).pending_dirs()
                == old(self).pending_dirs(),
            old(self).pending_dirs().len() > 0 ==> (r matches Some(d)
                && d@ == old(self).pending_dirs().last()
                && final(self).pending_dirs() == old(self).pending_dirs().drop_last()),
    {
        let r = self.pending.pop();
        proof {
            if old(self).pending_dirs().len() > 0 {
                assert(self.pending_dirs() =~= old(self).pending_dirs().drop_last());
            } else {
                assert(self.pending_dirs() =~= old(self).pending_dirs());
            }
        }
        r
    }

    /// Decide what to do with one entry of the directory being read: a
    /// subdirectory joins the worklist, a regular file is emitted, an
    /// unreadable entry is skipped without ending the walk.
    pub fn on_entry(&mut self, kind: EntryKind, path: String) -> (r: EntryAction)
        ensures
            kind == EntryKind::Directory ==> r == EntryAction::Descend
                && final(self).pending_dirs() == old(self).pending_dirs().push(path@),
            kind == EntryKind::RegularFile ==> r == EntryAction::Emit && final(self).pending_dirs()
                == old(self).pending_dirs(),
            kind == EntryKind::Unreadable ==> r == EntryAction::Skip && final(self).pending_dirs()
                == old(self).pending_dirs(),
    {
        match kind {
            EntryKind::Directory => {
                self.pending.push(path);
                proof {
                    assert(self.pending_dirs() =~= old(self).pending_dirs().push(path@));
                }
                EntryAction::Descend
            },
            EntryKind::RegularFile => EntryAction::Emit,
            EntryKind::Unreadable => EntryAction::Skip,
        }
    }

    /// Whether any directory is still to be read.
    pub fn is_done(&self) -> (r: bool)
        ensures
            r <==> self.pending_dirs().len() == 0,
    {
        self.pending.len() == 0
    }
}

} // verus!
