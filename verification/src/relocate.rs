//! The per-file work unit, split into its decisions: from the metadata
//! outcome decide the destination bucket directory and final path, then
//! classify the outcome of each filesystem step. The filesystem work itself
//! (metadata read, directory creation, rename) happens outside; each decision
//! here takes that outcome as an argument, so one failing item yields exactly
//! one `RelocationResult` and never unwinds.

use vstd::prelude::*;
use crate::bucket::{Bucket, path_join, four_digits, two_digits};
use crate::date::{date_of, utc_year_month};

verus! {

/// Why one relocation failed.
#[derive(Clone, Copy, Debug, PartialEq, Eq, Structural)]
pub enum FailureReason {
    /// The file's metadata or modification time could not be read.
    MetadataError,
    /// The bucket directory could not be created.
    DirectoryCreationError,
    /// The move into the bucket failed; the source file is left in place.
    RenameError,
}

/// The outcome of one relocation. Every work item produces exactly one.
#[derive(Clone, Copy, Debug, PartialEq, Eq, Structural)]
pub enum RelocationResult {
    /// The file was moved into its bucket.
    Success,
    /// The modification time had no usable calendar date; the filesystem was
    /// not touched.
    SkippedUndatable,
    Failed(FailureReason),
}

/// What remains to be done for one work item once its calendar date has been
/// decided.
pub enum MovePlan {
    /// Ensure `dir` exists, then rename the source to `dest`.
    Move { dir: String, dest: String },
    /// Nothing further: the item already has its result.
    Done(RelocationResult),
}

/// A modification time has a bucket when it converts to a calendar date
/// whose year a four-digit directory name can carry.
pub open spec fn datable(mtime: u64) -> bool {
    &&& mtime <= i64::MAX
    &&& date_of(mtime as i64) is Some
    &&& 0 <= date_of(mtime as i64).unwrap().0 <= 9999
}

/// The bucket directory a datable modification time maps to, under a root.
pub open spec fn bucket_dir_of(root: Seq<char>, mtime: u64) -> Seq<char>
    recommends
        datable(mtime),
{
    let (year, month) = date_of(mtime as i64).unwrap();
    path_join(path_join(root, four_digits(year as int)), two_digits(month as int))
}

/// Decide what to do with one discovered file. `mtime` is the file's
/// modification time in seconds since the Unix epoch, `None` when the
/// metadata read failed.
///
/// A failed metadata read is a failure; a time without a usable calendar
/// date is a skip and touches nothing; otherwise the move proceeds into
/// `<working_root>/<YYYY>/<MM>/<filename>`.
pub fn plan_move(mtime: Option<u64>, working_root: &str, filename: &str) -> (r: MovePlan)
    ensures
        mtime is None ==> (r matches MovePlan::Done(res) && res == RelocationResult::Failed(
            FailureReason::MetadataError,
        )),
        mtime matches Some(t) ==> (!datable(t) ==> (r matches MovePlan::Done(res) && res
            == RelocationResult::SkippedUndatable)),
        mtime matches Some(t) ==> (datable(t) ==> (r matches MovePlan::Move { dir, dest }
            && dir@ == bucket_dir_of(working_root@, t) && dest@ == path_join(
            bucket_dir_of(working_root@, t),
            filename@,
        ))),
{
    let t = match mtime {
        None => {
            return MovePlan::Done(RelocationResult::Failed(FailureReason::MetadataError));
        },
        Some(t) => t,
    };
    if t > i64::MAX as u64 {
        return MovePlan::Done(RelocationResult::SkippedUndatable);
    }
    let date = match utc_year_month(t as i64) {
        None => {
            return MovePlan::Done(RelocationResult::SkippedUndatable);
        },
        Some(d) => d,
    };
    let bucket = match Bucket::for_date(date.0, date.1) {
        None => {
            return MovePlan::Done(RelocationResult::SkippedUndatable);
        },
        Some(b) => b,
    };
    let dir = bucket.dir_under(working_root);
    let dest = crate::bucket::joined(dir.as_str(), filename);
    MovePlan::Move { dir, dest }
}

/// How the attempt to ensure the bucket directory exists went.
#[derive(Clone, Copy, Debug, PartialEq, Eq, Structural)]
pub enum DirOutcome {
    /// The directory was created by this attempt.
    Created,
    /// Another relocation (or an earlier run) created it first.
    AlreadyExisted,
    /// The directory could not be created.
    CreationFailed,
}

/// What follows the directory step.
#[derive(Clone, Copy, Debug, PartialEq, Eq, Structural)]
pub enum AfterDir {
    /// The bucket directory exists: go on to the rename.
    Proceed,
    Done(RelocationResult),
}

/// Decide after the attempt to create the bucket directory. A directory that
/// a concurrent relocation targeting the same bucket already created counts
/// as success, exactly as one this attempt created; only a genuine creation
/// failure ends the item.
pub fn after_dir_create(outcome: DirOutcome) -> (r: AfterDir)
    ensures
        r == AfterDir::Proceed <==> outcome != DirOutcome::CreationFailed,
        outcome == DirOutcome::CreationFailed ==> r == AfterDir::Done(
            RelocationResult::Failed(FailureReason::DirectoryCreationError),
        ),
{
    match outcome {
        DirOutcome::Created => AfterDir::Proceed,
        DirOutcome::AlreadyExisted => AfterDir::Proceed,
        DirOutcome::CreationFailed => AfterDir::Done(
            RelocationResult::Failed(FailureReason::DirectoryCreationError),
        ),
    }
}

/// Decide after the rename. A failed rename is reported and nothing else is
/// attempted: the source file stays at its original path.
pub fn after_rename(renamed: bool) -> (r: RelocationResult)
    ensures
        renamed <==> r == RelocationResult::Success,
        !renamed ==> r == RelocationResult::Failed(FailureReason::RenameError),
{
    if renamed {
        RelocationResult::Success
    } else {
        RelocationResult::Failed(FailureReason::RenameError)
    }
}

} // verus!
