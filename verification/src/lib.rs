//! Sorts files into `<year>/<month>` bucket directories derived from their
//! last-modification timestamps, with a concurrent dispatch pipeline: a
//! traverser that discovers files, a bounded channel that carries work items,
//! an execution layer that relocates each file, and a coordinator that
//! detects completion. The calendar conversion is delegated to chrono; the
//! bucket computation, the per-item decisions and the pipeline bookkeeping
//! are verified.

pub mod bucket;
pub mod date;
pub mod pipeline;
pub mod pool;
pub mod relocate;
pub mod traverse;
