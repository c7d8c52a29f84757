//! Pairwise merge-compatibility analysis for the branches of a git
//! repository.
//!
//! For every unordered pair of a branch list the engine determines whether
//! merging one branch into the other would be a fast-forward, a no-op, a
//! normal merge that resolves cleanly, or a normal merge with real
//! conflicts.  Normal pairs are probed by a trial three-way tree merge
//! whose result is only inspected, never committed; afterwards the
//! repository is hard-reset to the position captured before the run, so
//! the whole analysis is read-only from the caller's point of view.
//!
//! The repository operations themselves are delegated to the `git2`
//! backend through the trusted facade in [`backend`]; everything that
//! decides — flag classification, pair enumeration, the per-pair protocol
//! of classify, trial-merge and restore — is verified.

pub mod analysis;
pub mod backend;
pub mod engine;
pub mod guard;
pub mod outcome;
pub mod pairs;
