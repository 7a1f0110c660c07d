//! Border theme resolution for a tabular text-rendering engine.
//!
//! A [`theme::Theme`] is the canonical, backend-agnostic description of a
//! table's borders: one set of border characters, one set of border colors,
//! an optional special-cased separator at line index 1, and two sparse
//! index-to-line override collections.  A theme is produced from one of
//! several sources (an erased style builder, a raw border set, or an existing
//! backend configuration read back out) and is then applied onto a backend
//! configuration of one of three capability levels: a full dynamic backend
//! with per-line overrides and color, or one of two compact backends that
//! keep only the base border characters.
//!
//! Application is always clear-then-rebuild: the border state a backend holds
//! afterwards is a function of the theme alone.  The laws module states and
//! proves the ordering and merge rules this implies.

pub mod border;
pub mod config;
pub mod laws;
pub mod lines;
pub mod theme;
