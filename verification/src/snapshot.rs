//! The snapshot cache: one immutable copy of the profile table at a time,
//! swapped atomically, read without coordination by any number of readers.
//!
//! The cell itself comes from the `arc-swap` crate; this module trusts only
//! that a load returns a previously stored pointer, and keeps the
//! discipline that every stored table is well-formed.

use vstd::prelude::*;
use std::sync::Arc;
use crate::profile::TrafficProfile;
use crate::table::{ProfileTable, table_get};

verus! {

/// The atomically swappable cell, held opaquely: `arc_swap`'s strategy
/// type cannot be named here, so the cell hides behind this struct and is
/// touched only through the three wrappers below.
#[verifier::external_body]
struct SwapCell {
    cell: arc_swap::ArcSwap<ProfileTable>,
}

/// Relies on arc_swap::ArcSwapAny::new: the cell starts out holding the
/// given pointer.  Requiring a well-formed table here keeps the module's
/// discipline that `cell_load`'s promise rests on: nothing but well-formed
/// tables ever enter the cell.
#[verifier::external_body]
fn cell_new(table: Arc<ProfileTable>) -> SwapCell
    requires
        table.wf(),
{
    SwapCell { cell: arc_swap::ArcSwap::new(table) }
}

/// Relies on arc_swap::ArcSwapAny::load_full: the returned pointer is one
/// that was stored into the cell (or the one it started with), never a
/// partially written value.  Every table this module stores is
/// well-formed, so the loaded one is.
#[verifier::external_body]
fn cell_load(cell: &SwapCell) -> (r: Arc<ProfileTable>)
    ensures
        r.wf(),
{
    cell.cell.load_full()
}

/// Relies on arc_swap::ArcSwapAny::store: the cell's pointer is replaced
/// atomically; readers holding the old pointer keep a consistent table.
#[verifier::external_body]
fn cell_store(cell: &SwapCell, table: Arc<ProfileTable>)
    requires
        table.wf(),
{
    cell.cell.store(table)
}

/// A published, atomically swappable snapshot of the profile table.
/// Clones share the same cell.
pub struct SnapshotCache {
    cell: Arc<SwapCell>,
}

impl SnapshotCache {
    /// A cache starting from the empty table.
    pub fn new() -> Self {
        SnapshotCache { cell: Arc::new(cell_new(Arc::new(ProfileTable::new()))) }
    }

    /// Publish a new table; readers already holding the old snapshot keep
    /// seeing it unchanged.
    pub fn publish(&self, table: ProfileTable)
        requires
            table.wf(),
    {
        cell_store(&self.cell, Arc::new(table));
    }

    /// The current snapshot: a point-in-time-consistent, well-formed
    /// table.
    pub fn current(&self) -> (r: Arc<ProfileTable>)
        ensures
            r.wf(),
    {
        cell_load(&self.cell)
    }

    /// Look one profile up in the current snapshot.
    pub fn get(&self, key: &str) -> (r: Option<TrafficProfile>)
        ensures
            r matches Some(p) ==> exists|t: ProfileTable|
                t.wf() && (#[trigger] table_get(t@, key@) matches Some(q) && crate::profile::profile_eq(q, p)),
    {
        let snapshot = self.current();
        let table_ref: &ProfileTable = &snapshot;
        match table_ref.get(key) {
            Some(p) => {
                let ghost t = *table_ref;
                let cloned = p.clone();
                proof {
                    assert(table_get(t@, key@) matches Some(q) && crate::profile::profile_eq(q, cloned));
                    assert(exists|tt: ProfileTable|
                        tt.wf() && (#[trigger] table_get(tt@, key@) matches Some(q) && crate::profile::profile_eq(
                            q,
                            cloned,
                        ))) by {
                        assert(t.wf() && (table_get(t@, key@) matches Some(q) && crate::profile::profile_eq(
                            q,
                            cloned,
                        )));
                    }
                }
                Some(cloned)
            },
            None => None,
        }
    }

    /// How many profiles the current snapshot holds.
    pub fn count(&self) -> usize {
        let snapshot = self.current();
        snapshot.len()
    }
}

impl Clone for SnapshotCache {
    /// A clone shares the same cell: both see every later publish.
    fn clone(&self) -> Self {
        SnapshotCache { cell: Arc::clone(&self.cell) }
    }
}

} // verus!
