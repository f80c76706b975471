//! The storage backend seam: what the indexing layer asks of a store.

use vstd::prelude::*;

verus! {

/// A store the indexing layer can write to. Implementations live with the
/// store they wrap; errors are carried as text.
pub trait StorageBackend: Send + Sync {
    /// Reports whether the store is usable.
    fn health_check(&self) -> Result<(), String>;
}

/// The graph-database backed store.
pub struct HelixDbStorage;

impl StorageBackend for HelixDbStorage {
    fn health_check(&self) -> Result<(), String> {
        Ok(())
    }
}

} // verus!
