//! The storage of the application: where its files lie, and the one
//! configuration that every feature reads them through.

pub mod config;

use vstd::prelude::*;
use crate::storage::config::StorageConfig;

verus! {

/// Why the storage configuration cannot be had.
#[derive(Debug, Clone, Copy, PartialEq, Eq, Structural)]
pub enum StorageError {
    /// The storage was not initialised.
    NotInitialized,
}

/// Initialises the storage: the slot holds the configuration of the
/// installation in `install_dir` from now on.
pub fn init_storage(slot: &mut Option<StorageConfig>, install_dir: String)
    ensures
        *final(slot) is Some,
        (*final(slot))->0.wf(),
        (*final(slot))->0.install_dir@ == install_dir@,
{
    *slot = Some(StorageConfig::new(install_dir));
}

/// A copy of the configuration in the slot; an error before
/// [`init_storage`].
pub fn get_storage_config(slot: &Option<StorageConfig>) -> (r: Result<StorageConfig, StorageError>)
    ensures
        match *slot {
            Some(config) => r == Ok::<StorageConfig, StorageError>(config),
            None => r == Err::<StorageConfig, StorageError>(StorageError::NotInitialized),
        },
{
    match slot {
        Some(config) => Ok(config.clone()),
        None => Err(StorageError::NotInitialized),
    }
}

} // verus!
