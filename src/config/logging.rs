use vstd::prelude::*;

use crate::config::{ConfigError, ConfigStore, LoggingConfig};

verus! {

/// The logging section of the stored configuration.
pub fn config(store: &ConfigStore) -> (r: Result<&LoggingConfig, ConfigError>)
    ensures
        store.current() matches Some(c) ==> r == Ok::<&LoggingConfig, ConfigError>(&c.logging),
        store.current() is None ==> r is Err,
{
    match super::config(store) {
        Ok(c) => Ok(&c.logging),
        Err(e) => Err(e),
    }
}

/// The log level.
pub fn level(store: &ConfigStore) -> (r: Result<String, ConfigError>)
    ensures
        store.current() matches Some(c) ==> (r matches Ok(l) && l@ == c.logging.level@),
        store.current() is None ==> r is Err,
{
    match config(store) {
        Ok(c) => Ok(c.level.clone()),
        Err(e) => Err(e),
    }
}

/// The log file, if one is set.
pub fn file(store: &ConfigStore) -> (r: Result<Option<String>, ConfigError>)
    ensures
        store.current() matches Some(c) ==> (r matches Ok(f) && match c.logging.file {
            Some(p) => f matches Some(q) && q@ == p@,
            None => f is None,
        }),
        store.current() is None ==> r is Err,
{
    match config(store) {
        Ok(c) => match &c.file {
            Some(p) => Ok(Some(p.clone())),
            None => Ok(None),
        },
        Err(e) => Err(e),
    }
}

} // verus!
