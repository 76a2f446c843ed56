use vstd::prelude::*;

use crate::config::{ConfigError, ConfigStore, RadarrConfig};

verus! {

/// The monitored service's section of the stored configuration.
pub fn config(store: &ConfigStore) -> (r: Result<&RadarrConfig, ConfigError>)
    ensures
        store.current() matches Some(c) ==> r == Ok::<&RadarrConfig, ConfigError>(&c.radarr),
        store.current() is None ==> r is Err,
{
    match super::config(store) {
        Ok(c) => Ok(&c.radarr),
        Err(e) => Err(e),
    }
}

/// The service's base URL.
pub fn url(store: &ConfigStore) -> (r: Result<String, ConfigError>)
    ensures
        store.current() matches Some(c) ==> (r matches Ok(u) && u@ == c.radarr.url@),
        store.current() is None ==> r is Err,
{
    match config(store) {
        Ok(c) => Ok(c.url.clone()),
        Err(e) => Err(e),
    }
}

/// The service's API key.
pub fn apikey(store: &ConfigStore) -> (r: Result<String, ConfigError>)
    ensures
        store.current() matches Some(c) ==> (r matches Ok(k) && k@ == c.radarr.apikey@),
        store.current() is None ==> r is Err,
{
    match config(store) {
        Ok(c) => Ok(c.apikey.clone()),
        Err(e) => Err(e),
    }
}

} // verus!
