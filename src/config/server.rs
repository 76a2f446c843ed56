use vstd::prelude::*;

use crate::config::{ConfigError, ConfigStore, ServerConfig};

verus! {

/// The server section of the stored configuration.
pub fn config(store: &ConfigStore) -> (r: Result<&ServerConfig, ConfigError>)
    ensures
        store.current() matches Some(c) ==> r == Ok::<&ServerConfig, ConfigError>(&c.server),
        store.current() is None ==> r is Err,
{
    match super::config(store) {
        Ok(c) => Ok(&c.server),
        Err(e) => Err(e),
    }
}

/// The host to listen on.
pub fn host(store: &ConfigStore) -> (r: Result<String, ConfigError>)
    ensures
        store.current() matches Some(c) ==> (r matches Ok(h) && h@ == c.server.host@),
        store.current() is None ==> r is Err,
{
    match config(store) {
        Ok(c) => Ok(c.host.clone()),
        Err(e) => Err(e),
    }
}

/// The port to listen on.
pub fn port(store: &ConfigStore) -> (r: Result<u16, ConfigError>)
    ensures
        store.current() matches Some(c) ==> r == Ok::<u16, ConfigError>(c.server.port),
        store.current() is None ==> r is Err,
{
    match config(store) {
        Ok(c) => Ok(c.port),
        Err(e) => Err(e),
    }
}

} // verus!
