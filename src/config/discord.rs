use vstd::prelude::*;

use crate::config::{ConfigError, ConfigStore, DiscordConfig};

verus! {

/// The webhook section of the stored configuration.
pub fn config(store: &ConfigStore) -> (r: Result<&DiscordConfig, ConfigError>)
    ensures
        store.current() matches Some(c) ==> r == Ok::<&DiscordConfig, ConfigError>(&c.discord),
        store.current() is None ==> r is Err,
{
    match super::config(store) {
        Ok(c) => Ok(&c.discord),
        Err(e) => Err(e),
    }
}

/// The webhook URL that notifications are posted to.
pub fn webhook_url(store: &ConfigStore) -> (r: Result<String, ConfigError>)
    ensures
        store.current() matches Some(c) ==> (r matches Ok(u) && u@ == c.discord.webhook_url@),
        store.current() is None ==> r is Err,
{
    match config(store) {
        Ok(c) => Ok(c.webhook_url.clone()),
        Err(e) => Err(e),
    }
}

} // verus!
