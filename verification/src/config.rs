//! Runtime configuration: where the store lives and where the server
//! listens.  Reading these from the environment is the caller's business;
//! the library only carries the values.

use vstd::prelude::*;

verus! {

/// The two settings the platform starts from.
pub struct Config {
    pub database_url: String,
    pub server_addr: String,
}

impl Config {
    /// A configuration holding exactly the given values.
    pub fn new(database_url: String, server_addr: String) -> (c: Config)
        ensures
            c.database_url == database_url,
            c.server_addr == server_addr,
    {
        Config { database_url, server_addr }
    }
}

} // verus!
