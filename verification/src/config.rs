//! The two settings the surrounding process hands the core: where to listen
//! and where the database file lives.

use vstd::prelude::*;

verus! {

/// Service configuration as the bootstrap supplies it.
pub struct SdkConfig {
    /// The address the HTTP front end binds to.
    pub http_addr: String,
    /// The path of the database file backing the account store.
    pub db_file: String,
}

} // verus!
