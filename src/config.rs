use vstd::prelude::*;

verus! {

/// Startup parameters of the service.
pub struct Config {
    /// Path of the ledger store.
    pub ledger_path: String,
    /// IP address to bind.
    pub bind_addr: String,
    /// Port to listen on.
    pub port: u16,
}

} // verus!
