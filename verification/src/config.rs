//! Connection settings of the MCP client.

use vstd::prelude::*;

verus! {

/// The connection settings: the sync server, and the credentials to
/// use with it.
#[derive(Debug, Clone)]
pub struct CliArgs {
    /// URL of the Hammer sync server (e.g. http://localhost:8080)
    pub server_url: String,
    /// Email for automatic login
    pub email: Option<String>,
    /// Password for automatic login
    pub password: Option<String>,
    /// Install ID (a fresh UUID when not provided)
    pub install_id: Option<String>,
    /// Pre-set user ID (overrides the one that login reports)
    pub user_id: Option<i64>,
    /// Auth token (alternative to email/password login)
    pub auth_token: Option<String>,
}

} // verus!
