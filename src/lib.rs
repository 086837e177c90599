pub mod auth;
pub mod http;
pub mod json;
pub mod transaction;
pub mod types;

use vstd::prelude::*;
use crate::types::{default_options, Service};

verus! {

/// The base URL of the sandbox gateway.
pub const SANDBOX_URL: &'static str = "https://devapi.mvola.mg";

/// The base URL of the production gateway.
pub const PRODUCTION_URL: &'static str = "https://api.mvola.mg";

/// The authentication and the transaction clients, against one base URL.
pub struct MVola {
    pub transaction: transaction::TransactionService,
    pub auth: auth::AuthService,
}

impl MVola {
    pub fn new(base_url: &str) -> (r: MVola)
        ensures
            r.auth.base_url@ == base_url@,
            r.transaction.base() == base_url@,
            r.transaction.authorization() is None,
            r.transaction.options() == default_options(),
    {
        MVola {
            auth: auth::AuthService::new(base_url),
            transaction: transaction::TransactionService::new(base_url),
        }
    }
}

} // verus!
