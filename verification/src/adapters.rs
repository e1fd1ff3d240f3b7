//! The accounts-domain adapter: carries the connection settings from the
//! shared HTTP client into an accounts client, fixed at construction.

use vstd::prelude::*;

verus! {

/// The shared connection settings a concrete transport is built from.
pub struct HttpClient {
    pub base_url: String,
    pub api_token: String,
}

/// A client scoped to the accounts domain; holds the connection settings it
/// was constructed with.
pub struct AccountsClient {
    pub base_url: String,
    pub api_token: String,
}

impl AccountsClient {
    /// Builds an accounts client over the given connection settings.
    pub fn new(base_url: String, api_token: String) -> (r: Self)
        ensures
            r.base_url == base_url,
            r.api_token == api_token,
    {
        AccountsClient { base_url, api_token }
    }
}

/// Adapts the shared HTTP client to the accounts domain.
pub struct AccountsAdapter {
    pub accounts_client: AccountsClient,
}

impl AccountsAdapter {
    /// Builds the adapter, copying the shared client's connection settings
    /// into a fresh accounts client.
    pub fn new(client: &HttpClient) -> (r: Self)
        ensures
            r.accounts_client.base_url == client.base_url,
            r.accounts_client.api_token == client.api_token,
    {
        let accounts_client = AccountsClient::new(client.base_url.clone(), client.api_token.clone());
        AccountsAdapter { accounts_client }
    }
}

} // verus!
