//! The connection settings an API call is made with.

use vstd::prelude::*;
use crate::text::owned;

verus! {

/// What a request to the Addness API is addressed with: the API base URL,
/// the credential, and the organization that the `X-Organization-ID` header
/// names (none when the header is left out).
#[derive(Debug)]
pub struct ApiClient {
    pub api_url: String,
    pub token: Option<String>,
    pub org_id: Option<String>,
}

fn clone_opt(v: &Option<String>) -> (r: Option<String>)
    ensures
        r == *v,
{
    match v {
        Some(s) => Some(s.clone()),
        None => None,
    }
}

/// A copy of `client` whose `X-Organization-ID` header targets `org_id`;
/// everything else is kept.
pub fn client_for_org(client: &ApiClient, org_id: &str) -> (r: ApiClient)
    ensures
        r.api_url == client.api_url,
        r.token == client.token,
        r.org_id matches Some(id) && id@ == org_id@,
{
    ApiClient { api_url: client.api_url.clone(), token: clone_opt(&client.token), org_id: Some(owned(org_id)) }
}

} // verus!
