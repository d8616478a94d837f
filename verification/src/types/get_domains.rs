//! List the email domains the service accepts.

use vstd::prelude::*;

use crate::client::{api_url, Client};

verus! {

/// The response shape of the domain-listing endpoint.  This endpoint has no
/// failure shape: the body always carries the list of supported domains,
/// which is handed to the caller unchanged.
#[derive(Debug, Clone)]
pub struct DomainsResponse {
    pub result: Vec<String>,
}

impl Client {
    /// The URL of the domain-listing endpoint.
    pub fn get_domains_url(&self) -> (u: String)
        ensures
            u@ == api_url() + "/domains"@,
    {
        let mut u = String::new();
        u.append("https://api.barid.site");
        u.append("/domains");
        proof {
            assert(u@ =~= api_url() + "/domains"@);
        }
        u
    }
}

} // verus!
