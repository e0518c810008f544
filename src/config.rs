//! Connection profiles.
use vstd::prelude::*;

verus! {

/// Where one deployment is reached and with which credentials.
#[derive(Debug, Clone, PartialEq, Eq)]
pub struct Profile {
    pub name: String,
    pub host: String,
    pub port_infer: u16,
    pub port_manage: u16,
    pub client_token: String,
    pub admin_token: String,
}

} // verus!
