//! The boundary to the provider API: the key handed to the HTTP client,
//! the typed resource records, and the error taxonomy of a failed fetch.
//!
//! The engine never talks to the network itself.  A caller performs one
//! authenticated read per resource kind and hands over either the typed
//! records declared in [`resources`] or one of the errors declared here.

use vstd::prelude::*;

pub mod resources;

pub use resources::Account;
pub use resources::Balance;
pub use resources::CdnEndpoint;
pub use resources::CdnEndpoints;
pub use resources::Droplet;
pub use resources::DropletSize;
pub use resources::DropletStatus;
pub use resources::Droplets;
pub use resources::FloatingIp;
pub use resources::FloatingIps;
pub use resources::Region;
pub use resources::VPC;
pub use resources::VPCs;

verus! {

/// A single API key for the provider.
pub struct ApiKey {
    /// The underlying key string.
    pub key: String,
}

impl core::convert::From<String> for ApiKey {
    fn from(k: String) -> (r: Self) {
        ApiKey { key: k }
    }
}

impl vstd::std_specs::convert::FromSpecImpl<String> for ApiKey {
    open spec fn obeys_from_spec() -> bool {
        true
    }

    open spec fn from_spec(k: String) -> ApiKey {
        ApiKey { key: k }
    }
}

impl<'a> core::convert::From<&'a str> for ApiKey {
    fn from(k: &'a str) -> (r: Self) {
        ApiKey { key: k.to_owned() }
    }
}

impl<'a> vstd::std_specs::convert::FromSpecImpl<&'a str> for ApiKey {
    // a spec value of `String` cannot be built from a `&str` here, so this
    // conversion promises nothing
    open spec fn obeys_from_spec() -> bool {
        false
    }

    open spec fn from_spec(k: &'a str) -> ApiKey {
        arbitrary()
    }
}

/// Why a raw read against the provider API failed.
#[derive(Clone, Copy, Debug, PartialEq, Eq, Structural)]
pub enum GetError {
    /// Performing the request itself went wrong: a transport, connection
    /// or timeout fault, before any response was read.
    Transport,
    /// The response carried an unexpected status code.
    Status(u16),
    /// The response payload was not well-formed JSON.
    Decode,
}

/// Why loading a typed resource failed.
#[derive(Clone, Copy, Debug, PartialEq, Eq, Structural)]
pub enum GetResouceError {
    /// The raw read itself failed.
    GetResource(GetError),
    /// The payload was missing the wrapper key that should hold the
    /// resource data.
    MissingData,
    /// The resource data did not have the expected shape.
    Decode,
}

impl core::convert::From<GetError> for GetResouceError {
    fn from(e: GetError) -> (r: Self) {
        GetResouceError::GetResource(e)
    }
}

impl vstd::std_specs::convert::FromSpecImpl<GetError> for GetResouceError {
    open spec fn obeys_from_spec() -> bool {
        true
    }

    open spec fn from_spec(e: GetError) -> GetResouceError {
        GetResouceError::GetResource(e)
    }
}

/// Decides whether a response status code counts as success: exactly the
/// status 200 does, anything else aborts the fetch with that code.
pub fn check_status(status: u16) -> (r: Result<(), GetError>)
    ensures
        r is Ok <==> status == 200,
        r is Err ==> r->Err_0 == GetError::Status(status),
{
    if status == 200 {
        Ok(())
    } else {
        Err(GetError::Status(status))
    }
}

} // verus!
