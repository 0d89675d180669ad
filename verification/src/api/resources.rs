//! Typed resource records, one group per resource kind.
//!
//! These are the shapes the provider's payloads decode into.  Amounts the
//! provider encodes as floating-point numbers or decimal strings are held
//! as [`FixedDec`] millionths, so the mappers can treat them exactly.

use crate::decimal::FixedDec;
use vstd::prelude::*;

verus! {

/// A single account and the limits associated with it.
#[derive(Debug, Clone)]
pub struct Account {
    /// The number of droplets the account may own at any given time.
    pub droplet_limit: u64,
    /// The email address of the account.
    pub email: String,
    /// Whether the email address has been verified.
    pub email_verified: bool,
    /// The number of floating IPs the account may own at any given time.
    pub floating_ip_limit: u64,
    /// The current status of the account.
    pub status: String,
    /// The UUID that uniquely identifies the account.
    pub uuid: String,
    /// The number of volumes the account may own at any given time.
    pub volume_limit: u64,
}

/// The balance of an account.  The provider encodes every amount as a
/// decimal string; they are parsed per field when the balance is mapped.
#[derive(Debug, Clone)]
pub struct Balance {
    /// The current account balance, as a decimal string.
    pub account_balance: String,
    /// When the balance was generated.
    pub generated_at: String,
    /// The balance with this month's usage already subtracted, as a
    /// decimal string.
    pub month_to_date_balance: String,
    /// The usage so far this month, as a decimal string.
    pub month_to_date_usage: String,
}

/// A single droplet.
#[derive(Debug, Clone)]
pub struct Droplet {
    /// The id that uniquely identifies the droplet.
    pub id: u64,
    /// The name of the droplet.
    pub name: String,
    /// The memory assigned to the droplet.
    pub memory: u64,
    /// The number of virtual CPU cores assigned to the droplet.
    pub vcpus: u64,
    /// The disk size assigned to the droplet.
    pub disk: u64,
    /// Whether the droplet is locked.
    pub locked: bool,
    /// The current status of the droplet.
    pub status: DropletStatus,
    /// When the droplet was created.
    pub created_at: String,
    /// The size class of the droplet.
    pub size: DropletSize,
    /// The region the droplet runs in.
    pub region: Region,
}

/// The status of a droplet.
#[derive(Clone, Copy, Debug, PartialEq, Eq, Structural)]
pub enum DropletStatus {
    /// The droplet is being created.
    New,
    /// The droplet is running.
    Active,
    /// The droplet is powered off.
    Off,
    /// The droplet has been archived.
    Archive,
}

/// The size class of a droplet.
#[derive(Debug, Clone)]
pub struct DropletSize {
    /// The slug that identifies the size class.
    pub slug: String,
    /// The memory of the size class.
    pub memory: u64,
    /// The number of virtual CPU cores of the size class.
    pub vcpus: u64,
    /// The disk size of the size class.
    pub disk: u64,
    /// The transfer bandwidth of the size class, in millionths.
    pub transfer: FixedDec,
    /// The monthly price of the size class, in millionths.
    pub price_monthly: FixedDec,
    /// The hourly price of the size class, in millionths.
    pub price_hourly: FixedDec,
    /// A description of the size class.
    pub description: String,
}

/// The droplets of an account, as returned by one fetch.
#[derive(Debug, Clone)]
pub struct Droplets {
    /// The fetched droplets.
    pub droplets: Vec<Droplet>,
}

/// A region of the provider.
#[derive(Debug, Clone)]
pub struct Region {
    /// The name of the region.
    pub name: String,
    /// The slug that uniquely identifies the region.
    pub slug: String,
}

/// A single floating IP.
#[derive(Debug, Clone)]
pub struct FloatingIp {
    /// The public IP address.
    pub ip: String,
    /// The region the floating IP lives in.
    pub region: Region,
}

/// The floating IPs of an account, as returned by one fetch.
#[derive(Debug, Clone)]
pub struct FloatingIps {
    /// The fetched floating IPs.
    pub floating_ips: Vec<FloatingIp>,
}

/// A single VPC.
#[derive(Debug, Clone)]
pub struct VPC {
    /// The name of the VPC.
    pub name: String,
    /// A short description of the VPC.
    pub description: String,
    /// The region the VPC lives in.
    pub region: String,
    /// The IP range that belongs to the VPC.
    pub ip_range: String,
    /// Whether this is the default VPC of its region.
    pub default: bool,
    /// The id of the VPC.
    pub id: String,
    /// The uniform resource name of the VPC.
    pub urn: String,
    /// When the VPC was created.
    pub created_at: String,
}

/// The VPCs of an account, as returned by one fetch.
#[derive(Debug, Clone)]
pub struct VPCs {
    /// The fetched VPCs.
    pub vpcs: Vec<VPC>,
}

/// A single CDN endpoint.
#[derive(Debug, Clone)]
pub struct CdnEndpoint {
    /// The id of the endpoint.
    pub id: String,
    /// The origin the endpoint serves from.
    pub origin: String,
    /// The address of the endpoint itself.
    pub endpoint: String,
    /// How long the endpoint's content is cached.
    pub ttl: u64,
    /// The id of the certificate served by the endpoint.
    pub certificate_id: String,
    /// The custom domain of the endpoint.
    pub custom_domain: String,
    /// When the endpoint was created.
    pub created_at: String,
}

/// The CDN endpoints of an account, as returned by one fetch.
#[derive(Debug, Clone)]
pub struct CdnEndpoints {
    /// The fetched endpoints.
    pub endpoints: Vec<CdnEndpoint>,
}

} // verus!
