//! The fully-resolved client configuration the engine starts from. Reading
//! and merging a configuration file happens outside; this is the shape it
//! resolves to, with the documented defaults.

use vstd::prelude::*;

use crate::fetch::IpSource;
use crate::providers::cloudflare::Cloudflare;
use crate::providers::porkbun::Porkbun;
use crate::record::IpVersion;

verus! {

/// One configured DNS update provider.
#[derive(Debug, Clone)]
pub enum ProviderConfig {
    Cloudflare(Cloudflare),
    Porkbun(Porkbun),
}

/// Client configuration. Durations are whole seconds.
#[derive(Debug, Clone)]
pub struct Config {
    /// Interval between address checks, in seconds.
    pub interval: u64,
    /// Source for address checks.
    pub source: IpSource,
    /// IP versions to check and update.
    pub versions: Vec<IpVersion>,
    /// Compute and log updates without applying them.
    pub dry_run: bool,
    /// Total request timeout, in seconds.
    pub timeout: u64,
    /// Request connect timeout, in seconds.
    pub connect_timeout: u64,
    /// Path prefix the cache file is placed under.
    pub cache_path: String,
    /// HTTP echo services for IPv4 checks, tried in order.
    pub http_ipv4: Vec<String>,
    /// HTTP echo services for IPv6 checks, tried in order.
    pub http_ipv6: Vec<String>,
    /// DNS update providers.
    pub providers: Vec<ProviderConfig>,
}

impl Default for Config {
    /// The defaults: check IPv4 every 30 seconds over HTTP against three echo
    /// services, no dry run, no providers.
    fn default() -> (c: Config)
        ensures
            c.interval == 30,
            c.source is Http,
            c.versions@ =~= seq![IpVersion::V4],
            !c.dry_run,
            c.timeout == 10,
            c.connect_timeout == 5,
            c.cache_path@ == "/var/cache/ddrs/ddrs.bin"@,
            c.http_ipv4@.len() == 3,
            c.http_ipv4@[0]@ == "https://api.ipify.org"@,
            c.http_ipv4@[1]@ == "https://ipv4.seeip.org"@,
            c.http_ipv4@[2]@ == "https://ipv4.icanhazip.com"@,
            c.http_ipv6@.len() == 3,
            c.http_ipv6@[0]@ == "https://api6.ipify.org"@,
            c.http_ipv6@[1]@ == "https://ipv6.seeip.org"@,
            c.http_ipv6@[2]@ == "https://ipv6.icanhazip.com"@,
            c.providers@.len() == 0,
    {
        let mut versions: Vec<IpVersion> = Vec::new();
        versions.push(IpVersion::V4);
        let mut http_ipv4: Vec<String> = Vec::new();
        http_ipv4.push("https://api.ipify.org".to_owned());
        http_ipv4.push("https://ipv4.seeip.org".to_owned());
        http_ipv4.push("https://ipv4.icanhazip.com".to_owned());
        let mut http_ipv6: Vec<String> = Vec::new();
        http_ipv6.push("https://api6.ipify.org".to_owned());
        http_ipv6.push("https://ipv6.seeip.org".to_owned());
        http_ipv6.push("https://ipv6.icanhazip.com".to_owned());
        Config {
            interval: 30,
            source: IpSource::Http,
            versions,
            dry_run: false,
            timeout: 10,
            connect_timeout: 5,
            cache_path: "/var/cache/ddrs/ddrs.bin".to_owned(),
            http_ipv4,
            http_ipv6,
            providers: Vec::new(),
        }
    }
}

} // verus!
