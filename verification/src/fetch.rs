//! The fetching step of a tick: which source to ask, how per-version results
//! assemble into one update, and how a sequence of attempts against HTTP echo
//! services or a local interface list resolves to an address. The network and
//! interface enumeration happen outside; their observations come in as plain
//! values.

use vstd::prelude::*;

use crate::record::IpAddress;
use crate::record::IpUpdate;
use crate::record::IpVersion;

verus! {

/// A network interface named as the address source.
#[derive(Debug, Clone)]
pub struct IpSourceInterface {
    pub name: String,
}

/// Where the current address is discovered.
#[derive(Debug, Clone)]
pub enum IpSource {
    /// Ask external HTTP echo services.
    Http,
    /// Read a local network interface.
    Interface(IpSourceInterface),
}

/// The update assembled from per-version fetch results: each version that
/// yielded an address of its own family fills its field, a failed fetch or an
/// address of the wrong family leaves it, and a later result for the same
/// version wins.
pub open spec fn spec_collect_update(
    versions: Seq<IpVersion>,
    results: Seq<Option<IpAddress>>,
) -> IpUpdate
    recommends
        versions.len() == results.len(),
    decreases versions.len(),
{
    if versions.len() == 0 {
        IpUpdate { v4: Option::None, v6: Option::None }
    } else {
        let prev = spec_collect_update(versions.drop_last(), results.drop_last());
        let i = versions.len() - 1;
        match (versions[i as int], results[i as int]) {
            (IpVersion::V4, Option::Some(IpAddress::V4(a))) => IpUpdate {
                v4: Option::Some(a),
                v6: prev.v6,
            },
            (IpVersion::V6, Option::Some(IpAddress::V6(b))) => IpUpdate {
                v4: prev.v4,
                v6: Option::Some(b),
            },
            _ => prev,
        }
    }
}

/// Assembles the per-version fetch results into one update. A failed fetch
/// (`None`) or an address of the wrong family leaves that version absent.
pub fn collect_update(versions: &Vec<IpVersion>, results: &Vec<Option<IpAddress>>) -> (u: IpUpdate)
    requires
        versions@.len() == results@.len(),
    ensures
        u == spec_collect_update(versions@, results@),
{
    let mut u = IpUpdate { v4: None, v6: None };
    let mut i: usize = 0;
    while i < versions.len()
        invariant
            versions@.len() == results@.len(),
            0 <= i <= versions@.len(),
            u == spec_collect_update(versions@.take(i as int), results@.take(i as int)),
        decreases versions@.len() - i,
    {
        match (versions[i], results[i]) {
            (IpVersion::V4, Some(IpAddress::V4(a))) => {
                u.v4 = Some(a);
            },
            (IpVersion::V6, Some(IpAddress::V6(b))) => {
                u.v6 = Some(b);
            },
            _ => {},
        }
        i += 1;
        proof {
            let vs = versions@.take(i as int);
            let rs = results@.take(i as int);
            assert(vs.drop_last() =~= versions@.take(i - 1));
            assert(rs.drop_last() =~= results@.take(i - 1));
        }
    }
    proof {
        assert(versions@.take(versions@.len() as int) =~= versions@);
        assert(results@.take(results@.len() as int) =~= results@);
    }
    u
}

/// How one attempt against one HTTP echo service ended.
#[derive(Clone, Copy, Debug, PartialEq, Eq, Structural)]
pub enum HttpAttempt {
    /// The response body parsed as an address.
    Parsed(IpAddress),
    /// The body arrived but did not parse as an address.
    ParseFailed,
    /// The body could not be read.
    BodyFailed,
    /// The request itself failed.
    SendFailed,
}

/// Why a round of HTTP attempts yielded no address.
#[derive(Clone, Copy, Debug, PartialEq, Eq, Structural)]
pub enum HttpFetchError {
    /// At least one attempt failed in transport; the caller reports the last
    /// such error it recorded.
    Transport,
    /// Every attempt returned a body that did not parse (or no service was
    /// configured); there is no transport error to report.
    NoAddress,
}

/// The result of a round of attempts, in order: the first parsed address
/// wins; otherwise a transport failure anywhere makes the round a transport
/// error, and a round of nothing but unparsed bodies has no address at all.
pub open spec fn spec_select_fetch(attempts: Seq<HttpAttempt>) -> Result<IpAddress, HttpFetchError>
    decreases attempts.len(),
{
    if attempts.len() == 0 {
        Result::Err(HttpFetchError::NoAddress)
    } else {
        match attempts[0] {
            HttpAttempt::Parsed(a) => Result::Ok(a),
            _ => match spec_select_fetch(attempts.drop_first()) {
                Result::Ok(a) => Result::Ok(a),
                Result::Err(e) => {
                    if attempts[0] is BodyFailed || attempts[0] is SendFailed {
                        Result::Err(HttpFetchError::Transport)
                    } else {
                        Result::Err(e)
                    }
                },
            },
        }
    }
}

/// Resolves a round of HTTP attempts to the first parsed address, or to the
/// named reason none was found.
pub fn select_fetch_result(attempts: &Vec<HttpAttempt>) -> (r: Result<IpAddress, HttpFetchError>)
    ensures
        r == spec_select_fetch(attempts@),
{
    let n = attempts.len();
    let mut r: Result<IpAddress, HttpFetchError> = Err(HttpFetchError::NoAddress);
    let mut i: usize = n;
    proof {
        assert(attempts@.subrange(n as int, n as int) =~= Seq::<HttpAttempt>::empty());
    }
    while i > 0
        invariant
            0 <= i <= attempts@.len(),
            n == attempts@.len(),
            r == spec_select_fetch(attempts@.subrange(i as int, n as int)),
        decreases i,
    {
        i -= 1;
        let next = match attempts[i] {
            HttpAttempt::Parsed(a) => Ok(a),
            HttpAttempt::ParseFailed => {
                match r {
                    Ok(a) => Ok(a),
                    Err(e) => Err(e),
                }
            },
            _ => {
                match r {
                    Ok(a) => Ok(a),
                    Err(_) => Err(HttpFetchError::Transport),
                }
            },
        };
        proof {
            let suffix = attempts@.subrange(i as int, n as int);
            assert(suffix.drop_first() =~= attempts@.subrange(i + 1, n as int));
            assert(suffix[0] == attempts@[i as int]);
        }
        r = next;
    }
    proof {
        assert(attempts@.subrange(0, n as int) =~= attempts@);
    }
    r
}

/// One entry of the local interface listing: the interface's name and one of
/// its addresses.
#[derive(Debug, Clone)]
pub struct NetInterface {
    pub name: String,
    pub addr: IpAddress,
}

/// The address a named interface yields for a version: the first listed entry
/// whose name matches and whose address is of that family, or nothing.
pub open spec fn spec_select_interface(
    interfaces: Seq<NetInterface>,
    name: Seq<char>,
    version: IpVersion,
) -> Option<IpAddress>
    decreases interfaces.len(),
{
    if interfaces.len() == 0 {
        Option::None
    } else if interfaces[0].name@ == name && interfaces[0].addr.spec_version() == version {
        Option::Some(interfaces[0].addr)
    } else {
        spec_select_interface(interfaces.drop_first(), name, version)
    }
}

/// Picks the address of the named interface for the wanted version out of the
/// interface listing, or reports that no entry matches.
pub fn select_interface_ip(
    interfaces: &Vec<NetInterface>,
    wanted: &IpSourceInterface,
    version: &IpVersion,
) -> (r: Option<IpAddress>)
    ensures
        r == spec_select_interface(interfaces@, wanted.name@, *version),
{
    let n = interfaces.len();
    let mut i: usize = 0;
    proof {
        assert(interfaces@.subrange(0, n as int) =~= interfaces@);
    }
    while i < n
        invariant
            0 <= i <= n,
            n == interfaces@.len(),
            spec_select_interface(interfaces@, wanted.name@, *version) == spec_select_interface(
                interfaces@.subrange(i as int, n as int),
                wanted.name@,
                *version,
            ),
        decreases n - i,
    {
        proof {
            let suffix = interfaces@.subrange(i as int, n as int);
            assert(suffix[0] == interfaces@[i as int]);
            assert(suffix.drop_first() =~= interfaces@.subrange(i + 1, n as int));
        }
        let entry = &interfaces[i];
        let name_matches = entry.name == wanted.name;
        if name_matches {
            let v = entry.addr.version();
            let version_matches = match (v, version) {
                (IpVersion::V4, IpVersion::V4) => true,
                (IpVersion::V6, IpVersion::V6) => true,
                _ => false,
            };
            if version_matches {
                return Some(entry.addr);
            }
        }
        i += 1;
    }
    proof {
        assert(interfaces@.subrange(n as int, n as int) =~= Seq::<NetInterface>::empty());
    }
    None
}

} // verus!
