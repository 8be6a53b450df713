//! Matching for the unified backend: walking the platform's I/O registry to
//! find the AV service that backs a display, and deriving its I2C chip
//! address.
//!
//! The registry is a finite ordered sequence of entries. The walk first
//! looks for the entry whose registry path equals the display's recorded
//! location string, then continues from the next entry looking for an AV
//! service proxy of the well-known class that carries an "External" location
//! property and yields a usable service handle. The chip address comes from
//! the matched entry's parent: a display behind the known DisplayPort-to-
//! HDMI bridge chip answers on the alternate address, every other display
//! on the standard one. Any other bridge class is treated as standard
//! addressing.

use crate::error::Error;
use crate::identity::DisplayIdentity;
use crate::protocol::I2C_ADDRESS_DDC_CI;
use vstd::prelude::*;
use vstd::string::StringExecFns;

verus! {

/// The alternate I2C chip address used by displays behind the MCDP29xx
/// DisplayPort-to-HDMI bridge chip.
pub const I2C_ADDRESS_DDC_CI_MDCP29XX: u16 = 0xB7;

/// What the walk reads of one registry entry, in the order the registry
/// yields the entries.
#[derive(Debug)]
pub struct RegistryEntry {
    /// The entry's full registry path, when the path query succeeds.
    pub path: Option<String>,
    /// The entry's name, or the status code of the failed name query.
    pub name: Result<String, i32>,
    /// The entry's location property, when it has one.
    pub location: Option<String>,
    /// Whether a service handle could be constructed from the entry.
    pub av_service_ok: bool,
    /// The provider class of the entry's parent, when the parent has one.
    pub parent_provider_class: Option<String>,
}

/// The chip address an entry's display answers on, decided by the provider
/// class of the entry's parent.
pub open spec fn spec_i2c_address_for(parent_provider_class: Option<String>) -> u16 {
    match parent_provider_class {
        Some(c) => if c@ == "AppleDCPMCDP29XX"@ {
            I2C_ADDRESS_DDC_CI_MDCP29XX
        } else {
            I2C_ADDRESS_DDC_CI
        },
        None => I2C_ADDRESS_DDC_CI,
    }
}

/// Derives the I2C chip address from the provider class of the matched
/// entry's parent: the alternate address for the known bridge chip class,
/// the standard address otherwise, also when the parent or its class is
/// missing.
pub fn i2c_address(parent_provider_class: &Option<String>) -> (r: u16)
    ensures
        r == spec_i2c_address_for(*parent_provider_class),
{
    match parent_provider_class {
        Some(c) => {
            let bridge_class = String::from_str("AppleDCPMCDP29XX");
            if c.eq(&bridge_class) {
                I2C_ADDRESS_DDC_CI_MDCP29XX
            } else {
                I2C_ADDRESS_DDC_CI
            }
        },
        None => I2C_ADDRESS_DDC_CI,
    }
}

/// Whether an entry is the one whose registry path records the display's
/// location.
pub open spec fn spec_entry_is_location(e: RegistryEntry, location: Seq<char>) -> bool {
    e.path matches Some(p) && p@ == location
}

/// Whether an entry is a usable AV service proxy: named as the well-known
/// proxy class, carrying an "External" location property, and yielding a
/// service handle.
pub open spec fn spec_entry_is_av_candidate(e: RegistryEntry) -> bool {
    &&& e.name matches Ok(n) && n@ == "DCPAVServiceProxy"@
    &&& e.location matches Some(l) && l@ == "External"@
    &&& e.av_service_ok
}

/// The second stage of the walk: from a given entry onward, the first
/// usable AV service proxy wins; an entry whose name cannot be read fails
/// the walk with that status code; running out of entries means no service
/// backs the display.
pub open spec fn spec_scan_av_proxy(entries: Seq<RegistryEntry>, from: int) -> Result<int, Error>
    decreases entries.len() - from,
{
    if from < 0 || from >= entries.len() {
        Err(Error::ServiceNotFound)
    } else {
        match entries[from].name {
            Err(code) => Err(Error::Io(code)),
            Ok(_) => if spec_entry_is_av_candidate(entries[from]) {
                Ok(from)
            } else {
                spec_scan_av_proxy(entries, from + 1)
            },
        }
    }
}

/// The first stage of the walk: the first entry whose path equals the
/// display's location starts the second stage over the remaining entries;
/// entries whose path cannot be read are skipped; running out of entries
/// means no service backs the display.
pub open spec fn spec_scan_location(
    entries: Seq<RegistryEntry>,
    from: int,
    location: Seq<char>,
) -> Result<int, Error>
    decreases entries.len() - from,
{
    if from < 0 || from >= entries.len() {
        Err(Error::ServiceNotFound)
    } else if spec_entry_is_location(entries[from], location) {
        spec_scan_av_proxy(entries, from + 1)
    } else {
        spec_scan_location(entries, from + 1, location)
    }
}

/// The whole walk: the index of the matched AV service proxy and the chip
/// address derived from its parent, or the failure of the walk.
pub open spec fn spec_find_av_service(entries: Seq<RegistryEntry>, location: Seq<char>) -> Result<
    (int, u16),
    Error,
> {
    match spec_scan_location(entries, 0, location) {
        Ok(j) => Ok((j, spec_i2c_address_for(entries[j].parent_provider_class))),
        Err(e) => Err(e),
    }
}

/// Finds the AV service proxy that backs a display and the chip address it
/// answers on. A builtin display is never matched; a display without a
/// recorded location string cannot be looked up and is reported as such.
/// Both failures make enumeration skip the display rather than fail.
pub fn get_display_av_service(
    identity: &DisplayIdentity,
    location: &Option<String>,
    entries: &Vec<RegistryEntry>,
) -> (r: Result<(usize, u16), Error>)
    ensures
        identity.is_builtin ==> r == Err::<(usize, u16), Error>(Error::ServiceNotFound),
        !identity.is_builtin && location is None ==> r == Err::<(usize, u16), Error>(
            Error::DisplayLocationNotFound,
        ),
        !identity.is_builtin ==> (location matches Some(l) ==> match r {
            Ok((i, a)) => spec_find_av_service(entries@, l@) == Ok::<(int, u16), Error>(
                (i as int, a),
            ),
            Err(e) => spec_find_av_service(entries@, l@) == Err::<(int, u16), Error>(e),
        }),
{
    if identity.is_builtin {
        return Err(Error::ServiceNotFound);
    }
    let loc = match location {
        Some(l) => l,
        None => {
            return Err(Error::DisplayLocationNotFound);
        },
    };
    let proxy_class = String::from_str("DCPAVServiceProxy");
    let external = String::from_str("External");
    let mut i: usize = 0;
    while i < entries.len()
        invariant
            !identity.is_builtin,
            location matches Some(x) && x@ == loc@,
            proxy_class@ == "DCPAVServiceProxy"@,
            external@ == "External"@,
            i <= entries@.len(),
            spec_scan_location(entries@, 0, loc@) == spec_scan_location(entries@, i as int, loc@),
        decreases entries@.len() - i,
    {
        let e = &entries[i];
        let is_location = match &e.path {
            Some(p) => p.eq(loc),
            None => false,
        };
        if is_location {
            let mut j: usize = i + 1;
            while j < entries.len()
                invariant
                    !identity.is_builtin,
                    location matches Some(x) && x@ == loc@,
                    j <= entries@.len(),
                    proxy_class@ == "DCPAVServiceProxy"@,
                    external@ == "External"@,
                    spec_scan_location(entries@, 0, loc@) == spec_scan_av_proxy(
                        entries@,
                        j as int,
                    ),
                decreases entries@.len() - j,
            {
                let e2 = &entries[j];
                match &e2.name {
                    Err(code) => {
                        return Err(Error::Io(*code));
                    },
                    Ok(n) => {
                        let is_external = match &e2.location {
                            Some(l2) => l2.eq(&external),
                            None => false,
                        };
                        if n.eq(&proxy_class) && is_external && e2.av_service_ok {
                            let addr = i2c_address(&e2.parent_provider_class);
                            return Ok((j, addr));
                        }
                    },
                }
                j = j + 1;
            }
            return Err(Error::ServiceNotFound);
        }
        i = i + 1;
    }
    Err(Error::ServiceNotFound)
}

} // verus!
