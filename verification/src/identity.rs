//! Identity matching for the integrated backend: picking the framebuffer
//! port that backs a logical display.
//!
//! The host graphics subsystem reports each display as a (vendor, product,
//! serial) triple with a builtin flag; each candidate port reports the same
//! numbers through its property dictionary, where the serial is often
//! absent and then counts as zero, matching the subsystem's own
//! default-to-zero convention. Matching walks the candidates in the
//! subsystem's order and the first match wins. The protocol does not apply
//! to the internal panel, so a builtin display is never matched.

use vstd::prelude::*;

verus! {

/// A logical display identity, an immutable snapshot taken during one
/// enumeration pass.
#[derive(Clone, Copy, Debug, PartialEq, Eq, Structural)]
pub struct DisplayIdentity {
    /// The display's vendor number.
    pub vendor_id: u32,
    /// The display's product (model) number.
    pub product_id: u32,
    /// The display's serial number; zero when the display reports none.
    pub serial: u32,
    /// Whether this display is the machine's internal panel.
    pub is_builtin: bool,
}

/// What one candidate framebuffer port reports: its I2C bus capability and
/// the identity numbers from its property dictionary.
#[derive(Clone, Copy, Debug, PartialEq, Eq, Structural)]
pub struct PortCandidate {
    /// How many I2C buses the port exposes.
    pub bus_count: u32,
    /// The vendor number from the port's properties, when present.
    pub vendor_id: Option<u32>,
    /// The product number from the port's properties, when present.
    pub product_id: Option<u32>,
    /// The serial number from the port's properties; displays often omit it.
    pub serial: Option<u32>,
}

/// Whether a candidate port backs an identity: the port must expose at
/// least one I2C bus, must report vendor and product numbers, and its
/// (vendor, product, serial) triple must equal the identity's, a missing
/// serial counting as zero.
pub open spec fn spec_port_matches(port: PortCandidate, identity: DisplayIdentity) -> bool {
    &&& port.bus_count != 0
    &&& port.vendor_id == Some(identity.vendor_id)
    &&& port.product_id == Some(identity.product_id)
    &&& (match port.serial {
        Some(s) => s,
        None => 0u32,
    }) == identity.serial
}

/// Decides whether one candidate port backs the given identity.
pub fn port_matches_display(port: &PortCandidate, identity: &DisplayIdentity) -> (r: bool)
    ensures
        r == spec_port_matches(*port, *identity),
{
    if port.bus_count == 0 {
        return false;
    }
    let vendor = match port.vendor_id {
        Some(v) => v,
        None => {
            return false;
        },
    };
    let product = match port.product_id {
        Some(p) => p,
        None => {
            return false;
        },
    };
    let serial = match port.serial {
        Some(s) => s,
        None => 0,
    };
    vendor == identity.vendor_id && product == identity.product_id && serial == identity.serial
}

/// Finds the first candidate port that backs the identity, in the order the
/// host subsystem listed the candidates. A builtin display is never matched.
pub fn find_framebuffer_port(identity: &DisplayIdentity, candidates: &Vec<PortCandidate>) -> (r:
    Option<usize>)
    ensures
        identity.is_builtin ==> r is None,
        match r {
            Some(i) => {
                &&& !identity.is_builtin
                &&& i < candidates@.len()
                &&& spec_port_matches(candidates@[i as int], *identity)
                &&& forall|k: int|
                    0 <= k < i ==> !spec_port_matches(candidates@[k], *identity)
            },
            None => identity.is_builtin || forall|k: int|
                0 <= k < candidates@.len() ==> !spec_port_matches(candidates@[k], *identity),
        },
{
    if identity.is_builtin {
        return None;
    }
    let mut i: usize = 0;
    while i < candidates.len()
        invariant
            !identity.is_builtin,
            i <= candidates@.len(),
            forall|k: int| 0 <= k < i ==> !spec_port_matches(candidates@[k], *identity),
        decreases candidates@.len() - i,
    {
        if port_matches_display(&candidates[i], identity) {
            return Some(i);
        }
        i = i + 1;
    }
    None
}

/// Law: when exactly one candidate's triple backs the identity of an
/// external display, matching returns exactly that candidate; the result the
/// matcher's contract admits is unique.
pub proof fn lemma_unique_match(
    identity: DisplayIdentity,
    candidates: Seq<PortCandidate>,
    j: usize,
    r: Option<usize>,
)
    requires
        !identity.is_builtin,
        j < candidates.len(),
        spec_port_matches(candidates[j as int], identity),
        forall|k: int|
            0 <= k < candidates.len() && k != j ==> !spec_port_matches(candidates[k], identity),
        match r {
            Some(i) => {
                &&& i < candidates.len()
                &&& spec_port_matches(candidates[i as int], identity)
                &&& forall|k: int| 0 <= k < i ==> !spec_port_matches(candidates[k], identity)
            },
            None => forall|k: int|
                0 <= k < candidates.len() ==> !spec_port_matches(candidates[k], identity),
        },
    ensures
        r == Some(j),
{
    match r {
        Some(i) => {
            assert(i == j);
        },
        None => {
            assert(!spec_port_matches(candidates[j as int], identity));
        },
    }
}

} // verus!
