//! The monitor facade: one matched display, its fixed backend and chip
//! address, and the framing of every command it executes.
//!
//! A `Monitor` is built once per successfully matched display and never
//! re-matched: the backend variant and the chip address are fixed for its
//! lifetime. Executing a command frames the payload with [`encode_command`],
//! hands the packet to the active backend's transport (whose policies live
//! in [`crate::transport`]), and validates whatever bytes come back with
//! [`decode_response`]. The native handle the backend owns is opaque to
//! this crate and flows through as a type parameter.
//!
//! [`encode_command`]: Monitor::encode_command
//! [`decode_response`]: Monitor::decode_response

use crate::error::Error;
use crate::identity::DisplayIdentity;
use crate::protocol;
use crate::protocol::I2C_ADDRESS_DDC_CI;
use crate::text;
use vstd::prelude::*;
use vstd::string::StringExecFns;

verus! {

/// The DDC access method bound to a monitor: exactly one backend, chosen at
/// construction.
pub enum MonitorService<H> {
    /// The integrated backend: a framebuffer port whose I2C buses carry the
    /// transaction.
    Integrated(H),
    /// The unified backend: an AV service handle, and the chip address the
    /// display answers on.
    Unified(H, u16),
}

/// A handle to an attached monitor that allows the use of DDC/CI
/// operations.
pub struct Monitor<H> {
    /// The display's identity snapshot from the enumeration pass.
    pub identity: DisplayIdentity,
    /// The backend that carries this monitor's transactions.
    pub service: MonitorService<H>,
    /// The I2C chip address every packet is framed for; fixed at
    /// construction.
    pub i2c_address: u16,
    /// The settle delay between commands, in nanoseconds.
    pub delay_ns: u64,
}

impl<H> Monitor<H> {
    /// The chip address agrees with the backend: the integrated backend
    /// always uses the standard address, the unified backend the address
    /// matching derived.
    pub open spec fn wf(self) -> bool {
        match self.service {
            MonitorService::Integrated(_) => self.i2c_address == I2C_ADDRESS_DDC_CI,
            MonitorService::Unified(_, a) => self.i2c_address == a,
        }
    }

    /// Creates a monitor from a matched display, its backend and its chip
    /// address, with no settle delay until a command sets one.
    pub fn new(identity: DisplayIdentity, service: MonitorService<H>, i2c_address: u16) -> (m:
        Monitor<H>)
        requires
            match service {
                MonitorService::Integrated(_) => i2c_address == I2C_ADDRESS_DDC_CI,
                MonitorService::Unified(_, a) => i2c_address == a,
            },
        ensures
            m.identity == identity,
            m.service == service,
            m.i2c_address == i2c_address,
            m.delay_ns == 0,
            m.wf(),
    {
        Monitor { identity, service, i2c_address, delay_ns: 0 }
    }

    /// The enumeration decision for one display: the integrated backend is
    /// preferred when its matching found a port, the unified backend is the
    /// fallback, and a display that matched neither yields no monitor and is
    /// silently omitted.
    pub fn attach(identity: DisplayIdentity, integrated: Option<H>, unified: Option<(H, u16)>) -> (r:
        Option<Monitor<H>>)
        ensures
            integrated matches Some(port) ==> (r matches Some(m) && m.identity == identity
                && m.service == MonitorService::Integrated(port) && m.i2c_address
                == I2C_ADDRESS_DDC_CI && m.delay_ns == 0),
            integrated is None ==> (unified matches Some(sa) ==> (r matches Some(m) && m.identity
                == identity && m.service == MonitorService::Unified(sa.0, sa.1) && m.i2c_address
                == sa.1 && m.delay_ns == 0)),
            integrated is None && unified is None ==> r is None,
            r matches Some(m) ==> m.wf(),
    {
        match integrated {
            Some(port) => Some(Self::new(identity, MonitorService::Integrated(port), I2C_ADDRESS_DDC_CI)),
            None => match unified {
                Some((service, address)) => Some(
                    Self::new(identity, MonitorService::Unified(service, address), address),
                ),
                None => None,
            },
        }
    }

    /// Frames a command payload as a DDC/CI packet for this monitor's chip
    /// address.
    pub fn encode_command(&self, data: &Vec<u8>) -> (packet: Vec<u8>)
        requires
            data@.len() <= protocol::MAX_PAYLOAD_LEN,
        ensures
            packet@ == protocol::spec_encode(data@, self.i2c_address),
    {
        protocol::encode_command(data, self.i2c_address)
    }

    /// Validates a raw reply buffer against this monitor's chip address and
    /// extracts its payload; both backends' replies go through here
    /// unchanged.
    pub fn decode_response(&self, response: &Vec<u8>) -> (r: Result<Vec<u8>, Error>)
        requires
            response@.len() != 1,
        ensures
            ({
                let s = protocol::spec_decode(response@, self.i2c_address);
                match r {
                    Ok(payload) => s == Ok::<Seq<u8>, crate::error::ErrorCode>(payload@),
                    Err(e) => s matches Err(code) && e == Error::Ddc(code),
                }
            }),
    {
        protocol::decode_response(response, self.i2c_address)
    }

    /// Sets the settle delay applied between commands.
    pub fn set_sleep_delay(&mut self, delay_ns: u64)
        ensures
            final(self).delay_ns == delay_ns,
            final(self).identity == old(self).identity,
            final(self).service == old(self).service,
            final(self).i2c_address == old(self).i2c_address,
    {
        self.delay_ns = delay_ns;
    }

    /// The monitor's description: the display's product name when the
    /// property store reports one, else the vendor and product numbers as
    /// four hexadecimal digits each, joined by a colon.
    pub fn description(&self, product_name: Option<String>) -> (r: String)
        requires
            self.identity.vendor_id <= 0xFFFF,
            self.identity.product_id <= 0xFFFF,
        ensures
            product_name matches Some(p) ==> r@ == p@,
            product_name is None ==> r@ == text::spec_hex4(self.identity.vendor_id as int)
                + seq![':'] + text::spec_hex4(self.identity.product_id as int),
    {
        match product_name {
            Some(p) => p,
            None => {
                let mut s = text::hex4_string(self.identity.vendor_id);
                let colon = ":";
                proof {
                    reveal_strlit(":");
                    assert(colon@ =~= seq![':']);
                }
                s.append(colon);
                let product = text::hex4_string(self.identity.product_id);
                s.append(product.as_str());
                s
            },
        }
    }

    /// The serial number as decimal text, or nothing when the display
    /// reports none (a serial of zero means absent).
    pub fn serial_number(&self) -> (r: Option<String>)
        ensures
            self.identity.serial == 0 ==> r is None,
            self.identity.serial != 0 ==> (r matches Some(s) && s@ == text::spec_decimal(
                self.identity.serial as int,
            )),
    {
        if self.identity.serial == 0 {
            None
        } else {
            Some(text::decimal_string(self.identity.serial))
        }
    }
}

} // verus!
