//! Execution policies for the two transport backends.
//!
//! The integrated backend reaches a display through a framebuffer port that
//! may expose several I2C buses: a transaction type is negotiated from the
//! capabilities that sibling I2C-interface services advertise, a request
//! record is built, and the buses are tried in ascending order until one
//! accepts the request; the last concrete error is surfaced when none does.
//! The unified backend has a single AV-service handle and no fallback: the
//! packet is written, and a reply, when the command defines one, is read in
//! a second step; a non-zero status at either step fails the whole command.
//!
//! The native calls themselves (acquiring an interface, opening a
//! connection, writing and reading bytes) happen outside this crate; the
//! functions here take the plain outcomes of those calls and decide what
//! follows, so the retry and failure contracts are stated and checked
//! independently of the hardware.

use crate::error::{Error, KERN_FAILURE};
use crate::protocol::SUB_ADDRESS_DDC_CI;
use vstd::prelude::*;

verus! {

/// Transaction-type code: the request carries no reply.
pub const NO_TRANSACTION_TYPE: u32 = 0;

/// Transaction-type code: a simple byte transfer.
pub const SIMPLE_TRANSACTION_TYPE: u32 = 1;

/// Transaction-type code: a checksummed multi-byte DDC/CI reply.
pub const DDC_CI_REPLY_TRANSACTION_TYPE: u32 = 2;

/// What probing one sibling I2C-interface service yielded.
#[derive(Clone, Copy, Debug, PartialEq, Eq, Structural)]
pub struct InterfaceProbe {
    /// Whether the service's property dictionary could be read at all.
    pub props_ok: bool,
    /// The transaction-type capability bitmask from the dictionary, when the
    /// dictionary holds one.
    pub transaction_types: Option<i64>,
}

/// The transaction type the probes support: walking the probes in order,
/// a service whose properties cannot be read is skipped; the first readable
/// dictionary without a capability bitmask ends the negotiation with no
/// type; otherwise the first advertised capability decides, a checksummed
/// DDC/CI reply preferred over a simple transfer.
pub open spec fn spec_select_transaction_type(probes: Seq<InterfaceProbe>) -> Option<u32>
    decreases probes.len(),
{
    if probes.len() == 0 {
        None
    } else {
        let p = probes[0];
        if !p.props_ok {
            spec_select_transaction_type(probes.drop_first())
        } else {
            match p.transaction_types {
                None => None,
                Some(t) => if t & (1i64 << DDC_CI_REPLY_TRANSACTION_TYPE) != 0 {
                    Some(DDC_CI_REPLY_TRANSACTION_TYPE)
                } else if t & (1i64 << SIMPLE_TRANSACTION_TYPE) != 0 {
                    Some(SIMPLE_TRANSACTION_TYPE)
                } else {
                    spec_select_transaction_type(probes.drop_first())
                },
            }
        }
    }
}

/// Negotiates the reply transaction type from the capability bitmasks that
/// the sibling I2C-interface services advertise.
pub fn select_transaction_type(probes: &Vec<InterfaceProbe>) -> (r: Option<u32>)
    ensures
        r == spec_select_transaction_type(probes@),
{
    let mut i: usize = 0;
    proof {
        assert(probes@.skip(0) =~= probes@);
    }
    while i < probes.len()
        invariant
            i <= probes@.len(),
            spec_select_transaction_type(probes@) == spec_select_transaction_type(
                probes@.skip(i as int),
            ),
        decreases probes@.len() - i,
    {
        proof {
            assert(probes@.skip(i as int)[0] == probes@[i as int]);
            assert(probes@.skip(i as int).drop_first() =~= probes@.skip(i as int + 1));
        }
        let p = probes[i];
        if p.props_ok {
            match p.transaction_types {
                None => {
                    return None;
                },
                Some(t) => {
                    if t & (1i64 << DDC_CI_REPLY_TRANSACTION_TYPE) != 0 {
                        return Some(DDC_CI_REPLY_TRANSACTION_TYPE);
                    } else if t & (1i64 << SIMPLE_TRANSACTION_TYPE) != 0 {
                        return Some(SIMPLE_TRANSACTION_TYPE);
                    }
                },
            }
        }
        i = i + 1;
    }
    proof {
        assert(probes@.skip(probes@.len() as int) =~= Seq::<InterfaceProbe>::empty());
    }
    None
}

/// One I2C bus transaction, in the plain fields the integrated backend
/// fills before handing the request to the native transport.
#[derive(Clone, Copy, Debug, PartialEq, Eq, Structural)]
pub struct I2cRequest {
    /// Transaction type of the outgoing write: always a simple transfer.
    pub send_transaction_type: u32,
    /// Transaction type of the reply, when the command defines one.
    pub reply_transaction_type: u32,
    /// The I2C write address: the chip address shifted left by one.
    pub send_address: u32,
    /// The I2C read address: the write address with the read bit set.
    pub reply_address: u32,
    /// The protocol sub-address the reply is expected under.
    pub reply_sub_address: u8,
    /// The minimum delay before the device's reply, in nanoseconds.
    pub min_reply_delay_ns: u64,
    /// How many bytes the request sends.
    pub send_bytes: u32,
    /// How many bytes of reply buffer the request offers.
    pub reply_bytes: u32,
}

/// Builds the request record for one integrated-backend transaction: the
/// packet bytes are sent as a simple write to the chip's write address, and
/// a reply, when the command defines one, is requested with the negotiated
/// transaction type, or with none when negotiation found no capability.
pub fn build_request(
    chip_address: u16,
    send_bytes: u32,
    reply_bytes: u32,
    negotiated: Option<u32>,
    response_delay_ns: u64,
) -> (r: I2cRequest)
    ensures
        r.send_transaction_type == SIMPLE_TRANSACTION_TYPE,
        r.reply_transaction_type == (if reply_bytes == 0 {
            NO_TRANSACTION_TYPE
        } else {
            match negotiated {
                Some(t) => t,
                None => NO_TRANSACTION_TYPE,
            }
        }),
        r.send_address == (chip_address % 0x8000) * 2,
        r.reply_address == (chip_address % 0x8000) * 2 + 1,
        r.reply_sub_address == SUB_ADDRESS_DDC_CI,
        r.min_reply_delay_ns == response_delay_ns,
        r.send_bytes == send_bytes,
        r.reply_bytes == reply_bytes,
{
    let shifted: u32 = ((chip_address as u32) % 0x8000) * 2;
    let reply_transaction_type = if reply_bytes == 0 {
        NO_TRANSACTION_TYPE
    } else {
        match negotiated {
            Some(t) => t,
            None => NO_TRANSACTION_TYPE,
        }
    };
    I2cRequest {
        send_transaction_type: SIMPLE_TRANSACTION_TYPE,
        reply_transaction_type,
        send_address: shifted,
        reply_address: shifted + 1,
        reply_sub_address: SUB_ADDRESS_DDC_CI,
        min_reply_delay_ns: response_delay_ns,
        send_bytes,
        reply_bytes,
    }
}

/// An open connection to the I2C bus interface that accepted the request;
/// the scan's successful outcome.
#[derive(Clone, Copy, Debug, PartialEq, Eq, Structural)]
pub struct IOI2CConnect {
    /// The index of the bus the connection was opened on.
    pub bus: u32,
}

/// The outcome of trying one bus during the scan.
#[derive(Clone, Copy, Debug, PartialEq, Eq, Structural)]
pub enum BusAttempt {
    /// The bus interface could not be acquired; the scan moves on without
    /// recording an error.
    NotAcquired,
    /// The interface was acquired, a connection opened, and the transaction
    /// went through.
    Sent,
    /// The interface was acquired, but opening the connection or submitting
    /// the transaction failed with this status code.
    Failed(i32),
}

/// Resolves the ordered bus-fallback policy over the outcome of every bus,
/// in ascending bus order: the first bus whose transaction went through
/// wins; when none did, the error of the last bus that got as far as a
/// transaction is surfaced, and the generic kernel failure stands in when
/// no bus got that far (in particular when the port exposes no bus at all).
pub fn resolve_bus_scan(attempts: &Vec<BusAttempt>) -> (r: Result<IOI2CConnect, Error>)
    requires
        attempts@.len() <= u32::MAX,
    ensures
        match r {
            Ok(conn) => {
                &&& (conn.bus as int) < attempts@.len()
                &&& attempts@[conn.bus as int] is Sent
                &&& forall|k: int| 0 <= k < conn.bus ==> !(attempts@[k] is Sent)
            },
            Err(e) => {
                &&& forall|k: int| 0 <= k < attempts@.len() ==> !(attempts@[k] is Sent)
                &&& if exists|k: int| 0 <= k < attempts@.len() && attempts@[k] is Failed {
                    exists|j: int|
                        {
                            &&& 0 <= j < attempts@.len()
                            &&& #[trigger] attempts@[j] matches BusAttempt::Failed(c) && e
                                == Error::Io(c)
                            &&& forall|k: int| j < k < attempts@.len() ==> !(attempts@[k] is Failed)
                        }
                } else {
                    e == Error::Io(KERN_FAILURE)
                }
            },
        },
{
    let mut last_error = Error::Io(KERN_FAILURE);
    let mut i: usize = 0;
    while i < attempts.len()
        invariant
            attempts@.len() <= u32::MAX,
            i <= attempts@.len(),
            forall|k: int| 0 <= k < i ==> !(attempts@[k] is Sent),
            if exists|k: int| 0 <= k < i && attempts@[k] is Failed {
                exists|j: int|
                    {
                        &&& 0 <= j < i
                        &&& #[trigger] attempts@[j] matches BusAttempt::Failed(c) && last_error
                            == Error::Io(c)
                        &&& forall|k: int| j < k < i ==> !(attempts@[k] is Failed)
                    }
            } else {
                last_error == Error::Io(KERN_FAILURE)
            },
        decreases attempts@.len() - i,
    {
        match attempts[i] {
            BusAttempt::NotAcquired => {},
            BusAttempt::Sent => {
                return Ok(IOI2CConnect { bus: i as u32 });
            },
            BusAttempt::Failed(code) => {
                last_error = Error::Io(code);
            },
        }
        i = i + 1;
    }
    Err(last_error)
}

/// What the unified backend must do once the packet write has returned.
#[derive(Clone, Copy, Debug, PartialEq, Eq, Structural)]
pub enum UnifiedStep {
    /// The command defines no reply: the execution is complete with an
    /// empty result.
    Finished,
    /// The command defines a reply: wait the response delay, then read it.
    AwaitRead,
}

/// Decides what follows the unified backend's write: a non-zero status is
/// fatal for the whole command, and no read is attempted; otherwise a read
/// follows exactly when the command defines a reply.
pub fn after_unified_write(status: i32, expects_reply: bool) -> (r: Result<UnifiedStep, Error>)
    ensures
        status != 0 ==> r == Err::<UnifiedStep, Error>(Error::Io(status)),
        status == 0 && !expects_reply ==> r == Ok::<UnifiedStep, Error>(UnifiedStep::Finished),
        status == 0 && expects_reply ==> r == Ok::<UnifiedStep, Error>(UnifiedStep::AwaitRead),
{
    if status != 0 {
        Err(Error::Io(status))
    } else if expects_reply {
        Ok(UnifiedStep::AwaitRead)
    } else {
        Ok(UnifiedStep::Finished)
    }
}

/// Decides what the unified backend's read yielded: a non-zero status is
/// fatal for the whole command; otherwise the filled buffer is the raw
/// reply, validated later by the framer.
pub fn after_unified_read(status: i32, buffer: Vec<u8>) -> (r: Result<Vec<u8>, Error>)
    ensures
        status != 0 ==> r == Err::<Vec<u8>, Error>(Error::Io(status)),
        status == 0 ==> (r matches Ok(b) && b@ == buffer@),
{
    if status != 0 {
        Err(Error::Io(status))
    } else {
        Ok(buffer)
    }
}

/// Splits an encoded packet for the unified backend, which takes the
/// protocol sub-address as a separate argument: the leading sub-address
/// byte, and the remaining bytes to write.
pub fn split_packet_for_unified(packet: &Vec<u8>) -> (r: (u8, Vec<u8>))
    requires
        packet@.len() >= 1,
    ensures
        r.0 == packet@[0],
        r.1@ == packet@.subrange(1, packet@.len() as int),
{
    let sub_address = packet[0];
    let mut rest: Vec<u8> = Vec::new();
    let mut i: usize = 1;
    while i < packet.len()
        invariant
            1 <= i <= packet@.len(),
            rest@ == packet@.subrange(1, i as int),
        decreases packet@.len() - i,
    {
        rest.push(packet[i]);
        i = i + 1;
        proof {
            assert(packet@.subrange(1, i as int) =~= packet@.subrange(1, i - 1).push(
                packet@[i - 1],
            ));
        }
    }
    (sub_address, rest)
}

} // verus!
