//! DDC/CI wire-protocol framing: packet encoding, reply validation and the
//! XOR checksum both sides share.
//!
//! A command payload `P` is framed as `[sub_address, 0x80|len(P), P..., checksum]`.
//! The checksum is the cumulative XOR of a virtual write-address byte (the
//! chip address shifted left by one) followed by every packet byte before the
//! checksum itself. A reply is validated the same way, except that the
//! virtual address byte carries the read bit (lowest bit set) and the
//! transport owns the reply's first byte, which is ignored.

use crate::error::{Error, ErrorCode};
use vstd::prelude::*;

verus! {

/// The fixed protocol sub-address that identifies a DDC/CI message on the
/// I2C bus.
pub const SUB_ADDRESS_DDC_CI: u8 = 0x51;

/// The standard I2C chip address of a monitor's DDC/CI controller.
pub const I2C_ADDRESS_DDC_CI: u16 = 0x37;

/// No defined DDC/CI command carries a payload longer than this.
pub const MAX_PAYLOAD_LEN: usize = 36;

/// The cumulative XOR of a byte sequence; the DDC/CI checksum function.
pub open spec fn xor_sum(s: Seq<u8>) -> u8
    decreases s.len(),
{
    if s.len() == 0 {
        0u8
    } else {
        xor_sum(s.drop_last()) ^ s.last()
    }
}

/// The virtual I2C write-address byte synthesized into the checksum of an
/// outgoing packet: the chip address shifted left by one, truncated to a byte.
pub open spec fn send_address_byte(chip_address: u16) -> u8 {
    ((chip_address % 128) * 2) as u8
}

/// The virtual I2C read-address byte synthesized into the checksum of a
/// reply: the write-address byte with the read bit set.
pub open spec fn reply_address_byte(chip_address: u16) -> u8 {
    ((chip_address % 128) * 2 + 1) as u8
}

/// The packet that frames a command payload for a given chip address.
pub open spec fn spec_encode(data: Seq<u8>, chip_address: u16) -> Seq<u8> {
    let body = seq![SUB_ADDRESS_DDC_CI, (0x80 + data.len()) as u8] + data;
    body + seq![xor_sum(seq![send_address_byte(chip_address)] + body)]
}

/// The validated payload of a reply buffer, or the framing violation it
/// commits. An empty buffer means the command defined no reply. Otherwise
/// the second byte declares the payload length; the declared payload must
/// fit strictly inside the buffer with room for the checksum byte, and the
/// checksum recomputed over the virtual read-address byte, the protocol
/// sub-address and the declared bytes must equal the byte after the payload.
pub open spec fn spec_decode(response: Seq<u8>, chip_address: u16) -> Result<Seq<u8>, ErrorCode> {
    if response.len() == 0 {
        Ok(Seq::empty())
    } else {
        let length = (response[1] & 0x7f) as int;
        if length + 2 >= response.len() {
            Err(ErrorCode::InvalidLength)
        } else {
            let expected = xor_sum(
                seq![reply_address_byte(chip_address), SUB_ADDRESS_DDC_CI] + response.subrange(
                    1,
                    2 + length,
                ),
            );
            if response[2 + length] != expected {
                Err(ErrorCode::InvalidChecksum)
            } else {
                Ok(response.subrange(2, 2 + length))
            }
        }
    }
}

/// Prepending a byte to a sequence XORs it into the checksum.
pub proof fn lemma_xor_sum_cons(a: u8, t: Seq<u8>)
    ensures
        xor_sum(seq![a] + t) == a ^ xor_sum(t),
    decreases t.len(),
{
    if t.len() == 0 {
        assert(seq![a] + t =~= seq![a]);
        assert((seq![a]).drop_last() =~= Seq::<u8>::empty());
        assert(t =~= Seq::<u8>::empty());
        assert(xor_sum(Seq::<u8>::empty()) == 0u8);
        assert((seq![a]).last() == a);
        assert(xor_sum(seq![a]) == 0u8 ^ a);
        assert(0u8 ^ a == a) by (bit_vector);
        assert(a ^ 0u8 == a) by (bit_vector);
    } else {
        lemma_xor_sum_cons(a, t.drop_last());
        assert((seq![a] + t).drop_last() =~= seq![a] + t.drop_last());
        assert((seq![a] + t).last() == t.last());
        let x = xor_sum(t.drop_last());
        let y = t.last();
        assert(xor_sum(seq![a] + t) == xor_sum(seq![a] + t.drop_last()) ^ y);
        assert(xor_sum(t) == x ^ y);
        assert((a ^ x) ^ y == a ^ (x ^ y)) by (bit_vector);
    }
}

/// Replacing one byte of a sequence XORs the old and the new byte into the
/// checksum.
pub proof fn lemma_xor_sum_update(s: Seq<u8>, i: int, v: u8)
    requires
        0 <= i < s.len(),
    ensures
        xor_sum(s.update(i, v)) == xor_sum(s) ^ (s[i] ^ v),
    decreases s.len(),
{
    if i == s.len() - 1 {
        assert(s.update(i, v).drop_last() =~= s.drop_last());
        assert(s.update(i, v).last() == v);
        let x = xor_sum(s.drop_last());
        let a = s[i];
        assert(s.last() == a);
        assert(x ^ v == (x ^ a) ^ (a ^ v)) by (bit_vector);
    } else {
        lemma_xor_sum_update(s.drop_last(), i, v);
        assert(s.update(i, v).drop_last() =~= s.drop_last().update(i, v));
        assert(s.update(i, v).last() == s.last());
        assert(s.drop_last()[i] == s[i]);
        let x = xor_sum(s.drop_last());
        let d = s[i] ^ v;
        let y = s.last();
        assert((x ^ d) ^ y == (x ^ y) ^ d) by (bit_vector);
    }
}

/// Law: framing round-trips. When a transport echoes an encoded packet back
/// and only the checksum byte is adjusted for the read bit that the reply's
/// virtual address carries, decoding returns exactly the original payload.
pub proof fn lemma_encode_decode_round_trip(data: Seq<u8>, chip_address: u16)
    requires
        data.len() <= MAX_PAYLOAD_LEN,
    ensures
        ({
            let packet = spec_encode(data, chip_address);
            let echoed = packet.update(packet.len() - 1, packet.last() ^ 1);
            spec_decode(echoed, chip_address) == Ok::<Seq<u8>, ErrorCode>(data)
        }),
{
    let ln = data.len() as int;
    let lb = (0x80 + data.len()) as u8;
    let rest = seq![lb] + data;
    let body = seq![SUB_ADDRESS_DDC_CI, lb] + data;
    let send = send_address_byte(chip_address);
    let reply = reply_address_byte(chip_address);
    let cs = xor_sum(seq![send] + body);
    let packet = spec_encode(data, chip_address);
    assert(packet =~= body + seq![cs]);
    assert(packet.len() == ln + 3);
    assert(packet.last() == cs);
    let echoed = packet.update(ln + 2, cs ^ 1);
    assert(echoed.len() == ln + 3);
    // The declared length of the echoed packet is the payload length.
    let l8 = ln as u8;
    assert(l8 <= 36 ==> (((0x80 + l8) as u8) & 0x7f) == l8) by (bit_vector);
    assert(echoed[1] == lb);
    assert((lb & 0x7f) as int == ln);
    // The checksum recomputed on the reply side differs from the encoded one
    // exactly in the read bit of the virtual address byte.
    assert(seq![send] + body =~= seq![send] + (seq![SUB_ADDRESS_DDC_CI] + rest));
    lemma_xor_sum_cons(send, seq![SUB_ADDRESS_DDC_CI] + rest);
    let x = xor_sum(seq![SUB_ADDRESS_DDC_CI] + rest);
    assert(cs == send ^ x);
    assert(echoed.subrange(1, 2 + ln) =~= rest);
    assert(seq![reply, SUB_ADDRESS_DDC_CI] + rest =~= seq![reply] + (seq![SUB_ADDRESS_DDC_CI]
        + rest));
    lemma_xor_sum_cons(reply, seq![SUB_ADDRESS_DDC_CI] + rest);
    let expected = xor_sum(seq![reply, SUB_ADDRESS_DDC_CI] + echoed.subrange(1, 2 + ln));
    assert(expected == reply ^ x);
    assert(send % 2 == 0 && send < 255 ==> reply == send + 1 && (send ^ 1) == send + 1 && ((send
        ^ 1) ^ x) == ((send ^ x) ^ 1)) by (bit_vector)
        requires
            reply == ((send as int + 1) % 256) as u8,
    ;
    assert(send % 2 == 0 && send < 255);
    assert(echoed[2 + ln] == cs ^ 1);
    assert(expected == cs ^ 1);
    assert(echoed.subrange(2, 2 + ln) =~= data);
}

/// Law: a nonempty reply is rejected as InvalidLength exactly when its
/// declared payload length plus two reaches the end of the buffer, leaving
/// no room for the checksum byte.
pub proof fn lemma_invalid_length_iff(response: Seq<u8>, chip_address: u16)
    requires
        response.len() > 0,
    ensures
        spec_decode(response, chip_address) == Err::<Seq<u8>, ErrorCode>(ErrorCode::InvalidLength)
            <==> (response[1] & 0x7f) + 2 >= response.len(),
{
}

/// Law: the checksum is order- and content-sensitive. In a reply that
/// decodes successfully, changing any single byte that validation covers
/// (the declared payload, the checksum byte, or the read bit of the length
/// byte) makes decoding fail with InvalidChecksum. The reply's first byte is
/// a transport artifact that validation ignores, and a change to the
/// declared length itself redirects validation to other bytes, so those
/// changes are outside this law: a changed length byte keeps its declared
/// length here.
pub proof fn lemma_single_byte_corruption(response: Seq<u8>, chip_address: u16, i: int, v: u8)
    requires
        response.len() > 0,
        spec_decode(response, chip_address) matches Ok(_),
        1 <= i <= 2 + (response[1] & 0x7f),
        v != response[i],
        i == 1 ==> v & 0x7f == response[1] & 0x7f,
    ensures
        spec_decode(response.update(i, v), chip_address) == Err::<Seq<u8>, ErrorCode>(
            ErrorCode::InvalidChecksum,
        ),
{
    let ln = (response[1] & 0x7f) as int;
    let reply = reply_address_byte(chip_address);
    let d = seq![reply, SUB_ADDRESS_DDC_CI] + response.subrange(1, 2 + ln);
    let expected = xor_sum(d);
    let mutated = response.update(i, v);
    assert(mutated.len() == response.len());
    assert((mutated[1] & 0x7f) as int == ln);
    let d2 = seq![reply, SUB_ADDRESS_DDC_CI] + mutated.subrange(1, 2 + ln);
    if i < 2 + ln {
        assert(d2 =~= d.update(i + 1, v));
        lemma_xor_sum_update(d, i + 1, v);
        assert(d[i + 1] == response[i]);
        let a = response[i];
        let e = expected;
        assert(a != v ==> (e ^ (a ^ v)) != e) by (bit_vector);
        assert(xor_sum(d2) != expected);
        assert(mutated[2 + ln] == response[2 + ln]);
    } else {
        assert(d2 =~= d);
        assert(mutated[2 + ln] == v);
    }
}

/// The cumulative XOR of a byte vector.
pub fn checksum(bytes: &Vec<u8>) -> (r: u8)
    ensures
        r == xor_sum(bytes@),
{
    let mut acc: u8 = 0;
    let mut i: usize = 0;
    while i < bytes.len()
        invariant
            i <= bytes@.len(),
            acc == xor_sum(bytes@.subrange(0, i as int)),
        decreases bytes@.len() - i,
    {
        acc = acc ^ bytes[i];
        i = i + 1;
        proof {
            assert(bytes@.subrange(0, i as int).drop_last() =~= bytes@.subrange(0, i - 1));
        }
    }
    proof {
        assert(bytes@.subrange(0, bytes@.len() as int) =~= bytes@);
    }
    acc
}

/// Frames a command payload as a DDC/CI packet for the given chip address.
pub fn encode_command(data: &Vec<u8>, chip_address: u16) -> (packet: Vec<u8>)
    requires
        data@.len() <= MAX_PAYLOAD_LEN,
    ensures
        packet@ == spec_encode(data@, chip_address),
{
    let mut packet: Vec<u8> = Vec::new();
    packet.push(SUB_ADDRESS_DDC_CI);
    packet.push(0x80 + data.len() as u8);
    let mut i: usize = 0;
    while i < data.len()
        invariant
            i <= data@.len(),
            data@.len() <= MAX_PAYLOAD_LEN,
            packet@ == seq![SUB_ADDRESS_DDC_CI, (0x80 + data@.len()) as u8] + data@.subrange(
                0,
                i as int,
            ),
        decreases data@.len() - i,
    {
        packet.push(data[i]);
        i = i + 1;
        proof {
            assert(data@.subrange(0, i as int) =~= data@.subrange(0, i - 1).push(data@[i - 1]));
        }
    }
    proof {
        assert(data@.subrange(0, data@.len() as int) =~= data@);
    }
    let mut cks_input: Vec<u8> = Vec::new();
    cks_input.push((((chip_address as u32) % 128) * 2) as u8);
    let mut j: usize = 0;
    while j < packet.len()
        invariant
            j <= packet@.len(),
            cks_input@ == seq![send_address_byte(chip_address)] + packet@.subrange(0, j as int),
        decreases packet@.len() - j,
    {
        cks_input.push(packet[j]);
        j = j + 1;
        proof {
            assert(packet@.subrange(0, j as int) =~= packet@.subrange(0, j - 1).push(
                packet@[j - 1],
            ));
        }
    }
    proof {
        assert(packet@.subrange(0, packet@.len() as int) =~= packet@);
    }
    let cks = checksum(&cks_input);
    packet.push(cks);
    packet
}

/// Validates a reply buffer against the framing rules and extracts its
/// payload. An empty buffer is a command with no defined reply; a buffer of
/// one byte cannot carry a declared length and is ruled out.
pub fn decode_response(response: &Vec<u8>, chip_address: u16) -> (r: Result<Vec<u8>, Error>)
    requires
        response@.len() != 1,
    ensures
        ({
            let s = spec_decode(response@, chip_address);
            match r {
                Ok(payload) => s == Ok::<Seq<u8>, ErrorCode>(payload@),
                Err(e) => s matches Err(code) && e == Error::Ddc(code),
            }
        }),
{
    if response.len() == 0 {
        return Ok(Vec::new());
    }
    let length_byte = response[1];
    proof {
        assert(length_byte & 0x7f <= 0x7f) by (bit_vector);
    }
    let length = (length_byte & 0x7f) as usize;
    if length + 2 >= response.len() {
        return Err(Error::Ddc(ErrorCode::InvalidLength));
    }
    let mut cks_input: Vec<u8> = Vec::new();
    cks_input.push((((chip_address as u32) % 128) * 2 + 1) as u8);
    cks_input.push(SUB_ADDRESS_DDC_CI);
    let mut i: usize = 1;
    while i < 2 + length
        invariant
            1 <= i <= 2 + length,
            length <= 0x7f,
            length + 2 < response@.len(),
            cks_input@ == seq![
                reply_address_byte(chip_address),
                SUB_ADDRESS_DDC_CI,
            ] + response@.subrange(1, i as int),
        decreases 2 + length - i,
    {
        cks_input.push(response[i]);
        i = i + 1;
        proof {
            assert(response@.subrange(1, i as int) =~= response@.subrange(1, i - 1).push(
                response@[i - 1],
            ));
        }
    }
    let expected = checksum(&cks_input);
    if response[2 + length] != expected {
        return Err(Error::Ddc(ErrorCode::InvalidChecksum));
    }
    let mut payload: Vec<u8> = Vec::new();
    let mut j: usize = 2;
    while j < 2 + length
        invariant
            2 <= j <= 2 + length,
            length <= 0x7f,
            length + 2 < response@.len(),
            payload@ == response@.subrange(2, j as int),
        decreases 2 + length - j,
    {
        payload.push(response[j]);
        j = j + 1;
        proof {
            assert(response@.subrange(2, j as int) =~= response@.subrange(2, j - 1).push(
                response@[j - 1],
            ));
        }
    }
    Ok(payload)
}

} // verus!

