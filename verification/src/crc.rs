//! CRC16 for Modbus RTU frames: the reflected polynomial 0xA001, initial
//! value 0xFFFF, computed over every frame byte except the checksum itself.

use vstd::prelude::*;

verus! {

/// One shift round of the CRC: shift right, xor the polynomial in when the
/// low bit was set.
pub open spec fn crc_round(s: u16) -> u16 {
    if s & 1 == 1 {
        (s >> 1) ^ 0xA001
    } else {
        s >> 1
    }
}

/// `n` shift rounds applied to `s`.
pub open spec fn crc_rounds(s: u16, n: nat) -> u16
    decreases n,
{
    if n == 0 {
        s
    } else {
        crc_round(crc_rounds(s, (n - 1) as nat))
    }
}

/// Folding one data byte into the running CRC: xor it into the low byte,
/// then eight shift rounds.
pub open spec fn crc_feed(s: u16, b: u8) -> u16 {
    crc_rounds(s ^ (b as u16), 8)
}

/// The CRC of `data` starting from the running value `s`.
pub open spec fn crc16_from(s: u16, data: Seq<u8>) -> u16
    decreases data.len(),
{
    if data.len() == 0 {
        s
    } else {
        crc_feed(crc16_from(s, data.drop_last()), data.last())
    }
}

/// The Modbus CRC16 of `data`.
pub open spec fn crc16(data: Seq<u8>) -> u16 {
    crc16_from(0xFFFF, data)
}

/// Computes the Modbus CRC16 of `data`.
pub fn crc16_compute(data: &[u8]) -> (r: u16)
    ensures
        r == crc16(data@),
{
    let mut crc: u16 = 0xFFFF;
    let mut i: usize = 0;
    while i < data.len()
        invariant
            i <= data@.len(),
            crc == crc16_from(0xFFFF, data@.take(i as int)),
        decreases data@.len() - i,
    {
        let ghost prev = crc;
        crc = crc ^ (data[i] as u16);
        let mut j: usize = 0;
        while j < 8
            invariant
                j <= 8,
                crc == crc_rounds(prev ^ (data@[i as int] as u16), j as nat),
        decreases 8 - j,
        {
            if crc & 1 == 1 {
                crc = (crc >> 1) ^ 0xA001;
            } else {
                crc = crc >> 1;
            }
            j += 1;
        }
        proof {
            assert(data@.take(i + 1).drop_last() =~= data@.take(i as int));
            assert(data@.take(i + 1).last() == data@[i as int]);
        }
        i += 1;
    }
    proof {
        assert(data@.take(data@.len() as int) =~= data@);
    }
    crc
}

} // verus!
