//! The compensation coefficients programmed into each device at the factory,
//! read once from fixed register offsets.
use vstd::prelude::*;

use crate::bus::is_register_read;
use crate::bus::I2cWriteRead;
use crate::bus::Transaction;

verus! {

/// The register of the `j`-th of the eighteen coefficient reads: the
/// temperature and pressure coefficients from 0x88 to 0x9E in 2-byte steps,
/// then the humidity coefficients at 0xA1, 0xE1, 0xE3, 0xE4, 0xE5 and 0xE7.
pub open spec fn calibration_register(j: int) -> u8 {
    if j < 12 {
        (0x88 + 2 * j) as u8
    } else if j == 12 {
        0xA1
    } else if j == 13 {
        0xE1
    } else if j == 14 {
        0xE3
    } else if j == 15 {
        0xE4
    } else if j == 16 {
        0xE5
    } else {
        0xE7
    }
}

/// The reply length of the `j`-th coefficient read.
pub open spec fn calibration_len(j: int) -> nat {
    if j == 12 || j == 14 || j == 17 {
        1
    } else {
        2
    }
}

/// Register and reply length of the `j`-th coefficient read.
fn calibration_read(j: usize) -> (r: (u8, usize))
    requires
        j < 18,
    ensures
        r.0 == calibration_register(j as int),
        r.1 == calibration_len(j as int),
{
    if j < 12 {
        (0x88 + 2 * j as u8, 2)
    } else if j == 12 {
        (0xA1, 1)
    } else if j == 13 {
        (0xE1, 2)
    } else if j == 14 {
        (0xE3, 1)
    } else if j == 15 {
        (0xE4, 2)
    } else if j == 16 {
        (0xE5, 2)
    } else {
        (0xE7, 1)
    }
}

/// The eighteen compensation coefficients of one device.
#[derive(Debug, Clone, Copy, PartialEq, Eq, Structural)]
pub struct CompensationData {
    pub dig_t1: u16,
    pub dig_t2: i16,
    pub dig_t3: i16,
    pub dig_p1: u16,
    pub dig_p2: i16,
    pub dig_p3: i16,
    pub dig_p4: i16,
    pub dig_p5: i16,
    pub dig_p6: i16,
    pub dig_p7: i16,
    pub dig_p8: i16,
    pub dig_p9: i16,
    pub dig_h1: u8,
    pub dig_h2: i16,
    pub dig_h3: u8,
    pub dig_h4: i16,
    pub dig_h5: i16,
    pub dig_h6: i8,
}

/// A little-endian unsigned 16-bit value.
pub open spec fn le_u16(lo: u8, hi: u8) -> int {
    lo + 256 * hi
}

/// A little-endian two's-complement 16-bit value.
pub open spec fn le_i16(lo: u8, hi: u8) -> int {
    if hi < 128 {
        le_u16(lo, hi)
    } else {
        le_u16(lo, hi) - 65536
    }
}

/// A two's-complement 8-bit value.
pub open spec fn byte_i8(b: u8) -> int {
    if b < 128 {
        b as int
    } else {
        b - 256
    }
}

/// The 12-bit coefficient stored as a full byte followed by the low nibble
/// of the next byte: `first << 4 | (second & 0x0f)`.
pub open spec fn packed_h4(first: u8, second: u8) -> int {
    16 * first + second % 16
}

/// The 12-bit coefficient stored as the high nibble of one byte followed by
/// the full next byte: `(first & 0xf0) << 4 | second`.
pub open spec fn packed_h5(first: u8, second: u8) -> int {
    256 * (first / 16) + second
}

/// `c` holds the coefficients that eighteen replies encode, each decoded
/// as its width and signedness ask.
pub open spec fn decodes_from<E>(c: CompensationData, t: Seq<Transaction<E>>) -> bool {
    &&& c.dig_t1 == le_u16(t[0].2[0], t[0].2[1])
    &&& c.dig_t2 == le_i16(t[1].2[0], t[1].2[1])
    &&& c.dig_t3 == le_i16(t[2].2[0], t[2].2[1])
    &&& c.dig_p1 == le_u16(t[3].2[0], t[3].2[1])
    &&& c.dig_p2 == le_i16(t[4].2[0], t[4].2[1])
    &&& c.dig_p3 == le_i16(t[5].2[0], t[5].2[1])
    &&& c.dig_p4 == le_i16(t[6].2[0], t[6].2[1])
    &&& c.dig_p5 == le_i16(t[7].2[0], t[7].2[1])
    &&& c.dig_p6 == le_i16(t[8].2[0], t[8].2[1])
    &&& c.dig_p7 == le_i16(t[9].2[0], t[9].2[1])
    &&& c.dig_p8 == le_i16(t[10].2[0], t[10].2[1])
    &&& c.dig_p9 == le_i16(t[11].2[0], t[11].2[1])
    &&& c.dig_h1 == t[12].2[0]
    &&& c.dig_h2 == le_i16(t[13].2[0], t[13].2[1])
    &&& c.dig_h3 == t[14].2[0]
    &&& c.dig_h4 == packed_h4(t[15].2[0], t[15].2[1])
    &&& c.dig_h5 == packed_h5(t[16].2[0], t[16].2[1])
    &&& c.dig_h6 == byte_i8(t[17].2[0])
}

/// A coefficient load at `address` took the log from `before` to `after`
/// and gave `r`: the coefficient reads were made in order, each only after
/// the one before it succeeded; a failed read ends the load with its error;
/// otherwise all eighteen succeeded and `r` holds what they encode.
pub open spec fn calibration_load<E>(
    before: Seq<Transaction<E>>,
    after: Seq<Transaction<E>>,
    address: u8,
    r: Result<CompensationData, E>,
) -> bool {
    let fresh = after.skip(before.len() as int);
    &&& after.len() >= before.len()
    &&& after.take(before.len() as int) == before
    &&& 1 <= fresh.len() <= 18
    &&& forall|j: int|
        0 <= j < fresh.len() ==> is_register_read(
            #[trigger] fresh[j],
            address,
            calibration_register(j),
            calibration_len(j),
        )
    &&& forall|j: int| 0 <= j < fresh.len() - 1 ==> (#[trigger] fresh[j]).3 is Ok
    &&& match r {
        Ok(c) => fresh.len() == 18 && fresh.last().3 is Ok && decodes_from(c, fresh) && c.wf(),
        Err(e) => fresh.last().3 == Err::<(), E>(e),
    }
}

impl CompensationData {
    /// The two nibble-packed humidity coefficients hold twelve bits each.
    pub open spec fn wf(&self) -> bool {
        0 <= self.dig_h4 < 4096 && 0 <= self.dig_h5 < 4096
    }

    /// Reads all eighteen coefficients from the device at `address`, one bus
    /// transaction each, in the order of [`calibration_register`]. The first
    /// failing transaction ends the load and its error is returned: no
    /// partial set of coefficients is ever handed out.
    pub fn read<B: I2cWriteRead>(bus: &mut B, address: u8) -> (r: Result<CompensationData, B::Error>)
        ensures
            calibration_load(old(bus).transactions(), final(bus).transactions(), address, r),
    {
        let ghost n = old(bus).transactions().len() as int;
        let mut replies: Vec<[u8; 2]> = Vec::new();
        let mut i: usize = 0;
        while i < 18
            invariant
                n == old(bus).transactions().len(),
                i <= 18,
                replies.len() == i,
                bus.transactions().len() == n + i,
                bus.transactions().take(n) == old(bus).transactions(),
                forall|j: int|
                    0 <= j < i ==> {
                        let t = #[trigger] bus.transactions()[n + j];
                        &&& is_register_read(t, address, calibration_register(j), calibration_len(j))
                        &&& t.3 is Ok
                        &&& t.2[0] == replies[j][0]
                        &&& (calibration_len(j) == 2 ==> t.2[1] == replies[j][1])
                    },
            decreases 18 - i,
        {
            let (register, len) = calibration_read(i);
            let ghost before = bus.transactions();
            let mut buffer = [0u8; 2];
            let outcome = if len == 1 {
                let mut one = [0u8; 1];
                let command = [register];
                let o = bus.write_read(address, &command, &mut one);
                proof {
                    assert(command@ =~= seq![register]);
                    assert(bus.transactions().last().2 == one@);
                }
                buffer = [one[0], 0];
                o
            } else {
                let command = [register];
                let o = bus.write_read(address, &command, &mut buffer);
                proof {
                    assert(command@ =~= seq![register]);
                    assert(bus.transactions().last().2 == buffer@);
                }
                o
            };
            proof {
                assert(bus.transactions().take(n) =~= before.take(n));
            }
            match outcome {
                Err(e) => {
                    proof {
                        let fresh = bus.transactions().skip(n);
                        assert forall|j: int| 0 <= j < fresh.len() implies fresh[j]
                            == bus.transactions()[n + j] by {}
                    }
                    return Err(e);
                },
                Ok(()) => {},
            }
            replies.push(buffer);
            i = i + 1;
        }
        let c = CompensationData::decode(&replies);
        proof {
            let fresh = bus.transactions().skip(n);
            assert forall|j: int| 0 <= j < 18 implies fresh[j] == bus.transactions()[n + j] by {}
        }
        Ok(c)
    }

    /// The coefficients encoded by eighteen replies, one per entry of
    /// [`calibration_register`]; a one-byte reply stands in the first byte.
    fn decode(replies: &Vec<[u8; 2]>) -> (c: CompensationData)
        requires
            replies.len() == 18,
        ensures
            c.dig_t1 == le_u16(replies[0][0], replies[0][1]),
            c.dig_t2 == le_i16(replies[1][0], replies[1][1]),
            c.dig_t3 == le_i16(replies[2][0], replies[2][1]),
            c.dig_p1 == le_u16(replies[3][0], replies[3][1]),
            c.dig_p2 == le_i16(replies[4][0], replies[4][1]),
            c.dig_p3 == le_i16(replies[5][0], replies[5][1]),
            c.dig_p4 == le_i16(replies[6][0], replies[6][1]),
            c.dig_p5 == le_i16(replies[7][0], replies[7][1]),
            c.dig_p6 == le_i16(replies[8][0], replies[8][1]),
            c.dig_p7 == le_i16(replies[9][0], replies[9][1]),
            c.dig_p8 == le_i16(replies[10][0], replies[10][1]),
            c.dig_p9 == le_i16(replies[11][0], replies[11][1]),
            c.dig_h1 == replies[12][0],
            c.dig_h2 == le_i16(replies[13][0], replies[13][1]),
            c.dig_h3 == replies[14][0],
            c.dig_h4 == packed_h4(replies[15][0], replies[15][1]),
            c.dig_h5 == packed_h5(replies[16][0], replies[16][1]),
            c.dig_h6 == byte_i8(replies[17][0]),
            c.wf(),
    {
        CompensationData {
            dig_t1: CompensationData::decode_u16(replies[0]),
            dig_t2: CompensationData::decode_i16(replies[1]),
            dig_t3: CompensationData::decode_i16(replies[2]),
            dig_p1: CompensationData::decode_u16(replies[3]),
            dig_p2: CompensationData::decode_i16(replies[4]),
            dig_p3: CompensationData::decode_i16(replies[5]),
            dig_p4: CompensationData::decode_i16(replies[6]),
            dig_p5: CompensationData::decode_i16(replies[7]),
            dig_p6: CompensationData::decode_i16(replies[8]),
            dig_p7: CompensationData::decode_i16(replies[9]),
            dig_p8: CompensationData::decode_i16(replies[10]),
            dig_p9: CompensationData::decode_i16(replies[11]),
            dig_h1: replies[12][0],
            dig_h2: CompensationData::decode_i16(replies[13]),
            dig_h3: replies[14][0],
            dig_h4: CompensationData::decode_h4(replies[15]),
            dig_h5: CompensationData::decode_h5(replies[16]),
            dig_h6: CompensationData::decode_i8(replies[17][0]),
        }
    }

    /// Decodes a two's-complement byte.
    pub fn decode_i8(byte: u8) -> (r: i8)
        ensures
            r == byte_i8(byte),
    {
        if byte < 128 {
            byte as i8
        } else {
            (byte as i16 - 256) as i8
        }
    }

    /// Decodes a little-endian unsigned 16-bit value.
    pub fn decode_u16(bytes: [u8; 2]) -> (r: u16)
        ensures
            r == le_u16(bytes[0], bytes[1]),
    {
        bytes[0] as u16 + 256 * (bytes[1] as u16)
    }

    /// Decodes a little-endian two's-complement 16-bit value.
    pub fn decode_i16(bytes: [u8; 2]) -> (r: i16)
        ensures
            r == le_i16(bytes[0], bytes[1]),
    {
        if bytes[1] < 128 {
            bytes[0] as i16 + 256 * (bytes[1] as i16)
        } else {
            bytes[0] as i16 + 256 * (bytes[1] as i16 - 256)
        }
    }

    /// Decodes the coefficient packed as `first << 4 | (second & 0x0f)`.
    pub fn decode_h4(bytes: [u8; 2]) -> (r: i16)
        ensures
            r == packed_h4(bytes[0], bytes[1]),
            0 <= r < 4096,
    {
        16 * (bytes[0] as i16) + (bytes[1] % 16) as i16
    }

    /// Decodes the coefficient packed as `(first & 0xf0) << 4 | second`.
    pub fn decode_h5(bytes: [u8; 2]) -> (r: i16)
        ensures
            r == packed_h5(bytes[0], bytes[1]),
            0 <= r < 4096,
    {
        256 * ((bytes[0] / 16) as i16) + bytes[1] as i16
    }
}

} // verus!
