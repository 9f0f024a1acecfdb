//! The GUID embedded in CodeView debug records: three little-endian fields
//! followed by a big-endian tail.
use vstd::prelude::*;

use crate::reader::{be_u16_at, be_u32_at, chars_of_bytes, get_be_u16, get_be_u32, get_u16,
    get_u32, hex_bytes, le_u16_at, le_u32_at, push_hex, string_of_bytes};

verus! {

/// A 16-byte GUID split into the six groups of its display form.
#[derive(Clone, Copy, Debug, PartialEq, Eq, Structural)]
pub struct GUID {
    pub data1: u32,
    pub data2: u16,
    pub data3: u16,
    pub data4: u16,
    pub data5: u32,
    pub data6: u16,
}

/// The GUID stored at `b[off .. off + 16]`: the first three groups are
/// little-endian, the last three big-endian.
pub open spec fn spec_guid(b: Seq<u8>, off: int) -> GUID {
    GUID {
        data1: le_u32_at(b, off),
        data2: le_u16_at(b, off + 4),
        data3: le_u16_at(b, off + 6),
        data4: be_u16_at(b, off + 8),
        data5: be_u32_at(b, off + 10),
        data6: be_u16_at(b, off + 14),
    }
}

/// The display form of a GUID: the six groups in uppercase hexadecimal
/// without zero-padding, the first five separated by dashes and the last two
/// joined.
pub open spec fn spec_guid_chars(g: GUID) -> Seq<char> {
    chars_of_bytes(
        hex_bytes(g.data1 as int) + seq![0x2Du8] + hex_bytes(g.data2 as int) + seq![0x2Du8]
            + hex_bytes(g.data3 as int) + seq![0x2Du8] + hex_bytes(g.data4 as int) + seq![0x2Du8]
            + hex_bytes(g.data5 as int) + hex_bytes(g.data6 as int),
    )
}

impl GUID {
    /// Decodes the 16 GUID bytes at `off`.
    pub fn parse(buffer: &[u8], off: usize) -> (r: GUID)
        requires
            off + 16 <= buffer@.len(),
        ensures
            r == spec_guid(buffer@, off as int),
    {
        let _len = buffer.len();
        GUID {
            data1: get_u32(buffer, off),
            data2: get_u16(buffer, off + 4),
            data3: get_u16(buffer, off + 6),
            data4: get_be_u16(buffer, off + 8),
            data5: get_be_u32(buffer, off + 10),
            data6: get_be_u16(buffer, off + 14),
        }
    }

    /// Renders the GUID in its display form.
    pub fn to_string(&self) -> (r: String)
        ensures
            r@ == spec_guid_chars(*self),
    {
        let mut v: Vec<u8> = Vec::new();
        push_hex(&mut v, self.data1 as u64);
        v.push(0x2D);
        push_hex(&mut v, self.data2 as u64);
        v.push(0x2D);
        push_hex(&mut v, self.data3 as u64);
        v.push(0x2D);
        push_hex(&mut v, self.data4 as u64);
        v.push(0x2D);
        push_hex(&mut v, self.data5 as u64);
        push_hex(&mut v, self.data6 as u64);
        proof {
            assert(v@ =~= hex_bytes(self.data1 as int) + seq![0x2Du8] + hex_bytes(self.data2 as int)
                + seq![0x2Du8] + hex_bytes(self.data3 as int) + seq![0x2Du8] + hex_bytes(
                self.data4 as int,
            ) + seq![0x2Du8] + hex_bytes(self.data5 as int) + hex_bytes(self.data6 as int));
        }
        string_of_bytes(&v)
    }
}

} // verus!
