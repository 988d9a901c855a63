//! The `pitm` box: the primary item's id, 16 bits wide for version 0 and 32
//! bits wide from version 1 on.

use crate::bbox::header::{spec_full_from, BoxHeader, FullBoxHeader};
use crate::bit::{be16, be32, BitStream, Byte4};
use crate::HeifError;
use vstd::prelude::*;

verus! {

/// The primary item box.
#[derive(Debug)]
pub struct PrimaryItemBox {
    pub full_box_header: FullBoxHeader,
    pub item_id: u32,
}

impl Default for PrimaryItemBox {
    fn default() -> (r: PrimaryItemBox)
        ensures
            r.item_id == 0,
            r.full_box_header.version == 0,
            r.full_box_header.flags == 0,
    {
        PrimaryItemBox {
            full_box_header: FullBoxHeader::new(Byte4(0x70, 0x69, 0x74, 0x6D), 0, 0),
            item_id: 0,
        }
    }
}

impl PrimaryItemBox {
    /// Reads the box body: version and flags, then the primary item id as a
    /// 16-bit integer for version 0 and a 32-bit integer otherwise.
    pub fn from_stream_header(stream: &mut BitStream, box_header: BoxHeader) -> (r: Result<
        PrimaryItemBox,
        HeifError,
    >)
        requires
            old(stream).wf(),
            old(stream).bit_offset == 0,
        ensures
            final(stream).inner@ == old(stream).inner@,
            final(stream).wf(),
            final(stream).bit_offset == 0,
            ({
                let d = old(stream).inner@;
                let p = old(stream).byte_offset as int;
                let left = d.len() - p;
                match r {
                    Ok(b) => {
                        &&& spec_full_from(b.full_box_header, box_header, d, p)
                        &&& if d[p] == 0 {
                            &&& left >= 6
                            &&& b.item_id == be16(d, p + 4)
                            &&& final(stream).byte_offset == p + 6
                        } else {
                            &&& left >= 8
                            &&& b.item_id == be32(d, p + 4)
                            &&& final(stream).byte_offset == p + 8
                        }
                    },
                    Err(e) => {
                        &&& e == HeifError::EndOfStream
                        &&& (left < 4 || (d[p] == 0 && left < 6) || (d[p] != 0 && left < 8))
                    },
                }
            }),
    {
        let full_box_header = FullBoxHeader::from(stream, box_header)?;
        let item_id: u32 = if full_box_header.version() == 0 {
            stream.read_2bytes()?.to_u32()
        } else {
            stream.read_4bytes()?.to_u32()
        };
        Ok(PrimaryItemBox { full_box_header, item_id })
    }

    pub fn full_box_header(&self) -> (r: &FullBoxHeader)
        ensures
            r == self.full_box_header,
    {
        &self.full_box_header
    }

    pub fn item_id(&self) -> (r: u32)
        ensures
            r == self.item_id,
    {
        self.item_id
    }

    pub fn set_item_id(&mut self, id: u32)
        ensures
            final(self).item_id == id,
            final(self).full_box_header == old(self).full_box_header,
    {
        self.item_id = id;
    }
}

} // verus!
