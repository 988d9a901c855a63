//! The `idat` box: opaque item data that `iloc` entries with the
//! idat-offset construction method address.

use crate::bbox::header::BoxHeader;
use crate::bit::BitStream;
use crate::HeifError;
use vstd::prelude::*;

verus! {

/// The item data box; its whole body is kept as bytes.
#[derive(Debug)]
pub struct ItemDataBox {
    pub box_header: BoxHeader,
    pub data: Vec<u8>,
}

impl Default for ItemDataBox {
    fn default() -> (r: ItemDataBox)
        ensures
            r.data@ == Seq::<u8>::empty(),
    {
        ItemDataBox {
            box_header: BoxHeader::new(crate::bit::Byte4(0x69, 0x64, 0x61, 0x74)),
            data: Vec::new(),
        }
    }
}

impl ItemDataBox {
    /// Retains the whole remaining body as the item data.
    pub fn from_stream_header(stream: &mut BitStream, box_header: BoxHeader) -> (r: Result<
        ItemDataBox,
        HeifError,
    >)
        requires
            old(stream).wf(),
            old(stream).bit_offset == 0,
        ensures
            final(stream).inner@ == old(stream).inner@,
            final(stream).wf(),
            final(stream).bit_offset == 0,
            ({
                let d = old(stream).inner@;
                let p = old(stream).byte_offset as int;
                match r {
                    Ok(b) => {
                        &&& b.box_header == box_header
                        &&& b.data@ == d.subrange(p, d.len() as int)
                        &&& final(stream).byte_offset == d.len()
                    },
                    Err(_) => false,
                }
            }),
    {
        let left = stream.num_bytes_left();
        let data = stream.read_bytes(left)?;
        Ok(ItemDataBox { box_header, data })
    }

    pub fn box_header(&self) -> (r: &BoxHeader)
        ensures
            r == self.box_header,
    {
        &self.box_header
    }

    /// Copies `length` bytes of the item data starting at `offset`; answers
    /// nothing when the range reaches past the data.
    pub fn read(&self, offset: usize, length: usize) -> (r: Option<Vec<u8>>)
        ensures
            match r {
                Some(v) => {
                    &&& offset + length <= self.data@.len()
                    &&& v@ == self.data@.subrange(offset as int, offset + length)
                },
                None => offset + length > self.data@.len(),
            },
    {
        if length > self.data.len() || offset > self.data.len() - length {
            return None;
        }
        let mut v: Vec<u8> = Vec::new();
        let mut i: usize = 0;
        while i < length
            invariant
                i <= length,
                self.data.len() == self.data@.len(),
                offset + length <= self.data@.len(),
                v@ == self.data@.subrange(offset as int, offset + i),
            decreases length - i,
        {
            v.push(self.data[offset + i]);
            proof {
                assert(v@ =~= self.data@.subrange(offset as int, offset + i + 1));
            }
            i = i + 1;
        }
        Some(v)
    }

    /// Appends bytes to the item data, draining the argument.
    pub fn add_data(&mut self, data: &mut Vec<u8>)
        ensures
            final(self).data@ == old(self).data@ + old(data)@,
            final(self).box_header == old(self).box_header,
            final(data)@ == Seq::<u8>::empty(),
    {
        self.data.append(data);
    }
}

} // verus!
