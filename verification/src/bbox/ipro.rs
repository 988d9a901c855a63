//! The `ipro` box: a counted list of protection scheme information boxes,
//! each retained as opaque bytes.

use crate::bbox::header::{
    spec_child_body, spec_child_end, spec_child_err, spec_child_ok, spec_full_from, BoxHeader,
    FullBoxHeader,
};
use crate::bit::{be16, BitStream, Byte4};
use crate::HeifError;
use vstd::prelude::*;

verus! {

/// Parses `count` child boxes starting at byte `p` of `d`, keeping each
/// child's body bytes.
pub open spec fn spec_parse_ipro_entries(d: Seq<u8>, p: int, count: nat, acc: Seq<Seq<u8>>) -> Result<
    (Seq<Seq<u8>>, int),
    HeifError,
>
    decreases count,
{
    if count == 0 {
        Ok((acc, p))
    } else if !spec_child_ok(d, p) {
        Err(spec_child_err(d, p))
    } else {
        spec_parse_ipro_entries(
            d,
            spec_child_end(d, p),
            (count - 1) as nat,
            acc.push(spec_child_body(d, p)),
        )
    }
}

/// Parses an `ipro` body at byte `p` of `d`: version and flags, a 16-bit
/// child count, then that many child boxes.
pub open spec fn spec_parse_ipro(d: Seq<u8>, p: int) -> Result<(Seq<Seq<u8>>, int), HeifError> {
    if d.len() - p < 6 {
        Err(HeifError::EndOfStream)
    } else {
        spec_parse_ipro_entries(d, p + 6, be16(d, p + 4) as nat, Seq::empty())
    }
}

/// One protection scheme information box, kept as opaque bytes.
#[derive(Debug, Default)]
pub struct ProtectionSchemeInfoBox {
    pub data: Vec<u8>,
}

impl ProtectionSchemeInfoBox {
    pub fn new() -> (r: ProtectionSchemeInfoBox)
        ensures
            r.data@ == Seq::<u8>::empty(),
    {
        ProtectionSchemeInfoBox { data: Vec::new() }
    }

    /// Retains the whole remaining stream as the scheme bytes.
    pub fn from_stream(stream: &mut BitStream) -> (r: Result<ProtectionSchemeInfoBox, HeifError>)
        requires
            old(stream).wf(),
            old(stream).bit_offset == 0,
        ensures
            final(stream).inner@ == old(stream).inner@,
            final(stream).wf(),
            final(stream).bit_offset == 0,
            match r {
                Ok(b) => {
                    &&& b.data@ == old(stream).inner@.subrange(
                        old(stream).byte_offset as int,
                        old(stream).inner@.len() as int,
                    )
                    &&& final(stream).byte_offset == old(stream).inner@.len()
                },
                Err(_) => false,
            },
    {
        let left = stream.num_bytes_left();
        let data = stream.read_bytes(left)?;
        Ok(ProtectionSchemeInfoBox { data })
    }

    pub fn data(&self) -> (r: &Vec<u8>)
        ensures
            r == self.data,
    {
        &self.data
    }

    pub fn set_data(&mut self, data: Vec<u8>)
        ensures
            final(self).data == data,
    {
        self.data = data;
    }
}

/// The item protection box.
#[derive(Debug)]
pub struct ItemProtectionBox {
    pub full_box_header: FullBoxHeader,
    pub protection_info: Vec<ProtectionSchemeInfoBox>,
}

impl Default for ItemProtectionBox {
    fn default() -> (r: ItemProtectionBox)
        ensures
            r.protection_info@.len() == 0,
    {
        ItemProtectionBox {
            full_box_header: FullBoxHeader::new(Byte4(0x69, 0x70, 0x72, 0x6F), 0, 0),
            protection_info: Vec::new(),
        }
    }
}

impl ItemProtectionBox {
    /// The scheme bytes of each protection entry, in order.
    pub open spec fn infos(&self) -> Seq<Seq<u8>> {
        self.protection_info@.map_values(|b: ProtectionSchemeInfoBox| b.data@)
    }

    /// Reads the box body: version and flags, a 16-bit count, then that many
    /// protection scheme boxes, each kept whole.
    pub fn from_stream_header(stream: &mut BitStream, box_header: BoxHeader) -> (r: Result<
        ItemProtectionBox,
        HeifError,
    >)
        requires
            old(stream).wf(),
            old(stream).bit_offset == 0,
        ensures
            final(stream).inner@ == old(stream).inner@,
            final(stream).wf(),
            final(stream).bit_offset == 0,
            ({
                let d = old(stream).inner@;
                let p = old(stream).byte_offset as int;
                match r {
                    Ok(b) => {
                        &&& spec_full_from(b.full_box_header, box_header, d, p)
                        &&& spec_parse_ipro(d, p) == Ok::<_, HeifError>(
                            (b.infos(), final(stream).byte_offset as int),
                        )
                    },
                    Err(e) => spec_parse_ipro(d, p) == Err::<(Seq<Seq<u8>>, int), _>(e),
                }
            }),
    {
        let ghost d = old(stream).inner@;
        let ghost p = old(stream).byte_offset as int;
        let full_box_header = FullBoxHeader::from(stream, box_header)?;
        let box_count = stream.read_2bytes()?.to_u16();
        let ghost count = box_count as nat;
        let mut protection_info: Vec<ProtectionSchemeInfoBox> = Vec::new();
        proof {
            assert(protection_info@.map_values(|b: ProtectionSchemeInfoBox| b.data@)
                =~= Seq::<Seq<u8>>::empty());
        }
        let mut i: u16 = 0;
        while i < box_count
            invariant
                d == old(stream).inner@,
                p == old(stream).byte_offset as int,
                stream.inner@ == d,
                stream.wf(),
                stream.bit_offset == 0,
                i <= box_count,
                count == box_count as nat,
                spec_parse_ipro(d, p) == spec_parse_ipro_entries(d, p + 6, count, Seq::empty()),
                protection_info@.len() == i,
                spec_parse_ipro_entries(d, p + 6, count, Seq::empty()) == spec_parse_ipro_entries(
                    d,
                    stream.byte_offset as int,
                    (count - i) as nat,
                    protection_info@.map_values(|b: ProtectionSchemeInfoBox| b.data@),
                ),
            decreases box_count - i,
        {
            let ghost cur = stream.byte_offset as int;
            let ghost acc = protection_info@.map_values(|b: ProtectionSchemeInfoBox| b.data@);
            let child_box_header = match BoxHeader::from(stream) {
                Ok(h) => h,
                Err(e) => {
                    proof {
                        assert(!spec_child_ok(d, cur));
                        assert(spec_child_err(d, cur) == e);
                    }
                    return Err(e);
                },
            };
            let mut ex = match stream.extract_from(&child_box_header) {
                Ok(x) => x,
                Err(e) => {
                    proof {
                        assert(!spec_child_ok(d, cur));
                        assert(spec_child_err(d, cur) == e);
                    }
                    return Err(e);
                },
            };
            let entry = ProtectionSchemeInfoBox::from_stream(&mut ex)?;
            protection_info.push(entry);
            proof {
                assert(spec_child_ok(d, cur));
                assert(entry.data@ =~= spec_child_body(d, cur));
                assert(protection_info@.map_values(|b: ProtectionSchemeInfoBox| b.data@)
                    =~~= acc.push(spec_child_body(d, cur)));
            }
            i = i + 1;
        }
        Ok(ItemProtectionBox { full_box_header, protection_info })
    }

    pub fn full_box_header(&self) -> (r: &FullBoxHeader)
        ensures
            r == self.full_box_header,
    {
        &self.full_box_header
    }

    pub fn protection_count(&self) -> (r: usize)
        ensures
            r == self.protection_info@.len(),
    {
        self.protection_info.len()
    }

    pub fn entry_at(&self, index: usize) -> (r: Option<&ProtectionSchemeInfoBox>)
        ensures
            match r {
                Some(b) => index < self.protection_info@.len() && b == self.protection_info@[index as int],
                None => index >= self.protection_info@.len(),
            },
    {
        if index < self.protection_info.len() {
            Some(&self.protection_info[index])
        } else {
            None
        }
    }

    pub fn add_entry(&mut self, entry: ProtectionSchemeInfoBox)
        ensures
            final(self).protection_info@ == old(self).protection_info@.push(entry),
            final(self).full_box_header == old(self).full_box_header,
    {
        self.protection_info.push(entry);
    }
}

} // verus!
