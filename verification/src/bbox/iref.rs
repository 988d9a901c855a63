//! The `iref` box: typed references from one item to others.  Version 0
//! encodes item ids in 16 bits, version 1 and later in 32 bits, uniformly
//! for all children.

use crate::bbox::header::{
    spec_box_type, spec_header_ok, spec_header_size, BoxHeader, FullBoxHeader,
};
use crate::bit::{be16, be32, BitStream, Byte4};
use crate::HeifError;
use vstd::prelude::*;

verus! {

/// What one reference child holds: its type tag, the referring item, and
/// the items referred to.
pub struct SingleReferenceView {
    pub ref_type: Byte4,
    pub from_id: int,
    pub to_ids: Seq<int>,
}

/// The width in bytes of an item id under the large (32-bit) or small
/// (16-bit) encoding.
pub open spec fn spec_id_width(large: bool) -> int {
    if large {
        4int
    } else {
        2int
    }
}

/// The item id at byte `q` of `d` under the chosen width.
pub open spec fn spec_id_at(d: Seq<u8>, q: int, large: bool) -> int {
    if large {
        be32(d, q)
    } else {
        be16(d, q)
    }
}

/// Parses reference children from byte `p` of `d` to the end.  Each child
/// is a box header followed by the referring id, a 16-bit count, and that
/// many referred ids; the declared child size is not used to bound the
/// fields.
pub open spec fn spec_parse_iref_children(
    d: Seq<u8>,
    p: int,
    large: bool,
    acc: Seq<SingleReferenceView>,
) -> Result<Seq<SingleReferenceView>, HeifError>
    decreases d.len() - p,
{
    if p >= d.len() {
        Ok(acc)
    } else if !spec_header_ok(d, p) {
        Err(
            if d.len() - p < spec_header_size(d, p) {
                HeifError::EndOfStream
            } else {
                HeifError::MalformedBox
            },
        )
    } else {
        let q = p + spec_header_size(d, p);
        let w = spec_id_width(large);
        if d.len() - q < w + 2 {
            Err(HeifError::EndOfStream)
        } else {
            let cnt = be16(d, q + w);
            if d.len() - (q + w + 2) < w * cnt {
                Err(HeifError::EndOfStream)
            } else {
                spec_parse_iref_children(
                    d,
                    q + w + 2 + w * cnt,
                    large,
                    acc.push(
                        SingleReferenceView {
                            ref_type: spec_box_type(d, p),
                            from_id: spec_id_at(d, q, large),
                            to_ids: Seq::new(cnt as nat, |i: int| spec_id_at(d, q + w + 2 + w * i, large)),
                        },
                    ),
                )
            }
        }
    }
}

/// Parses an `iref` body at byte `p` of `d`: version and flags, then
/// reference children to the end, with the id width chosen by the version.
pub open spec fn spec_parse_iref(d: Seq<u8>, p: int) -> Result<Seq<SingleReferenceView>, HeifError> {
    if d.len() - p < 4 {
        Err(HeifError::EndOfStream)
    } else {
        spec_parse_iref_children(d, p + 4, d[p] > 0, Seq::empty())
    }
}

/// One reference child box.
#[derive(Debug)]
pub struct SingleItemTypeReferenceBox {
    pub box_header: BoxHeader,
    pub from_item_id: u32,
    pub to_item_ids: Vec<u32>,
    pub is_large: bool,
}

impl SingleItemTypeReferenceBox {
    /// What this child holds, for the parse specification.
    pub open spec fn view_spec(&self) -> SingleReferenceView {
        SingleReferenceView {
            ref_type: self.box_header.box_type,
            from_id: self.from_item_id as int,
            to_ids: self.to_item_ids@.map_values(|x: u32| x as int),
        }
    }

    pub fn new(is_large: bool) -> (r: SingleItemTypeReferenceBox)
        ensures
            r.from_item_id == 0,
            r.to_item_ids@.len() == 0,
            r.is_large == is_large,
    {
        SingleItemTypeReferenceBox {
            box_header: BoxHeader::new(Byte4(0, 0, 0, 0)),
            from_item_id: 0,
            to_item_ids: Vec::new(),
            is_large,
        }
    }

    /// Reads one reference child's fields after its header: the referring
    /// id, a 16-bit count, then the referred ids, all in the width the
    /// parent's version selects.
    pub fn from_stream_is_large(
        stream: &mut BitStream,
        box_header: BoxHeader,
        is_large: bool,
    ) -> (r: Result<SingleItemTypeReferenceBox, HeifError>)
        requires
            old(stream).wf(),
            old(stream).bit_offset == 0,
        ensures
            final(stream).inner@ == old(stream).inner@,
            final(stream).wf(),
            final(stream).bit_offset == 0,
            ({
                let d = old(stream).inner@;
                let p = old(stream).byte_offset as int;
                let w = spec_id_width(is_large);
                match r {
                    Ok(b) => {
                        &&& d.len() - p >= w + 2
                        &&& d.len() - (p + w + 2) >= w * be16(d, p + w)
                        &&& b.box_header == box_header
                        &&& b.is_large == is_large
                        &&& b.from_item_id == spec_id_at(d, p, is_large)
                        &&& b.to_item_ids@.len() == be16(d, p + w)
                        &&& (forall|i: int|
                            0 <= i < b.to_item_ids@.len() ==> b.to_item_ids@[i] == spec_id_at(
                                d,
                                p + w + 2 + w * i,
                                is_large,
                            ))
                        &&& final(stream).byte_offset == p + w + 2 + w * be16(d, p + w)
                    },
                    Err(e) => {
                        &&& e == HeifError::EndOfStream
                        &&& (d.len() - p < w + 2 || d.len() - (p + w + 2) < w * be16(d, p + w))
                    },
                }
            }),
    {
        let from_item_id: u32 = if is_large {
            stream.read_4bytes()?.to_u32()
        } else {
            stream.read_2bytes()?.to_u32()
        };
        let ref_count = stream.read_2bytes()?.to_u16();
        let to_item_ids: Vec<u32> = if is_large {
            stream.read_be32s(ref_count as usize)?
        } else {
            stream.read_be16s_as_u32(ref_count as usize)?
        };
        Ok(SingleItemTypeReferenceBox { box_header, from_item_id, to_item_ids, is_large })
    }

    pub fn box_header(&self) -> (r: &BoxHeader)
        ensures
            r == self.box_header,
    {
        &self.box_header
    }

    pub fn set_reference_type(&mut self, r_type: Byte4)
        ensures
            final(self).box_header.box_type == r_type,
            final(self).box_header.box_size == old(self).box_header.box_size,
            final(self).from_item_id == old(self).from_item_id,
            final(self).to_item_ids == old(self).to_item_ids,
            final(self).is_large == old(self).is_large,
    {
        self.box_header.set_box_type(r_type);
    }

    pub fn get_from_item_id(&self) -> (r: u32)
        ensures
            r == self.from_item_id,
    {
        self.from_item_id
    }

    pub fn set_from_item_id(&mut self, id: u32)
        ensures
            final(self).from_item_id == id,
            final(self).box_header == old(self).box_header,
            final(self).to_item_ids == old(self).to_item_ids,
            final(self).is_large == old(self).is_large,
    {
        self.from_item_id = id;
    }

    pub fn add_to_item_id(&mut self, id: u32)
        ensures
            final(self).to_item_ids@ == old(self).to_item_ids@.push(id),
            final(self).box_header == old(self).box_header,
            final(self).from_item_id == old(self).from_item_id,
            final(self).is_large == old(self).is_large,
    {
        self.to_item_ids.push(id);
    }

    pub fn clear_to_item_id(&mut self)
        ensures
            final(self).to_item_ids@ == Seq::<u32>::empty(),
            final(self).box_header == old(self).box_header,
            final(self).from_item_id == old(self).from_item_id,
            final(self).is_large == old(self).is_large,
    {
        self.to_item_ids.clear();
    }

    pub fn to_item_ids(&self) -> (r: &Vec<u32>)
        ensures
            r == self.to_item_ids,
    {
        &self.to_item_ids
    }
}

/// The item reference box.
#[derive(Debug)]
pub struct ItemReferenceBox {
    pub full_box_header: FullBoxHeader,
    pub reference_list: Vec<SingleItemTypeReferenceBox>,
}

impl Default for ItemReferenceBox {
    fn default() -> (r: ItemReferenceBox)
        ensures
            r.reference_list@.len() == 0,
    {
        ItemReferenceBox {
            full_box_header: FullBoxHeader::new(Byte4(0x69, 0x72, 0x65, 0x66), 0, 0),
            reference_list: Vec::new(),
        }
    }
}

impl ItemReferenceBox {
    /// The references this box holds, in order.
    pub open spec fn refs(&self) -> Seq<SingleReferenceView> {
        self.reference_list@.map_values(|b: SingleItemTypeReferenceBox| b.view_spec())
    }

    pub fn full_box_header(&self) -> (r: &FullBoxHeader)
        ensures
            r == self.full_box_header,
    {
        &self.full_box_header
    }

    /// Reads the box body: version and flags, then reference children until
    /// the body ends.
    pub fn from_stream_header(stream: &mut BitStream, box_header: BoxHeader) -> (r: Result<
        ItemReferenceBox,
        HeifError,
    >)
        requires
            old(stream).wf(),
            old(stream).bit_offset == 0,
        ensures
            final(stream).inner@ == old(stream).inner@,
            final(stream).wf(),
            final(stream).bit_offset == 0,
            ({
                let d = old(stream).inner@;
                let p = old(stream).byte_offset as int;
                match r {
                    Ok(b) => {
                        &&& spec_parse_iref(d, p) == Ok::<_, HeifError>(b.refs())
                        &&& b.full_box_header.version == d[p]
                        &&& final(stream).byte_offset == d.len()
                    },
                    Err(e) => spec_parse_iref(d, p) == Err::<Seq<SingleReferenceView>, _>(e),
                }
            }),
    {
        let ghost d = old(stream).inner@;
        let ghost p = old(stream).byte_offset as int;
        let full_box_header = FullBoxHeader::from(stream, box_header)?;
        let is_large = full_box_header.version() > 0;
        let mut reference_list: Vec<SingleItemTypeReferenceBox> = Vec::new();
        proof {
            assert(reference_list@.map_values(|b: SingleItemTypeReferenceBox| b.view_spec())
                =~= Seq::<SingleReferenceView>::empty());
        }
        while !stream.is_eof()
            invariant
                d == old(stream).inner@,
                p == old(stream).byte_offset as int,
                stream.inner@ == d,
                stream.wf(),
                stream.bit_offset == 0,
                spec_parse_iref(d, p) == spec_parse_iref_children(
                    d,
                    stream.byte_offset as int,
                    is_large,
                    reference_list@.map_values(|b: SingleItemTypeReferenceBox| b.view_spec()),
                ),
            decreases d.len() - stream.byte_offset,
        {
            let ghost cur = stream.byte_offset as int;
            let ghost acc = reference_list@.map_values(
                |b: SingleItemTypeReferenceBox| b.view_spec(),
            );
            let child_box_header = match BoxHeader::from(stream) {
                Ok(h) => h,
                Err(e) => {
                    proof {
                        assert(!spec_header_ok(d, cur));
                    }
                    return Err(e);
                },
            };
            let reference = SingleItemTypeReferenceBox::from_stream_is_large(
                stream,
                child_box_header,
                is_large,
            )?;
            reference_list.push(reference);
            proof {
                assert(reference_list@.map_values(|b: SingleItemTypeReferenceBox| b.view_spec())
                    =~~= acc.push(reference.view_spec()));
                assert(reference.view_spec().to_ids =~= Seq::new(
                    be16(d, cur + spec_header_size(d, cur) + spec_id_width(is_large)) as nat,
                    |i: int| spec_id_at(
                        d,
                        cur + spec_header_size(d, cur) + spec_id_width(is_large) + 2 + spec_id_width(
                            is_large,
                        ) * i,
                        is_large,
                    ),
                ));
            }
        }
        Ok(ItemReferenceBox { full_box_header, reference_list })
    }

    pub fn add_item_ref(&mut self, ref_box: SingleItemTypeReferenceBox)
        ensures
            final(self).reference_list@ == old(self).reference_list@.push(ref_box),
            final(self).full_box_header == old(self).full_box_header,
    {
        self.reference_list.push(ref_box);
    }

    /// The references whose type tag is `box_type`, in order.
    pub fn references_of_type(&self, box_type: Byte4) -> (r: Vec<&SingleItemTypeReferenceBox>)
        ensures
            r@.map_values(|b: &SingleItemTypeReferenceBox| *b) == self.reference_list@.filter(
                |b: SingleItemTypeReferenceBox| b.box_header.box_type == box_type,
            ),
            forall|i: int| 0 <= i < r@.len() ==> r@[i].box_header.box_type == box_type,
    {
        let n = self.reference_list.len();
        let mut r: Vec<&SingleItemTypeReferenceBox> = Vec::new();
        let mut i: usize = 0;
        proof {
            assert(self.reference_list@.take(0int).filter(
                |b: SingleItemTypeReferenceBox| b.box_header.box_type == box_type,
            ) =~= Seq::empty());
            assert(r@.map_values(|b: &SingleItemTypeReferenceBox| *b) =~= Seq::empty());
        }
        while i < n
            invariant
                n == self.reference_list@.len(),
                i <= n,
                r@.map_values(|b: &SingleItemTypeReferenceBox| *b) == self.reference_list@.take(
                    i as int,
                ).filter(|b: SingleItemTypeReferenceBox| b.box_header.box_type == box_type),
                forall|j: int| 0 <= j < r@.len() ==> r@[j].box_header.box_type == box_type,
            decreases n - i,
        {
            proof {
                assert(self.reference_list@.take(i + 1).drop_last() =~= self.reference_list@.take(
                    i as int,
                ));
            }
            let ghost prev = r@.map_values(|b: &SingleItemTypeReferenceBox| *b);
            if self.reference_list[i].box_header.box_type == box_type {
                r.push(&self.reference_list[i]);
                proof {
                    assert(r@.map_values(|b: &SingleItemTypeReferenceBox| *b) =~= prev.push(
                        self.reference_list@[i as int],
                    ));
                }
            }
            proof {
                reveal_with_fuel(Seq::<_>::filter, 2);
                assert(self.reference_list@.take(i + 1).filter(
                    |b: SingleItemTypeReferenceBox| b.box_header.box_type == box_type,
                ) == if self.reference_list@[i as int].box_header.box_type == box_type {
                    self.reference_list@.take(i as int).filter(
                        |b: SingleItemTypeReferenceBox| b.box_header.box_type == box_type,
                    ).push(self.reference_list@[i as int])
                } else {
                    self.reference_list@.take(i as int).filter(
                        |b: SingleItemTypeReferenceBox| b.box_header.box_type == box_type,
                    )
                });
            }
            i = i + 1;
        }
        proof {
            assert(self.reference_list@.take(n as int) =~= self.reference_list@);
        }
        r
    }
}

} // verus!
