//! The `grpl` box: entity groupings, each a full box with a group id and a
//! counted list of entity ids.

use crate::bbox::header::{
    spec_child_body, spec_child_end, spec_child_err, spec_child_ok, BoxHeader, FullBoxHeader,
};
use crate::bit::{be24, be32, BitStream, Byte4};
use crate::HeifError;
use vstd::prelude::*;

verus! {

/// What one entity-to-group box holds, over its body bytes.
pub struct EntityGroupView {
    pub group_type: Byte4,
    pub version: u8,
    pub flags: int,
    pub group_id: int,
    pub entity_ids: Seq<int>,
}

/// Parses the body of one entity-to-group box whose type tag is
/// `group_type`: version and flags, a 32-bit group id, a 32-bit entity
/// count, then that many 32-bit entity ids.
pub open spec fn spec_parse_entity_group(group_type: Byte4, body: Seq<u8>) -> Result<
    EntityGroupView,
    HeifError,
> {
    if body.len() < 12 {
        Err(HeifError::EndOfStream)
    } else if body.len() - 12 < 4 * be32(body, 8) {
        Err(HeifError::EndOfStream)
    } else {
        Ok(
            EntityGroupView {
                group_type,
                version: body[0],
                flags: be24(body, 1),
                group_id: be32(body, 4),
                entity_ids: Seq::new(be32(body, 8) as nat, |i: int| be32(body, 12 + 4 * i)),
            },
        )
    }
}

/// Parses entity-to-group child boxes from byte `p` of `d` to the end.
pub open spec fn spec_parse_grpl_children(d: Seq<u8>, p: int, acc: Seq<EntityGroupView>) -> Result<
    Seq<EntityGroupView>,
    HeifError,
>
    decreases d.len() - p,
{
    if p >= d.len() {
        Ok(acc)
    } else if !spec_child_ok(d, p) {
        Err(spec_child_err(d, p))
    } else {
        match spec_parse_entity_group(
            crate::bbox::header::spec_box_type(d, p),
            spec_child_body(d, p),
        ) {
            Ok(g) => spec_parse_grpl_children(d, spec_child_end(d, p), acc.push(g)),
            Err(e) => Err(e),
        }
    }
}

/// One entity-to-group box.
#[derive(Debug)]
pub struct EntityToGroupBox {
    pub full_box_header: FullBoxHeader,
    pub group_id: u32,
    pub entity_ids: Vec<u32>,
}

impl EntityToGroupBox {
    /// What this box holds, for the parse specification.
    pub open spec fn view_spec(&self) -> EntityGroupView {
        EntityGroupView {
            group_type: self.full_box_header.box_type,
            version: self.full_box_header.version,
            flags: self.full_box_header.flags as int,
            group_id: self.group_id as int,
            entity_ids: self.entity_ids@.map_values(|x: u32| x as int),
        }
    }

    /// Reads one entity-to-group box body: version and flags, the group id,
    /// the entity count, then the entity ids.
    pub fn new(stream: &mut BitStream, box_header: BoxHeader) -> (r: Result<
        EntityToGroupBox,
        HeifError,
    >)
        requires
            old(stream).wf(),
            old(stream).bit_offset == 0,
            old(stream).byte_offset == 0,
        ensures
            final(stream).inner@ == old(stream).inner@,
            final(stream).wf(),
            final(stream).bit_offset == 0,
            ({
                let d = old(stream).inner@;
                match r {
                    Ok(b) => {
                        &&& spec_parse_entity_group(box_header.box_type, d) == Ok::<_, HeifError>(
                            b.view_spec(),
                        )
                        &&& b.full_box_header.box_type == box_header.box_type
                    },
                    Err(e) => spec_parse_entity_group(box_header.box_type, d) == Err::<
                        EntityGroupView,
                        _,
                    >(e),
                }
            }),
    {
        let ghost d = old(stream).inner@;
        let full_box_header = FullBoxHeader::from(stream, box_header)?;
        let group_id = stream.read_4bytes()?.to_u32();
        let entity_count = stream.read_4bytes()?.to_u32();
        let entity_ids = stream.read_be32s(entity_count as usize)?;
        let b = EntityToGroupBox { full_box_header, group_id, entity_ids };
        proof {
            assert(b.view_spec().entity_ids =~= Seq::new(
                be32(d, 8) as nat,
                |i: int| be32(d, 12 + 4 * i),
            ));
        }
        Ok(b)
    }

    pub fn full_box_header(&self) -> (r: &FullBoxHeader)
        ensures
            r == self.full_box_header,
    {
        &self.full_box_header
    }

    pub fn group_id(&self) -> (r: u32)
        ensures
            r == self.group_id,
    {
        self.group_id
    }

    pub fn set_group_id(&mut self, id: u32)
        ensures
            final(self).group_id == id,
            final(self).full_box_header == old(self).full_box_header,
            final(self).entity_ids == old(self).entity_ids,
    {
        self.group_id = id;
    }

    pub fn entity_ids(&self) -> (r: &Vec<u32>)
        ensures
            r == self.entity_ids,
    {
        &self.entity_ids
    }

    pub fn set_entity_ids(&mut self, ids: Vec<u32>)
        ensures
            final(self).entity_ids == ids,
            final(self).full_box_header == old(self).full_box_header,
            final(self).group_id == old(self).group_id,
    {
        self.entity_ids = ids;
    }
}

/// The group list box.
#[derive(Debug)]
pub struct GroupListBox {
    pub box_header: BoxHeader,
    pub entity_to_group_box_vector: Vec<EntityToGroupBox>,
}

impl Default for GroupListBox {
    fn default() -> (r: GroupListBox)
        ensures
            r.entity_to_group_box_vector@.len() == 0,
    {
        GroupListBox {
            box_header: BoxHeader::new(Byte4(0x67, 0x72, 0x70, 0x6C)),
            entity_to_group_box_vector: Vec::new(),
        }
    }
}

impl GroupListBox {
    /// The groupings this box holds, in order.
    pub open spec fn groups(&self) -> Seq<EntityGroupView> {
        self.entity_to_group_box_vector@.map_values(|b: EntityToGroupBox| b.view_spec())
    }

    /// Reads the box body: entity-to-group child boxes until the body ends.
    pub fn from_stream_header(stream: &mut BitStream, box_header: BoxHeader) -> (r: Result<
        GroupListBox,
        HeifError,
    >)
        requires
            old(stream).wf(),
            old(stream).bit_offset == 0,
        ensures
            final(stream).inner@ == old(stream).inner@,
            final(stream).wf(),
            final(stream).bit_offset == 0,
            ({
                let d = old(stream).inner@;
                let p = old(stream).byte_offset as int;
                match r {
                    Ok(b) => {
                        &&& spec_parse_grpl_children(d, p, Seq::empty()) == Ok::<_, HeifError>(
                            b.groups(),
                        )
                        &&& b.box_header == box_header
                        &&& final(stream).byte_offset == d.len()
                    },
                    Err(e) => spec_parse_grpl_children(d, p, Seq::empty()) == Err::<
                        Seq<EntityGroupView>,
                        _,
                    >(e),
                }
            }),
    {
        let ghost d = old(stream).inner@;
        let ghost p = old(stream).byte_offset as int;
        let mut entity_to_group_box_vector: Vec<EntityToGroupBox> = Vec::new();
        proof {
            assert(entity_to_group_box_vector@.map_values(|b: EntityToGroupBox| b.view_spec())
                =~= Seq::<EntityGroupView>::empty());
        }
        while !stream.is_eof()
            invariant
                d == old(stream).inner@,
                p == old(stream).byte_offset as int,
                stream.inner@ == d,
                stream.wf(),
                stream.bit_offset == 0,
                p <= stream.byte_offset,
                spec_parse_grpl_children(d, p, Seq::empty()) == spec_parse_grpl_children(
                    d,
                    stream.byte_offset as int,
                    entity_to_group_box_vector@.map_values(|b: EntityToGroupBox| b.view_spec()),
                ),
            decreases d.len() - stream.byte_offset,
        {
            let ghost cur = stream.byte_offset as int;
            let ghost acc = entity_to_group_box_vector@.map_values(
                |b: EntityToGroupBox| b.view_spec(),
            );
            let child_box_header = match BoxHeader::from(stream) {
                Ok(h) => h,
                Err(e) => {
                    proof {
                        assert(!spec_child_ok(d, cur));
                        assert(spec_child_err(d, cur) == e);
                    }
                    return Err(e);
                },
            };
            let mut ex = match stream.extract_from(&child_box_header) {
                Ok(x) => x,
                Err(e) => {
                    proof {
                        assert(!spec_child_ok(d, cur));
                        assert(spec_child_err(d, cur) == e);
                    }
                    return Err(e);
                },
            };
            let entity = EntityToGroupBox::new(&mut ex, child_box_header)?;
            entity_to_group_box_vector.push(entity);
            proof {
                assert(spec_child_ok(d, cur));
                assert(entity_to_group_box_vector@.map_values(|b: EntityToGroupBox| b.view_spec())
                    =~= acc.push(entity.view_spec()));
            }
        }
        Ok(GroupListBox { box_header, entity_to_group_box_vector })
    }

    pub fn box_header(&self) -> (r: &BoxHeader)
        ensures
            r == self.box_header,
    {
        &self.box_header
    }

    pub fn entity_to_group_box_vector(&self) -> (r: &Vec<EntityToGroupBox>)
        ensures
            r == self.entity_to_group_box_vector,
    {
        &self.entity_to_group_box_vector
    }

    pub fn add_entity_to_group_box(&mut self, entity: EntityToGroupBox)
        ensures
            final(self).entity_to_group_box_vector@ == old(
                self,
            ).entity_to_group_box_vector@.push(entity),
            final(self).box_header == old(self).box_header,
    {
        self.entity_to_group_box_vector.push(entity);
    }
}

} // verus!
