//! The `iprp` box: the property container `ipco`, whose children stand in
//! insertion order and are addressed by 1-based index, followed by zero or
//! more `ipma` association boxes that map item ids to property indices.

use crate::bbox::header::{
    spec_box_type, spec_child_body, spec_child_end, spec_child_err, spec_child_ok, BoxHeader,
    FullBoxHeader,
};
use crate::bbox::hevc::{spec_parse_hvcc_arrays, HevcConfigurationBox, NalArrayView};
use crate::bbox::ispe::ImageSpatialExtentsProperty;
use crate::bit::{
    be16, be32, bits_val, lemma_bits_val_15, lemma_bits_val_hi_bit, lemma_bits_val_low7, BitStream,
    Byte4,
};
use crate::fourcc;
use crate::HeifError;
use vstd::prelude::*;

verus! {

/// The property kinds the library distinguishes.
#[derive(Debug, Clone, Copy, PartialEq, Eq, Structural)]
pub enum PropertyType {
    RAW,
    AUXC,
    AVCC,
    CLAP,
    COLR,
    FREE,
    HVCC,
    IMIR,
    IROT,
    ISPE,
    JPGC,
    PASP,
    PIXI,
    RLOC,
}

/// The property kind a box type tag names.
pub open spec fn spec_property_type(t: Byte4) -> PropertyType {
    if t.value() == fourcc::AUXC {
        PropertyType::AUXC
    } else if t.value() == fourcc::AVCC {
        PropertyType::AVCC
    } else if t.value() == fourcc::CLAP {
        PropertyType::CLAP
    } else if t.value() == fourcc::COLR {
        PropertyType::COLR
    } else if t.value() == fourcc::FREE || t.value() == fourcc::SKIP {
        PropertyType::FREE
    } else if t.value() == fourcc::HVCC {
        PropertyType::HVCC
    } else if t.value() == fourcc::IMIR {
        PropertyType::IMIR
    } else if t.value() == fourcc::IROT {
        PropertyType::IROT
    } else if t.value() == fourcc::ISPE {
        PropertyType::ISPE
    } else if t.value() == fourcc::JPGC {
        PropertyType::JPGC
    } else if t.value() == fourcc::PASP {
        PropertyType::PASP
    } else if t.value() == fourcc::PIXI {
        PropertyType::PIXI
    } else if t.value() == fourcc::RLOC {
        PropertyType::RLOC
    } else {
        PropertyType::RAW
    }
}

/// One property of the container: the recognized kinds are parsed, every
/// other kind is retained as its type tag and raw body bytes so that the
/// 1-based indices that address the container stay stable.
#[derive(Debug)]
pub enum ItemProperty {
    Hvcc(HevcConfigurationBox),
    Ispe(ImageSpatialExtentsProperty),
    Raw(Byte4, Vec<u8>),
}

impl ItemProperty {
    /// The box type tag of this property.
    pub open spec fn spec_box_type(&self) -> Byte4 {
        match self {
            ItemProperty::Hvcc(b) => b.box_header.box_type,
            ItemProperty::Ispe(b) => b.full_box_header.box_type,
            ItemProperty::Raw(t, _) => *t,
        }
    }

    /// How this property reflects a child of type `t` with body `body`.
    pub open spec fn matches(&self, t: Byte4, body: Seq<u8>) -> bool {
        &&& self.spec_box_type() == t
        &&& match self {
            ItemProperty::Hvcc(b) => {
                &&& t.value() == fourcc::HVCC
                &&& spec_parse_hvcc_arrays(body, 0) matches Ok(pair) && b.hevc_config.arrays()
                    == pair.0
            },
            ItemProperty::Ispe(b) => {
                &&& t.value() == fourcc::ISPE
                &&& body.len() >= 12
                &&& b.width == be32(body, 4)
                &&& b.height == be32(body, 8)
            },
            ItemProperty::Raw(ty, data) => {
                &&& t.value() != fourcc::HVCC
                &&& t.value() != fourcc::ISPE
                &&& data@ == body
            },
        }
    }

    /// The box type tag of this property.
    pub fn box_type(&self) -> (r: &Byte4)
        ensures
            r == self.spec_box_type(),
    {
        match self {
            ItemProperty::Hvcc(b) => &b.box_header.box_type,
            ItemProperty::Ispe(b) => &b.full_box_header.box_type,
            ItemProperty::Raw(t, _) => t,
        }
    }

    /// The property kind of this property.
    pub fn property_type(&self) -> (r: PropertyType)
        ensures
            r == spec_property_type(self.spec_box_type()),
    {
        let t = self.box_type().to_u32();
        if t == fourcc::AUXC {
            PropertyType::AUXC
        } else if t == fourcc::AVCC {
            PropertyType::AVCC
        } else if t == fourcc::CLAP {
            PropertyType::CLAP
        } else if t == fourcc::COLR {
            PropertyType::COLR
        } else if t == fourcc::FREE || t == fourcc::SKIP {
            PropertyType::FREE
        } else if t == fourcc::HVCC {
            PropertyType::HVCC
        } else if t == fourcc::IMIR {
            PropertyType::IMIR
        } else if t == fourcc::IROT {
            PropertyType::IROT
        } else if t == fourcc::ISPE {
            PropertyType::ISPE
        } else if t == fourcc::JPGC {
            PropertyType::JPGC
        } else if t == fourcc::PASP {
            PropertyType::PASP
        } else if t == fourcc::PIXI {
            PropertyType::PIXI
        } else if t == fourcc::RLOC {
            PropertyType::RLOC
        } else {
            PropertyType::RAW
        }
    }
}

/// Parses `ipco` children at byte `p` of `d` to the end: the type tag and
/// body bytes of each child, in order.  A recognized child whose body does
/// not parse fails.
pub open spec fn spec_parse_ipco(d: Seq<u8>, p: int, acc: Seq<(Byte4, Seq<u8>)>) -> Result<
    Seq<(Byte4, Seq<u8>)>,
    HeifError,
>
    decreases d.len() - p,
{
    if p >= d.len() {
        Ok(acc)
    } else if !spec_child_ok(d, p) {
        Err(spec_child_err(d, p))
    } else {
        let t = spec_box_type(d, p);
        let body = spec_child_body(d, p);
        if t.value() == fourcc::HVCC {
            match spec_parse_hvcc_arrays(body, 0) {
                Ok(_) => spec_parse_ipco(d, spec_child_end(d, p), acc.push((t, body))),
                Err(e) => Err(e),
            }
        } else if t.value() == fourcc::ISPE {
            if body.len() < 12 {
                Err(HeifError::EndOfStream)
            } else {
                spec_parse_ipco(d, spec_child_end(d, p), acc.push((t, body)))
            }
        } else {
            spec_parse_ipco(d, spec_child_end(d, p), acc.push((t, body)))
        }
    }
}

/// The property container box.
#[derive(Debug)]
pub struct ItemPropertyContainer {
    pub box_header: BoxHeader,
    pub properties: Vec<ItemProperty>,
}

impl Default for ItemPropertyContainer {
    fn default() -> (r: ItemPropertyContainer)
        ensures
            r.properties@.len() == 0,
    {
        ItemPropertyContainer {
            box_header: BoxHeader::new(Byte4(0x69, 0x70, 0x63, 0x6F)),
            properties: Vec::new(),
        }
    }
}

impl ItemPropertyContainer {
    pub fn new() -> (r: ItemPropertyContainer)
        ensures
            r.properties@.len() == 0,
    {
        ItemPropertyContainer::default()
    }

    /// How this container reflects the parsed children, pointwise and in
    /// order.
    pub open spec fn matches(&self, children: Seq<(Byte4, Seq<u8>)>) -> bool {
        &&& self.properties@.len() == children.len()
        &&& forall|j: int|
            0 <= j < children.len() ==> #[trigger] self.properties@[j].matches(
                children[j].0,
                children[j].1,
            )
    }

    /// Reads the container body: child properties until the body ends, the
    /// recognized kinds parsed and every other kind retained raw.
    pub fn from_stream_header(stream: &mut BitStream, box_header: BoxHeader) -> (r: Result<
        ItemPropertyContainer,
        HeifError,
    >)
        requires
            old(stream).wf(),
            old(stream).bit_offset == 0,
        ensures
            final(stream).inner@ == old(stream).inner@,
            final(stream).wf(),
            final(stream).bit_offset == 0,
            ({
                let d = old(stream).inner@;
                let p = old(stream).byte_offset as int;
                match r {
                    Ok(b) => {
                        &&& spec_parse_ipco(d, p, Seq::empty()) matches Ok(children) && b.matches(
                            children,
                        )
                        &&& b.box_header == box_header
                        &&& final(stream).byte_offset == d.len()
                    },
                    Err(e) => spec_parse_ipco(d, p, Seq::empty()) == Err::<
                        Seq<(Byte4, Seq<u8>)>,
                        _,
                    >(e),
                }
            }),
    {
        let ghost d = old(stream).inner@;
        let ghost p = old(stream).byte_offset as int;
        let mut properties: Vec<ItemProperty> = Vec::new();
        let ghost mut children: Seq<(Byte4, Seq<u8>)> = Seq::empty();
        while !stream.is_eof()
            invariant
                d == old(stream).inner@,
                p == old(stream).byte_offset as int,
                stream.inner@ == d,
                stream.wf(),
                stream.bit_offset == 0,
                spec_parse_ipco(d, p, Seq::empty()) == spec_parse_ipco(
                    d,
                    stream.byte_offset as int,
                    children,
                ),
                properties@.len() == children.len(),
                forall|j: int|
                    0 <= j < children.len() ==> #[trigger] properties@[j].matches(
                        children[j].0,
                        children[j].1,
                    ),
            decreases d.len() - stream.byte_offset,
        {
            let ghost cur = stream.byte_offset as int;
            let sub_box_header = match BoxHeader::from(stream) {
                Ok(h) => h,
                Err(e) => {
                    proof {
                        assert(!spec_child_ok(d, cur));
                        assert(spec_child_err(d, cur) == e);
                    }
                    return Err(e);
                },
            };
            let mut ex = match stream.extract_from(&sub_box_header) {
                Ok(x) => x,
                Err(e) => {
                    proof {
                        assert(!spec_child_ok(d, cur));
                        assert(spec_child_err(d, cur) == e);
                    }
                    return Err(e);
                },
            };
            let ghost body = spec_child_body(d, cur);
            proof {
                assert(spec_child_ok(d, cur));
                assert(ex.inner@ == body);
                assert(sub_box_header.box_type == spec_box_type(d, cur));
            }
            let t = sub_box_header.box_type().to_u32();
            let property: ItemProperty = if t == fourcc::HVCC {
                ItemProperty::Hvcc(HevcConfigurationBox::from_stream_header(&mut ex, sub_box_header)?)
            } else if t == fourcc::ISPE {
                ItemProperty::Ispe(
                    ImageSpatialExtentsProperty::from_stream_header(&mut ex, sub_box_header)?,
                )
            } else {
                let left = ex.num_bytes_left();
                let data = match ex.read_bytes(left) {
                    Ok(v) => v,
                    Err(e) => {
                        return Err(e);
                    },
                };
                proof {
                    assert(data@ =~= body);
                }
                ItemProperty::Raw(sub_box_header.box_type, data)
            };
            properties.push(property);
            proof {
                assert(properties@[properties@.len() - 1].matches(spec_box_type(d, cur), body));
                children = children.push((spec_box_type(d, cur), body));
            }
        }
        Ok(ItemPropertyContainer { box_header, properties })
    }

    /// The property at a 0-based position, when the container has one.
    pub fn property_at(&self, index: usize) -> (r: Option<&ItemProperty>)
        ensures
            match r {
                Some(b) => index < self.properties@.len() && b == self.properties@[index as int],
                None => index >= self.properties@.len(),
            },
    {
        if index < self.properties.len() {
            Some(&self.properties[index])
        } else {
            None
        }
    }

    pub fn add_property(&mut self, prop: ItemProperty)
        ensures
            final(self).properties@ == old(self).properties@.push(prop),
            final(self).box_header == old(self).box_header,
    {
        self.properties.push(prop);
    }
}

/// One association of an item with a property: the 1-based property index
/// and whether the property is essential.
#[derive(Debug, Clone, Copy, PartialEq, Eq, Structural)]
pub struct AssociationEntry {
    pub is_essential: bool,
    pub index: u16,
}

/// The associations of one item id, in file order.
#[derive(Debug)]
pub struct ItemAssociations {
    pub item_id: u32,
    pub entries: Vec<AssociationEntry>,
}

/// What one `ipma` association row holds.
pub struct AssociationRowView {
    pub item_id: int,
    pub entries: Seq<(bool, int)>,
}

/// Parses the `count` association entries of one item at byte `p` of `d`:
/// each is one essential bit then a 7- or 15-bit property index.
pub open spec fn spec_parse_assoc_entries(
    d: Seq<u8>,
    p: int,
    count: nat,
    wide: bool,
    acc: Seq<(bool, int)>,
) -> Result<(Seq<(bool, int)>, int), HeifError>
    decreases count,
{
    let w: int = if wide {
        2
    } else {
        1
    };
    if count == 0 {
        Ok((acc, p))
    } else if d.len() - p < w {
        Err(HeifError::EndOfStream)
    } else {
        spec_parse_assoc_entries(
            d,
            p + w,
            (count - 1) as nat,
            wide,
            acc.push(
                (
                    d[p] >> 7 != 0,
                    if wide {
                        (d[p] & 0x7F) * 0x100 + d[p + 1]
                    } else {
                        (d[p] & 0x7F) as int
                    },
                ),
            ),
        )
    }
}

/// Parses `count` association rows at byte `p` of `d`: an item id whose
/// width follows the version, an entry count byte, then the entries.
pub open spec fn spec_parse_assoc_rows(
    d: Seq<u8>,
    p: int,
    count: nat,
    version: u8,
    wide: bool,
    acc: Seq<AssociationRowView>,
) -> Result<(Seq<AssociationRowView>, int), HeifError>
    decreases count,
{
    if count == 0 {
        Ok((acc, p))
    } else {
        let idw: int = if version < 1 {
            2
        } else {
            4
        };
        if d.len() - p < idw + 1 {
            Err(HeifError::EndOfStream)
        } else {
            let id: int = if version < 1 {
                be16(d, p)
            } else {
                be32(d, p)
            };
            match spec_parse_assoc_entries(
                d,
                p + idw + 1,
                d[p + idw] as nat,
                wide,
                Seq::empty(),
            ) {
                Ok(pair) => spec_parse_assoc_rows(
                    d,
                    pair.1,
                    (count - 1) as nat,
                    version,
                    wide,
                    acc.push(AssociationRowView { item_id: id, entries: pair.0 }),
                ),
                Err(e) => Err(e),
            }
        }
    }
}

/// Parses an `ipma` body at byte `p` of `d`: version and flags, a 32-bit
/// row count, then the rows; flag bit 0 widens the property index to 15
/// bits.
pub open spec fn spec_parse_ipma(d: Seq<u8>, p: int) -> Result<
    (Seq<AssociationRowView>, int),
    HeifError,
> {
    if d.len() - p < 8 {
        Err(HeifError::EndOfStream)
    } else {
        spec_parse_assoc_rows(
            d,
            p + 8,
            be32(d, p + 4) as nat,
            d[p],
            d[p + 3] & 1 == 1,
            Seq::empty(),
        )
    }
}

/// The item property association box.
#[derive(Debug)]
pub struct ItemPropertyAssociation {
    pub full_box_header: FullBoxHeader,
    pub associations: Vec<ItemAssociations>,
}

impl Default for ItemPropertyAssociation {
    fn default() -> (r: ItemPropertyAssociation)
        ensures
            r.associations@.len() == 0,
    {
        ItemPropertyAssociation {
            full_box_header: FullBoxHeader::new(Byte4(0x69, 0x70, 0x6D, 0x61), 0, 0),
            associations: Vec::new(),
        }
    }
}

/// The association rows a list of item associations holds, in order.
pub open spec fn spec_rows_of(s: Seq<ItemAssociations>) -> Seq<AssociationRowView> {
    s.map_values(
        |a: ItemAssociations| AssociationRowView {
            item_id: a.item_id as int,
            entries: a.entries@.map_values(|e: AssociationEntry| (e.is_essential, e.index as int)),
        },
    )
}

/// The entries recorded for an item id in a list of association rows: the
/// latest row wins, as a map insert would.
pub open spec fn spec_assoc_lookup(s: Seq<ItemAssociations>, id: u32) -> Option<
    Seq<AssociationEntry>,
>
    decreases s.len(),
{
    if s.len() == 0 {
        Option::None
    } else if s.last().item_id == id {
        Option::Some(s.last().entries@)
    } else {
        spec_assoc_lookup(s.drop_last(), id)
    }
}

/// The low bit of a 24-bit flags word is the low bit of its last byte.
pub proof fn lemma_flag_bit(flags: u32, b1: u8, b2: u8, b3: u8)
    requires
        flags == b1 * 0x1_0000 + b2 * 0x100 + b3,
    ensures
        (flags & 1 == 1) == (b3 & 1 == 1),
{
    assert((flags & 1 == 1) == (flags % 2 == 1)) by (bit_vector);
    assert((b3 & 1 == 1) == (b3 % 2 == 1)) by (bit_vector);
    assert(flags % 2 == b3 % 2) by (nonlinear_arith)
        requires
            flags == b1 * 0x1_0000 + b2 * 0x100 + b3,
    ;
}

impl ItemPropertyAssociation {
    /// The association rows this box holds, in order.
    pub open spec fn rows(&self) -> Seq<AssociationRowView> {
        spec_rows_of(self.associations@)
    }

    /// Reads the box body: a 32-bit row count, then for each row the item
    /// id in the width the version selects and its association entries.
    pub fn from_stream_header(stream: &mut BitStream, box_header: BoxHeader) -> (r: Result<
        ItemPropertyAssociation,
        HeifError,
    >)
        requires
            old(stream).wf(),
            old(stream).bit_offset == 0,
        ensures
            final(stream).inner@ == old(stream).inner@,
            final(stream).wf(),
            ({
                let d = old(stream).inner@;
                let p = old(stream).byte_offset as int;
                match r {
                    Ok(b) => {
                        &&& b.full_box_header.version == d[p]
                        &&& spec_parse_ipma(d, p) matches Ok(pair) && b.rows() == pair.0
                            && final(stream).byte_offset == pair.1
                    },
                    Err(e) => spec_parse_ipma(d, p) == Err::<(Seq<AssociationRowView>, int), _>(e),
                }
            }),
    {
        let ghost d = old(stream).inner@;
        let ghost p = old(stream).byte_offset as int;
        let full_box_header = FullBoxHeader::from(stream, box_header)?;
        let version = full_box_header.version();
        let wide = full_box_header.flags() & 1 == 1;
        let entry_count = stream.read_4bytes()?.to_u32();
        let ghost count = entry_count as nat;
        let ghost start = stream.byte_offset as int;
        let mut associations: Vec<ItemAssociations> = Vec::new();
        proof {
            lemma_flag_bit(full_box_header.flags, d[p + 1], d[p + 2], d[p + 3]);
            assert(spec_parse_ipma(d, p) == spec_parse_assoc_rows(
                d,
                start,
                count,
                version,
                wide,
                Seq::empty(),
            ));
            assert(spec_rows_of(associations@) =~= Seq::<AssociationRowView>::empty());
        }
        let mut i: u32 = 0;
        while i < entry_count
            invariant
                d == old(stream).inner@,
                p == old(stream).byte_offset as int,
                stream.inner@ == d,
                stream.wf(),
                stream.bit_offset == 0,
                i <= entry_count,
                count == entry_count as nat,
                version == d[p],
                spec_parse_ipma(d, p) == spec_parse_assoc_rows(
                    d,
                    start,
                    count,
                    version,
                    wide,
                    Seq::empty(),
                ),
                spec_parse_assoc_rows(d, start, count, version, wide, Seq::empty())
                    == spec_parse_assoc_rows(
                    d,
                    stream.byte_offset as int,
                    (count - i) as nat,
                    version,
                    wide,
                    spec_rows_of(associations@),
                ),
            decreases entry_count - i,
        {
            let ghost cur = stream.byte_offset as int;
            let ghost acc = spec_rows_of(associations@);
            let item_id: u32 = if version < 1 {
                stream.read_2bytes()?.to_u32()
            } else {
                stream.read_4bytes()?.to_u32()
            };
            let association_count = stream.read_byte()?;
            let ghost idw: int = if version < 1 {
                2
            } else {
                4
            };
            let ghost ecount = association_count as nat;
            let ghost epos = stream.byte_offset as int;
            let mut entries: Vec<AssociationEntry> = Vec::new();
            proof {
                assert(entries@.map_values(
                    |e: AssociationEntry| (e.is_essential, e.index as int),
                ) =~= Seq::<(bool, int)>::empty());
            }
            let mut j: u8 = 0;
            while j < association_count
                invariant
                    d == old(stream).inner@,
                    p == old(stream).byte_offset as int,
                    stream.inner@ == d,
                    stream.wf(),
                    stream.bit_offset == 0,
                    j <= association_count,
                    ecount == association_count as nat,
                    i < count,
                    cur == epos - idw - 1,
                    epos == cur + idw + 1,
                    d.len() - cur >= idw + 1,
                    idw == if version < 1 {
                        2int
                    } else {
                        4int
                    },
                    version == d[p],
                    item_id == if version < 1 {
                        be16(d, cur)
                    } else {
                        be32(d, cur)
                    },
                    ecount == d[cur + idw],
                    spec_parse_ipma(d, p) == spec_parse_assoc_rows(
                        d,
                        cur,
                        (count - i) as nat,
                        version,
                        wide,
                        acc,
                    ),
                    spec_parse_assoc_entries(d, epos, ecount, wide, Seq::empty())
                        == spec_parse_assoc_entries(
                        d,
                        stream.byte_offset as int,
                        (ecount - j) as nat,
                        wide,
                        entries@.map_values(|e: AssociationEntry| (e.is_essential, e.index as int)),
                    ),
                decreases association_count - j,
            {
                let ghost ecur = stream.byte_offset as int;
                let ghost eacc = entries@.map_values(
                    |e: AssociationEntry| (e.is_essential, e.index as int),
                );
                let ghost w: int = if wide {
                    2
                } else {
                    1
                };
                let essential_bit = match stream.read_bits(1) {
                    Ok(v) => v,
                    Err(e) => {
                        proof {
                            assert(d.len() - ecur < w);
                        }
                        return Err(e);
                    },
                };
                let is_essential = essential_bit != 0;
                let index_raw = match stream.read_bits(if wide {
                    15
                } else {
                    7
                }) {
                    Ok(v) => v,
                    Err(e) => {
                        proof {
                            assert(d.len() - ecur < w);
                        }
                        return Err(e);
                    },
                };
                proof {
                    lemma_bits_val_hi_bit(d, ecur);
                    let b0 = d[ecur];
                    assert(((b0 >> 7) & 1 != 0) == (b0 >> 7 != 0)) by (bit_vector);
                    assert(b0 & 0x7F < 0x80) by (bit_vector);
                    if wide {
                        lemma_bits_val_15(d, ecur);
                    } else {
                        lemma_bits_val_low7(d, ecur);
                    }
                }
                let index: u16 = index_raw as u16;
                entries.push(AssociationEntry { is_essential, index });
                proof {
                    assert(entries@.map_values(
                        |e: AssociationEntry| (e.is_essential, e.index as int),
                    ) =~= eacc.push((is_essential, index as int)));
                }
                j = j + 1;
            }
            let ghost pushed_entries = entries@.map_values(
                |e: AssociationEntry| (e.is_essential, e.index as int),
            );
            associations.push(ItemAssociations { item_id, entries });
            proof {
                assert(spec_rows_of(associations@) =~~= acc.push(
                    AssociationRowView { item_id: item_id as int, entries: pushed_entries },
                ));
            }
            i = i + 1;
        }
        Ok(ItemPropertyAssociation { full_box_header, associations })
    }

    /// The association entries recorded for this item id, when any row
    /// names it; the latest row wins, as a map insert would.
    pub fn get_association_entries(&self, item_id: u32) -> (r: Option<&Vec<AssociationEntry>>)
        ensures
            match r {
                Some(v) => spec_assoc_lookup(self.associations@, item_id) == Option::Some(v@),
                None => spec_assoc_lookup(self.associations@, item_id) is None,
            },
    {
        let n = self.associations.len();
        let mut i: usize = n;
        proof {
            assert(self.associations@.take(n as int) =~= self.associations@);
        }
        while i > 0
            invariant
                n == self.associations@.len(),
                i <= n,
                spec_assoc_lookup(self.associations@, item_id) == spec_assoc_lookup(
                    self.associations@.take(i as int),
                    item_id,
                ),
            decreases i,
        {
            i = i - 1;
            if self.associations[i].item_id == item_id {
                proof {
                    assert(self.associations@.take(i + 1).last() == self.associations@[i as int]);
                }
                return Some(&self.associations[i].entries);
            }
            proof {
                assert(self.associations@.take(i + 1).drop_last() =~= self.associations@.take(
                    i as int,
                ));
                assert(self.associations@.take(i + 1).last() == self.associations@[i as int]);
            }
        }
        None
    }

    /// Records one association for an item as its latest row; a large item
    /// id needs version 1 and a large index the wide-index flag.
    pub fn add_entry(&mut self, item_id: u32, index: u16, is_essential: bool)
        ensures
            final(self).associations@.len() == old(self).associations@.len() + 1,
            forall|j: int|
                0 <= j < old(self).associations@.len() ==> final(self).associations@[j] == old(
                    self,
                ).associations@[j],
            final(self).associations@.last().item_id == item_id,
            final(self).associations@.last().entries@ == seq![
                AssociationEntry { is_essential, index },
            ],
    {
        let mut entries: Vec<AssociationEntry> = Vec::new();
        entries.push(AssociationEntry { is_essential, index });
        self.associations.push(ItemAssociations { item_id, entries });
        if self.full_box_header.version() == 0 && item_id > 0xFFFF {
            self.full_box_header.set_version(1);
        }
        if self.full_box_header.flags() & 1 == 0 && index > 127 {
            let flags = self.full_box_header.flags();
            self.full_box_header.set_flags(flags | 1);
        }
    }
}



/// One association of an item to a property, resolved against the
/// container.
#[derive(Debug, Clone, Copy, PartialEq, Eq, Structural)]
pub struct PropertyInfo {
    pub property_type: PropertyType,
    pub index: usize,
    pub is_essential: bool,
}

/// Whether a 1-based association index names a property of kind `ptype` in
/// the container.
pub open spec fn spec_entry_hits(props: Seq<ItemProperty>, e: AssociationEntry, ptype: PropertyType) -> bool {
    &&& e.index >= 1
    &&& e.index - 1 < props.len()
    &&& spec_property_type(props[e.index - 1].spec_box_type()) == ptype
}

/// The first association entry from position `k` on that names a property
/// of kind `ptype`, as its 1-based index, or zero.
pub open spec fn spec_find_in_entries(
    entries: Seq<AssociationEntry>,
    props: Seq<ItemProperty>,
    ptype: PropertyType,
    k: int,
) -> int
    decreases entries.len() - k,
{
    if k < 0 || k >= entries.len() {
        0
    } else if spec_entry_hits(props, entries[k], ptype) {
        entries[k].index as int
    } else {
        spec_find_in_entries(entries, props, ptype, k + 1)
    }
}

/// The first matching property index over the association boxes from
/// position `b` on, or zero.
pub open spec fn spec_find_property_index(
    boxes: Seq<ItemPropertyAssociation>,
    props: Seq<ItemProperty>,
    ptype: PropertyType,
    item_id: u32,
    b: int,
) -> int
    decreases boxes.len() - b,
{
    if b < 0 || b >= boxes.len() {
        0
    } else {
        let found = match spec_assoc_lookup(boxes[b].associations@, item_id) {
            Option::Some(entries) => spec_find_in_entries(entries, props, ptype, 0),
            Option::None => 0,
        };
        if found != 0 {
            found
        } else {
            spec_find_property_index(boxes, props, ptype, item_id, b + 1)
        }
    }
}

/// The property infos of the entries from position `k` on: a zero index is
/// skipped, an index past the container is invalid, and free-space
/// properties are dropped.
pub open spec fn spec_infos_of_entries(
    entries: Seq<AssociationEntry>,
    props: Seq<ItemProperty>,
    k: int,
    acc: Seq<PropertyInfo>,
) -> Result<Seq<PropertyInfo>, HeifError>
    decreases entries.len() - k,
{
    if k < 0 || k >= entries.len() {
        Ok(acc)
    } else {
        let e = entries[k];
        if e.index == 0 {
            spec_infos_of_entries(entries, props, k + 1, acc)
        } else if e.index - 1 >= props.len() {
            Err(HeifError::InvalidFormat)
        } else {
            let pt = spec_property_type(props[e.index - 1].spec_box_type());
            if pt == PropertyType::FREE {
                spec_infos_of_entries(entries, props, k + 1, acc)
            } else {
                spec_infos_of_entries(
                    entries,
                    props,
                    k + 1,
                    acc.push(
                        PropertyInfo {
                            property_type: pt,
                            index: (e.index - 1) as usize,
                            is_essential: e.is_essential,
                        },
                    ),
                )
            }
        }
    }
}

/// The property infos for an item: the first association box that records
/// entries for the item answers, and a box that records an empty list lets
/// the search go on.
pub open spec fn spec_item_property_infos(
    boxes: Seq<ItemPropertyAssociation>,
    props: Seq<ItemProperty>,
    item_id: u32,
    b: int,
) -> Result<Seq<PropertyInfo>, HeifError>
    decreases boxes.len() - b,
{
    if b < 0 || b >= boxes.len() {
        Ok(Seq::empty())
    } else {
        match spec_assoc_lookup(boxes[b].associations@, item_id) {
            Option::Some(entries) => match spec_infos_of_entries(entries, props, 0, Seq::empty()) {
                Ok(v) => if entries.len() > 0 {
                    Ok(v)
                } else {
                    spec_item_property_infos(boxes, props, item_id, b + 1)
                },
                Err(e) => Err(e),
            },
            Option::None => spec_item_property_infos(boxes, props, item_id, b + 1),
        }
    }
}

/// Parses the `ipma` boxes that follow the container: each child must be an
/// `ipma` box.
pub open spec fn spec_parse_ipma_list(
    d: Seq<u8>,
    p: int,
    acc: Seq<Seq<AssociationRowView>>,
) -> Result<Seq<Seq<AssociationRowView>>, HeifError>
    decreases d.len() - p,
{
    if p >= d.len() {
        Ok(acc)
    } else if !spec_child_ok(d, p) {
        Err(spec_child_err(d, p))
    } else if spec_box_type(d, p).value() != fourcc::IPMA {
        Err(HeifError::InvalidFormat)
    } else {
        match spec_parse_ipma(spec_child_body(d, p), 0) {
            Ok(pair) => spec_parse_ipma_list(d, spec_child_end(d, p), acc.push(pair.0)),
            Err(e) => Err(e),
        }
    }
}

/// Parses an `iprp` body at byte `p` of `d`: the property container, then
/// the association boxes to the end.
pub open spec fn spec_parse_iprp(d: Seq<u8>, p: int) -> Result<
    (Seq<(Byte4, Seq<u8>)>, Seq<Seq<AssociationRowView>>),
    HeifError,
> {
    if !spec_child_ok(d, p) {
        Err(spec_child_err(d, p))
    } else {
        match spec_parse_ipco(spec_child_body(d, p), 0, Seq::empty()) {
            Ok(children) => match spec_parse_ipma_list(d, spec_child_end(d, p), Seq::empty()) {
                Ok(rows) => Ok((children, rows)),
                Err(e) => Err(e),
            },
            Err(e) => Err(e),
        }
    }
}

/// The item properties box: the container and its association boxes.
#[derive(Debug)]
pub struct ItemPropertiesBox {
    pub box_header: BoxHeader,
    pub container: ItemPropertyContainer,
    pub association_boxes: Vec<ItemPropertyAssociation>,
}

impl Default for ItemPropertiesBox {
    fn default() -> (r: ItemPropertiesBox)
        ensures
            r.container.properties@.len() == 0,
            r.association_boxes@.len() == 0,
    {
        ItemPropertiesBox {
            box_header: BoxHeader::new(Byte4(0x69, 0x70, 0x72, 0x70)),
            container: ItemPropertyContainer::default(),
            association_boxes: Vec::new(),
        }
    }
}

impl ItemPropertiesBox {
    pub fn new() -> (r: ItemPropertiesBox)
        ensures
            r.container.properties@.len() == 0,
            r.association_boxes@.len() == 0,
    {
        ItemPropertiesBox::default()
    }

    /// Reads the box body: the property container first, then zero or more
    /// `ipma` boxes; any other child is invalid.
    pub fn from_stream_header(stream: &mut BitStream, box_header: BoxHeader) -> (r: Result<
        ItemPropertiesBox,
        HeifError,
    >)
        requires
            old(stream).wf(),
            old(stream).bit_offset == 0,
        ensures
            final(stream).inner@ == old(stream).inner@,
            final(stream).wf(),
            ({
                let d = old(stream).inner@;
                let p = old(stream).byte_offset as int;
                match r {
                    Ok(b) => {
                        &&& spec_parse_iprp(d, p) matches Ok(pair) && b.container.matches(pair.0)
                            && b.association_boxes@.map_values(
                            |a: ItemPropertyAssociation| a.rows(),
                        ) == pair.1
                        &&& b.box_header == box_header
                        &&& final(stream).byte_offset == d.len()
                    },
                    Err(e) => spec_parse_iprp(d, p) == Err::<
                        (Seq<(Byte4, Seq<u8>)>, Seq<Seq<AssociationRowView>>),
                        _,
                    >(e),
                }
            }),
    {
        let ghost d = old(stream).inner@;
        let ghost p = old(stream).byte_offset as int;
        let container_box_header = match BoxHeader::from(stream) {
            Ok(h) => h,
            Err(e) => {
                proof {
                    assert(!spec_child_ok(d, p));
                    assert(spec_child_err(d, p) == e);
                }
                return Err(e);
            },
        };
        let mut ex = match stream.extract_from(&container_box_header) {
            Ok(x) => x,
            Err(e) => {
                proof {
                    assert(!spec_child_ok(d, p));
                    assert(spec_child_err(d, p) == e);
                }
                return Err(e);
            },
        };
        let container = ItemPropertyContainer::from_stream_header(&mut ex, container_box_header)?;
        let mut association_boxes: Vec<ItemPropertyAssociation> = Vec::new();
        proof {
            assert(association_boxes@.map_values(|a: ItemPropertyAssociation| a.rows())
                =~= Seq::<Seq<AssociationRowView>>::empty());
        }
        while !stream.is_eof()
            invariant
                d == old(stream).inner@,
                p == old(stream).byte_offset as int,
                stream.inner@ == d,
                stream.wf(),
                stream.bit_offset == 0,
                spec_child_ok(d, p),
                spec_parse_ipco(spec_child_body(d, p), 0, Seq::empty()) is Ok,
                spec_parse_ipma_list(d, spec_child_end(d, p), Seq::empty())
                    == spec_parse_ipma_list(
                    d,
                    stream.byte_offset as int,
                    association_boxes@.map_values(|a: ItemPropertyAssociation| a.rows()),
                ),
            decreases d.len() - stream.byte_offset,
        {
            let ghost cur = stream.byte_offset as int;
            let ghost acc = association_boxes@.map_values(|a: ItemPropertyAssociation| a.rows());
            let sub_box_header = match BoxHeader::from(stream) {
                Ok(h) => h,
                Err(e) => {
                    proof {
                        assert(!spec_child_ok(d, cur));
                        assert(spec_child_err(d, cur) == e);
                    }
                    return Err(e);
                },
            };
            let is_ipma = sub_box_header.box_type().to_u32() == fourcc::IPMA;
            let mut ex2 = match stream.extract_from(&sub_box_header) {
                Ok(x) => x,
                Err(e) => {
                    proof {
                        assert(!spec_child_ok(d, cur));
                        assert(spec_child_err(d, cur) == e);
                    }
                    return Err(e);
                },
            };
            if !is_ipma {
                return Err(HeifError::InvalidFormat);
            }
            let assoc = ItemPropertyAssociation::from_stream_header(&mut ex2, sub_box_header)?;
            association_boxes.push(assoc);
            proof {
                assert(spec_child_ok(d, cur));
                assert(association_boxes@.map_values(|a: ItemPropertyAssociation| a.rows())
                    =~~= acc.push(assoc.rows()));
            }
        }
        Ok(ItemPropertiesBox { box_header, container, association_boxes })
    }

    pub fn box_header(&self) -> (r: &BoxHeader)
        ensures
            r == self.box_header,
    {
        &self.box_header
    }

    /// The property at a 0-based container position, when there is one.
    pub fn property_by_index(&self, idx: usize) -> (r: Option<&ItemProperty>)
        ensures
            match r {
                Some(b) => idx < self.container.properties@.len() && b
                    == self.container.properties@[idx as int],
                None => idx >= self.container.properties@.len(),
            },
    {
        self.container.property_at(idx)
    }

    /// The 1-based index of the first property of this kind associated with
    /// the item, or zero when it has none.
    pub fn find_property_index(&self, p_type: PropertyType, item_id: u32) -> (r: u32)
        ensures
            r == spec_find_property_index(
                self.association_boxes@,
                self.container.properties@,
                p_type,
                item_id,
                0,
            ),
    {
        let nb = self.association_boxes.len();
        let mut b: usize = 0;
        while b < nb
            invariant
                nb == self.association_boxes@.len(),
                b <= nb,
                spec_find_property_index(
                    self.association_boxes@,
                    self.container.properties@,
                    p_type,
                    item_id,
                    0,
                ) == spec_find_property_index(
                    self.association_boxes@,
                    self.container.properties@,
                    p_type,
                    item_id,
                    b as int,
                ),
            decreases nb - b,
        {
            match self.association_boxes[b].get_association_entries(item_id) {
                Some(entries) => {
                    let ne = entries.len();
                    let mut k: usize = 0;
                    while k < ne
                        invariant
                            ne == entries@.len(),
                            k <= ne,
                            nb == self.association_boxes@.len(),
                            b < nb,
                            spec_assoc_lookup(
                                self.association_boxes@[b as int].associations@,
                                item_id,
                            ) == Option::Some(entries@),
                            spec_find_property_index(
                                self.association_boxes@,
                                self.container.properties@,
                                p_type,
                                item_id,
                                0,
                            ) == spec_find_property_index(
                                self.association_boxes@,
                                self.container.properties@,
                                p_type,
                                item_id,
                                b as int,
                            ),
                            spec_find_in_entries(entries@, self.container.properties@, p_type, 0)
                                == spec_find_in_entries(
                                entries@,
                                self.container.properties@,
                                p_type,
                                k as int,
                            ),
                        decreases ne - k,
                    {
                        let e = entries[k];
                        if e.index >= 1 {
                            match self.container.property_at((e.index - 1) as usize) {
                                Some(prop) => {
                                    if prop.property_type() == p_type {
                                        proof {
                                            assert(spec_entry_hits(
                                                self.container.properties@,
                                                e,
                                                p_type,
                                            ));
                                            assert(spec_find_in_entries(
                                                entries@,
                                                self.container.properties@,
                                                p_type,
                                                k as int,
                                            ) == e.index as int);
                                        }
                                        return e.index as u32;
                                    }
                                },
                                None => {},
                            }
                        }
                        proof {
                            assert(!spec_entry_hits(self.container.properties@, entries@[k as int], p_type));
                        }
                        k = k + 1;
                    }
                },
                None => {},
            }
            b = b + 1;
        }
        0
    }

    /// The property infos recorded for an item, from the first association
    /// box that records entries for it.
    pub fn get_item_properties(&self, item_id: u32) -> (r: Result<Vec<PropertyInfo>, HeifError>)
        ensures
            ({
                let res = spec_item_property_infos(
                    self.association_boxes@,
                    self.container.properties@,
                    item_id,
                    0,
                );
                match r {
                    Ok(v) => res == Ok::<_, HeifError>(v@),
                    Err(e) => res == Err::<Seq<PropertyInfo>, _>(e),
                }
            }),
    {
        let nb = self.association_boxes.len();
        let mut b: usize = 0;
        while b < nb
            invariant
                nb == self.association_boxes@.len(),
                b <= nb,
                spec_item_property_infos(
                    self.association_boxes@,
                    self.container.properties@,
                    item_id,
                    0,
                ) == spec_item_property_infos(
                    self.association_boxes@,
                    self.container.properties@,
                    item_id,
                    b as int,
                ),
            decreases nb - b,
        {
            match self.association_boxes[b].get_association_entries(item_id) {
                Some(entries) => {
                    let ne = entries.len();
                    let mut infos: Vec<PropertyInfo> = Vec::new();
                    proof {
                        assert(infos@ =~= Seq::<PropertyInfo>::empty());
                    }
                    let mut k: usize = 0;
                    while k < ne
                        invariant
                            ne == entries@.len(),
                            k <= ne,
                            nb == self.association_boxes@.len(),
                            b < nb,
                            spec_assoc_lookup(
                                self.association_boxes@[b as int].associations@,
                                item_id,
                            ) == Option::Some(entries@),
                            spec_item_property_infos(
                                self.association_boxes@,
                                self.container.properties@,
                                item_id,
                                0,
                            ) == spec_item_property_infos(
                                self.association_boxes@,
                                self.container.properties@,
                                item_id,
                                b as int,
                            ),
                            spec_infos_of_entries(
                                entries@,
                                self.container.properties@,
                                0,
                                Seq::empty(),
                            ) == spec_infos_of_entries(
                                entries@,
                                self.container.properties@,
                                k as int,
                                infos@,
                            ),
                        decreases ne - k,
                    {
                        let e = entries[k];
                        if e.index != 0 {
                            match self.container.property_at((e.index - 1) as usize) {
                                Some(prop) => {
                                    let pt = prop.property_type();
                                    if !(pt == PropertyType::FREE) {
                                        infos.push(
                                            PropertyInfo {
                                                property_type: pt,
                                                index: (e.index - 1) as usize,
                                                is_essential: e.is_essential,
                                            },
                                        );
                                    }
                                },
                                None => {
                                    return Err(HeifError::InvalidFormat);
                                },
                            }
                        }
                        k = k + 1;
                    }
                    if entries.len() > 0 {
                        return Ok(infos);
                    }
                },
                None => {},
            }
            b = b + 1;
        }
        Ok(Vec::new())
    }
}

} // verus!
