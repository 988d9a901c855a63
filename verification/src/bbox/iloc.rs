//! The `iloc` box: where each item's bytes live.  Four 4-bit widths choose
//! how offsets, lengths, base offsets and extent indices are encoded; a
//! width of zero means the field is absent and reads as zero.  An entry
//! must declare at least one extent.

use crate::bbox::header::{spec_full_from, BoxHeader, FullBoxHeader};
use crate::bit::{
    be16, be32, be64, bits_val, lemma_be_val_32, lemma_be_val_64, lemma_bits_val_bytes,
    lemma_bits_val_hi_nibble, lemma_bits_val_lo_nibble, BitStream, Byte4,
};
use crate::HeifError;
use vstd::prelude::*;

verus! {

/// The value of a width-`size` field at byte `p` of `d`: absent fields read
/// as zero.
pub open spec fn spec_wval(d: Seq<u8>, p: int, size: int) -> int {
    if size == 0 {
        0
    } else if size == 4 {
        be32(d, p)
    } else {
        be64(d, p)
    }
}

/// Reading a width field with the bit reader gives its byte-level value.
proof fn lemma_width_field(d: Seq<u8>, m: int, size: nat)
    requires
        0 <= m,
        size == 0 || size == 4 || size == 8,
    ensures
        bits_val(d, 8 * m, (8 * size) as nat) == spec_wval(d, m, size as int),
{
    lemma_bits_val_bytes(d, m, size);
    if size == 4 {
        lemma_be_val_32(d, m);
    } else if size == 8 {
        lemma_be_val_64(d, m);
    }
}

/// How an item's bytes are located: relative to the file, to the meta-box
/// `idat` payload, or composed from other items.
#[derive(Debug, Clone, Copy, PartialEq, Eq, Structural)]
pub enum ConstructionMethod {
    FileOffset,
    IdatOffset,
    ItemOffset,
}

/// The construction method a raw 4-bit field selects.
pub open spec fn spec_method_of(n: int) -> ConstructionMethod {
    if n == 1 {
        ConstructionMethod::IdatOffset
    } else if n == 2 {
        ConstructionMethod::ItemOffset
    } else {
        ConstructionMethod::FileOffset
    }
}

impl ConstructionMethod {
    pub fn new(n: usize) -> (r: ConstructionMethod)
        ensures
            r == spec_method_of(n as int),
    {
        if n == 1 {
            ConstructionMethod::IdatOffset
        } else if n == 2 {
            ConstructionMethod::ItemOffset
        } else {
            ConstructionMethod::FileOffset
        }
    }
}

/// What one extent holds.
pub struct ExtentView {
    pub index: int,
    pub offset: int,
    pub length: int,
}

/// What one item location holds.
pub struct LocationView {
    pub item_id: int,
    pub method: ConstructionMethod,
    pub data_ref_index: int,
    pub base_offset: int,
    pub extents: Seq<ExtentView>,
}

/// Parses `count` extents at byte `p` of `d` with the given widths.
pub open spec fn spec_parse_iloc_extents(
    d: Seq<u8>,
    p: int,
    count: nat,
    idxw: int,
    offw: int,
    lenw: int,
    acc: Seq<ExtentView>,
) -> Result<(Seq<ExtentView>, int), HeifError>
    decreases count,
{
    if count == 0 {
        Ok((acc, p))
    } else if d.len() - p < idxw + offw + lenw {
        Err(HeifError::EndOfStream)
    } else {
        spec_parse_iloc_extents(
            d,
            p + idxw + offw + lenw,
            (count - 1) as nat,
            idxw,
            offw,
            lenw,
            acc.push(
                ExtentView {
                    index: spec_wval(d, p, idxw),
                    offset: spec_wval(d, p + idxw, offw),
                    length: spec_wval(d, p + idxw + offw, lenw),
                },
            ),
        )
    }
}

/// Parses one item location at byte `p` of `d`.  An entry that declares
/// zero extents is invalid.
pub open spec fn spec_parse_iloc_item(
    d: Seq<u8>,
    p: int,
    version: u8,
    basew: int,
    offw: int,
    lenw: int,
    idxw: int,
) -> Result<(LocationView, int), HeifError> {
    let idw: int = if version < 2 {
        2
    } else {
        4
    };
    let mw: int = if version == 1 || version == 2 {
        2
    } else {
        0
    };
    if d.len() - p < idw + mw + 2 + basew + 2 {
        Err(HeifError::EndOfStream)
    } else {
        let ec = be16(d, p + idw + mw + 2 + basew);
        if ec == 0 {
            Err(HeifError::InvalidFormat)
        } else {
            match spec_parse_iloc_extents(
                d,
                p + idw + mw + 2 + basew + 2,
                ec as nat,
                idxw,
                offw,
                lenw,
                Seq::empty(),
            ) {
                Ok(pair) => Ok(
                    (
                        LocationView {
                            item_id: if version < 2 {
                                be16(d, p)
                            } else {
                                be32(d, p)
                            },
                            method: if version == 1 || version == 2 {
                                spec_method_of((d[p + idw + 1] & 0x0F) as int)
                            } else {
                                ConstructionMethod::FileOffset
                            },
                            data_ref_index: be16(d, p + idw + mw),
                            base_offset: spec_wval(d, p + idw + mw + 2, basew),
                            extents: pair.0,
                        },
                        pair.1,
                    ),
                ),
                Err(e) => Err(e),
            }
        }
    }
}

/// Parses `count` item locations at byte `p` of `d`.
pub open spec fn spec_parse_iloc_items(
    d: Seq<u8>,
    p: int,
    count: nat,
    version: u8,
    basew: int,
    offw: int,
    lenw: int,
    idxw: int,
    acc: Seq<LocationView>,
) -> Result<(Seq<LocationView>, int), HeifError>
    decreases count,
{
    if count == 0 {
        Ok((acc, p))
    } else {
        match spec_parse_iloc_item(d, p, version, basew, offw, lenw, idxw) {
            Ok(pair) => spec_parse_iloc_items(
                d,
                pair.1,
                (count - 1) as nat,
                version,
                basew,
                offw,
                lenw,
                idxw,
                acc.push(pair.0),
            ),
            Err(e) => Err(e),
        }
    }
}

/// True when the four width fields encoded in the two bytes at `p` are
/// each zero, four or eight; the index width counts only for versions 1
/// and 2.
pub open spec fn spec_widths_ok(d: Seq<u8>, p: int, version: u8) -> bool {
    let offw = d[p] >> 4;
    let lenw = d[p] & 0x0F;
    let basew = d[p + 1] >> 4;
    let idxw: int = if version == 1 || version == 2 {
        (d[p + 1] & 0x0F) as int
    } else {
        0
    };
    &&& (offw == 0 || offw == 4 || offw == 8)
    &&& (lenw == 0 || lenw == 4 || lenw == 8)
    &&& (basew == 0 || basew == 4 || basew == 8)
    &&& (idxw == 0 || idxw == 4 || idxw == 8)
}

/// Parses an `iloc` body at byte `p` of `d`: version and flags, the four
/// 4-bit widths, an item count whose width follows the version, then the
/// items.  Widths outside zero, four and eight bytes are invalid.
pub open spec fn spec_parse_iloc(d: Seq<u8>, p: int) -> Result<(Seq<LocationView>, int), HeifError> {
    if d.len() - p < 6 {
        Err(HeifError::EndOfStream)
    } else {
        let version = d[p];
        let offw = d[p + 4] >> 4;
        let lenw = d[p + 4] & 0x0F;
        let basew = d[p + 5] >> 4;
        let idxraw = d[p + 5] & 0x0F;
        let idxw: int = if version == 1 || version == 2 {
            idxraw as int
        } else {
            0
        };
        if !spec_widths_ok(d, p + 4, version) {
            Err(HeifError::InvalidFormat)
        } else if version < 2 {
            if d.len() - p < 8 {
                Err(HeifError::EndOfStream)
            } else {
                spec_parse_iloc_items(
                    d,
                    p + 8,
                    be16(d, p + 6) as nat,
                    version,
                    basew as int,
                    offw as int,
                    lenw as int,
                    idxw,
                    Seq::empty(),
                )
            }
        } else if version == 2 {
            if d.len() - p < 10 {
                Err(HeifError::EndOfStream)
            } else {
                spec_parse_iloc_items(
                    d,
                    p + 10,
                    be32(d, p + 6) as nat,
                    version,
                    basew as int,
                    offw as int,
                    lenw as int,
                    idxw,
                    Seq::empty(),
                )
            }
        } else {
            Ok((Seq::empty(), p + 6))
        }
    }
}

/// One extent of an item location.
#[derive(Debug, Clone, Copy)]
pub struct ItemLocationExtent {
    pub extent_index: u64,
    pub extent_offset: u64,
    pub extent_length: u64,
}

impl Default for ItemLocationExtent {
    fn default() -> (r: ItemLocationExtent)
        ensures
            r.extent_index == 0,
            r.extent_offset == 0,
            r.extent_length == 0,
    {
        ItemLocationExtent { extent_index: 0, extent_offset: 0, extent_length: 0 }
    }
}

impl ItemLocationExtent {
    /// What this extent holds, for the parse specification.
    pub open spec fn view_spec(&self) -> ExtentView {
        ExtentView {
            index: self.extent_index as int,
            offset: self.extent_offset as int,
            length: self.extent_length as int,
        }
    }
}

/// One item's location.
#[derive(Debug)]
pub struct ItemLocation {
    pub item_id: u32,
    pub method: ConstructionMethod,
    pub data_ref_index: u16,
    pub base_offset: u64,
    pub extent_list: Vec<ItemLocationExtent>,
}

impl Default for ItemLocation {
    fn default() -> (r: ItemLocation)
        ensures
            r.item_id == 0,
            r.method == ConstructionMethod::FileOffset,
            r.data_ref_index == 0,
            r.base_offset == 0,
            r.extent_list@.len() == 0,
    {
        ItemLocation {
            item_id: 0,
            method: ConstructionMethod::FileOffset,
            data_ref_index: 0,
            base_offset: 0,
            extent_list: Vec::new(),
        }
    }
}

impl ItemLocation {
    /// What this location holds, for the parse specification.
    pub open spec fn view_spec(&self) -> LocationView {
        LocationView {
            item_id: self.item_id as int,
            method: self.method,
            data_ref_index: self.data_ref_index as int,
            base_offset: self.base_offset as int,
            extents: self.extent_list@.map_values(|e: ItemLocationExtent| e.view_spec()),
        }
    }

    pub fn item_id(&self) -> (r: u32)
        ensures
            r == self.item_id,
    {
        self.item_id
    }

    pub fn set_item_id(&mut self, id: u32)
        ensures
            *final(self) == (ItemLocation { item_id: id, ..*old(self) }),
    {
        self.item_id = id;
    }

    pub fn method(&self) -> (r: &ConstructionMethod)
        ensures
            r == self.method,
    {
        &self.method
    }

    pub fn set_method(&mut self, m: ConstructionMethod)
        ensures
            *final(self) == (ItemLocation { method: m, ..*old(self) }),
    {
        self.method = m;
    }

    pub fn data_ref_index(&self) -> (r: u16)
        ensures
            r == self.data_ref_index,
    {
        self.data_ref_index
    }

    pub fn set_data_ref_index(&mut self, idx: u16)
        ensures
            *final(self) == (ItemLocation { data_ref_index: idx, ..*old(self) }),
    {
        self.data_ref_index = idx;
    }

    pub fn base_offset(&self) -> (r: u64)
        ensures
            r == self.base_offset,
    {
        self.base_offset
    }

    pub fn set_base_offset(&mut self, n: u64)
        ensures
            *final(self) == (ItemLocation { base_offset: n, ..*old(self) }),
    {
        self.base_offset = n;
    }

    pub fn extent_list(&self) -> (r: &Vec<ItemLocationExtent>)
        ensures
            r == self.extent_list,
    {
        &self.extent_list
    }

    pub fn add_extent(&mut self, ex: ItemLocationExtent)
        ensures
            final(self).extent_list@ == old(self).extent_list@.push(ex),
            final(self).item_id == old(self).item_id,
            final(self).method == old(self).method,
            final(self).data_ref_index == old(self).data_ref_index,
            final(self).base_offset == old(self).base_offset,
    {
        self.extent_list.push(ex);
    }
}

/// Reads the four 4-bit width fields of an `iloc` box and validates them:
/// each must be zero, four or eight bytes; the index width only counts for
/// versions 1 and 2 and reads as zero otherwise.
fn read_width_fields(stream: &mut BitStream, version: u8) -> (r: Result<
    (u8, u8, u8, u8),
    HeifError,
>)
    requires
        old(stream).wf(),
        old(stream).bit_offset == 0,
    ensures
        final(stream).inner@ == old(stream).inner@,
        final(stream).wf(),
        ({
            let d = old(stream).inner@;
            let p = old(stream).byte_offset as int;
            match r {
                Ok(ws) => {
                    &&& d.len() - p >= 2
                    &&& ws.0 == d[p] >> 4
                    &&& ws.1 == d[p] & 0x0F
                    &&& ws.2 == d[p + 1] >> 4
                    &&& ws.3 == if version == 1 || version == 2 {
                        d[p + 1] & 0x0F
                    } else {
                        0u8
                    }
                    &&& (ws.0 == 0 || ws.0 == 4 || ws.0 == 8)
                    &&& (ws.1 == 0 || ws.1 == 4 || ws.1 == 8)
                    &&& (ws.2 == 0 || ws.2 == 4 || ws.2 == 8)
                    &&& (ws.3 == 0 || ws.3 == 4 || ws.3 == 8)
                    &&& final(stream).byte_offset == p + 2
                    &&& final(stream).bit_offset == 0
                },
                Err(e) => {
                    ||| (e == HeifError::EndOfStream && d.len() - p < 2)
                    ||| (e == HeifError::InvalidFormat && d.len() - p >= 2 && !spec_widths_ok(
                        d,
                        p,
                        version,
                    ))
                },
            }
        }),
{
    let ghost d = old(stream).inner@;
    let ghost p = old(stream).byte_offset as int;
    let offset_size = stream.read_bits(4)? as u8;
    let length_size = stream.read_bits(4)? as u8;
    let base_offset_size = stream.read_bits(4)? as u8;
    let index_raw = stream.read_bits(4)? as u8;
    let index_size: u8 = if version == 1 || version == 2 {
        index_raw
    } else {
        0
    };
    proof {
        lemma_bits_val_hi_nibble(d, p);
        lemma_bits_val_lo_nibble(d, p);
        lemma_bits_val_hi_nibble(d, p + 1);
        lemma_bits_val_lo_nibble(d, p + 1);
        let b0 = d[p];
        let b1 = d[p + 1];
        assert(b0 >> 4 < 16 && b0 & 0x0F < 16 && b1 >> 4 < 16 && b1 & 0x0F < 16) by (bit_vector);
    }
    if !(offset_size == 0 || offset_size == 4 || offset_size == 8) || !(length_size == 0
        || length_size == 4 || length_size == 8) || !(base_offset_size == 0 || base_offset_size
        == 4 || base_offset_size == 8) || !(index_size == 0 || index_size == 4 || index_size
        == 8) {
        return Err(HeifError::InvalidFormat);
    }
    Ok((offset_size, length_size, base_offset_size, index_size))
}

/// Reads one item location: the item id in the width the version selects,
/// the reserved and construction-method bits for versions 1 and 2, the data
/// reference index, the base offset, and the extent list, which must not be
/// empty.
#[verifier::rlimit(100)]
#[verifier::spinoff_prover]
fn read_location(
    stream: &mut BitStream,
    version: u8,
    base_offset_size: u8,
    offset_size: u8,
    length_size: u8,
    index_size: u8,
) -> (r: Result<ItemLocation, HeifError>)
    requires
        old(stream).wf(),
        old(stream).bit_offset == 0,
        base_offset_size == 0 || base_offset_size == 4 || base_offset_size == 8,
        offset_size == 0 || offset_size == 4 || offset_size == 8,
        length_size == 0 || length_size == 4 || length_size == 8,
        index_size == 0 || index_size == 4 || index_size == 8,
        version == 1 || version == 2 || index_size == 0,
    ensures
        final(stream).inner@ == old(stream).inner@,
        final(stream).wf(),
        final(stream).bit_offset == 0,
        ({
            let d = old(stream).inner@;
            let p = old(stream).byte_offset as int;
            let res = spec_parse_iloc_item(
                d,
                p,
                version,
                base_offset_size as int,
                offset_size as int,
                length_size as int,
                index_size as int,
            );
            match r {
                Ok(b) => res matches Ok(pair) && pair.0 == b.view_spec()
                    && final(stream).byte_offset == pair.1,
                Err(e) => res == Err::<(LocationView, int), _>(e),
            }
        }),
{
    let ghost d = old(stream).inner@;
    let ghost cur = old(stream).byte_offset as int;
    let mut item_loc = ItemLocation::default();
    item_loc.item_id = if version < 2 {
        stream.read_2bytes()?.to_u32()
    } else {
        stream.read_4bytes()?.to_u32()
    };
    let ghost idw: int = if version < 2 {
        2
    } else {
        4
    };
    let ghost mw: int = if version == 1 || version == 2 {
        2
    } else {
        0
    };
    if version == 1 || version == 2 {
        stream.read_bits(12)?;
        let m = stream.read_bits(4)?;
        proof {
            lemma_bits_val_lo_nibble(d, cur + idw + 1);
        }
        item_loc.method = ConstructionMethod::new(m as usize);
    }
    item_loc.data_ref_index = stream.read_2bytes()?.to_u16();
    let ghost bpos = stream.byte_offset as int;
    let base_bits = stream.read_bits((base_offset_size as usize) * 8)?;
    proof {
        lemma_width_field(d, bpos, base_offset_size as nat);
    }
    item_loc.base_offset = base_bits;
    let extent_count = stream.read_2bytes()?.to_u16();
    if extent_count == 0 {
        return Err(HeifError::InvalidFormat);
    }
    let ghost epos = stream.byte_offset as int;
    proof {
        assert(item_loc.extent_list@.map_values(|e: ItemLocationExtent| e.view_spec())
            =~= Seq::<ExtentView>::empty());
    }
    let mut j: u16 = 0;
    while j < extent_count
        invariant
            d == old(stream).inner@,
            stream.inner@ == d,
            stream.wf(),
            stream.bit_offset == 0,
            j <= extent_count,
            version == 1 || version == 2 || index_size == 0,
            base_offset_size == 0 || base_offset_size == 4 || base_offset_size == 8,
            offset_size == 0 || offset_size == 4 || offset_size == 8,
            length_size == 0 || length_size == 4 || length_size == 8,
            index_size == 0 || index_size == 4 || index_size == 8,
            cur == old(stream).byte_offset as int,
            idw == if version < 2 {
                2int
            } else {
                4int
            },
            mw == if version == 1 || version == 2 {
                2int
            } else {
                0int
            },
            d.len() - cur >= idw + mw + 2 + base_offset_size + 2,
            epos == cur + idw + mw + 2 + base_offset_size + 2,
            extent_count == be16(d, cur + idw + mw + 2 + base_offset_size),
            extent_count > 0,
            item_loc.item_id == if version < 2 {
                be16(d, cur)
            } else {
                be32(d, cur)
            },
            item_loc.method == if version == 1 || version == 2 {
                spec_method_of((d[cur + idw + 1] & 0x0F) as int)
            } else {
                ConstructionMethod::FileOffset
            },
            item_loc.data_ref_index == be16(d, cur + idw + mw),
            item_loc.base_offset == spec_wval(d, cur + idw + mw + 2, base_offset_size as int),
            spec_parse_iloc_extents(
                d,
                epos,
                extent_count as nat,
                index_size as int,
                offset_size as int,
                length_size as int,
                Seq::empty(),
            ) == spec_parse_iloc_extents(
                d,
                stream.byte_offset as int,
                (extent_count - j) as nat,
                index_size as int,
                offset_size as int,
                length_size as int,
                item_loc.extent_list@.map_values(|e: ItemLocationExtent| e.view_spec()),
            ),
        decreases extent_count - j,
    {
        let ghost ecur = stream.byte_offset as int;
        let ghost eacc = item_loc.extent_list@.map_values(|e: ItemLocationExtent| e.view_spec());
        let mut loc_ext = ItemLocationExtent::default();
        if index_size > 0 {
            let v = stream.read_bits((index_size as usize) * 8)?;
            proof {
                lemma_width_field(d, ecur, index_size as nat);
            }
            loc_ext.extent_index = v;
        }
        let ghost opos = stream.byte_offset as int;
        let v = stream.read_bits((offset_size as usize) * 8)?;
        proof {
            lemma_width_field(d, opos, offset_size as nat);
        }
        loc_ext.extent_offset = v;
        let ghost lpos = stream.byte_offset as int;
        let v = stream.read_bits((length_size as usize) * 8)?;
        proof {
            lemma_width_field(d, lpos, length_size as nat);
        }
        loc_ext.extent_length = v;
        item_loc.extent_list.push(loc_ext);
        proof {
            assert(item_loc.extent_list@.map_values(|e: ItemLocationExtent| e.view_spec())
                =~= eacc.push(loc_ext.view_spec()));
        }
        j = j + 1;
    }
    Ok(item_loc)
}

/// Reads `item_count` item locations with the given widths.
#[verifier::rlimit(100)]
fn read_locations(
    stream: &mut BitStream,
    item_count: u32,
    version: u8,
    base_offset_size: u8,
    offset_size: u8,
    length_size: u8,
    index_size: u8,
) -> (r: Result<Vec<ItemLocation>, HeifError>)
    requires
        old(stream).wf(),
        old(stream).bit_offset == 0,
        base_offset_size == 0 || base_offset_size == 4 || base_offset_size == 8,
        offset_size == 0 || offset_size == 4 || offset_size == 8,
        length_size == 0 || length_size == 4 || length_size == 8,
        index_size == 0 || index_size == 4 || index_size == 8,
        version == 1 || version == 2 || index_size == 0,
    ensures
        final(stream).inner@ == old(stream).inner@,
        final(stream).wf(),
        final(stream).bit_offset == 0,
        ({
            let d = old(stream).inner@;
            let p = old(stream).byte_offset as int;
            let res = spec_parse_iloc_items(
                d,
                p,
                item_count as nat,
                version,
                base_offset_size as int,
                offset_size as int,
                length_size as int,
                index_size as int,
                Seq::empty(),
            );
            match r {
                Ok(v) => res matches Ok(pair) && v@.map_values(|l: ItemLocation| l.view_spec())
                    == pair.0 && final(stream).byte_offset == pair.1,
                Err(e) => res == Err::<(Seq<LocationView>, int), _>(e),
            }
        }),
{
    let ghost d = old(stream).inner@;
    let ghost start = old(stream).byte_offset as int;
    let ghost count = item_count as nat;
    let mut locations: Vec<ItemLocation> = Vec::new();
    proof {
        assert(locations@.map_values(|l: ItemLocation| l.view_spec())
            =~= Seq::<LocationView>::empty());
    }
    let mut i: u32 = 0;
    while i < item_count
        invariant
            d == old(stream).inner@,
            start == old(stream).byte_offset as int,
            stream.inner@ == d,
            stream.wf(),
            stream.bit_offset == 0,
            i <= item_count,
            count == item_count as nat,
            version == 1 || version == 2 || index_size == 0,
            base_offset_size == 0 || base_offset_size == 4 || base_offset_size == 8,
            offset_size == 0 || offset_size == 4 || offset_size == 8,
            length_size == 0 || length_size == 4 || length_size == 8,
            index_size == 0 || index_size == 4 || index_size == 8,
            spec_parse_iloc_items(
                d,
                start,
                count,
                version,
                base_offset_size as int,
                offset_size as int,
                length_size as int,
                index_size as int,
                Seq::empty(),
            ) == spec_parse_iloc_items(
                d,
                stream.byte_offset as int,
                (count - i) as nat,
                version,
                base_offset_size as int,
                offset_size as int,
                length_size as int,
                index_size as int,
                locations@.map_values(|l: ItemLocation| l.view_spec()),
            ),
        decreases item_count - i,
    {
        let ghost acc = locations@.map_values(|l: ItemLocation| l.view_spec());
        let item_loc = read_location(
            stream,
            version,
            base_offset_size,
            offset_size,
            length_size,
            index_size,
        )?;
        locations.push(item_loc);
        proof {
            assert(locations@.map_values(|l: ItemLocation| l.view_spec()) =~~= acc.push(
                item_loc.view_spec(),
            ));
        }
        i = i + 1;
    }
    Ok(locations)
}

/// The first location in the list with this item id, when one exists.
pub open spec fn spec_first_location(s: Seq<ItemLocation>, id: u32) -> Option<ItemLocation>
    decreases s.len(),
{
    if s.len() == 0 {
        Option::None
    } else if s[0].item_id == id {
        Option::Some(s[0])
    } else {
        spec_first_location(s.drop_first(), id)
    }
}

/// The item location box.
#[derive(Debug)]
pub struct ItemLocationBox {
    pub full_box_header: FullBoxHeader,
    pub offset_size: u8,
    pub length_size: u8,
    pub base_offset_size: u8,
    pub index_size: u8,
    pub locations: Vec<ItemLocation>,
}

impl Default for ItemLocationBox {
    fn default() -> (r: ItemLocationBox)
        ensures
            r.offset_size == 4,
            r.length_size == 4,
            r.base_offset_size == 4,
            r.index_size == 0,
            r.locations@.len() == 0,
    {
        ItemLocationBox {
            full_box_header: FullBoxHeader::new(Byte4(0x69, 0x6C, 0x6F, 0x63), 0, 0),
            offset_size: 4,
            length_size: 4,
            base_offset_size: 4,
            index_size: 0,
            locations: Vec::new(),
        }
    }
}

impl ItemLocationBox {
    /// The locations this box holds, in order.
    pub open spec fn locs(&self) -> Seq<LocationView> {
        self.locations@.map_values(|l: ItemLocation| l.view_spec())
    }

    /// True when some location carries this item id.
    pub open spec fn spec_has_location(&self, id: u32) -> bool {
        exists|j: int| 0 <= j < self.locations@.len() && #[trigger] self.locations@[j].item_id == id
    }

    /// The first location with this item id, when one exists.
    pub open spec fn spec_location_of(&self, id: u32) -> Option<ItemLocation> {
        spec_first_location(self.locations@, id)
    }

    /// Reads the box body per the version-dependent layout; a width outside
    /// zero, four and eight bytes, or an entry without extents, is invalid.
    #[verifier::rlimit(100)]
    pub fn from_stream_header(stream: &mut BitStream, box_header: BoxHeader) -> (r: Result<
        ItemLocationBox,
        HeifError,
    >)
        requires
            old(stream).wf(),
            old(stream).bit_offset == 0,
        ensures
            final(stream).inner@ == old(stream).inner@,
            final(stream).wf(),
            ({
                let d = old(stream).inner@;
                let p = old(stream).byte_offset as int;
                match r {
                    Ok(b) => {
                        &&& spec_full_from(b.full_box_header, box_header, d, p)
                        &&& d.len() - p >= 6
                        &&& b.offset_size == d[p + 4] >> 4
                        &&& b.length_size == d[p + 4] & 0x0F
                        &&& b.base_offset_size == d[p + 5] >> 4
                        &&& b.index_size == if d[p] == 1 || d[p] == 2 {
                            d[p + 5] & 0x0F
                        } else {
                            0
                        }
                        &&& spec_parse_iloc(d, p) matches Ok(pair) && b.locs() == pair.0
                            && final(stream).byte_offset == pair.1
                    },
                    Err(e) => spec_parse_iloc(d, p) == Err::<(Seq<LocationView>, int), _>(e),
                }
            }),
    {
        let ghost d = old(stream).inner@;
        let ghost p = old(stream).byte_offset as int;
        let full_box_header = FullBoxHeader::from(stream, box_header)?;
        let version = full_box_header.version();
        let widths = read_width_fields(stream, version)?;
        let offset_size = widths.0;
        let length_size = widths.1;
        let base_offset_size = widths.2;
        let index_size = widths.3;
        let item_count: u32 = if version < 2 {
            stream.read_2bytes()?.to_u32()
        } else if version == 2 {
            stream.read_4bytes()?.to_u32()
        } else {
            0
        };
        let locations = read_locations(
            stream,
            item_count,
            version,
            base_offset_size,
            offset_size,
            length_size,
            index_size,
        )?;
        Ok(
            ItemLocationBox {
                full_box_header,
                offset_size,
                length_size,
                base_offset_size,
                index_size,
                locations,
            },
        )
    }

    pub fn full_box_header(&self) -> (r: &FullBoxHeader)
        ensures
            r == self.full_box_header,
    {
        &self.full_box_header
    }

    pub fn offset_size(&self) -> (r: u8)
        ensures
            r == self.offset_size,
    {
        self.offset_size
    }

    pub fn set_offset_size(&mut self, n: u8)
        ensures
            *final(self) == (ItemLocationBox { offset_size: n, ..*old(self) }),
    {
        self.offset_size = n;
    }

    pub fn length_size(&self) -> (r: u8)
        ensures
            r == self.length_size,
    {
        self.length_size
    }

    pub fn set_length_size(&mut self, n: u8)
        ensures
            *final(self) == (ItemLocationBox { length_size: n, ..*old(self) }),
    {
        self.length_size = n;
    }

    pub fn base_offset_size(&self) -> (r: u8)
        ensures
            r == self.base_offset_size,
    {
        self.base_offset_size
    }

    pub fn set_base_offset_size(&mut self, n: u8)
        ensures
            *final(self) == (ItemLocationBox { base_offset_size: n, ..*old(self) }),
    {
        self.base_offset_size = n;
    }

    pub fn index_size(&self) -> (r: u8)
        ensures
            r == self.index_size,
    {
        self.index_size
    }

    pub fn set_index_size(&mut self, n: u8)
        ensures
            *final(self) == (ItemLocationBox { index_size: n, ..*old(self) }),
    {
        self.index_size = n;
    }

    pub fn locations_count(&self) -> (r: usize)
        ensures
            r == self.locations@.len(),
    {
        self.locations.len()
    }

    /// Appends a location; a method other than file offset needs version 1.
    pub fn add_location(&mut self, loc: ItemLocation)
        ensures
            final(self).locations@ == old(self).locations@.push(loc),
            loc.method != ConstructionMethod::FileOffset ==> final(self).full_box_header.version
                == 1,
            loc.method == ConstructionMethod::FileOffset ==> final(self).full_box_header == old(
                self,
            ).full_box_header,
    {
        if !(loc.method == ConstructionMethod::FileOffset) {
            self.full_box_header.set_version(1);
        }
        self.locations.push(loc);
    }

    pub fn has_item_id_entry(&self, item_id: u32) -> (r: bool)
        ensures
            r == self.spec_has_location(item_id),
    {
        self.find_item(item_id).is_some()
    }

    /// The first location with this item id, when one exists.
    pub fn find_item(&self, item_id: u32) -> (r: Option<&ItemLocation>)
        ensures
            r is Some <==> self.spec_has_location(item_id),
            match r {
                Some(l) => self.spec_location_of(item_id) == Option::Some(*l) && l.item_id
                    == item_id && self.locations@.contains(*l),
                None => self.spec_location_of(item_id) is None,
            },
    {
        let n = self.locations.len();
        let mut i: usize = 0;
        proof {
            assert(self.locations@.skip(0int) =~= self.locations@);
        }
        while i < n
            invariant
                n == self.locations@.len(),
                i <= n,
                forall|j: int| 0 <= j < i ==> #[trigger] self.locations@[j].item_id != item_id,
                spec_first_location(self.locations@, item_id) == spec_first_location(
                    self.locations@.skip(i as int),
                    item_id,
                ),
            decreases n - i,
        {
            proof {
                assert(self.locations@.skip(i as int).drop_first() =~= self.locations@.skip(i + 1));
                assert(self.locations@.skip(i as int)[0] == self.locations@[i as int]);
            }
            if self.locations[i].item_id == item_id {
                return Some(&self.locations[i]);
            }
            i = i + 1;
        }
        proof {
            assert(self.locations@.skip(n as int) =~= Seq::<ItemLocation>::empty());
        }
        None
    }
}

} // verus!
