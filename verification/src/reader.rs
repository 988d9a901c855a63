//! The reader facade: scans the top-level boxes of a buffer, aggregates the
//! meta-box model, derives item features and decoder-configuration indices,
//! and materializes item payloads as start-code-prefixed byte streams.

use crate::bbox::ftyp::FileTypeBox;
use crate::bbox::header::{
    spec_box_size, spec_box_type, spec_header_ok, spec_header_size, BoxHeader,
};
use crate::bbox::hevc::{spec_param_set, NAL_PPS, NAL_SPS, NAL_VPS};
use crate::bbox::iloc::ConstructionMethod;
use crate::bbox::iprp::{spec_find_property_index, PropertyType};
use crate::bbox::iref::SingleItemTypeReferenceBox;
use crate::bbox::meta::{spec_parse_meta, MetaBox};
use crate::bit::{be16, be32, BitStream, Byte4};
use crate::data::{Grid, ImageGrid};
use crate::fourcc;
use crate::internal::ItemFeature;
use crate::HeifError;
use vstd::prelude::*;

verus! {

/// The lifecycle of a reader: empty, mid-load, or loaded.
#[derive(Debug, Clone, Copy, PartialEq, Eq, Structural)]
pub enum State {
    Uninitialized,
    Initializing,
    Ready,
}

/// True when the item type tag names a coded or derived image.
pub open spec fn spec_is_image_type(t: Byte4) -> bool {
    ||| t.value() == fourcc::AVC1
    ||| t.value() == fourcc::HVC1
    ||| t.value() == fourcc::GRID
    ||| t.value() == fourcc::IOVL
    ||| t.value() == fourcc::IDEN
    ||| t.value() == fourcc::JPEG
}

/// True when some reference of type value `t` originates at `from`.
pub open spec fn spec_has_ref(refs: Seq<SingleItemTypeReferenceBox>, t: int, from: u32) -> bool {
    exists|j: int|
        0 <= j < refs.len() && #[trigger] refs[j].box_header.box_type.value() == t && refs[j].from_item_id
            == from
}

/// The feature mask of one catalogued item, per the derivation rules: for
/// image items the reference-driven flags, the master default, the primary
/// and hidden flags; for other items the metadata classification.
pub open spec fn spec_item_feature_mask(
    entry: crate::bbox::iinf::ItemInfoEntry,
    refs: Seq<SingleItemTypeReferenceBox>,
    primary_id: u32,
) -> u32 {
    let id = entry.item_id;
    if spec_is_image_type(entry.item_type) {
        let m0: u32 = 0;
        let m1: u32 = if entry.item_protection_index > 0 {
            m0 | 0x100
        } else {
            m0
        };
        let m2: u32 = if spec_has_ref(refs, fourcc::THMB as int, id) {
            m1 | 0x2
        } else {
            m1
        };
        let m3: u32 = if spec_has_ref(refs, fourcc::AUXL as int, id) {
            m2 | 0x4
        } else {
            m2
        };
        let m4: u32 = if spec_has_ref(refs, fourcc::BASE as int, id) {
            m3 | 0x20
        } else {
            m3
        };
        let m5: u32 = if spec_has_ref(refs, fourcc::DIMG as int, id) {
            m4 | 0x10
        } else {
            m4
        };
        let m6: u32 = if !spec_has_ref(refs, fourcc::THMB as int, id) && !spec_has_ref(
            refs,
            fourcc::AUXL as int,
            id,
        ) {
            m5 | 0x1
        } else {
            m5
        };
        let m7: u32 = if spec_has_ref(refs, fourcc::THMB as int, id) {
            m6 | 0x200
        } else {
            m6
        };
        let m8: u32 = if spec_has_ref(refs, fourcc::AUXL as int, id) {
            m7 | 0x400
        } else {
            m7
        };
        let m9: u32 = if spec_has_ref(refs, fourcc::CDSC as int, id) {
            m8 | 0x4000
        } else {
            m8
        };
        let m10: u32 = if spec_has_ref(refs, fourcc::BASE as int, id) {
            m9 | 0x1000
        } else {
            m9
        };
        let m11: u32 = if spec_has_ref(refs, fourcc::TBAS as int, id) {
            m10 | 0x2000
        } else {
            m10
        };
        let m12: u32 = if spec_has_ref(refs, fourcc::DIMG as int, id) {
            m11 | 0x800
        } else {
            m11
        };
        let m13: u32 = if primary_id == id {
            m12 | 0x8 | 0x80
        } else {
            m12
        };
        if entry.full_box_header.flags & 1 != 0 {
            m13 | 0x40
        } else {
            m13
        }
    } else {
        let m0: u32 = 0;
        let m1: u32 = if entry.item_protection_index > 0 {
            m0 | 0x100
        } else {
            m0
        };
        let m2: u32 = if spec_has_ref(refs, fourcc::CDSC as int, id) {
            m1 | 0x1_0000
        } else {
            m1
        };
        if entry.item_type.value() == fourcc::EXIF {
            m2 | 0x2_0000
        } else if entry.item_type.value() == fourcc::MIME {
            if entry.content_type@ == "application/rdf+xml"@ {
                m2 | 0x4_0000
            } else {
                m2 | 0x8_0000
            }
        } else if entry.item_type.value() == fourcc::HVT1 {
            m2 | 0x8000
        } else {
            m2
        }
    }
}

/// What a scan of the top-level boxes finds: the `ftyp` body, the `meta`
/// body, and whether a `moov` box was seen.
pub struct ScanView {
    pub ftyp: Option<Seq<u8>>,
    pub meta: Option<Seq<u8>>,
    pub moov: bool,
}

/// The first byte after the top-level box at byte `p` of `d`: its declared
/// size, or the rest of the buffer for a declared size of zero.
pub open spec fn spec_scan_next(d: Seq<u8>, p: int) -> int {
    p + if spec_box_size(d, p) == 0 {
        d.len() - p
    } else {
        spec_box_size(d, p)
    }
}

/// Handles the one top-level box at byte `p` of `d`: at most one `ftyp`,
/// one `meta` and one `moov`; `ftyp` and `meta` bodies must parse; any
/// other box is skipped by its size.
pub open spec fn spec_scan_step(d: Seq<u8>, p: int, v: ScanView) -> Result<ScanView, HeifError> {
    if !spec_header_ok(d, p) {
        Err(
            if d.len() - p < spec_header_size(d, p) {
                HeifError::EndOfStream
            } else {
                HeifError::MalformedBox
            },
        )
    } else {
        let hs = spec_header_size(d, p);
        let size = if spec_box_size(d, p) == 0 {
            d.len() - p
        } else {
            spec_box_size(d, p)
        };
        if p + size > d.len() {
            Err(HeifError::MalformedBox)
        } else {
            let t = spec_box_type(d, p).value();
            let body = d.subrange(p + hs, p + size);
            if t == fourcc::FTYP {
                if v.ftyp is Some {
                    Err(HeifError::DuplicateTopLevelBox)
                } else if !crate::bbox::ftyp::spec_ftyp_body_ok(body) {
                    Err(HeifError::EndOfStream)
                } else {
                    Ok(ScanView { ftyp: Option::Some(body), ..v })
                }
            } else if t == fourcc::META {
                if v.meta is Some {
                    Err(HeifError::DuplicateTopLevelBox)
                } else {
                    match spec_parse_meta(body, 0) {
                        Ok(_) => Ok(ScanView { meta: Option::Some(body), ..v }),
                        Err(e) => Err(e),
                    }
                }
            } else if t == fourcc::MOOV {
                if v.moov {
                    Err(HeifError::DuplicateTopLevelBox)
                } else {
                    Ok(ScanView { moov: true, ..v })
                }
            } else {
                Ok(v)
            }
        }
    }
}

/// Scans the top-level boxes of `d` from byte `p`.  At the end the file
/// must hold an `ftyp` and a `meta` or `moov`; anything else is a missing
/// mandatory box.
pub open spec fn spec_scan(d: Seq<u8>, p: int, v: ScanView) -> Result<ScanView, HeifError>
    decreases d.len() - p,
        via spec_scan_dec
{
    if p >= d.len() {
        if v.ftyp is None || (v.meta is None && !v.moov) {
            Err(HeifError::MissingMandatoryBox)
        } else {
            Ok(v)
        }
    } else {
        match spec_scan_step(d, p, v) {
            Ok(v2) => spec_scan(d, spec_scan_next(d, p), v2),
            Err(e) => Err(e),
        }
    }
}

#[via_fn]
proof fn spec_scan_dec(d: Seq<u8>, p: int, v: ScanView) {
    if p < d.len() && spec_scan_step(d, p, v) is Ok {
        assert(spec_header_ok(d, p));
        assert(spec_header_size(d, p) >= 8);
        assert(spec_scan_next(d, p) > p);
        assert(spec_scan_next(d, p) <= d.len());
    }
}

/// A scan with nothing found yet.
pub open spec fn spec_scan_start() -> ScanView {
    ScanView { ftyp: Option::None, meta: Option::None, moov: false }
}

/// Rewrites one length-prefixed NAL stream into start-code form: each
/// 4-byte big-endian length field becomes `00 00 00 01` and the payload
/// bytes stay in place.  A truncated length field or a body that runs past
/// the end is invalid.
pub open spec fn spec_hevc_rewrite(d: Seq<u8>, p: nat) -> Result<Seq<u8>, HeifError>
    decreases d.len() - p,
        via spec_hevc_rewrite_dec
{
    if p >= d.len() {
        Ok(d)
    } else if d.len() - p < 4 {
        Err(HeifError::InvalidFormat)
    } else if d.len() - (p + 4) < be32(d, p as int) {
        Err(HeifError::InvalidFormat)
    } else {
        spec_hevc_rewrite(
            d.update(p as int, 0u8).update(p as int + 1, 0u8).update(p as int + 2, 0u8).update(
                p as int + 3,
                1u8,
            ),
            (p + 4 + be32(d, p as int)) as nat,
        )
    }
}

#[via_fn]
proof fn spec_hevc_rewrite_dec(d: Seq<u8>, p: nat) {
    if p < d.len() && d.len() - p >= 4 && d.len() - (p + 4) >= be32(d, p as int) {
        assert(d.update(p as int, 0u8).update(p as int + 1, 0u8).update(p as int + 2, 0u8).update(
            p as int + 3,
            1u8,
        ).len() == d.len());
        assert(be32(d, p as int) >= 0);
    }
}

/// Walks a payload of length-prefixed NAL units and overwrites each 4-byte
/// length field with the start code `00 00 00 01`, in place.
pub fn process_hevc_item_data(buf: &mut Vec<u8>) -> (r: Result<(), HeifError>)
    ensures
        match r {
            Ok(_) => spec_hevc_rewrite(old(buf)@, 0) == Ok::<_, HeifError>(final(buf)@),
            Err(e) => spec_hevc_rewrite(old(buf)@, 0) == Err::<Seq<u8>, _>(e),
        },
{
    let mut offset: usize = 0;
    while offset < buf.len()
        invariant
            offset <= buf@.len(),
            buf@.len() == old(buf)@.len(),
            spec_hevc_rewrite(old(buf)@, 0) == spec_hevc_rewrite(buf@, offset as nat),
        decreases buf@.len() - offset,
    {
        if buf.len() - offset < 4 {
            return Err(HeifError::InvalidFormat);
        }
        let b0 = buf[offset];
        let b1 = buf[offset + 1];
        let b2 = buf[offset + 2];
        let b3 = buf[offset + 3];
        let nal_length: u64 = (b0 as u64) * 0x100_0000 + (b1 as u64) * 0x1_0000 + (b2 as u64)
            * 0x100 + (b3 as u64);
        if ((buf.len() - offset - 4) as u64) < nal_length {
            return Err(HeifError::InvalidFormat);
        }
        let ghost before = buf@;
        buf.set(offset, 0);
        buf.set(offset + 1, 0);
        buf.set(offset + 2, 0);
        buf.set(offset + 3, 1);
        proof {
            assert(buf@ =~= before.update(offset as int, 0u8).update(offset + 1, 0u8).update(
                offset + 2,
                1int as u8,
            ).update(offset + 3, 1u8).update(offset + 2, 0u8).update(offset + 3, 1u8));
            assert(buf@ =~= before.update(offset as int, 0u8).update(offset + 1, 0u8).update(
                offset + 2,
                0u8,
            ).update(offset + 3, 1u8));
            assert(be32(before, offset as int) == nal_length);
        }
        offset = offset + 4 + (nal_length as usize);
    }
    Ok(())
}

/// Reads the structured payload of a `grid` item: a reserved byte, a flags
/// byte whose low bit widens the output fields to 32 bits, the rows and
/// columns (each minus one), then the output width and height.
pub fn parse_image_grid(stream: &mut BitStream) -> (r: Result<ImageGrid, HeifError>)
    requires
        old(stream).wf(),
        old(stream).bit_offset == 0,
        old(stream).byte_offset == 0,
    ensures
        final(stream).inner@ == old(stream).inner@,
        final(stream).wf(),
        ({
            let d = old(stream).inner@;
            match r {
                Ok(g) => {
                    &&& d.len() >= 4
                    &&& g.rows_minus_one == d[2]
                    &&& g.columns_minus_one == d[3]
                    &&& if d[1] & 1 != 0 {
                        &&& d.len() >= 12
                        &&& g.output_width == be32(d, 4)
                        &&& g.output_height == be32(d, 8)
                    } else {
                        &&& d.len() >= 8
                        &&& g.output_width == be16(d, 4)
                        &&& g.output_height == be16(d, 6)
                    }
                },
                Err(e) => {
                    &&& e == HeifError::EndOfStream
                    &&& (d.len() < 4 || (d[1] & 1 != 0 && d.len() < 12) || (d[1] & 1 == 0 && d.len()
                        < 8))
                },
            }
        }),
{
    stream.read_byte()?;
    let flags = stream.read_byte()?;
    let read_4bytes_fields = (flags & 1) != 0;
    let rows_minus_one = stream.read_byte()?;
    let columns_minus_one = stream.read_byte()?;
    let output_width: u32;
    let output_height: u32;
    if read_4bytes_fields {
        output_width = stream.read_4bytes()?.to_u32();
        output_height = stream.read_4bytes()?.to_u32();
    } else {
        output_width = stream.read_2bytes()?.to_u32();
        output_height = stream.read_2bytes()?.to_u32();
    }
    Ok(ImageGrid { rows_minus_one, columns_minus_one, output_width, output_height })
}

/// True when some reference of the given type originates at the item.
pub fn do_references_from_item_id_exist(metabox: &MetaBox, item_id: u32, ref_type: u32) -> (r:
    bool)
    ensures
        r == spec_has_ref(metabox.item_reference_box.reference_list@, ref_type as int, item_id),
{
    let refs = &metabox.item_reference_box.reference_list;
    let n = refs.len();
    let mut i: usize = 0;
    while i < n
        invariant
            refs@ == metabox.item_reference_box.reference_list@,
            n == refs@.len(),
            i <= n,
            forall|j: int|
                0 <= j < i ==> !(#[trigger] refs@[j].box_header.box_type.value() == ref_type as int
                    && refs@[j].from_item_id == item_id),
        decreases n - i,
    {
        if refs[i].box_header.box_type.to_u32() == ref_type && refs[i].get_from_item_id()
            == item_id {
            proof {
                assert(refs@[i as int].box_header.box_type.value() == ref_type as int && refs@[
                    i as int].from_item_id == item_id);
                assert(spec_has_ref(refs@, ref_type as int, item_id));
            }
            return true;
        }
        i = i + 1;
    }
    false
}

/// True when the item type tag names a coded or derived image.
pub fn is_image_item_type(item_type: &Byte4) -> (r: bool)
    ensures
        r == spec_is_image_type(*item_type),
{
    let t = item_type.to_u32();
    t == fourcc::AVC1 || t == fourcc::HVC1 || t == fourcc::GRID || t == fourcc::IOVL || t
        == fourcc::IDEN || t == fourcc::JPEG
}

/// Computes the feature mask of one catalogued item per the derivation
/// rules.
pub fn derive_item_features(metabox: &MetaBox, entry_index: usize, primary_id: u32) -> (r:
    ItemFeature)
    requires
        entry_index < metabox.item_info_box.item_info_list@.len(),
    ensures
        r.mask == spec_item_feature_mask(
            metabox.item_info_box.item_info_list@[entry_index as int],
            metabox.item_reference_box.reference_list@,
            primary_id,
        ),
{
    let entry = &metabox.item_info_box.item_info_list[entry_index];
    let id = entry.item_id();
    let mut mask: u32 = 0;
    if is_image_item_type(entry.item_type()) {
        if entry.item_protection_index() > 0 {
            mask = mask | 0x100;
        }
        if do_references_from_item_id_exist(metabox, id, fourcc::THMB) {
            mask = mask | 0x2;
        }
        if do_references_from_item_id_exist(metabox, id, fourcc::AUXL) {
            mask = mask | 0x4;
        }
        if do_references_from_item_id_exist(metabox, id, fourcc::BASE) {
            mask = mask | 0x20;
        }
        if do_references_from_item_id_exist(metabox, id, fourcc::DIMG) {
            mask = mask | 0x10;
        }
        if !do_references_from_item_id_exist(metabox, id, fourcc::THMB)
            && !do_references_from_item_id_exist(metabox, id, fourcc::AUXL) {
            mask = mask | 0x1;
        }
        if do_references_from_item_id_exist(metabox, id, fourcc::THMB) {
            mask = mask | 0x200;
        }
        if do_references_from_item_id_exist(metabox, id, fourcc::AUXL) {
            mask = mask | 0x400;
        }
        if do_references_from_item_id_exist(metabox, id, fourcc::CDSC) {
            mask = mask | 0x4000;
        }
        if do_references_from_item_id_exist(metabox, id, fourcc::BASE) {
            mask = mask | 0x1000;
        }
        if do_references_from_item_id_exist(metabox, id, fourcc::TBAS) {
            mask = mask | 0x2000;
        }
        if do_references_from_item_id_exist(metabox, id, fourcc::DIMG) {
            mask = mask | 0x800;
        }
        if primary_id == id {
            mask = mask | 0x8 | 0x80;
        }
        if entry.full_box_header().flags() & 1 != 0 {
            mask = mask | 0x40;
        }
    } else {
        if entry.item_protection_index() > 0 {
            mask = mask | 0x100;
        }
        if do_references_from_item_id_exist(metabox, id, fourcc::CDSC) {
            mask = mask | 0x1_0000;
        }
        let t = entry.item_type().to_u32();
        if t == fourcc::EXIF {
            mask = mask | 0x2_0000;
        } else if t == fourcc::MIME {
            if str_eq(entry.content_type(), "application/rdf+xml") {
                mask = mask | 0x4_0000;
            } else {
                mask = mask | 0x8_0000;
            }
        } else if t == fourcc::HVT1 {
            mask = mask | 0x8000;
        }
    }
    ItemFeature { mask }
}

/// Relies on `str::eq`: string equality is equality of the character
/// sequences.
#[verifier::external_body]
fn str_eq(a: &str, b: &str) -> (r: bool)
    ensures
        r == (a@ == b@),
{
    a == b
}

/// The features of every catalogued item, keyed by item id and in
/// catalogue order; the set of image items among them is exactly the set
/// of entries whose type is a coded or derived image type.
pub fn extract_item_features_map(metabox: &MetaBox, primary_id: u32) -> (r: Vec<(
    u32,
    ItemFeature,
)>)
    ensures
        r@.len() == metabox.item_info_box.item_info_list@.len(),
        forall|j: int|
            0 <= j < r@.len() ==> {
                &&& (#[trigger] r@[j]).0 == metabox.item_info_box.item_info_list@[j].item_id
                &&& r@[j].1.mask == spec_item_feature_mask(
                    metabox.item_info_box.item_info_list@[j],
                    metabox.item_reference_box.reference_list@,
                    primary_id,
                )
            },
{
    let n = metabox.item_info_box.item_info_list.len();
    let mut r: Vec<(u32, ItemFeature)> = Vec::new();
    let mut i: usize = 0;
    while i < n
        invariant
            n == metabox.item_info_box.item_info_list@.len(),
            i <= n,
            r@.len() == i,
            forall|j: int|
                0 <= j < i ==> {
                    &&& (#[trigger] r@[j]).0 == metabox.item_info_box.item_info_list@[j].item_id
                    &&& r@[j].1.mask == spec_item_feature_mask(
                        metabox.item_info_box.item_info_list@[j],
                        metabox.item_reference_box.reference_list@,
                        primary_id,
                    )
                },
        decreases n - i,
    {
        let f = derive_item_features(metabox, i, primary_id);
        r.push((metabox.item_info_box.item_info_list[i].item_id, f));
        i = i + 1;
    }
    r
}

/// The ids of the catalogued items whose type names a coded or derived
/// image, in catalogue order.
pub fn image_item_ids(metabox: &MetaBox) -> (r: Vec<u32>)
    ensures
        r@ == metabox.item_info_box.item_info_list@.filter(
            |e: crate::bbox::iinf::ItemInfoEntry| spec_is_image_type(e.item_type),
        ).map_values(|e: crate::bbox::iinf::ItemInfoEntry| e.item_id),
{
    let entries = &metabox.item_info_box.item_info_list;
    let n = entries.len();
    let mut r: Vec<u32> = Vec::new();
    let mut i: usize = 0;
    proof {
        assert(entries@.take(0int).filter(
            |e: crate::bbox::iinf::ItemInfoEntry| spec_is_image_type(e.item_type),
        ) =~= Seq::empty());
        assert(r@ =~= entries@.take(0int).filter(
            |e: crate::bbox::iinf::ItemInfoEntry| spec_is_image_type(e.item_type),
        ).map_values(|e: crate::bbox::iinf::ItemInfoEntry| e.item_id));
    }
    while i < n
        invariant
            n == entries@.len(),
            i <= n,
            r@ == entries@.take(i as int).filter(
                |e: crate::bbox::iinf::ItemInfoEntry| spec_is_image_type(e.item_type),
            ).map_values(|e: crate::bbox::iinf::ItemInfoEntry| e.item_id),
        decreases n - i,
    {
        proof {
            assert(entries@.take(i + 1).drop_last() =~= entries@.take(i as int));
        }
        let ghost prev = r@;
        if is_image_item_type(entries[i].item_type()) {
            r.push(entries[i].item_id);
        }
        proof {
            reveal_with_fuel(Seq::<_>::filter, 2);
            let pred = |e: crate::bbox::iinf::ItemInfoEntry| spec_is_image_type(e.item_type);
            assert(entries@.take(i + 1).last() == entries@[i as int]);
            if pred(entries@[i as int]) {
                assert(entries@.take(i + 1).filter(pred) == entries@.take(i as int).filter(
                    pred,
                ).push(entries@[i as int]));
                assert(r@ =~= entries@.take(i + 1).filter(pred).map_values(
                    |e: crate::bbox::iinf::ItemInfoEntry| e.item_id,
                ));
            } else {
                assert(entries@.take(i + 1).filter(pred) == entries@.take(i as int).filter(pred));
            }
        }
        i = i + 1;
    }
    proof {
        assert(entries@.take(n as int) =~= entries@);
    }
    r
}


/// The to-ids of the first `iloc`-typed reference that originates at the
/// item, when one exists.
pub open spec fn spec_first_iloc_ref(refs: Seq<SingleItemTypeReferenceBox>, from: u32) -> Option<
    Seq<u32>,
>
    decreases refs.len(),
{
    if refs.len() == 0 {
        Option::None
    } else if refs[0].box_header.box_type.value() == fourcc::ILOC && refs[0].from_item_id == from {
        Option::Some(refs[0].to_item_ids@)
    } else {
        spec_first_iloc_ref(refs.drop_first(), from)
    }
}

/// The sum of the extent lengths from position `k` on; a sum that leaves
/// the 64-bit range is invalid.
pub open spec fn spec_sum_extent_lengths(
    extents: Seq<crate::bbox::iloc::ItemLocationExtent>,
    k: int,
    acc: int,
) -> Result<int, HeifError>
    decreases extents.len() - k,
{
    if k < 0 || k >= extents.len() {
        Ok(acc)
    } else if acc + extents[k].extent_length > u64::MAX {
        Err(HeifError::InvalidFormat)
    } else {
        spec_sum_extent_lengths(extents, k + 1, acc + extents[k].extent_length)
    }
}

/// How much recursion the visited list still allows: the item count plus
/// one, less the ids already visited.
pub open spec fn spec_fuel(count: nat, visited: nat) -> int {
    if count + 1 >= visited {
        count + 1 - visited
    } else {
        0
    }
}

/// The length contributed by the extents of an item-offset location from
/// position `k` on: each extent selects a referenced sub-item, whose own
/// length is resolved recursively; a zero extent length means the whole
/// sub-item.
pub open spec fn spec_item_offset_extents(
    mb: MetaBox,
    extents: Seq<crate::bbox::iloc::ItemLocationExtent>,
    k: int,
    to_ids: Seq<u32>,
    index_size: u8,
    self_id: u32,
    past: Seq<u32>,
    acc: int,
) -> Result<(int, Seq<u32>), HeifError>
    decreases spec_fuel(mb.item_info_box.item_info_list@.len(), past.len()), extents.len() - k, 0int,
{
    let count = mb.item_info_box.item_info_list@.len();
    if k < 0 || k >= extents.len() {
        Ok((acc, past))
    } else if past.len() > count {
        Err(HeifError::CircularReference)
    } else {
        let e = extents[k];
        let idx: int = if index_size != 0 {
            e.extent_index as int
        } else {
            1
        };
        if idx < 1 || idx > to_ids.len() {
            Err(HeifError::InvalidFormat)
        } else {
            let sub_id = to_ids[idx - 1];
            if sub_id == self_id {
                Err(HeifError::CircularReference)
            } else {
                match spec_item_length(mb, sub_id, past) {
                    Ok(pair) => {
                        let add: int = if e.extent_length == 0 {
                            pair.0
                        } else {
                            e.extent_length as int
                        };
                        if acc + add > u64::MAX {
                            Err(HeifError::InvalidFormat)
                        } else if pair.1.len() <= past.len() {
                            Err(HeifError::CircularReference)
                        } else {
                            spec_item_offset_extents(
                                mb,
                                extents,
                                k + 1,
                                to_ids,
                                index_size,
                                self_id,
                                pair.1,
                                acc + add,
                            )
                        }
                    },
                    Err(e2) => Err(e2),
                }
            }
        }
    }
}

/// The logical length in bytes of an item's payload, resolved through the
/// item-offset reference graph with a visited list that trips on revisits.
pub open spec fn spec_item_length(mb: MetaBox, item_id: u32, past: Seq<u32>) -> Result<
    (int, Seq<u32>),
    HeifError,
>
    decreases spec_fuel(mb.item_info_box.item_info_list@.len(), past.len()), 0int, 0int,
{
    let count = mb.item_info_box.item_info_list@.len();
    if past.len() > count {
        Err(HeifError::CircularReference)
    } else if !mb.item_info_box.spec_has_item(item_id) {
        Err(HeifError::InvalidItemID)
    } else if past.contains(item_id) {
        Err(HeifError::CircularReference)
    } else {
        let past1 = past.push(item_id);
        match crate::bbox::iloc::spec_first_location(mb.item_location_box.locations@, item_id) {
            Option::None => Err(HeifError::InvalidItemID),
            Option::Some(loc) => {
                if loc.extent_list@.len() == 0 {
                    Err(HeifError::InvalidFormat)
                } else if mb.item_location_box.full_box_header.version >= 1 && loc.method
                    == ConstructionMethod::ItemOffset {
                    match spec_first_iloc_ref(mb.item_reference_box.reference_list@, item_id) {
                        Option::None => Err(HeifError::InvalidFormat),
                        Option::Some(to_ids) => spec_item_offset_extents(
                            mb,
                            loc.extent_list@,
                            0,
                            to_ids,
                            mb.item_location_box.index_size,
                            item_id,
                            past1,
                            0,
                        ),
                    }
                } else {
                    match spec_sum_extent_lengths(loc.extent_list@, 0, 0) {
                        Ok(total) => Ok((total, past1)),
                        Err(e) => Err(e),
                    }
                }
            },
        }
    }
}

/// True exactly when the id is in the list.
fn contains_id(v: &Vec<u32>, id: u32) -> (r: bool)
    ensures
        r == v@.contains(id),
{
    let n = v.len();
    let mut i: usize = 0;
    while i < n
        invariant
            n == v@.len(),
            i <= n,
            forall|j: int| 0 <= j < i ==> v@[j] != id,
        decreases n - i,
    {
        if v[i] == id {
            proof {
                assert(v@.contains(id));
            }
            return true;
        }
        i = i + 1;
    }
    false
}

/// The to-ids of the first `iloc`-typed reference that originates at the
/// item, when one exists.
fn find_iloc_reference(metabox: &MetaBox, from: u32) -> (r: Option<&Vec<u32>>)
    ensures
        match r {
            Some(v) => spec_first_iloc_ref(metabox.item_reference_box.reference_list@, from)
                == Option::Some(v@),
            None => spec_first_iloc_ref(metabox.item_reference_box.reference_list@, from) is None,
        },
{
    let refs = &metabox.item_reference_box.reference_list;
    let n = refs.len();
    let mut i: usize = 0;
    proof {
        assert(refs@.skip(0int) =~= refs@);
    }
    while i < n
        invariant
            refs@ == metabox.item_reference_box.reference_list@,
            n == refs@.len(),
            i <= n,
            spec_first_iloc_ref(refs@, from) == spec_first_iloc_ref(refs@.skip(i as int), from),
        decreases n - i,
    {
        proof {
            assert(refs@.skip(i as int).drop_first() =~= refs@.skip(i + 1));
            assert(refs@.skip(i as int)[0] == refs@[i as int]);
        }
        if refs[i].box_header.box_type.to_u32() == fourcc::ILOC && refs[i].from_item_id == from {
            return Some(&refs[i].to_item_ids);
        }
        i = i + 1;
    }
    proof {
        assert(refs@.skip(n as int) =~= Seq::<SingleItemTypeReferenceBox>::empty());
    }
    None
}

/// Computes an item's payload length per the construction method: the sum
/// of its extent lengths, or for the item-offset method the recursively
/// resolved lengths of the referenced sub-items.  The visited list makes a
/// revisit fail instead of looping.
pub fn get_item_length(metabox: &MetaBox, item_id: u32, past_references: &mut Vec<u32>) -> (r:
    Result<u64, HeifError>)
    ensures
        final(past_references)@.len() >= old(past_references)@.len(),
        ({
            let res = spec_item_length(*metabox, item_id, old(past_references)@);
            match r {
                Ok(n) => res matches Ok(pair) && n as int == pair.0 && final(past_references)@
                    == pair.1,
                Err(e) => res == Err::<(int, Seq<u32>), _>(e),
            }
        }),
    decreases spec_fuel(
        metabox.item_info_box.item_info_list@.len(),
        old(past_references)@.len(),
    ), 1int, 0int,
{
    let ghost mb = *metabox;
    let ghost past0 = past_references@;
    let count = metabox.item_info_box.item_info_list.len();
    if past_references.len() > count {
        return Err(HeifError::CircularReference);
    }
    if metabox.item_info_box.item_by_id(item_id).is_none() {
        return Err(HeifError::InvalidItemID);
    }
    if contains_id(past_references, item_id) {
        return Err(HeifError::CircularReference);
    }
    past_references.push(item_id);
    let loc = match metabox.item_location_box.find_item(item_id) {
        Some(l) => l,
        None => {
            return Err(HeifError::InvalidItemID);
        },
    };
    if loc.extent_list.len() == 0 {
        return Err(HeifError::InvalidFormat);
    }
    let version = metabox.item_location_box.full_box_header.version;
    if version >= 1 && loc.method == ConstructionMethod::ItemOffset {
        let to_ids = match find_iloc_reference(metabox, item_id) {
            Some(v) => v,
            None => {
                return Err(HeifError::InvalidFormat);
            },
        };
        let index_size = metabox.item_location_box.index_size;
        let ghost extents = loc.extent_list@;
        let ghost past1 = past_references@;
        let ne = loc.extent_list.len();
        let mut total: u64 = 0;
        let mut k: usize = 0;
        while k < ne
            invariant
                mb == *metabox,
                past0 == old(past_references)@,
                past1 == past0.push(item_id),
                spec_item_length(mb, item_id, past0) == spec_item_offset_extents(
                    mb,
                    extents,
                    0,
                    to_ids@,
                    index_size,
                    item_id,
                    past1,
                    0,
                ),
                loc.extent_list@ == extents,
                to_ids@ == spec_first_iloc_ref(mb.item_reference_box.reference_list@, item_id)->Some_0,
                spec_first_iloc_ref(mb.item_reference_box.reference_list@, item_id) is Some,
                index_size == mb.item_location_box.index_size,
                count == mb.item_info_box.item_info_list@.len(),
                ne == extents.len(),
                k <= ne,
                past_references@.len() >= past1.len(),
                past1.len() == past0.len() + 1,
                past0.len() <= count,
                spec_item_offset_extents(
                    mb,
                    extents,
                    0,
                    to_ids@,
                    index_size,
                    item_id,
                    past1,
                    0,
                ) == spec_item_offset_extents(
                    mb,
                    extents,
                    k as int,
                    to_ids@,
                    index_size,
                    item_id,
                    past_references@,
                    total as int,
                ),
            decreases ne - k,
        {
            if past_references.len() > count {
                return Err(HeifError::CircularReference);
            }
            let e = loc.extent_list[k];
            let idx: u64 = if index_size != 0 {
                e.extent_index
            } else {
                1
            };
            if idx < 1 || idx > to_ids.len() as u64 {
                return Err(HeifError::InvalidFormat);
            }
            let sub_id = to_ids[(idx - 1) as usize];
            if sub_id == item_id {
                return Err(HeifError::CircularReference);
            }
            let len_before = past_references.len();
            let sub_len = get_item_length(metabox, sub_id, past_references)?;
            let add: u64 = if e.extent_length == 0 {
                sub_len
            } else {
                e.extent_length
            };
            if add > u64::MAX - total {
                return Err(HeifError::InvalidFormat);
            }
            if past_references.len() <= len_before {
                return Err(HeifError::CircularReference);
            }
            total = total + add;
            k = k + 1;
        }
        Ok(total)
    } else {
        let ghost extents = loc.extent_list@;
        let ne = loc.extent_list.len();
        let mut total: u64 = 0;
        let mut k: usize = 0;
        while k < ne
            invariant
                mb == *metabox,
                past0 == old(past_references)@,
                past_references@ == past0.push(item_id),
                loc.extent_list@ == extents,
                ne == extents.len(),
                k <= ne,
                ({
                    let ss = spec_sum_extent_lengths(extents, 0, 0);
                    spec_item_length(mb, item_id, past0) == (match ss {
                        Ok(t) => Ok::<(int, Seq<u32>), HeifError>((t, past0.push(item_id))),
                        Err(e2) => Err(e2),
                    })
                }),
                spec_sum_extent_lengths(extents, 0, 0) == spec_sum_extent_lengths(
                    extents,
                    k as int,
                    total as int,
                ),
            decreases ne - k,
        {
            let e = loc.extent_list[k];
            if e.extent_length > u64::MAX - total {
                return Err(HeifError::InvalidFormat);
            }
            total = total + e.extent_length;
            k = k + 1;
        }
        Ok(total)
    }
}


/// The bytes gathered from the extents from position `k` on, each copied
/// from `src` at its base-plus-offset range: a total beyond `max_size` is
/// malformed, and a range past the end of `src` reports `oob`.
pub open spec fn spec_read_extents(
    src: Seq<u8>,
    base: int,
    extents: Seq<crate::bbox::iloc::ItemLocationExtent>,
    k: int,
    max_size: int,
    oob: HeifError,
    acc: Seq<u8>,
) -> Result<Seq<u8>, HeifError>
    decreases extents.len() - k,
{
    if k < 0 || k >= extents.len() {
        Ok(acc)
    } else {
        let e = extents[k];
        if base + e.extent_offset > u64::MAX {
            Err(HeifError::InvalidFormat)
        } else {
            let off = base + e.extent_offset;
            if acc.len() + e.extent_length > max_size {
                Err(HeifError::MalformedBox)
            } else if off + e.extent_length > src.len() {
                Err(oob)
            } else {
                spec_read_extents(
                    src,
                    base,
                    extents,
                    k + 1,
                    max_size,
                    oob,
                    acc + src.subrange(off, off + e.extent_length),
                )
            }
        }
    }
}

/// The materialized payload of an item: its extents copied from the source
/// buffer for the file-offset method, from the meta-box `idat` payload for
/// the idat-offset method; composition from other items is not supported.
pub open spec fn spec_read_item(mb: MetaBox, src: Seq<u8>, item_id: u32, max_size: int) -> Result<
    Seq<u8>,
    HeifError,
> {
    if !mb.item_info_box.spec_has_item(item_id) {
        Err(HeifError::InvalidItemID)
    } else {
        match crate::bbox::iloc::spec_first_location(mb.item_location_box.locations@, item_id) {
            Option::None => Err(HeifError::InvalidItemID),
            Option::Some(loc) => {
                if loc.extent_list@.len() == 0 {
                    Err(HeifError::InvalidFormat)
                } else {
                    let version = mb.item_location_box.full_box_header.version;
                    if version == 0 || loc.method == ConstructionMethod::FileOffset {
                        spec_read_extents(
                            src,
                            loc.base_offset as int,
                            loc.extent_list@,
                            0,
                            max_size,
                            HeifError::EndOfStream,
                            Seq::empty(),
                        )
                    } else if loc.method == ConstructionMethod::IdatOffset {
                        spec_read_extents(
                            mb.item_data_box.data@,
                            loc.base_offset as int,
                            loc.extent_list@,
                            0,
                            max_size,
                            HeifError::MalformedBox,
                            Seq::empty(),
                        )
                    } else {
                        Err(HeifError::Unsupported)
                    }
                }
            },
        }
    }
}

/// When gathering the extents succeeds, every extent's absolute byte range
/// lies inside the source.
pub proof fn lemma_extent_ranges_in_bounds(
    src: Seq<u8>,
    base: int,
    extents: Seq<crate::bbox::iloc::ItemLocationExtent>,
    k: int,
    max_size: int,
    oob: HeifError,
    acc: Seq<u8>,
)
    requires
        0 <= k,
        spec_read_extents(src, base, extents, k, max_size, oob, acc) is Ok,
    ensures
        forall|j: int|
            k <= j < extents.len() ==> base + (#[trigger] extents[j]).extent_offset
                + extents[j].extent_length <= src.len(),
    decreases extents.len() - k,
{
    if k < extents.len() {
        let e = extents[k];
        lemma_extent_ranges_in_bounds(
            src,
            base,
            extents,
            k + 1,
            max_size,
            oob,
            acc + src.subrange(base + e.extent_offset, base + e.extent_offset + e.extent_length),
        );
    }
}

/// When materializing a file-offset item succeeds, every extent of its
/// location lies inside the source buffer.
pub proof fn lemma_file_extents_in_bounds(mb: MetaBox, src: Seq<u8>, item_id: u32, max_size: int)
    requires
        spec_read_item(mb, src, item_id, max_size) is Ok,
        ({
            let found = crate::bbox::iloc::spec_first_location(
                mb.item_location_box.locations@,
                item_id,
            );
            found matches Some(loc) && (mb.item_location_box.full_box_header.version == 0
                || loc.method == ConstructionMethod::FileOffset)
        }),
    ensures
        ({
            let loc = crate::bbox::iloc::spec_first_location(
                mb.item_location_box.locations@,
                item_id,
            )->Some_0;
            forall|j: int|
                0 <= j < loc.extent_list@.len() ==> loc.base_offset
                    + (#[trigger] loc.extent_list@[j]).extent_offset
                    + loc.extent_list@[j].extent_length <= src.len()
        }),
{
    let loc = crate::bbox::iloc::spec_first_location(mb.item_location_box.locations@, item_id)->Some_0;
    lemma_extent_ranges_in_bounds(
        src,
        loc.base_offset as int,
        loc.extent_list@,
        0,
        max_size,
        HeifError::EndOfStream,
        Seq::empty(),
    );
}

/// Copies the extents of one source into a fresh buffer.
fn read_extents_from(
    src: &BitStream,
    from_idat: bool,
    idat: &crate::bbox::idat::ItemDataBox,
    base: u64,
    extent_list: &Vec<crate::bbox::iloc::ItemLocationExtent>,
    max_size: u64,
) -> (r: Result<Vec<u8>, HeifError>)
    ensures
        ({
            let source = if from_idat {
                idat.data@
            } else {
                src.inner@
            };
            let oob = if from_idat {
                HeifError::MalformedBox
            } else {
                HeifError::EndOfStream
            };
            let res = spec_read_extents(
                source,
                base as int,
                extent_list@,
                0,
                max_size as int,
                oob,
                Seq::empty(),
            );
            match r {
                Ok(v) => res == Ok::<_, HeifError>(v@),
                Err(e) => res == Err::<Seq<u8>, _>(e),
            }
        }),
{
    let ghost source = if from_idat {
        idat.data@
    } else {
        src.inner@
    };
    let ghost oob = if from_idat {
        HeifError::MalformedBox
    } else {
        HeifError::EndOfStream
    };
    let ghost extents = extent_list@;
    let mut buf: Vec<u8> = Vec::new();
    proof {
        assert(buf@ =~= Seq::<u8>::empty());
    }
    let ne = extent_list.len();
    let mut k: usize = 0;
    while k < ne
        invariant
            source == if from_idat {
                idat.data@
            } else {
                src.inner@
            },
            oob == if from_idat {
                HeifError::MalformedBox
            } else {
                HeifError::EndOfStream
            },
            extents == extent_list@,
            ne == extents.len(),
            k <= ne,
            buf@.len() <= max_size,
            spec_read_extents(source, base as int, extents, 0, max_size as int, oob, Seq::empty())
                == spec_read_extents(
                source,
                base as int,
                extents,
                k as int,
                max_size as int,
                oob,
                buf@,
            ),
        decreases ne - k,
    {
        let e = extent_list[k];
        if e.extent_offset > u64::MAX - base {
            return Err(HeifError::InvalidFormat);
        }
        let off = base + e.extent_offset;
        if e.extent_length > max_size - (buf.len() as u64) {
            return Err(HeifError::MalformedBox);
        }
        let mut piece: Vec<u8>;
        if from_idat {
            if off > usize::MAX as u64 || e.extent_length > usize::MAX as u64 {
                proof {
                    assert(idat.data.len() == idat.data@.len());
                }
                return Err(HeifError::MalformedBox);
            }
            piece = match idat.read(off as usize, e.extent_length as usize) {
                Some(v) => v,
                None => {
                    return Err(HeifError::MalformedBox);
                },
            };
        } else {
            if off > usize::MAX as u64 || e.extent_length > usize::MAX as u64 {
                proof {
                    assert(src.inner.len() == src.inner@.len());
                }
                return Err(HeifError::EndOfStream);
            }
            piece = match src.slice(off as usize, e.extent_length as usize) {
                Ok(v) => v,
                Err(_) => {
                    return Err(HeifError::EndOfStream);
                },
            };
        }
        let ghost before = buf@;
        buf.append(&mut piece);
        proof {
            assert(buf@ =~= before + source.subrange(off as int, off + e.extent_length));
        }
        k = k + 1;
    }
    Ok(buf)
}

/// Materializes an item's payload from the source buffer or the meta-box
/// `idat` payload, per its construction method.
pub fn read_item(metabox: &MetaBox, stream: &BitStream, item_id: u32, max_size: u64) -> (r: Result<
    Vec<u8>,
    HeifError,
>)
    ensures
        ({
            let res = spec_read_item(*metabox, stream.inner@, item_id, max_size as int);
            match r {
                Ok(v) => res == Ok::<_, HeifError>(v@),
                Err(e) => res == Err::<Seq<u8>, _>(e),
            }
        }),
{
    if metabox.item_info_box.item_by_id(item_id).is_none() {
        return Err(HeifError::InvalidItemID);
    }
    let loc = match metabox.item_location_box.find_item(item_id) {
        Some(l) => l,
        None => {
            return Err(HeifError::InvalidItemID);
        },
    };
    if loc.extent_list.len() == 0 {
        return Err(HeifError::InvalidFormat);
    }
    let version = metabox.item_location_box.full_box_header.version;
    if version == 0 || loc.method == ConstructionMethod::FileOffset {
        read_extents_from(
            stream,
            false,
            &metabox.item_data_box,
            loc.base_offset,
            &loc.extent_list,
            max_size,
        )
    } else if loc.method == ConstructionMethod::IdatOffset {
        read_extents_from(
            stream,
            true,
            &metabox.item_data_box,
            loc.base_offset,
            &loc.extent_list,
            max_size,
        )
    } else {
        Err(HeifError::Unsupported)
    }
}


/// The parameter sets of one configuration record, keyed by NAL type in
/// the fixed order VPS, SPS, PPS.
pub open spec fn spec_config_map(arrays: Seq<crate::bbox::hevc::NalArrayView>) -> Seq<
    (u8, Seq<u8>),
> {
    seq![
        (NAL_VPS, spec_param_set(arrays, NAL_VPS)),
        (NAL_SPS, spec_param_set(arrays, NAL_SPS)),
        (NAL_PPS, spec_param_set(arrays, NAL_PPS)),
    ]
}

/// Each recorded parameter set of a configuration record is nonempty
/// exactly when the record holds a NAL unit of that type.
pub proof fn lemma_config_map_presence(arrays: Seq<crate::bbox::hevc::NalArrayView>)
    ensures
        spec_config_map(arrays)[0].1.len() > 0 <==> exists|j: int|
            0 <= j < arrays.len() && (#[trigger] arrays[j]).nal_unit_type == NAL_VPS
                && arrays[j].nal_list.len() > 0,
        spec_config_map(arrays)[1].1.len() > 0 <==> exists|j: int|
            0 <= j < arrays.len() && (#[trigger] arrays[j]).nal_unit_type == NAL_SPS
                && arrays[j].nal_list.len() > 0,
        spec_config_map(arrays)[2].1.len() > 0 <==> exists|j: int|
            0 <= j < arrays.len() && (#[trigger] arrays[j]).nal_unit_type == NAL_PPS
                && arrays[j].nal_list.len() > 0,
{
    crate::bbox::hevc::lemma_param_set_present(arrays, NAL_VPS);
    crate::bbox::hevc::lemma_param_set_present(arrays, NAL_SPS);
    crate::bbox::hevc::lemma_param_set_present(arrays, NAL_PPS);
}

/// The view of the parameter-set table: each property index with its
/// parameter sets.
pub open spec fn spec_ps_view(v: Vec<(u32, Vec<(u8, Vec<u8>)>)>) -> Seq<(u32, Seq<(u8, Seq<u8>)>)> {
    v@.map_values(
        |p: (u32, Vec<(u8, Vec<u8>)>)| (p.0, p.1@.map_values(|q: (u8, Vec<u8>)| (q.0, q.1@))),
    )
}

/// The code type recorded for an item, when any.
pub open spec fn spec_code_type_of(s: Seq<(u32, Byte4)>, id: u32) -> Option<Byte4>
    decreases s.len(),
{
    if s.len() == 0 {
        Option::None
    } else if s[0].0 == id {
        Option::Some(s[0].1)
    } else {
        spec_code_type_of(s.drop_first(), id)
    }
}

/// The parameter-set property index recorded for an image item, when any.
pub open spec fn spec_img_ps_of(s: Seq<(u32, u32)>, id: u32) -> Option<u32>
    decreases s.len(),
{
    if s.len() == 0 {
        Option::None
    } else if s[0].0 == id {
        Option::Some(s[0].1)
    } else {
        spec_img_ps_of(s.drop_first(), id)
    }
}

/// The parameter sets recorded under a property index, when any.
pub open spec fn spec_ps_of(s: Seq<(u32, Seq<(u8, Seq<u8>)>)>, idx: u32) -> Option<
    Seq<(u8, Seq<u8>)>,
>
    decreases s.len(),
{
    if s.len() == 0 {
        Option::None
    } else if s[0].0 == idx {
        Option::Some(s[0].1)
    } else {
        spec_ps_of(s.drop_first(), idx)
    }
}

/// The decoder-configuration binding derived from the catalogue, one entry
/// at a time: an item with an `hvcC` property gets the `hvc1` code type,
/// a parameter-set table entry for its property index (computed once per
/// index), and the image-to-parameter-set link; an item with only an
/// `avcC` property is recognized with the `avc1` code type and nothing
/// more.
pub open spec fn spec_decoder_binding(
    mb: MetaBox,
    k: int,
    codes: Seq<(u32, Byte4)>,
    psets: Seq<(u32, Seq<(u8, Seq<u8>)>)>,
    imgs: Seq<(u32, u32)>,
) -> (Seq<(u32, Byte4)>, Seq<(u32, Seq<(u8, Seq<u8>)>)>, Seq<(u32, u32)>)
    decreases mb.item_info_box.item_info_list@.len() - k,
{
    let entries = mb.item_info_box.item_info_list@;
    let props = mb.item_properties_box.container.properties@;
    if k < 0 || k >= entries.len() {
        (codes, psets, imgs)
    } else {
        let id = entries[k].item_id;
        let hv = crate::bbox::iprp::spec_find_property_index(
            mb.item_properties_box.association_boxes@,
            props,
            PropertyType::HVCC,
            id,
            0,
        );
        if hv >= 1 && hv - 1 < props.len() {
            match props[hv - 1] {
                crate::bbox::iprp::ItemProperty::Hvcc(hb) => {
                    let psets2 = if spec_ps_of(psets, hv as u32) is Some {
                        psets
                    } else {
                        psets.push((hv as u32, spec_config_map(hb.hevc_config.arrays())))
                    };
                    spec_decoder_binding(
                        mb,
                        k + 1,
                        codes.push((id, Byte4(0x68, 0x76, 0x63, 0x31))),
                        psets2,
                        imgs.push((id, hv as u32)),
                    )
                },
                _ => spec_decoder_binding(mb, k + 1, codes, psets, imgs),
            }
        } else {
            let av = crate::bbox::iprp::spec_find_property_index(
                mb.item_properties_box.association_boxes@,
                props,
                PropertyType::AVCC,
                id,
                0,
            );
            if av != 0 {
                spec_decoder_binding(
                    mb,
                    k + 1,
                    codes.push((id, Byte4(0x61, 0x76, 0x63, 0x31))),
                    psets,
                    imgs,
                )
            } else {
                spec_decoder_binding(mb, k + 1, codes, psets, imgs)
            }
        }
    }
}

/// The parameter sets recorded under a property index, when any.
fn ps_of<'a>(v: &'a Vec<(u32, Vec<(u8, Vec<u8>)>)>, idx: u32) -> (r: Option<&'a Vec<(u8, Vec<u8>)>>)
    ensures
        match r {
            Some(m) => spec_ps_of(spec_ps_view(*v), idx) == Option::Some(
                m@.map_values(|q: (u8, Vec<u8>)| (q.0, q.1@)),
            ),
            None => spec_ps_of(spec_ps_view(*v), idx) is None,
        },
{
    let n = v.len();
    let mut i: usize = 0;
    proof {
        assert(spec_ps_view(*v).skip(0int) =~= spec_ps_view(*v));
    }
    while i < n
        invariant
            n == v@.len(),
            i <= n,
            spec_ps_of(spec_ps_view(*v), idx) == spec_ps_of(spec_ps_view(*v).skip(i as int), idx),
        decreases n - i,
    {
        proof {
            assert(spec_ps_view(*v).skip(i as int).drop_first() =~= spec_ps_view(*v).skip(i + 1));
            assert(spec_ps_view(*v).skip(i as int)[0] == spec_ps_view(*v)[i as int]);
        }
        if v[i].0 == idx {
            return Some(&v[i].1);
        }
        i = i + 1;
    }
    proof {
        assert(spec_ps_view(*v).skip(n as int) =~= Seq::<(u32, Seq<(u8, Seq<u8>)>)>::empty());
    }
    None
}

/// The code type recorded for an item, when any.
fn code_type_of(v: &Vec<(u32, Byte4)>, id: u32) -> (r: Option<Byte4>)
    ensures
        r == spec_code_type_of(v@, id),
{
    let n = v.len();
    let mut i: usize = 0;
    proof {
        assert(v@.skip(0int) =~= v@);
    }
    while i < n
        invariant
            n == v@.len(),
            i <= n,
            spec_code_type_of(v@, id) == spec_code_type_of(v@.skip(i as int), id),
        decreases n - i,
    {
        proof {
            assert(v@.skip(i as int).drop_first() =~= v@.skip(i + 1));
            assert(v@.skip(i as int)[0] == v@[i as int]);
        }
        if v[i].0 == id {
            return Some(v[i].1);
        }
        i = i + 1;
    }
    proof {
        assert(v@.skip(n as int) =~= Seq::<(u32, Byte4)>::empty());
    }
    None
}

/// The parameter-set property index recorded for an image item, when any.
fn img_ps_of(v: &Vec<(u32, u32)>, id: u32) -> (r: Option<u32>)
    ensures
        r == spec_img_ps_of(v@, id),
{
    let n = v.len();
    let mut i: usize = 0;
    proof {
        assert(v@.skip(0int) =~= v@);
    }
    while i < n
        invariant
            n == v@.len(),
            i <= n,
            spec_img_ps_of(v@, id) == spec_img_ps_of(v@.skip(i as int), id),
        decreases n - i,
    {
        proof {
            assert(v@.skip(i as int).drop_first() =~= v@.skip(i + 1));
            assert(v@.skip(i as int)[0] == v@[i as int]);
        }
        if v[i].0 == id {
            return Some(v[i].1);
        }
        i = i + 1;
    }
    proof {
        assert(v@.skip(n as int) =~= Seq::<(u32, u32)>::empty());
    }
    None
}

/// Builds the decoder-configuration binding for the whole catalogue: the
/// code-type map, the parameter-set table, and the image-to-parameter-set
/// links.
#[verifier::rlimit(100)]
pub fn process_decoder_config_properties(metabox: &MetaBox) -> (r: (
    Vec<(u32, Byte4)>,
    Vec<(u32, Vec<(u8, Vec<u8>)>)>,
    Vec<(u32, u32)>,
))
    ensures
        ({
            let t = spec_decoder_binding(
                *metabox,
                0,
                Seq::empty(),
                Seq::empty(),
                Seq::empty(),
            );
            &&& r.0@ == t.0
            &&& spec_ps_view(r.1) == t.1
            &&& r.2@ == t.2
        }),
{
    let ghost mb = *metabox;
    let mut codes: Vec<(u32, Byte4)> = Vec::new();
    let mut psets: Vec<(u32, Vec<(u8, Vec<u8>)>)> = Vec::new();
    let mut imgs: Vec<(u32, u32)> = Vec::new();
    proof {
        assert(spec_ps_view(psets) =~= Seq::<(u32, Seq<(u8, Seq<u8>)>)>::empty());
    }
    let n = metabox.item_info_box.item_info_list.len();
    let mut k: usize = 0;
    while k < n
        invariant
            mb == *metabox,
            n == mb.item_info_box.item_info_list@.len(),
            k <= n,
            spec_decoder_binding(mb, 0, Seq::empty(), Seq::empty(), Seq::empty())
                == spec_decoder_binding(mb, k as int, codes@, spec_ps_view(psets), imgs@),
        decreases n - k,
    {
        let ghost codes0 = codes@;
        let ghost psets0 = spec_ps_view(psets);
        let ghost imgs0 = imgs@;
        let id = metabox.item_info_box.item_info_list[k].item_id;
        let hvcc_index = metabox.item_properties_box.find_property_index(PropertyType::HVCC, id);
        let mut use_avcc = false;
        if hvcc_index >= 1 {
            match metabox.item_properties_box.property_by_index((hvcc_index - 1) as usize) {
                Some(prop) => {
                    match prop {
                        crate::bbox::iprp::ItemProperty::Hvcc(hb) => {
                            if ps_of(&psets, hvcc_index).is_none() {
                                let ghost before = spec_ps_view(psets);
                                psets.push((hvcc_index, hb.hevc_config.configuration_map()));
                                proof {
                                    assert(spec_ps_view(psets) =~~= before.push(
                                        (
                                            hvcc_index,
                                            spec_config_map(hb.hevc_config.arrays()),
                                        ),
                                    ));
                                }
                            }
                            codes.push((id, crate::bit::Byte4(0x68, 0x76, 0x63, 0x31)));
                            imgs.push((id, hvcc_index));
                        },
                        _ => {},
                    }
                },
                None => {
                    use_avcc = true;
                },
            }
        } else {
            use_avcc = true;
        }
        if use_avcc {
            let avcc_index = metabox.item_properties_box.find_property_index(
                PropertyType::AVCC,
                id,
            );
            if avcc_index != 0 {
                codes.push((id, crate::bit::Byte4(0x61, 0x76, 0x63, 0x31)));
            }
        }
        proof {
            assert(spec_decoder_binding(mb, k as int, codes0, psets0, imgs0)
                == spec_decoder_binding(mb, k + 1, codes@, spec_ps_view(psets), imgs@));
        }
        k = k + 1;
    }
    (codes, psets, imgs)
}


/// The parameter-set kind a NAL-type code names.
pub open spec fn spec_info_type_of(c: u8) -> crate::data::DecoderSpecInfoType {
    if c == NAL_VPS {
        crate::data::DecoderSpecInfoType::HevcVPS
    } else if c == NAL_SPS {
        crate::data::DecoderSpecInfoType::HevcSPS
    } else if c == NAL_PPS {
        crate::data::DecoderSpecInfoType::HevcPPS
    } else if c == 7 {
        crate::data::DecoderSpecInfoType::AvcSPS
    } else if c == 8 {
        crate::data::DecoderSpecInfoType::AvcPPS
    } else {
        crate::data::DecoderSpecInfoType::AudioSpecificConfig
    }
}

/// The parameter-set kind a NAL-type code names.
fn info_type_of(c: u8) -> (r: crate::data::DecoderSpecInfoType)
    ensures
        r == spec_info_type_of(c),
{
    if c == NAL_VPS {
        crate::data::DecoderSpecInfoType::HevcVPS
    } else if c == NAL_SPS {
        crate::data::DecoderSpecInfoType::HevcSPS
    } else if c == NAL_PPS {
        crate::data::DecoderSpecInfoType::HevcPPS
    } else if c == 7 {
        crate::data::DecoderSpecInfoType::AvcSPS
    } else if c == 8 {
        crate::data::DecoderSpecInfoType::AvcPPS
    } else {
        crate::data::DecoderSpecInfoType::AudioSpecificConfig
    }
}

/// A fresh copy of a byte vector.
fn clone_bytes(v: &Vec<u8>) -> (r: Vec<u8>)
    ensures
        r@ == v@,
{
    let n = v.len();
    let mut r: Vec<u8> = Vec::new();
    let mut i: usize = 0;
    while i < n
        invariant
            n == v@.len(),
            i <= n,
            r@ == v@.subrange(0, i as int),
        decreases n - i,
    {
        r.push(v[i]);
        proof {
            assert(r@ =~= v@.subrange(0, i + 1));
        }
        i = i + 1;
    }
    proof {
        assert(v@.subrange(0, n as int) =~= v@);
    }
    r
}


/// What a resolved grid item holds.
pub struct GridView {
    pub output_width: u32,
    pub output_height: u32,
    pub columns: u32,
    pub rows: u32,
    pub image_ids: Seq<u32>,
}

/// How a grid value reflects a resolved view.
pub open spec fn spec_grid_matches(g: Grid, v: GridView) -> bool {
    &&& g.output_width == v.output_width
    &&& g.output_height == v.output_height
    &&& g.columns == v.columns
    &&& g.rows == v.rows
    &&& g.image_ids@ == v.image_ids
}

/// Parses the structured payload of a `grid` item.
pub open spec fn spec_parse_grid(b: Seq<u8>) -> Result<GridView, HeifError> {
    if b.len() < 4 {
        Err(HeifError::EndOfStream)
    } else if b[1] & 1 != 0 {
        if b.len() < 12 {
            Err(HeifError::EndOfStream)
        } else {
            Ok(
                GridView {
                    rows: (b[2] + 1) as u32,
                    columns: (b[3] + 1) as u32,
                    output_width: be32(b, 4) as u32,
                    output_height: be32(b, 8) as u32,
                    image_ids: Seq::empty(),
                },
            )
        }
    } else {
        if b.len() < 8 {
            Err(HeifError::EndOfStream)
        } else {
            Ok(
                GridView {
                    rows: (b[2] + 1) as u32,
                    columns: (b[3] + 1) as u32,
                    output_width: be16(b, 4) as u32,
                    output_height: be16(b, 6) as u32,
                    image_ids: Seq::empty(),
                },
            )
        }
    }
}

/// The ids referred to by all references of type value `t` that originate
/// at `from`, concatenated in order.
pub open spec fn spec_refs_to_ids(refs: Seq<SingleItemTypeReferenceBox>, t: int, from: u32) -> Seq<
    u32,
>
    decreases refs.len(),
{
    if refs.len() == 0 {
        Seq::empty()
    } else {
        (if refs[0].box_header.box_type.value() == t && refs[0].from_item_id == from {
            refs[0].to_item_ids@
        } else {
            Seq::empty()
        }) + spec_refs_to_ids(refs.drop_first(), t, from)
    }
}

/// The ids referred to by all references of the given type that originate
/// at the item, concatenated in order.
pub fn get_referenced_from_item_list_by_type(metabox: &MetaBox, from_item_id: u32, ref_type: u32) -> (r:
    Vec<u32>)
    ensures
        r@ == spec_refs_to_ids(
            metabox.item_reference_box.reference_list@,
            ref_type as int,
            from_item_id,
        ),
{
    let refs = &metabox.item_reference_box.reference_list;
    let n = refs.len();
    let mut r: Vec<u32> = Vec::new();
    let mut i: usize = 0;
    proof {
        assert(refs@.skip(0int) =~= refs@);
        assert(r@ =~= Seq::<u32>::empty());
    }
    while i < n
        invariant
            refs@ == metabox.item_reference_box.reference_list@,
            n == refs@.len(),
            i <= n,
            spec_refs_to_ids(refs@, ref_type as int, from_item_id) == r@ + spec_refs_to_ids(
                refs@.skip(i as int),
                ref_type as int,
                from_item_id,
            ),
        decreases n - i,
    {
        proof {
            assert(refs@.skip(i as int).drop_first() =~= refs@.skip(i + 1));
            assert(refs@.skip(i as int)[0] == refs@[i as int]);
        }
        let ghost before = r@;
        if refs[i].box_header.box_type.to_u32() == ref_type && refs[i].from_item_id
            == from_item_id {
            let ids = clone_u32s(&refs[i].to_item_ids);
            let mut ids_mut = ids;
            r.append(&mut ids_mut);
            proof {
                assert(r@ =~= before + refs@[i as int].to_item_ids@);
            }
        }
        i = i + 1;
    }
    proof {
        assert(refs@.skip(n as int) =~= Seq::<SingleItemTypeReferenceBox>::empty());
        assert(r@ =~= r@ + Seq::<u32>::empty());
    }
    r
}

/// A fresh copy of an id vector.
fn clone_u32s(v: &Vec<u32>) -> (r: Vec<u32>)
    ensures
        r@ == v@,
{
    let n = v.len();
    let mut r: Vec<u32> = Vec::new();
    let mut i: usize = 0;
    while i < n
        invariant
            n == v@.len(),
            i <= n,
            r@ == v@.subrange(0, i as int),
        decreases n - i,
    {
        r.push(v[i]);
        proof {
            assert(r@ =~= v@.subrange(0, i + 1));
        }
        i = i + 1;
    }
    proof {
        assert(v@.subrange(0, n as int) =~= v@);
    }
    r
}


/// The meta-box feature bits contributed by the items from position `k`
/// on: masters, thumbnails, auxiliaries, derived, pre-computed-derived and
/// hidden images each set their whole-box bit.
pub open spec fn spec_fold_item_bits(s: Seq<(u32, ItemFeature)>, k: int, acc: u32) -> u32
    decreases s.len() - k,
{
    if k < 0 || k >= s.len() {
        acc
    } else {
        let m = s[k].1.mask;
        let a1: u32 = if m & 0x1 != 0 {
            acc | 4
        } else {
            acc
        };
        let a2: u32 = if m & 0x2 != 0 {
            a1 | 8
        } else {
            a1
        };
        let a3: u32 = if m & 0x4 != 0 {
            a2 | 16
        } else {
            a2
        };
        let a4: u32 = if m & 0x10 != 0 {
            a3 | 32
        } else {
            a3
        };
        let a5: u32 = if m & 0x20 != 0 {
            a4 | 64
        } else {
            a4
        };
        let a6: u32 = if m & 0x40 != 0 {
            a5 | 128
        } else {
            a5
        };
        spec_fold_item_bits(s, k + 1, a6)
    }
}

/// The whole meta-box feature mask: group lists, single image or
/// collection by the number of image items, and the per-item bits.
pub open spec fn spec_metabox_feature_mask(
    s: Seq<(u32, ItemFeature)>,
    image_count: int,
    has_groupings: bool,
) -> u32 {
    let b0: u32 = if has_groupings {
        256
    } else {
        0
    };
    let b1: u32 = if image_count == 1 {
        b0 | 1
    } else if image_count > 1 {
        b0 | 2
    } else {
        b0
    };
    spec_fold_item_bits(s, 0, b1)
}

/// Derives the meta-box feature mask from the item features, the number of
/// image items and the presence of entity groupings.
pub fn extract_metabox_feature(
    item_features: &Vec<(u32, ItemFeature)>,
    image_count: usize,
    has_groupings: bool,
) -> (r: crate::internal::MetaBoxFeature)
    ensures
        r.mask == spec_metabox_feature_mask(item_features@, image_count as int, has_groupings),
{
    let mut mask: u32 = 0;
    if has_groupings {
        mask = mask | 256;
    }
    if image_count == 1 {
        mask = mask | 1;
    } else if image_count > 1 {
        mask = mask | 2;
    }
    proof {
        let b0: u32 = if has_groupings {
            256
        } else {
            0
        };
        assert(0u32 | 256u32 == 256u32) by (bit_vector);
        assert(0u32 | 1u32 == 1u32) by (bit_vector);
        assert(0u32 | 2u32 == 2u32) by (bit_vector);
        assert(256u32 | 1u32 == 257u32) by (bit_vector);
        assert(256u32 | 2u32 == 258u32) by (bit_vector);
        assert(mask == (if image_count == 1 {
            b0 | 1
        } else if image_count > 1 {
            b0 | 2
        } else {
            b0
        }));
    }
    let n = item_features.len();
    let mut k: usize = 0;
    while k < n
        invariant
            n == item_features@.len(),
            k <= n,
            spec_metabox_feature_mask(item_features@, image_count as int, has_groupings)
                == spec_fold_item_bits(item_features@, k as int, mask),
        decreases n - k,
    {
        let m = item_features[k].1.mask;
        if m & 0x1 != 0 {
            mask = mask | 4;
        }
        if m & 0x2 != 0 {
            mask = mask | 8;
        }
        if m & 0x4 != 0 {
            mask = mask | 16;
        }
        if m & 0x10 != 0 {
            mask = mask | 32;
        }
        if m & 0x20 != 0 {
            mask = mask | 64;
        }
        if m & 0x40 != 0 {
            mask = mask | 128;
        }
        k = k + 1;
    }
    crate::internal::MetaBoxFeature { mask }
}


/// The id of the latest feature entry flagged as the primary image, when
/// any is.
pub open spec fn spec_last_primary(s: Seq<(u32, ItemFeature)>) -> Option<u32>
    decreases s.len(),
{
    if s.len() == 0 {
        Option::None
    } else if s.last().1.mask & 0x8 != 0 {
        Option::Some(s.last().0)
    } else {
        spec_last_primary(s.drop_last())
    }
}

/// The boxes a top-level scan has collected so far.
struct ScanState {
    ftyp_found: bool,
    metabox_found: bool,
    movie_found: bool,
    ftyp: FileTypeBox,
    metabox: MetaBox,
}

impl ScanState {
    /// How the collected boxes reflect what the scan has seen.
    spec fn matches(&self, v: ScanView) -> bool {
        &&& self.ftyp_found == (v.ftyp is Some)
        &&& self.metabox_found == (v.meta is Some)
        &&& self.movie_found == v.moov
        &&& match v.ftyp {
            Option::Some(b) => self.ftyp.matches_body(b),
            Option::None => true,
        }
        &&& self.metabox.matches_scan(v.meta)
    }
}

/// Reads the one top-level box at the stream's position into the scan
/// state, enforcing the at-most-once rule for `ftyp`, `meta` and `moov`.
#[verifier::rlimit(100)]
fn read_top_level_box(st: &mut ScanState, stream: &mut BitStream, v: Ghost<ScanView>) -> (r:
    Result<Ghost<ScanView>, HeifError>)
    requires
        old(stream).wf(),
        old(stream).bit_offset == 0,
        old(stream).byte_offset < old(stream).inner@.len(),
        old(st).matches(v@),
    ensures
        final(stream).inner@ == old(stream).inner@,
        final(stream).wf(),
        final(stream).bit_offset == 0,
        ({
            let d = old(stream).inner@;
            let p = old(stream).byte_offset as int;
            match r {
                Ok(v2) => {
                    &&& spec_scan_step(d, p, v@) == Ok::<_, HeifError>(v2@)
                    &&& final(st).matches(v2@)
                    &&& final(stream).byte_offset == spec_scan_next(d, p)
                    &&& final(stream).byte_offset > p
                    &&& final(stream).byte_offset <= d.len()
                },
                Err(e) => spec_scan_step(d, p, v@) == Err::<ScanView, _>(e),
            }
        }),
{
    let ghost d = old(stream).inner@;
    let ghost p = old(stream).byte_offset as int;
    let mut header = match BoxHeader::from(stream) {
        Ok(h) => h,
        Err(e) => {
            proof {
                assert(!spec_header_ok(d, p));
            }
            return Err(e);
        },
    };
    if header.box_size() == 0 {
        let hs = header.header_size();
        let left = stream.num_bytes_left();
        header.set_box_size(hs as u64 + left as u64);
    }
    let mut ex = match stream.extract_from(&header) {
        Ok(x) => x,
        Err(_) => {
            proof {
                assert(spec_scan_next(d, p) > d.len());
            }
            return Err(HeifError::MalformedBox);
        },
    };
    let ghost body = ex.inner@;
    proof {
        assert(body == d.subrange(
            p + spec_header_size(d, p),
            spec_scan_next(d, p),
        ));
    }
    let t = header.box_type().to_u32();
    if t == fourcc::FTYP {
        if st.ftyp_found {
            return Err(HeifError::DuplicateTopLevelBox);
        }
        st.ftyp = FileTypeBox::new(&mut ex, header)?;
        st.ftyp_found = true;
        Ok(Ghost(ScanView { ftyp: Option::Some(body), ..v@ }))
    } else if t == fourcc::META {
        if st.metabox_found {
            return Err(HeifError::DuplicateTopLevelBox);
        }
        st.metabox = MetaBox::from_stream_header(&mut ex, header)?;
        st.metabox_found = true;
        Ok(Ghost(ScanView { meta: Option::Some(body), ..v@ }))
    } else if t == fourcc::MOOV {
        if st.movie_found {
            return Err(HeifError::DuplicateTopLevelBox);
        }
        st.movie_found = true;
        Ok(Ghost(ScanView { moov: true, ..v@ }))
    } else {
        Ok(Ghost(v@))
    }
}

/// The reader: owns the source buffer and the parsed and derived state.
/// `load` populates it all-or-nothing; every query demands a successful
/// load first.
#[derive(Debug)]
pub struct HeifReader {
    pub state: State,
    pub stream: BitStream,
    pub ftyp: FileTypeBox,
    pub metabox: MetaBox,
    pub primary_item_id: Option<u32>,
    pub item_features: Vec<(u32, ItemFeature)>,
    pub decoder_code_type_map: Vec<(u32, Byte4)>,
    pub parameter_set_map: Vec<(u32, Vec<(u8, Vec<u8>)>)>,
    pub image_to_parameter_set_map: Vec<(u32, u32)>,
    pub metabox_feature: crate::internal::MetaBoxFeature,
    pub matrix: Vec<i32>,
}

impl Default for HeifReader {
    fn default() -> (r: HeifReader)
        ensures
            r.state == State::Uninitialized,
    {
        HeifReader {
            state: State::Uninitialized,
            stream: BitStream::new(Vec::new()),
            ftyp: FileTypeBox::default(),
            metabox: MetaBox::default(),
            primary_item_id: Option::None,
            item_features: Vec::new(),
            decoder_code_type_map: Vec::new(),
            parameter_set_map: Vec::new(),
            image_to_parameter_set_map: Vec::new(),
            metabox_feature: crate::internal::MetaBoxFeature { mask: 0 },
            matrix: Vec::new(),
        }
    }
}

impl HeifReader {
    /// True when a load has succeeded and queries may run.
    pub open spec fn is_initialized_spec(&self) -> bool {
        self.state != State::Uninitialized
    }

    pub fn is_initialized(&self) -> (r: bool)
        ensures
            r == self.is_initialized_spec(),
    {
        !(self.state == State::Uninitialized)
    }

    /// Loads a buffer: scans the top-level boxes, parses `ftyp` and `meta`,
    /// and derives the per-item features and the primary item.  On success
    /// the state is exactly what the scan of the buffer yields; on any
    /// error — the scan's own error — the reader is left uninitialized.
    #[verifier::rlimit(100)]
    pub fn load(&mut self, data: Vec<u8>) -> (r: Result<(), HeifError>)
        ensures
            match r {
                Ok(_) => {
                    &&& final(self).state == State::Ready
                    &&& final(self).stream.inner@ == data@
                    &&& spec_scan(data@, 0, spec_scan_start()) matches Ok(v) && v.ftyp matches Some(
                        fb,
                    ) && final(self).ftyp.matches_body(fb) && final(self).metabox.matches_scan(
                        v.meta,
                    )
                    &&& final(self).item_features@.len()
                        == final(self).metabox.item_info_box.item_info_list@.len()
                    &&& forall|j: int|
                        0 <= j < final(self).item_features@.len() ==> {
                            &&& (#[trigger] final(self).item_features@[j]).0
                                == final(self).metabox.item_info_box.item_info_list@[j].item_id
                            &&& final(self).item_features@[j].1.mask == spec_item_feature_mask(
                                final(self).metabox.item_info_box.item_info_list@[j],
                                final(self).metabox.item_reference_box.reference_list@,
                                final(self).metabox.primary_item_box.item_id,
                            )
                        }
                    &&& final(self).primary_item_id == spec_last_primary(
                        final(self).item_features@,
                    )
                    &&& ({
                        let t = spec_decoder_binding(
                            final(self).metabox,
                            0,
                            Seq::empty(),
                            Seq::empty(),
                            Seq::empty(),
                        );
                        &&& final(self).decoder_code_type_map@ == t.0
                        &&& spec_ps_view(final(self).parameter_set_map) == t.1
                        &&& final(self).image_to_parameter_set_map@ == t.2
                    })
                    &&& final(self).metabox_feature.mask == spec_metabox_feature_mask(
                        final(self).item_features@,
                        final(self).metabox.item_info_box.item_info_list@.filter(
                            |e: crate::bbox::iinf::ItemInfoEntry| spec_is_image_type(e.item_type),
                        ).len() as int,
                        final(self).metabox.group_list_box.entity_to_group_box_vector@.len() > 0,
                    )
                    &&& final(self).matrix@ == Seq::<i32>::empty()
                },
                Err(e) => {
                    &&& final(self).state == State::Uninitialized
                    &&& spec_scan(data@, 0, spec_scan_start()) == Err::<ScanView, _>(e)
                },
            },
    {
        let ghost d = data@;
        self.state = State::Uninitialized;
        self.stream = BitStream::new(Vec::new());
        self.ftyp = FileTypeBox::default();
        self.metabox = MetaBox::default();
        self.primary_item_id = None;
        self.item_features = Vec::new();
        self.decoder_code_type_map = Vec::new();
        self.parameter_set_map = Vec::new();
        self.image_to_parameter_set_map = Vec::new();
        self.metabox_feature = crate::internal::MetaBoxFeature { mask: 0 };
        self.matrix = Vec::new();
        let mut stream = BitStream::new(data);
        let mut st = ScanState {
            ftyp_found: false,
            metabox_found: false,
            movie_found: false,
            ftyp: FileTypeBox::default(),
            metabox: MetaBox::default(),
        };
        let ghost mut v = spec_scan_start();
        while !stream.is_eof()
            invariant
                d == data@,
                stream.inner@ == d,
                stream.wf(),
                stream.bit_offset == 0,
                st.matches(v),
                spec_scan(d, 0, spec_scan_start()) == spec_scan(d, stream.byte_offset as int, v),
                self.state == State::Uninitialized,
                self.matrix@ == Seq::<i32>::empty(),
            decreases d.len() - stream.byte_offset,
        {
            let step = read_top_level_box(&mut st, &mut stream, Ghost(v));
            match step {
                Ok(v2) => {
                    proof {
                        v = v2@;
                    }
                },
                Err(e) => {
                    return Err(e);
                },
            }
        }
        if !st.ftyp_found || (!st.metabox_found && !st.movie_found) {
            return Err(HeifError::MissingMandatoryBox);
        }
        proof {
            assert(spec_scan(d, 0, spec_scan_start()) == Ok::<_, HeifError>(v));
        }
        let ScanState { ftyp_found: _, metabox_found: _, movie_found: _, ftyp, metabox } = st;
        let primary_id = metabox.primary_item_box.item_id();
        let item_features = extract_item_features_map(&metabox, primary_id);
        let mut primary_item_id: Option<u32> = None;
        let n = item_features.len();
        let mut i: usize = 0;
        proof {
            assert(item_features@.take(0int) =~= Seq::<(u32, ItemFeature)>::empty());
        }
        while i < n
            invariant
                n == item_features@.len(),
                i <= n,
                primary_item_id == spec_last_primary(item_features@.take(i as int)),
            decreases n - i,
        {
            proof {
                assert(item_features@.take(i + 1).drop_last() =~= item_features@.take(i as int));
                assert(item_features@.take(i + 1).last() == item_features@[i as int]);
            }
            if item_features[i].1.has_feature(crate::data::ItemFeatureEnum::IsPrimaryImage) {
                primary_item_id = Some(item_features[i].0);
            }
            i = i + 1;
        }
        proof {
            assert(item_features@.take(n as int) =~= item_features@);
        }
        let binding = process_decoder_config_properties(&metabox);
        let image_ids = image_item_ids(&metabox);
        let has_groupings = metabox.group_list_box.entity_to_group_box_vector.len() > 0;
        let metabox_feature = extract_metabox_feature(
            &item_features,
            image_ids.len(),
            has_groupings,
        );
        self.metabox_feature = metabox_feature;
        self.stream = stream;
        self.ftyp = ftyp;
        self.metabox = metabox;
        self.primary_item_id = primary_item_id;
        self.item_features = item_features;
        self.decoder_code_type_map = binding.0;
        self.parameter_set_map = binding.1;
        self.image_to_parameter_set_map = binding.2;
        self.state = State::Ready;
        Ok(())
    }

    /// The major brand of the file; a query before a load is refused.
    pub fn major_brand(&self) -> (r: Result<&Byte4, HeifError>)
        ensures
            match r {
                Ok(b) => self.is_initialized_spec() && b == self.ftyp.major_brand,
                Err(e) => e == HeifError::Uninitialized && !self.is_initialized_spec(),
            },
    {
        if !self.is_initialized() {
            return Err(HeifError::Uninitialized);
        }
        Ok(self.ftyp.major_brand())
    }

    /// The minor version of the file; a query before a load is refused.
    pub fn minor_version(&self) -> (r: Result<u32, HeifError>)
        ensures
            match r {
                Ok(x) => self.is_initialized_spec() && x == self.ftyp.minor_version,
                Err(e) => e == HeifError::Uninitialized && !self.is_initialized_spec(),
            },
    {
        if !self.is_initialized() {
            return Err(HeifError::Uninitialized);
        }
        Ok(self.ftyp.minor_version())
    }

    /// The compatible brands of the file; a query before a load is refused.
    pub fn compatible_brands(&self) -> (r: Result<&Vec<Byte4>, HeifError>)
        ensures
            match r {
                Ok(b) => self.is_initialized_spec() && b == self.ftyp.compatible_brands,
                Err(e) => e == HeifError::Uninitialized && !self.is_initialized_spec(),
            },
    {
        if !self.is_initialized() {
            return Err(HeifError::Uninitialized);
        }
        Ok(self.ftyp.compatible_brands())
    }

    /// The display matrix; no track model is kept, so it is empty.
    pub fn matrix(&self) -> (r: &Vec<i32>)
        ensures
            r == self.matrix,
    {
        &self.matrix
    }

    /// A track-scoped width query: without a track model it reports an
    /// uninitialized reader, or an unknown sequence on a loaded one.
    pub fn display_width(&self, sequence_id: u32) -> (r: Result<u32, HeifError>)
        ensures
            r matches Err(e) && (e == HeifError::Uninitialized || e
                == HeifError::InvalidSequenceID),
            !self.is_initialized_spec() ==> r == Err::<u32, _>(HeifError::Uninitialized),
            self.is_initialized_spec() ==> r == Err::<u32, _>(HeifError::InvalidSequenceID),
    {
        if !self.is_initialized() {
            return Err(HeifError::Uninitialized);
        }
        Err(HeifError::InvalidSequenceID)
    }

    /// A track-scoped height query: without a track model it reports an
    /// uninitialized reader, or an unknown sequence on a loaded one.
    pub fn display_height(&self, sequence_id: u32) -> (r: Result<u32, HeifError>)
        ensures
            r matches Err(e) && (e == HeifError::Uninitialized || e
                == HeifError::InvalidSequenceID),
            !self.is_initialized_spec() ==> r == Err::<u32, _>(HeifError::Uninitialized),
            self.is_initialized_spec() ==> r == Err::<u32, _>(HeifError::InvalidSequenceID),
    {
        if !self.is_initialized() {
            return Err(HeifError::Uninitialized);
        }
        Err(HeifError::InvalidSequenceID)
    }

    /// The ids of the image items whose type matches, in catalogue order.
    pub fn get_item_list_by_type(&self, item_type: Byte4) -> (r: Result<Vec<u32>, HeifError>)
        ensures
            match r {
                Ok(v) => self.is_initialized_spec() && v@
                    == self.metabox.item_info_box.item_info_list@.filter(
                    |e: crate::bbox::iinf::ItemInfoEntry| spec_is_image_type(e.item_type)
                        && e.item_type == item_type,
                ).map_values(|e: crate::bbox::iinf::ItemInfoEntry| e.item_id),
                Err(e) => e == HeifError::Uninitialized && !self.is_initialized_spec(),
            },
    {
        if !self.is_initialized() {
            return Err(HeifError::Uninitialized);
        }
        let entries = &self.metabox.item_info_box.item_info_list;
        let n = entries.len();
        let mut r: Vec<u32> = Vec::new();
        let ghost pred = |e: crate::bbox::iinf::ItemInfoEntry| spec_is_image_type(e.item_type)
            && e.item_type == item_type;
        let mut i: usize = 0;
        proof {
            assert(entries@.take(0int).filter(pred) =~= Seq::empty());
            assert(r@ =~= entries@.take(0int).filter(pred).map_values(
                |e: crate::bbox::iinf::ItemInfoEntry| e.item_id,
            ));
        }
        while i < n
            invariant
                entries@ == self.metabox.item_info_box.item_info_list@,
                pred == (|e: crate::bbox::iinf::ItemInfoEntry| spec_is_image_type(e.item_type)
                    && e.item_type == item_type),
                n == entries@.len(),
                i <= n,
                r@ == entries@.take(i as int).filter(pred).map_values(
                    |e: crate::bbox::iinf::ItemInfoEntry| e.item_id,
                ),
            decreases n - i,
        {
            proof {
                assert(entries@.take(i + 1).drop_last() =~= entries@.take(i as int));
            }
            if is_image_item_type(entries[i].item_type()) && entries[i].item_type == item_type {
                r.push(entries[i].item_id);
            }
            proof {
                reveal_with_fuel(Seq::<_>::filter, 2);
                assert(entries@.take(i + 1).last() == entries@[i as int]);
                if pred(entries@[i as int]) {
                    assert(entries@.take(i + 1).filter(pred) == entries@.take(i as int).filter(
                        pred,
                    ).push(entries@[i as int]));
                    assert(r@ =~= entries@.take(i + 1).filter(pred).map_values(
                        |e: crate::bbox::iinf::ItemInfoEntry| e.item_id,
                    ));
                } else {
                    assert(entries@.take(i + 1).filter(pred) == entries@.take(i as int).filter(
                        pred,
                    ));
                }
            }
            i = i + 1;
        }
        proof {
            assert(entries@.take(n as int) =~= entries@);
        }
        Ok(r)
    }

    /// The ids of the master images: coded `hvc1` or `avc1` items that are
    /// neither thumbnails nor auxiliary images.
    pub fn get_master_image_ids(&self) -> (r: Result<Vec<u32>, HeifError>)
        ensures
            match r {
                Ok(v) => self.is_initialized_spec() && v@
                    == self.metabox.item_info_box.item_info_list@.filter(
                    |e: crate::bbox::iinf::ItemInfoEntry| {
                        &&& (e.item_type.value() == fourcc::AVC1 || e.item_type.value()
                            == fourcc::HVC1)
                        &&& !spec_has_ref(
                            self.metabox.item_reference_box.reference_list@,
                            fourcc::AUXL as int,
                            e.item_id,
                        )
                        &&& !spec_has_ref(
                            self.metabox.item_reference_box.reference_list@,
                            fourcc::THMB as int,
                            e.item_id,
                        )
                    },
                ).map_values(|e: crate::bbox::iinf::ItemInfoEntry| e.item_id),
                Err(e) => e == HeifError::Uninitialized && !self.is_initialized_spec(),
            },
    {
        if !self.is_initialized() {
            return Err(HeifError::Uninitialized);
        }
        let entries = &self.metabox.item_info_box.item_info_list;
        let n = entries.len();
        let mut r: Vec<u32> = Vec::new();
        let ghost pred = |e: crate::bbox::iinf::ItemInfoEntry| {
            &&& (e.item_type.value() == fourcc::AVC1 || e.item_type.value() == fourcc::HVC1)
            &&& !spec_has_ref(
                self.metabox.item_reference_box.reference_list@,
                fourcc::AUXL as int,
                e.item_id,
            )
            &&& !spec_has_ref(
                self.metabox.item_reference_box.reference_list@,
                fourcc::THMB as int,
                e.item_id,
            )
        };
        let mut i: usize = 0;
        proof {
            assert(entries@.take(0int).filter(pred) =~= Seq::empty());
            assert(r@ =~= entries@.take(0int).filter(pred).map_values(
                |e: crate::bbox::iinf::ItemInfoEntry| e.item_id,
            ));
        }
        while i < n
            invariant
                entries@ == self.metabox.item_info_box.item_info_list@,
                pred == (|e: crate::bbox::iinf::ItemInfoEntry| {
                    &&& (e.item_type.value() == fourcc::AVC1 || e.item_type.value()
                        == fourcc::HVC1)
                    &&& !spec_has_ref(
                        self.metabox.item_reference_box.reference_list@,
                        fourcc::AUXL as int,
                        e.item_id,
                    )
                    &&& !spec_has_ref(
                        self.metabox.item_reference_box.reference_list@,
                        fourcc::THMB as int,
                        e.item_id,
                    )
                }),
                n == entries@.len(),
                i <= n,
                r@ == entries@.take(i as int).filter(pred).map_values(
                    |e: crate::bbox::iinf::ItemInfoEntry| e.item_id,
                ),
            decreases n - i,
        {
            proof {
                assert(entries@.take(i + 1).drop_last() =~= entries@.take(i as int));
            }
            let t = entries[i].item_type().to_u32();
            let id = entries[i].item_id;
            if (t == fourcc::AVC1 || t == fourcc::HVC1) && !do_references_from_item_id_exist(
                &self.metabox,
                id,
                fourcc::AUXL,
            ) && !do_references_from_item_id_exist(&self.metabox, id, fourcc::THMB) {
                r.push(id);
            }
            proof {
                reveal_with_fuel(Seq::<_>::filter, 2);
                assert(entries@.take(i + 1).last() == entries@[i as int]);
                if pred(entries@[i as int]) {
                    assert(entries@.take(i + 1).filter(pred) == entries@.take(i as int).filter(
                        pred,
                    ).push(entries@[i as int]));
                    assert(r@ =~= entries@.take(i + 1).filter(pred).map_values(
                        |e: crate::bbox::iinf::ItemInfoEntry| e.item_id,
                    ));
                } else {
                    assert(entries@.take(i + 1).filter(pred) == entries@.take(i as int).filter(
                        pred,
                    ));
                }
            }
            i = i + 1;
        }
        proof {
            assert(entries@.take(n as int) =~= entries@);
        }
        Ok(r)
    }

    /// The materialized payload of an item: its length resolved, its bytes
    /// gathered per its construction method, and, when byte-stream headers
    /// are asked for on an unprotected coded image, each NAL length prefix
    /// rewritten to a start code.
    pub open spec fn spec_get_item_data(&self, item_id: u32, headers: bool) -> Result<
        Seq<u8>,
        HeifError,
    > {
        if !self.is_initialized_spec() {
            Err(HeifError::Uninitialized)
        } else if !self.metabox.item_info_box.spec_has_item(item_id) {
            Err(HeifError::InvalidItemID)
        } else {
            match spec_item_length(self.metabox, item_id, Seq::empty()) {
                Err(e) => Err(e),
                Ok(pair) => {
                    if pair.0 > self.stream.inner@.len() {
                        Err(HeifError::MalformedBox)
                    } else {
                        match spec_read_item(self.metabox, self.stream.inner@, item_id, pair.0) {
                            Err(e) => Err(e),
                            Ok(buf) => {
                                let entry = crate::bbox::iinf::spec_first_entry(
                                    self.metabox.item_info_box.item_info_list@,
                                    item_id,
                                )->Some_0;
                                let protected = entry.item_protection_index > 0;
                                let coded = entry.item_type.value() == fourcc::HVC1
                                    || entry.item_type.value() == fourcc::AVC1;
                                if !protected && coded && headers {
                                    match spec_code_type_of(self.decoder_code_type_map@, item_id) {
                                        Option::None => Err(HeifError::InvalidItemID),
                                        Option::Some(ct) => {
                                            if ct.value() == fourcc::AVC1 {
                                                Err(HeifError::UnsupportedCodeType)
                                            } else if ct.value() == fourcc::HVC1 {
                                                spec_hevc_rewrite(buf, 0)
                                            } else {
                                                Err(HeifError::UnsupportedCodeType)
                                            }
                                        },
                                    }
                                } else {
                                    Ok(buf)
                                }
                            },
                        }
                    }
                },
            }
        }
    }

    /// Materializes an item's payload; with `byte_stream_headers` the
    /// payload of an unprotected HEVC image comes back start-code prefixed.
    pub fn get_item_data(&self, item_id: u32, byte_stream_headers: bool) -> (r: Result<
        Vec<u8>,
        HeifError,
    >)
        ensures
            ({
                let res = self.spec_get_item_data(item_id, byte_stream_headers);
                match r {
                    Ok(v) => res == Ok::<_, HeifError>(v@),
                    Err(e) => res == Err::<Seq<u8>, _>(e),
                }
            }),
    {
        if !self.is_initialized() {
            return Err(HeifError::Uninitialized);
        }
        let entry = match self.metabox.item_info_box.item_by_id(item_id) {
            Some(e) => e,
            None => {
                return Err(HeifError::InvalidItemID);
            },
        };
        let mut past_references: Vec<u32> = Vec::new();
        proof {
            assert(past_references@ =~= Seq::<u32>::empty());
        }
        let item_length = get_item_length(&self.metabox, item_id, &mut past_references)?;
        if item_length > self.stream.len() as u64 {
            return Err(HeifError::MalformedBox);
        }
        let mut buf = read_item(&self.metabox, &self.stream, item_id, item_length)?;
        let t = entry.item_type.to_u32();
        let is_protected = entry.item_protection_index > 0;
        let process_data = !is_protected && (t == fourcc::HVC1 || t == fourcc::AVC1);
        if process_data && byte_stream_headers {
            let code_type = match code_type_of(&self.decoder_code_type_map, item_id) {
                Some(c) => c,
                None => {
                    return Err(HeifError::InvalidItemID);
                },
            };
            let ct = code_type.to_u32();
            if ct == fourcc::AVC1 {
                return Err(HeifError::UnsupportedCodeType);
            } else if ct == fourcc::HVC1 {
                process_hevc_item_data(&mut buf)?;
            } else {
                return Err(HeifError::UnsupportedCodeType);
            }
        }
        Ok(buf)
    }

    /// The decoder configuration bound to an image item: its parameter-set
    /// property index and the recorded parameter sets.
    pub open spec fn spec_decoder_config_of(&self, item_id: u32) -> Result<
        (u32, Seq<(u8, Seq<u8>)>),
        HeifError,
    > {
        if !self.is_initialized_spec() {
            Err(HeifError::Uninitialized)
        } else {
            match crate::bbox::iinf::spec_first_entry(
                self.metabox.item_info_box.item_info_list@,
                item_id,
            ) {
                Option::None => Err(HeifError::InvalidItemID),
                Option::Some(entry) => {
                    if !spec_is_image_type(entry.item_type) {
                        Err(HeifError::InvalidItemID)
                    } else {
                        match spec_img_ps_of(self.image_to_parameter_set_map@, item_id) {
                            Option::None => Err(HeifError::InvalidItemID),
                            Option::Some(psid) => {
                                match spec_ps_of(spec_ps_view(self.parameter_set_map), psid) {
                                    Option::None => Err(HeifError::MalformedBox),
                                    Option::Some(m) => Ok((psid, m)),
                                }
                            },
                        }
                    }
                },
            }
        }
    }

    /// The decoder parameter sets bound to an image item, in recorded
    /// order, each labelled with its parameter-set kind.
    pub fn get_decoder_parameter_sets(&self, item_id: u32) -> (r: Result<
        crate::data::DecoderConfiguration,
        HeifError,
    >)
        ensures
            ({
                let res = self.spec_decoder_config_of(item_id);
                match r {
                    Ok(cfg) => res matches Ok(pair) && cfg.decoder_config_id == pair.0
                        && cfg.decoder_specific_info@.len() == pair.1.len() && forall|j: int|
                        0 <= j < pair.1.len() ==> {
                            &&& (#[trigger] cfg.decoder_specific_info@[j]).dec_spec_info_type
                                == spec_info_type_of(pair.1[j].0)
                            &&& cfg.decoder_specific_info@[j].dec_spec_info_data@ == pair.1[j].1
                        },
                    Err(e) => res == Err::<(u32, Seq<(u8, Seq<u8>)>), _>(e),
                }
            }),
    {
        if !self.is_initialized() {
            return Err(HeifError::Uninitialized);
        }
        let entry = match self.metabox.item_info_box.item_by_id(item_id) {
            Some(e) => e,
            None => {
                return Err(HeifError::InvalidItemID);
            },
        };
        if !is_image_item_type(entry.item_type()) {
            return Err(HeifError::InvalidItemID);
        }
        let parameter_set_id = match img_ps_of(&self.image_to_parameter_set_map, item_id) {
            Some(p) => p,
            None => {
                return Err(HeifError::InvalidItemID);
            },
        };
        let psets = match ps_of(&self.parameter_set_map, parameter_set_id) {
            Some(m) => m,
            None => {
                return Err(HeifError::MalformedBox);
            },
        };
        let ghost pview = spec_ps_of(spec_ps_view(self.parameter_set_map), parameter_set_id)->Some_0;
        let n = psets.len();
        let mut decoder_specific_info: Vec<crate::data::DecoderSpecificInfo> = Vec::new();
        let mut j: usize = 0;
        while j < n
            invariant
                n == psets@.len(),
                j <= n,
                pview == psets@.map_values(|q: (u8, Vec<u8>)| (q.0, q.1@)),
                decoder_specific_info@.len() == j,
                forall|i: int|
                    0 <= i < j ==> {
                        &&& (#[trigger] decoder_specific_info@[i]).dec_spec_info_type
                            == spec_info_type_of(pview[i].0)
                        &&& decoder_specific_info@[i].dec_spec_info_data@ == pview[i].1
                    },
            decreases n - j,
        {
            let code = psets[j].0;
            let data = clone_bytes(&psets[j].1);
            decoder_specific_info.push(
                crate::data::DecoderSpecificInfo {
                    dec_spec_info_type: info_type_of(code),
                    dec_spec_info_data: data,
                },
            );
            j = j + 1;
        }
        Ok(
            crate::data::DecoderConfiguration {
                decoder_config_id: parameter_set_id,
                decoder_specific_info,
            },
        )
    }

    /// The byte streams to hand a decoder: the recorded parameter sets in
    /// order, then the item's payload with start codes in place.
    pub open spec fn spec_item_data_with_parameters(&self, item_id: u32) -> Result<
        Seq<Seq<u8>>,
        HeifError,
    > {
        if !self.is_initialized_spec() {
            Err(HeifError::Uninitialized)
        } else {
            match crate::bbox::iinf::spec_first_entry(
                self.metabox.item_info_box.item_info_list@,
                item_id,
            ) {
                Option::None => Err(HeifError::InvalidItemID),
                Option::Some(entry) => {
                    if entry.item_protection_index > 0 {
                        Err(HeifError::ProtectedItem)
                    } else {
                        match spec_code_type_of(self.decoder_code_type_map@, item_id) {
                            Option::None => Err(HeifError::InvalidItemID),
                            Option::Some(ct) => {
                                if !(ct.value() == fourcc::HVC1 || ct.value() == fourcc::AVC1) {
                                    Err(HeifError::UnsupportedCodeType)
                                } else if ct.value() == fourcc::AVC1 {
                                    Err(HeifError::UnsupportedCodeType)
                                } else {
                                    match self.spec_decoder_config_of(item_id) {
                                        Err(e) => Err(e),
                                        Ok(pair) => {
                                            match self.spec_get_item_data(item_id, true) {
                                                Err(e) => Err(e),
                                                Ok(buf) => Ok(
                                                    pair.1.map_values(|q: (u8, Seq<u8>)| q.1).push(
                                                        buf,
                                                    ),
                                                ),
                                            }
                                        },
                                    }
                                }
                            },
                        }
                    }
                },
            }
        }
    }

    /// Materializes an item as decoder-ready byte streams: the parameter
    /// sets first, then the start-code-prefixed payload.  Protected items
    /// are refused, and only HEVC extraction is supported.
    pub fn get_item_data_with_decoder_parameters(&self, item_id: u32) -> (r: Result<
        Vec<Vec<u8>>,
        HeifError,
    >)
        ensures
            ({
                let res = self.spec_item_data_with_parameters(item_id);
                match r {
                    Ok(v) => res == Ok::<_, HeifError>(
                        v@.map_values(|b: Vec<u8>| b@),
                    ),
                    Err(e) => res == Err::<Seq<Seq<u8>>, _>(e),
                }
            }),
    {
        if !self.is_initialized() {
            return Err(HeifError::Uninitialized);
        }
        let entry = match self.metabox.item_info_box.item_by_id(item_id) {
            Some(e) => e,
            None => {
                return Err(HeifError::InvalidItemID);
            },
        };
        if entry.item_protection_index > 0 {
            return Err(HeifError::ProtectedItem);
        }
        let code_type = match code_type_of(&self.decoder_code_type_map, item_id) {
            Some(c) => c,
            None => {
                return Err(HeifError::InvalidItemID);
            },
        };
        let ct = code_type.to_u32();
        if !(ct == fourcc::HVC1 || ct == fourcc::AVC1) {
            return Err(HeifError::UnsupportedCodeType);
        }
        if ct == fourcc::AVC1 {
            return Err(HeifError::UnsupportedCodeType);
        }
        let decoder_infos = self.get_decoder_parameter_sets(item_id)?;
        let ghost pair = self.spec_decoder_config_of(item_id)->Ok_0;
        let mut data_buf: Vec<Vec<u8>> = Vec::new();
        let n = decoder_infos.decoder_specific_info.len();
        let mut j: usize = 0;
        while j < n
            invariant
                n == decoder_infos.decoder_specific_info@.len(),
                n == pair.1.len(),
                forall|i: int|
                    0 <= i < n ==> (#[trigger] decoder_infos.decoder_specific_info@[i]).dec_spec_info_data@
                        == pair.1[i].1,
                j <= n,
                data_buf@.len() == j,
                forall|i: int| 0 <= i < j ==> (#[trigger] data_buf@[i])@ == pair.1[i].1,
            decreases n - j,
        {
            let data = clone_bytes(&decoder_infos.decoder_specific_info[j].dec_spec_info_data);
            data_buf.push(data);
            j = j + 1;
        }
        let payload = self.get_item_data(item_id, true)?;
        data_buf.push(payload);
        proof {
            assert(data_buf@.map_values(|b: Vec<u8>| b@) =~~= pair.1.map_values(
                |q: (u8, Seq<u8>)| q.1,
            ).push(self.spec_get_item_data(item_id, true)->Ok_0));
        }
        Ok(data_buf)
    }

    /// The resolved grid of an unprotected `grid` item: its parsed layout
    /// and the ids of its `dimg`-referenced input images.
    pub open spec fn spec_grid_item_of(&self, item_id: u32) -> Result<GridView, HeifError> {
        if !self.is_initialized_spec() {
            Err(HeifError::Uninitialized)
        } else {
            match crate::bbox::iinf::spec_first_entry(
                self.metabox.item_info_box.item_info_list@,
                item_id,
            ) {
                Option::None => Err(HeifError::InvalidItemID),
                Option::Some(entry) => {
                    if entry.item_protection_index > 0 {
                        Err(HeifError::ProtectedItem)
                    } else if entry.item_type.value() == fourcc::IOVL {
                        Err(HeifError::Unsupported)
                    } else if entry.item_type.value() != fourcc::GRID {
                        Err(HeifError::InvalidItemID)
                    } else {
                        match spec_item_length(self.metabox, item_id, Seq::empty()) {
                            Err(e) => Err(e),
                            Ok(pair) => {
                                if pair.0 > self.stream.inner@.len() {
                                    Err(HeifError::MalformedBox)
                                } else {
                                    match spec_read_item(
                                        self.metabox,
                                        self.stream.inner@,
                                        item_id,
                                        pair.0,
                                    ) {
                                        Err(e) => Err(e),
                                        Ok(buf) => {
                                            match spec_parse_grid(buf) {
                                                Err(e) => Err(e),
                                                Ok(g) => Ok(
                                                    GridView {
                                                        image_ids: spec_refs_to_ids(
                                                            self.metabox.item_reference_box.reference_list@,
                                                            fourcc::DIMG as int,
                                                            item_id,
                                                        ),
                                                        ..g
                                                    },
                                                ),
                                            }
                                        },
                                    }
                                }
                            },
                        }
                    }
                },
            }
        }
    }

    /// Resolves the grid of an unprotected `grid` item: the payload is
    /// materialized and parsed, and the input image ids come from the
    /// item's `dimg` references.
    pub fn grid_item_by_id(&self, item_id: u32) -> (r: Result<Grid, HeifError>)
        ensures
            ({
                let res = self.spec_grid_item_of(item_id);
                match r {
                    Ok(g) => res matches Ok(v) && spec_grid_matches(g, v),
                    Err(e) => res == Err::<GridView, _>(e),
                }
            }),
    {
        if !self.is_initialized() {
            return Err(HeifError::Uninitialized);
        }
        let entry = match self.metabox.item_info_box.item_by_id(item_id) {
            Some(e) => e,
            None => {
                return Err(HeifError::InvalidItemID);
            },
        };
        if entry.item_protection_index > 0 {
            return Err(HeifError::ProtectedItem);
        }
        let t = entry.item_type.to_u32();
        if t == fourcc::IOVL {
            return Err(HeifError::Unsupported);
        }
        if t != fourcc::GRID {
            return Err(HeifError::InvalidItemID);
        }
        let mut past_references: Vec<u32> = Vec::new();
        proof {
            assert(past_references@ =~= Seq::<u32>::empty());
        }
        let item_length = get_item_length(&self.metabox, item_id, &mut past_references)?;
        if item_length > self.stream.len() as u64 {
            return Err(HeifError::MalformedBox);
        }
        let buf = read_item(&self.metabox, &self.stream, item_id, item_length)?;
        let mut ex = BitStream::new(buf);
        let image_grid = parse_image_grid(&mut ex)?;
        let image_ids = get_referenced_from_item_list_by_type(
            &self.metabox,
            item_id,
            fourcc::DIMG,
        );
        Ok(
            Grid {
                columns: image_grid.columns_minus_one as u32 + 1,
                rows: image_grid.rows_minus_one as u32 + 1,
                output_width: image_grid.output_width,
                output_height: image_grid.output_height,
                image_ids,
            },
        )
    }

    /// The displayed width recorded for an item by its `ispe` property, or
    /// zero when it has none or is not an image.
    pub open spec fn spec_width_of(&self, item_id: u32) -> Result<u32, HeifError> {
        if !self.is_initialized_spec() {
            Err(HeifError::Uninitialized)
        } else {
            match crate::bbox::iinf::spec_first_entry(
                self.metabox.item_info_box.item_info_list@,
                item_id,
            ) {
                Option::None => Err(HeifError::InvalidItemID),
                Option::Some(entry) => {
                    if !spec_is_image_type(entry.item_type) {
                        Ok(0)
                    } else {
                        let props = self.metabox.item_properties_box.container.properties@;
                        let idx = crate::bbox::iprp::spec_find_property_index(
                            self.metabox.item_properties_box.association_boxes@,
                            props,
                            PropertyType::ISPE,
                            item_id,
                            0,
                        );
                        if idx >= 1 && idx - 1 < props.len() {
                            match props[idx - 1] {
                                crate::bbox::iprp::ItemProperty::Ispe(p) => Ok(p.width),
                                _ => Ok(0),
                            }
                        } else {
                            Ok(0)
                        }
                    }
                },
            }
        }
    }

    /// The displayed height recorded for an item by its `ispe` property, or
    /// zero when it has none or is not an image.
    pub open spec fn spec_height_of(&self, item_id: u32) -> Result<u32, HeifError> {
        if !self.is_initialized_spec() {
            Err(HeifError::Uninitialized)
        } else {
            match crate::bbox::iinf::spec_first_entry(
                self.metabox.item_info_box.item_info_list@,
                item_id,
            ) {
                Option::None => Err(HeifError::InvalidItemID),
                Option::Some(entry) => {
                    if !spec_is_image_type(entry.item_type) {
                        Ok(0)
                    } else {
                        let props = self.metabox.item_properties_box.container.properties@;
                        let idx = crate::bbox::iprp::spec_find_property_index(
                            self.metabox.item_properties_box.association_boxes@,
                            props,
                            PropertyType::ISPE,
                            item_id,
                            0,
                        );
                        if idx >= 1 && idx - 1 < props.len() {
                            match props[idx - 1] {
                                crate::bbox::iprp::ItemProperty::Ispe(p) => Ok(p.height),
                                _ => Ok(0),
                            }
                        } else {
                            Ok(0)
                        }
                    }
                },
            }
        }
    }

    /// The width of an item per its `ispe` property.
    pub fn width(&self, item_id: u32) -> (r: Result<u32, HeifError>)
        ensures
            r == self.spec_width_of(item_id),
    {
        if !self.is_initialized() {
            return Err(HeifError::Uninitialized);
        }
        let entry = match self.metabox.item_info_box.item_by_id(item_id) {
            Some(e) => e,
            None => {
                return Err(HeifError::InvalidItemID);
            },
        };
        if !is_image_item_type(entry.item_type()) {
            return Ok(0);
        }
        let idx = self.metabox.item_properties_box.find_property_index(
            PropertyType::ISPE,
            item_id,
        );
        if idx >= 1 {
            match self.metabox.item_properties_box.property_by_index((idx - 1) as usize) {
                Some(prop) => {
                    match prop {
                        crate::bbox::iprp::ItemProperty::Ispe(p) => Ok(p.width),
                        _ => Ok(0),
                    }
                },
                None => Ok(0),
            }
        } else {
            Ok(0)
        }
    }

    /// The height of an item per its `ispe` property.
    pub fn height(&self, item_id: u32) -> (r: Result<u32, HeifError>)
        ensures
            r == self.spec_height_of(item_id),
    {
        if !self.is_initialized() {
            return Err(HeifError::Uninitialized);
        }
        let entry = match self.metabox.item_info_box.item_by_id(item_id) {
            Some(e) => e,
            None => {
                return Err(HeifError::InvalidItemID);
            },
        };
        if !is_image_item_type(entry.item_type()) {
            return Ok(0);
        }
        let idx = self.metabox.item_properties_box.find_property_index(
            PropertyType::ISPE,
            item_id,
        );
        if idx >= 1 {
            match self.metabox.item_properties_box.property_by_index((idx - 1) as usize) {
                Some(prop) => {
                    match prop {
                        crate::bbox::iprp::ItemProperty::Ispe(p) => Ok(p.height),
                        _ => Ok(0),
                    }
                },
                None => Ok(0),
            }
        } else {
            Ok(0)
        }
    }

    /// The size an item's catalogue summary reports: its resolved payload
    /// length, or zero when resolution fails.
    pub open spec fn spec_summary_size(&self, item_id: u32) -> int {
        match spec_item_length(self.metabox, item_id, Seq::empty()) {
            Ok(pair) => pair.0,
            Err(_) => 0,
        }
    }

    /// The catalogue summary: the meta-box feature mask, one record per
    /// item with its description, feature mask and resolved size, and the
    /// entity groupings.
    pub fn root_meta_box_information(&self) -> (r: Result<
        crate::data::MetaBoxInformation,
        HeifError,
    >)
        ensures
            ({
                let entries = self.metabox.item_info_box.item_info_list@;
                let groups = self.metabox.group_list_box.entity_to_group_box_vector@;
                match r {
                    Ok(info) => {
                        &&& self.is_initialized_spec()
                        &&& info.features == self.metabox_feature.mask
                        &&& info.item_informations@.len() == entries.len()
                        &&& forall|j: int|
                            0 <= j < entries.len() ==> {
                                let ii = #[trigger] info.item_informations@[j];
                                &&& ii.item_id == entries[j].item_id
                                &&& ii.item_type == entries[j].item_type
                                &&& ii.description.name@ == entries[j].item_name@
                                &&& ii.description.content_type@ == entries[j].content_type@
                                &&& ii.description.content_encoding@ == entries[j].content_encoding@
                                &&& ii.features == if j < self.item_features@.len() {
                                    self.item_features@[j].1.mask
                                } else {
                                    0u32
                                }
                                &&& ii.size as int == self.spec_summary_size(entries[j].item_id)
                            }
                        &&& info.entity_groupings@.len() == groups.len()
                        &&& forall|k: int|
                            0 <= k < groups.len() ==> {
                                let g = #[trigger] info.entity_groupings@[k];
                                &&& g.group_type == groups[k].full_box_header.box_type
                                &&& g.group_id == groups[k].group_id
                                &&& g.entity_ids@ == groups[k].entity_ids@
                            }
                    },
                    Err(e) => e == HeifError::Uninitialized && !self.is_initialized_spec(),
                }
            }),
    {
        if !self.is_initialized() {
            return Err(HeifError::Uninitialized);
        }
        let entries = &self.metabox.item_info_box.item_info_list;
        let n = entries.len();
        let mut item_informations: Vec<crate::data::ItemInformation> = Vec::new();
        let mut j: usize = 0;
        while j < n
            invariant
                entries@ == self.metabox.item_info_box.item_info_list@,
                n == entries@.len(),
                j <= n,
                item_informations@.len() == j,
                forall|i: int|
                    0 <= i < j ==> {
                        let ii = #[trigger] item_informations@[i];
                        &&& ii.item_id == entries@[i].item_id
                        &&& ii.item_type == entries@[i].item_type
                        &&& ii.description.name@ == entries@[i].item_name@
                        &&& ii.description.content_type@ == entries@[i].content_type@
                        &&& ii.description.content_encoding@ == entries@[i].content_encoding@
                        &&& ii.features == if i < self.item_features@.len() {
                            self.item_features@[i].1.mask
                        } else {
                            0u32
                        }
                        &&& ii.size as int == self.spec_summary_size(entries@[i].item_id)
                    },
            decreases n - j,
        {
            let e = &entries[j];
            let mut past_references: Vec<u32> = Vec::new();
            proof {
                assert(past_references@ =~= Seq::<u32>::empty());
            }
            let size: u64 = match get_item_length(&self.metabox, e.item_id, &mut past_references) {
                Ok(v) => v,
                Err(_) => 0,
            };
            let features: u32 = if j < self.item_features.len() {
                self.item_features[j].1.mask
            } else {
                0
            };
            item_informations.push(
                crate::data::ItemInformation {
                    item_id: e.item_id,
                    item_type: e.item_type,
                    description: crate::data::ItemDescription {
                        name: e.item_name.clone(),
                        content_type: e.content_type.clone(),
                        content_encoding: e.content_encoding.clone(),
                    },
                    features,
                    size,
                },
            );
            j = j + 1;
        }
        let groups = &self.metabox.group_list_box.entity_to_group_box_vector;
        let m = groups.len();
        let mut entity_groupings: Vec<crate::data::EntityGrouping> = Vec::new();
        let mut k: usize = 0;
        while k < m
            invariant
                groups@ == self.metabox.group_list_box.entity_to_group_box_vector@,
                m == groups@.len(),
                k <= m,
                entity_groupings@.len() == k,
                forall|i: int|
                    0 <= i < k ==> {
                        let g = #[trigger] entity_groupings@[i];
                        &&& g.group_type == groups@[i].full_box_header.box_type
                        &&& g.group_id == groups@[i].group_id
                        &&& g.entity_ids@ == groups@[i].entity_ids@
                    },
            decreases m - k,
        {
            let gb = &groups[k];
            entity_groupings.push(
                crate::data::EntityGrouping {
                    group_type: gb.full_box_header.box_type,
                    group_id: gb.group_id,
                    entity_ids: clone_u32s(&gb.entity_ids),
                },
            );
            k = k + 1;
        }
        Ok(
            crate::data::MetaBoxInformation {
                features: self.metabox_feature.feature_mask(),
                item_informations,
                entity_groupings,
            },
        )
    }

    /// A track-scoped width query: without a track model it reports an
    /// uninitialized reader, or an unknown sequence on a loaded one.
    pub fn width_at(&self, sequence_id: u32, item_id: u32) -> (r: Result<u32, HeifError>)
        ensures
            !self.is_initialized_spec() ==> r == Err::<u32, _>(HeifError::Uninitialized),
            self.is_initialized_spec() ==> r == Err::<u32, _>(HeifError::InvalidSequenceID),
    {
        if !self.is_initialized() {
            return Err(HeifError::Uninitialized);
        }
        Err(HeifError::InvalidSequenceID)
    }

    /// A track-scoped height query: without a track model it reports an
    /// uninitialized reader, or an unknown sequence on a loaded one.
    pub fn height_at(&self, sequence_id: u32, item_id: u32) -> (r: Result<u32, HeifError>)
        ensures
            !self.is_initialized_spec() ==> r == Err::<u32, _>(HeifError::Uninitialized),
            self.is_initialized_spec() ==> r == Err::<u32, _>(HeifError::InvalidSequenceID),
    {
        if !self.is_initialized() {
            return Err(HeifError::Uninitialized);
        }
        Err(HeifError::InvalidSequenceID)
    }
}

} // verus!