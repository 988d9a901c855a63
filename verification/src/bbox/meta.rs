//! The `meta` box: the aggregation of the item catalogue, item locations,
//! references, properties, groupings, protection and item data.  Each
//! recognized child may appear once; a repeated child overwrites the
//! earlier one and unknown children are skipped.

use crate::bbox::dinf::{spec_parse_dinf, DataInformationBox};
use crate::bbox::grpl::{spec_parse_grpl_children, GroupListBox};
use crate::bbox::hdlr::HandlerBox;
use crate::bbox::header::{
    spec_box_type, spec_child_body, spec_child_end, spec_child_err, spec_child_ok, spec_full_from,
    BoxHeader, FullBoxHeader,
};
use crate::bbox::idat::ItemDataBox;
use crate::bbox::iinf::{spec_parse_iinf, ItemInfoBox};
use crate::bbox::iloc::{spec_parse_iloc, ItemLocationBox};
use crate::bbox::ipro::{spec_parse_ipro, ItemProtectionBox};
use crate::bbox::iprp::{spec_parse_iprp, ItemPropertiesBox};
use crate::bbox::iref::{spec_parse_iref, ItemReferenceBox};
use crate::bbox::pitm::PrimaryItemBox;
use crate::bit::{ascii_str_of, be16, be24, be32, cstr_bytes, BitStream, Byte4};
use crate::fourcc;
use crate::HeifError;
use vstd::prelude::*;

verus! {

/// The body bytes of each recognized child of a `meta` box, when present.
pub struct MetaView {
    pub hdlr: Option<Seq<u8>>,
    pub pitm: Option<Seq<u8>>,
    pub iloc: Option<Seq<u8>>,
    pub iinf: Option<Seq<u8>>,
    pub iref: Option<Seq<u8>>,
    pub iprp: Option<Seq<u8>>,
    pub grpl: Option<Seq<u8>>,
    pub dinf: Option<Seq<u8>>,
    pub idat: Option<Seq<u8>>,
    pub ipro: Option<Seq<u8>>,
}

/// A meta box with no children yet.
pub open spec fn spec_meta_empty() -> MetaView {
    MetaView {
        hdlr: Option::None,
        pitm: Option::None,
        iloc: Option::None,
        iinf: Option::None,
        iref: Option::None,
        iprp: Option::None,
        grpl: Option::None,
        dinf: Option::None,
        idat: Option::None,
        ipro: Option::None,
    }
}

/// True when a `pitm` body is long enough for its version.
pub open spec fn spec_pitm_body_ok(body: Seq<u8>) -> bool {
    &&& body.len() >= 4
    &&& (body[0] == 0 ==> body.len() >= 6)
    &&& (body[0] != 0 ==> body.len() >= 8)
}

/// Applies the body of one child of type value `t` to the view.
pub open spec fn spec_meta_apply(t: int, body: Seq<u8>, m: MetaView) -> Result<
    MetaView,
    HeifError,
> {
    if t == fourcc::HDLR {
        if body.len() < 24 {
            Err(HeifError::EndOfStream)
        } else {
            Ok(MetaView { hdlr: Option::Some(body), ..m })
        }
    } else if t == fourcc::PITM {
        if !spec_pitm_body_ok(body) {
            Err(HeifError::EndOfStream)
        } else {
            Ok(MetaView { pitm: Option::Some(body), ..m })
        }
    } else if t == fourcc::ILOC {
        match spec_parse_iloc(body, 0) {
            Ok(_) => Ok(MetaView { iloc: Option::Some(body), ..m }),
            Err(e) => Err(e),
        }
    } else if t == fourcc::IINF {
        match spec_parse_iinf(body, 0) {
            Ok(_) => Ok(MetaView { iinf: Option::Some(body), ..m }),
            Err(e) => Err(e),
        }
    } else if t == fourcc::IREF {
        match spec_parse_iref(body, 0) {
            Ok(_) => Ok(MetaView { iref: Option::Some(body), ..m }),
            Err(e) => Err(e),
        }
    } else if t == fourcc::IPRP {
        match spec_parse_iprp(body, 0) {
            Ok(_) => Ok(MetaView { iprp: Option::Some(body), ..m }),
            Err(e) => Err(e),
        }
    } else if t == fourcc::GRPL {
        match spec_parse_grpl_children(body, 0, Seq::empty()) {
            Ok(_) => Ok(MetaView { grpl: Option::Some(body), ..m }),
            Err(e) => Err(e),
        }
    } else if t == fourcc::DINF {
        match spec_parse_dinf(body, 0) {
            Ok(_) => Ok(MetaView { dinf: Option::Some(body), ..m }),
            Err(e) => Err(e),
        }
    } else if t == fourcc::IDAT {
        Ok(MetaView { idat: Option::Some(body), ..m })
    } else if t == fourcc::IPRO {
        match spec_parse_ipro(body, 0) {
            Ok(_) => Ok(MetaView { ipro: Option::Some(body), ..m }),
            Err(e) => Err(e),
        }
    } else {
        Ok(m)
    }
}

/// Parses the one `meta` child at byte `p` of `d`, updating the view with
/// its body.
pub open spec fn spec_meta_step(d: Seq<u8>, p: int, m: MetaView) -> Result<MetaView, HeifError> {
    if !spec_child_ok(d, p) {
        Err(spec_child_err(d, p))
    } else {
        spec_meta_apply(spec_box_type(d, p).value(), spec_child_body(d, p), m)
    }
}

/// Parses `meta` children at byte `p` of `d` to the end, keeping the body
/// of the latest occurrence of each recognized child.
pub open spec fn spec_parse_meta_children(d: Seq<u8>, p: int, m: MetaView) -> Result<
    MetaView,
    HeifError,
>
    decreases d.len() - p,
{
    if p >= d.len() {
        Ok(m)
    } else {
        match spec_meta_step(d, p, m) {
            Ok(m2) => spec_parse_meta_children(d, spec_child_end(d, p), m2),
            Err(e) => Err(e),
        }
    }
}

/// Parses a `meta` body at byte `p` of `d`: version and flags, then the
/// children to the end.
pub open spec fn spec_parse_meta(d: Seq<u8>, p: int) -> Result<MetaView, HeifError> {
    if d.len() - p < 4 {
        Err(HeifError::EndOfStream)
    } else {
        spec_parse_meta_children(d, p + 4, spec_meta_empty())
    }
}

/// The meta box.
#[derive(Debug)]
pub struct MetaBox {
    pub full_box_header: FullBoxHeader,
    pub handler_box: HandlerBox,
    pub primary_item_box: PrimaryItemBox,
    pub item_location_box: ItemLocationBox,
    pub item_info_box: ItemInfoBox,
    pub item_reference_box: ItemReferenceBox,
    pub item_properties_box: ItemPropertiesBox,
    pub group_list_box: GroupListBox,
    pub data_information_box: DataInformationBox,
    pub item_data_box: ItemDataBox,
    pub item_protection_box: ItemProtectionBox,
}

impl Default for MetaBox {
    fn default() -> (r: MetaBox)
        ensures
            r.matches(spec_meta_empty()),
    {
        let r = MetaBox {
            full_box_header: FullBoxHeader::new(Byte4(0x6D, 0x65, 0x74, 0x61), 0, 0),
            handler_box: HandlerBox::default(),
            primary_item_box: PrimaryItemBox::default(),
            item_location_box: ItemLocationBox::default(),
            item_info_box: ItemInfoBox::default(),
            item_reference_box: ItemReferenceBox::default(),
            item_properties_box: ItemPropertiesBox::default(),
            group_list_box: GroupListBox::default(),
            data_information_box: DataInformationBox::default(),
            item_data_box: ItemDataBox::default(),
            item_protection_box: ItemProtectionBox::default(),
        };
        proof {
            reveal(hdlr_matches);
            reveal(pitm_matches);
            reveal(iloc_matches);
            reveal(iinf_matches);
            reveal(iref_matches);
            reveal(iprp_matches);
            reveal(grpl_matches);
            reveal(dinf_matches);
            reveal(idat_matches);
            reveal(ipro_matches);
            assert(r.item_location_box.locs() =~= Seq::<crate::bbox::iloc::LocationView>::empty());
            assert(r.item_reference_box.refs() =~= Seq::<
                crate::bbox::iref::SingleReferenceView,
            >::empty());
            assert(r.group_list_box.groups() =~= Seq::<
                crate::bbox::grpl::EntityGroupView,
            >::empty());
            assert(r.item_protection_box.infos() =~= Seq::<Seq<u8>>::empty());
        }
        r
    }
}

/// Applies one extracted child of the catalogue kinds to the meta box.
#[verifier::rlimit(100)]
fn apply_meta_child_a(
    s: &mut MetaBox,
    ex: &mut BitStream,
    h: BoxHeader,
    m: Ghost<MetaView>,
) -> (r: Result<Ghost<MetaView>, HeifError>)
    requires
        old(ex).wf(),
        old(ex).bit_offset == 0,
        old(ex).byte_offset == 0,
        old(s).matches(m@),
        h.box_type.value() == fourcc::HDLR || h.box_type.value() == fourcc::PITM
            || h.box_type.value() == fourcc::ILOC || h.box_type.value() == fourcc::IINF
            || h.box_type.value() == fourcc::IREF,
    ensures
        final(s).full_box_header == old(s).full_box_header,
        match r {
            Ok(m2) => spec_meta_apply(h.box_type.value(), old(ex).inner@, m@) == Ok::<
                _,
                HeifError,
            >(m2@) && final(s).matches(m2@),
            Err(e) => spec_meta_apply(h.box_type.value(), old(ex).inner@, m@) == Err::<
                MetaView,
                _,
            >(e),
        },
{
    let ghost body = old(ex).inner@;
    let t = h.box_type().to_u32();
    if t == fourcc::HDLR {
        s.handler_box = HandlerBox::from_stream_header(ex, h)?;
        proof {
            reveal(hdlr_matches);
        }
        Ok(Ghost(MetaView { hdlr: Option::Some(body), ..m@ }))
    } else if t == fourcc::PITM {
        s.primary_item_box = PrimaryItemBox::from_stream_header(ex, h)?;
        proof {
            reveal(pitm_matches);
        }
        Ok(Ghost(MetaView { pitm: Option::Some(body), ..m@ }))
    } else if t == fourcc::ILOC {
        s.item_location_box = ItemLocationBox::from_stream_header(ex, h)?;
        proof {
            reveal(iloc_matches);
        }
        Ok(Ghost(MetaView { iloc: Option::Some(body), ..m@ }))
    } else if t == fourcc::IINF {
        s.item_info_box = ItemInfoBox::from_stream_header(ex, h)?;
        proof {
            reveal(iinf_matches);
        }
        Ok(Ghost(MetaView { iinf: Option::Some(body), ..m@ }))
    } else {
        s.item_reference_box = ItemReferenceBox::from_stream_header(ex, h)?;
        proof {
            reveal(iref_matches);
        }
        Ok(Ghost(MetaView { iref: Option::Some(body), ..m@ }))
    }
}

/// Applies one extracted child of the property or grouping kinds to the
/// meta box.
#[verifier::rlimit(100)]
fn apply_meta_child_b(
    s: &mut MetaBox,
    ex: &mut BitStream,
    h: BoxHeader,
    m: Ghost<MetaView>,
) -> (r: Result<Ghost<MetaView>, HeifError>)
    requires
        old(ex).wf(),
        old(ex).bit_offset == 0,
        old(ex).byte_offset == 0,
        old(s).matches(m@),
        h.box_type.value() == fourcc::IPRP || h.box_type.value() == fourcc::GRPL,
    ensures
        final(s).full_box_header == old(s).full_box_header,
        match r {
            Ok(m2) => spec_meta_apply(h.box_type.value(), old(ex).inner@, m@) == Ok::<
                _,
                HeifError,
            >(m2@) && final(s).matches(m2@),
            Err(e) => spec_meta_apply(h.box_type.value(), old(ex).inner@, m@) == Err::<
                MetaView,
                _,
            >(e),
        },
{
    let ghost body = old(ex).inner@;
    let t = h.box_type().to_u32();
    if t == fourcc::IPRP {
        s.item_properties_box = ItemPropertiesBox::from_stream_header(ex, h)?;
        proof {
            reveal(iprp_matches);
        }
        Ok(Ghost(MetaView { iprp: Option::Some(body), ..m@ }))
    } else {
        s.group_list_box = GroupListBox::from_stream_header(ex, h)?;
        proof {
            reveal(grpl_matches);
        }
        Ok(Ghost(MetaView { grpl: Option::Some(body), ..m@ }))
    }
}

/// An unrecognized child leaves the view as it stands.
proof fn lemma_meta_apply_skip(t: int, body: Seq<u8>, m: MetaView)
    requires
        t != fourcc::HDLR,
        t != fourcc::PITM,
        t != fourcc::ILOC,
        t != fourcc::IINF,
        t != fourcc::IREF,
        t != fourcc::IPRP,
        t != fourcc::GRPL,
        t != fourcc::DINF,
        t != fourcc::IDAT,
        t != fourcc::IPRO,
    ensures
        spec_meta_apply(t, body, m) == Ok::<MetaView, HeifError>(m),
{
}

/// Applies one extracted `dinf` child to the meta box.
#[verifier::rlimit(100)]
#[verifier::spinoff_prover]
fn apply_meta_child_c(
    s: &mut MetaBox,
    ex: &mut BitStream,
    h: BoxHeader,
    m: Ghost<MetaView>,
) -> (r: Result<Ghost<MetaView>, HeifError>)
    requires
        old(ex).wf(),
        old(ex).bit_offset == 0,
        old(ex).byte_offset == 0,
        old(s).matches(m@),
        h.box_type.value() == fourcc::DINF,
    ensures
        final(s).full_box_header == old(s).full_box_header,
        match r {
            Ok(m2) => spec_meta_apply(h.box_type.value(), old(ex).inner@, m@) == Ok::<
                _,
                HeifError,
            >(m2@) && final(s).matches(m2@),
            Err(e) => spec_meta_apply(h.box_type.value(), old(ex).inner@, m@) == Err::<
                MetaView,
                _,
            >(e),
        },
{
    let ghost body = old(ex).inner@;
    s.data_information_box = DataInformationBox::from_stream_header(ex, h)?;
    proof {
        reveal(dinf_matches);
    }
    Ok(Ghost(MetaView { dinf: Option::Some(body), ..m@ }))
}

/// Applies one extracted `idat` or `ipro` child to the meta box.
#[verifier::rlimit(100)]
#[verifier::spinoff_prover]
fn apply_meta_child_d(
    s: &mut MetaBox,
    ex: &mut BitStream,
    h: BoxHeader,
    m: Ghost<MetaView>,
) -> (r: Result<Ghost<MetaView>, HeifError>)
    requires
        old(ex).wf(),
        old(ex).bit_offset == 0,
        old(ex).byte_offset == 0,
        old(s).matches(m@),
        h.box_type.value() == fourcc::IDAT,
    ensures
        final(s).full_box_header == old(s).full_box_header,
        match r {
            Ok(m2) => spec_meta_apply(h.box_type.value(), old(ex).inner@, m@) == Ok::<
                _,
                HeifError,
            >(m2@) && final(s).matches(m2@),
            Err(e) => spec_meta_apply(h.box_type.value(), old(ex).inner@, m@) == Err::<
                MetaView,
                _,
            >(e),
        },
{
    let ghost body = old(ex).inner@;
    s.item_data_box = ItemDataBox::from_stream_header(ex, h)?;
    proof {
        reveal(idat_matches);
        assert(s.item_data_box.data@ =~= body);
    }
    Ok(Ghost(MetaView { idat: Option::Some(body), ..m@ }))
}

/// Applies one extracted `ipro` child to the meta box.
#[verifier::rlimit(100)]
#[verifier::spinoff_prover]
fn apply_meta_child_e(
    s: &mut MetaBox,
    ex: &mut BitStream,
    h: BoxHeader,
    m: Ghost<MetaView>,
) -> (r: Result<Ghost<MetaView>, HeifError>)
    requires
        old(ex).wf(),
        old(ex).bit_offset == 0,
        old(ex).byte_offset == 0,
        old(s).matches(m@),
        h.box_type.value() == fourcc::IPRO,
    ensures
        final(s).full_box_header == old(s).full_box_header,
        match r {
            Ok(m2) => spec_meta_apply(h.box_type.value(), old(ex).inner@, m@) == Ok::<
                _,
                HeifError,
            >(m2@) && final(s).matches(m2@),
            Err(e) => spec_meta_apply(h.box_type.value(), old(ex).inner@, m@) == Err::<
                MetaView,
                _,
            >(e),
        },
{
    let ghost body = old(ex).inner@;
    let b = ItemProtectionBox::from_stream_header(ex, h)?;
    s.item_protection_box = b;
    proof {
        reveal(ipro_matches);
    }
    Ok(Ghost(MetaView { ipro: Option::Some(body), ..m@ }))
}

/// Reads the one child box at the stream's position into the right field of
/// the meta box, or skips it when its type is unknown.
fn read_meta_child(s: &mut MetaBox, stream: &mut BitStream, m: Ghost<MetaView>) -> (r: Result<
    Ghost<MetaView>,
    HeifError,
>)
    requires
        old(stream).wf(),
        old(stream).bit_offset == 0,
        old(stream).byte_offset < old(stream).inner@.len(),
        old(s).matches(m@),
    ensures
        final(stream).inner@ == old(stream).inner@,
        final(stream).wf(),
        final(stream).bit_offset == 0,
        final(s).full_box_header == old(s).full_box_header,
        ({
            let d = old(stream).inner@;
            let p = old(stream).byte_offset as int;
            match r {
                Ok(m2) => {
                    &&& spec_meta_step(d, p, m@) == Ok::<_, HeifError>(m2@)
                    &&& final(s).matches(m2@)
                    &&& final(stream).byte_offset == spec_child_end(d, p)
                    &&& final(stream).byte_offset > p
                    &&& final(stream).byte_offset <= d.len()
                },
                Err(e) => spec_meta_step(d, p, m@) == Err::<MetaView, _>(e),
            }
        }),
{
    let ghost d = old(stream).inner@;
    let ghost cur = old(stream).byte_offset as int;
    let child_box_header = match BoxHeader::from(stream) {
        Ok(h) => h,
        Err(e) => {
            proof {
                assert(!spec_child_ok(d, cur));
                assert(spec_child_err(d, cur) == e);
            }
            return Err(e);
        },
    };
    let mut ex = match stream.extract_from(&child_box_header) {
        Ok(x) => x,
        Err(e) => {
            proof {
                assert(!spec_child_ok(d, cur));
                assert(spec_child_err(d, cur) == e);
            }
            return Err(e);
        },
    };
    proof {
        assert(spec_child_ok(d, cur));
        assert(ex.inner@ == spec_child_body(d, cur));
        assert(child_box_header.box_type == crate::bbox::header::spec_box_type(d, cur));
    }
    let t = child_box_header.box_type().to_u32();
    if t == fourcc::HDLR || t == fourcc::PITM || t == fourcc::ILOC || t == fourcc::IINF || t
        == fourcc::IREF {
        apply_meta_child_a(s, &mut ex, child_box_header, m)
    } else if t == fourcc::IPRP || t == fourcc::GRPL {
        apply_meta_child_b(s, &mut ex, child_box_header, m)
    } else if t == fourcc::DINF {
        apply_meta_child_c(s, &mut ex, child_box_header, m)
    } else if t == fourcc::IDAT {
        apply_meta_child_d(s, &mut ex, child_box_header, m)
    } else if t == fourcc::IPRO {
        apply_meta_child_e(s, &mut ex, child_box_header, m)
    } else {
        proof {
            lemma_meta_apply_skip(
                child_box_header.box_type.value(),
                spec_child_body(d, cur),
                m@,
            );
        }
        Ok(Ghost(m@))
    }
}

/// How the handler box reflects a seen `hdlr` body, when any.
#[verifier::opaque]
pub open spec fn hdlr_matches(hb: HandlerBox, o: Option<Seq<u8>>) -> bool {
    match o {
        Option::Some(b) => {
            &&& hb.full_box_header.version == b[0]
            &&& hb.handler_type == (Byte4(b[8], b[9], b[10], b[11]))
            &&& ascii_str_of(cstr_bytes(b, 24), hb.name@)
        },
        Option::None => hb.name@ == Seq::<char>::empty() && hb.handler_type == (Byte4(0, 0, 0, 0)),
    }
}

/// How the primary item box reflects a seen `pitm` body, when any.
#[verifier::opaque]
pub open spec fn pitm_matches(pb: PrimaryItemBox, o: Option<Seq<u8>>) -> bool {
    match o {
        Option::Some(b) => pb.item_id == if b[0] == 0 {
            be16(b, 4)
        } else {
            be32(b, 4)
        },
        Option::None => pb.item_id == 0,
    }
}

/// How the item location box reflects a seen `iloc` body, when any.
#[verifier::opaque]
pub open spec fn iloc_matches(lb: ItemLocationBox, o: Option<Seq<u8>>) -> bool {
    match o {
        Option::Some(b) => spec_parse_iloc(b, 0) matches Ok(pair) && lb.locs() == pair.0,
        Option::None => lb.locations@.len() == 0,
    }
}

/// How the item info box reflects a seen `iinf` body, when any.
#[verifier::opaque]
pub open spec fn iinf_matches(ib: ItemInfoBox, o: Option<Seq<u8>>) -> bool {
    match o {
        Option::Some(b) => spec_parse_iinf(b, 0) matches Ok(pair) && ib.matches(pair.0),
        Option::None => ib.item_info_list@.len() == 0,
    }
}

/// How the item reference box reflects a seen `iref` body, when any.
#[verifier::opaque]
pub open spec fn iref_matches(rb: ItemReferenceBox, o: Option<Seq<u8>>) -> bool {
    match o {
        Option::Some(b) => spec_parse_iref(b, 0) matches Ok(refs) && rb.refs() == refs,
        Option::None => rb.reference_list@.len() == 0,
    }
}

/// How the item properties box reflects a seen `iprp` body, when any.
#[verifier::opaque]
pub open spec fn iprp_matches(pb: ItemPropertiesBox, o: Option<Seq<u8>>) -> bool {
    match o {
        Option::Some(b) => spec_parse_iprp(b, 0) matches Ok(pair) && pb.container.matches(pair.0)
            && pb.association_boxes@.map_values(
            |a: crate::bbox::iprp::ItemPropertyAssociation| a.rows(),
        ) == pair.1,
        Option::None => pb.container.properties@.len() == 0 && pb.association_boxes@.len() == 0,
    }
}

/// How the group list box reflects a seen `grpl` body, when any.
#[verifier::opaque]
pub open spec fn grpl_matches(gb: GroupListBox, o: Option<Seq<u8>>) -> bool {
    match o {
        Option::Some(b) => spec_parse_grpl_children(b, 0, Seq::empty()) matches Ok(groups)
            && gb.groups() == groups,
        Option::None => gb.entity_to_group_box_vector@.len() == 0,
    }
}

/// How the data information box reflects a seen `dinf` body, when any.
#[verifier::opaque]
pub open spec fn dinf_matches(db: DataInformationBox, o: Option<Seq<u8>>) -> bool {
    match o {
        Option::Some(b) => spec_parse_dinf(b, 0) matches Ok(views)
            && db.data_reference_box.matches(views),
        Option::None => db.data_reference_box.data_entries@.len() == 0,
    }
}

/// How the item data box reflects a seen `idat` body, when any.
#[verifier::opaque]
pub open spec fn idat_matches(db: ItemDataBox, o: Option<Seq<u8>>) -> bool {
    match o {
        Option::Some(b) => db.data@ == b,
        Option::None => db.data@ == Seq::<u8>::empty(),
    }
}

/// How the item protection box reflects a seen `ipro` body, when any.
#[verifier::opaque]
pub open spec fn ipro_matches(pb: ItemProtectionBox, o: Option<Seq<u8>>) -> bool {
    match o {
        Option::Some(b) => spec_parse_ipro(b, 0) matches Ok(pair) && pb.infos() == pair.0,
        Option::None => pb.protection_info@.len() == 0,
    }
}

impl MetaBox {
    /// How this box reflects a whole scanned `meta` body, when one was
    /// seen: absent, it holds only defaults.
    pub open spec fn matches_scan(&self, o: Option<Seq<u8>>) -> bool {
        match o {
            Option::Some(b) => spec_parse_meta(b, 0) matches Ok(m) && self.matches(m),
            Option::None => self.matches(spec_meta_empty()),
        }
    }

    /// How this box reflects the bodies of the children that were seen: a
    /// present child's field holds its parse, an absent child's field holds
    /// nothing.
    pub open spec fn matches(&self, m: MetaView) -> bool {
        &&& hdlr_matches(self.handler_box, m.hdlr)
        &&& pitm_matches(self.primary_item_box, m.pitm)
        &&& iloc_matches(self.item_location_box, m.iloc)
        &&& iinf_matches(self.item_info_box, m.iinf)
        &&& iref_matches(self.item_reference_box, m.iref)
        &&& iprp_matches(self.item_properties_box, m.iprp)
        &&& grpl_matches(self.group_list_box, m.grpl)
        &&& dinf_matches(self.data_information_box, m.dinf)
        &&& idat_matches(self.item_data_box, m.idat)
        &&& ipro_matches(self.item_protection_box, m.ipro)
    }

    /// Reads the box body: version and flags, then the recognized children
    /// in any order, each parsed by its own rule; unknown children are
    /// skipped.
    pub fn from_stream_header(stream: &mut BitStream, header: BoxHeader) -> (r: Result<
        MetaBox,
        HeifError,
    >)
        requires
            old(stream).wf(),
            old(stream).bit_offset == 0,
        ensures
            final(stream).inner@ == old(stream).inner@,
            final(stream).wf(),
            ({
                let d = old(stream).inner@;
                let p = old(stream).byte_offset as int;
                match r {
                    Ok(b) => {
                        &&& spec_full_from(b.full_box_header, header, d, p)
                        &&& spec_parse_meta(d, p) matches Ok(m) && b.matches(m)
                        &&& final(stream).byte_offset == d.len()
                    },
                    Err(e) => spec_parse_meta(d, p) == Err::<MetaView, _>(e),
                }
            }),
    {
        let ghost d = old(stream).inner@;
        let ghost p = old(stream).byte_offset as int;
        let mut s = MetaBox::default();
        s.full_box_header = FullBoxHeader::from(stream, header)?;
        let ghost mut m = spec_meta_empty();
        while !stream.is_eof()
            invariant
                d == old(stream).inner@,
                p == old(stream).byte_offset as int,
                stream.inner@ == d,
                stream.wf(),
                stream.bit_offset == 0,
                d.len() - p >= 4,
                spec_full_from(s.full_box_header, header, d, p),
                s.matches(m),
                spec_parse_meta(d, p) == spec_parse_meta_children(
                    d,
                    stream.byte_offset as int,
                    m,
                ),
            decreases d.len() - stream.byte_offset,
        {
            let step = read_meta_child(&mut s, stream, Ghost(m));
            match step {
                Ok(m2) => {
                    proof {
                        m = m2@;
                    }
                },
                Err(e) => {
                    return Err(e);
                },
            }
        }
        Ok(s)
    }

    pub fn full_box_header(&self) -> (r: &FullBoxHeader)
        ensures
            r == self.full_box_header,
    {
        &self.full_box_header
    }

    pub fn set_full_box_header(&mut self, full_box_header: FullBoxHeader)
        ensures
            *final(self) == (MetaBox { full_box_header, ..*old(self) }),
    {
        self.full_box_header = full_box_header;
    }

    pub fn handler_box(&self) -> (r: &HandlerBox)
        ensures
            r == self.handler_box,
    {
        &self.handler_box
    }

    pub fn set_handler_box(&mut self, handler_box: HandlerBox)
        ensures
            *final(self) == (MetaBox { handler_box, ..*old(self) }),
    {
        self.handler_box = handler_box;
    }

    pub fn primary_item_box(&self) -> (r: &PrimaryItemBox)
        ensures
            r == self.primary_item_box,
    {
        &self.primary_item_box
    }

    pub fn set_primary_item_box(&mut self, primary_item_box: PrimaryItemBox)
        ensures
            *final(self) == (MetaBox { primary_item_box, ..*old(self) }),
    {
        self.primary_item_box = primary_item_box;
    }

    pub fn item_location_box(&self) -> (r: &ItemLocationBox)
        ensures
            r == self.item_location_box,
    {
        &self.item_location_box
    }

    pub fn set_item_location_box(&mut self, item_location_box: ItemLocationBox)
        ensures
            *final(self) == (MetaBox { item_location_box, ..*old(self) }),
    {
        self.item_location_box = item_location_box;
    }

    pub fn item_info_box(&self) -> (r: &ItemInfoBox)
        ensures
            r == self.item_info_box,
    {
        &self.item_info_box
    }

    pub fn set_item_info_box(&mut self, item_info_box: ItemInfoBox)
        ensures
            *final(self) == (MetaBox { item_info_box, ..*old(self) }),
    {
        self.item_info_box = item_info_box;
    }

    pub fn item_reference_box(&self) -> (r: &ItemReferenceBox)
        ensures
            r == self.item_reference_box,
    {
        &self.item_reference_box
    }

    pub fn set_item_reference_box(&mut self, item_reference_box: ItemReferenceBox)
        ensures
            *final(self) == (MetaBox { item_reference_box, ..*old(self) }),
    {
        self.item_reference_box = item_reference_box;
    }

    pub fn item_properties_box(&self) -> (r: &ItemPropertiesBox)
        ensures
            r == self.item_properties_box,
    {
        &self.item_properties_box
    }

    pub fn set_item_properties_box(&mut self, item_properties_box: ItemPropertiesBox)
        ensures
            *final(self) == (MetaBox { item_properties_box, ..*old(self) }),
    {
        self.item_properties_box = item_properties_box;
    }

    pub fn group_list_box(&self) -> (r: &GroupListBox)
        ensures
            r == self.group_list_box,
    {
        &self.group_list_box
    }

    pub fn set_group_list_box(&mut self, group_list_box: GroupListBox)
        ensures
            *final(self) == (MetaBox { group_list_box, ..*old(self) }),
    {
        self.group_list_box = group_list_box;
    }

    pub fn data_information_box(&self) -> (r: &DataInformationBox)
        ensures
            r == self.data_information_box,
    {
        &self.data_information_box
    }

    pub fn set_data_information_box(&mut self, data_information_box: DataInformationBox)
        ensures
            *final(self) == (MetaBox { data_information_box, ..*old(self) }),
    {
        self.data_information_box = data_information_box;
    }

    pub fn item_data_box(&self) -> (r: &ItemDataBox)
        ensures
            r == self.item_data_box,
    {
        &self.item_data_box
    }

    pub fn set_item_data_box(&mut self, item_data_box: ItemDataBox)
        ensures
            *final(self) == (MetaBox { item_data_box, ..*old(self) }),
    {
        self.item_data_box = item_data_box;
    }

    pub fn item_protection_box(&self) -> (r: &ItemProtectionBox)
        ensures
            r == self.item_protection_box,
    {
        &self.item_protection_box
    }

    pub fn set_item_protection_box(&mut self, item_protection_box: ItemProtectionBox)
        ensures
            *final(self) == (MetaBox { item_protection_box, ..*old(self) }),
    {
        self.item_protection_box = item_protection_box;
    }
}

} // verus!
