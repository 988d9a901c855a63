//! The `hvcC` property: the HEVC decoder configuration record, with its
//! nested NAL unit arrays.  Stored NAL payloads have any Annex-B start-code
//! prefix stripped; when a parameter set is emitted for a byte stream the
//! four start-code bytes are prepended again.

use crate::bbox::header::BoxHeader;
use crate::bit::{
    be16, be32, bits_val, lemma_bits_val_hi_bit, lemma_bits_val_low6, BitStream, Byte4,
};
use crate::HeifError;
use vstd::prelude::*;

verus! {

/// The NAL unit type values that carry HEVC parameter sets.
pub const NAL_VPS: u8 = 32;

pub const NAL_SPS: u8 = 33;

pub const NAL_PPS: u8 = 34;

/// The end of the run of zero bytes of `nal` that starts at `i`.
pub open spec fn spec_zero_run(nal: Seq<u8>, i: int) -> int
    decreases nal.len() - i,
{
    if 0 <= i && i + 1 < nal.len() && nal[i] == 0 {
        spec_zero_run(nal, i + 1)
    } else {
        i
    }
}

/// How many leading bytes of `nal` form an Annex-B start code: a zero run
/// of length at least two followed by a one, else nothing.
pub open spec fn spec_start_code_len(nal: Seq<u8>) -> int {
    let i = spec_zero_run(nal, 0);
    if i > 1 && i < nal.len() && nal[i] == 1 {
        i + 1
    } else {
        0
    }
}

/// The NAL payload with any start-code prefix stripped.
pub open spec fn spec_strip_start_code(nal: Seq<u8>) -> Seq<u8> {
    nal.skip(spec_start_code_len(nal))
}

/// One NAL array of the record: all stored units of one NAL type.
pub struct NalArrayView {
    pub array_completeness: bool,
    pub nal_unit_type: u8,
    pub nal_list: Seq<Seq<u8>>,
}

/// Files one NAL payload under its type: appended to the first array of
/// that type, or opening a new array at the end.
pub open spec fn spec_add_nal(
    arrays: Seq<NalArrayView>,
    t: u8,
    completeness: bool,
    v: Seq<u8>,
) -> Seq<NalArrayView>
    decreases arrays.len(),
{
    if arrays.len() == 0 {
        seq![NalArrayView { array_completeness: completeness, nal_unit_type: t, nal_list: seq![v] }]
    } else if arrays[0].nal_unit_type == t {
        seq![
            NalArrayView { nal_list: arrays[0].nal_list.push(v), ..arrays[0] },
        ] + arrays.drop_first()
    } else {
        seq![arrays[0]] + spec_add_nal(arrays.drop_first(), t, completeness, v)
    }
}

/// Filing into a seq whose first `i` arrays miss the type, with the type at
/// `i`, appends to the array at `i`.
pub proof fn lemma_add_nal_found(arrays: Seq<NalArrayView>, t: u8, c: bool, v: Seq<u8>, i: int)
    requires
        0 <= i < arrays.len(),
        forall|j: int| 0 <= j < i ==> #[trigger] arrays[j].nal_unit_type != t,
        arrays[i].nal_unit_type == t,
    ensures
        spec_add_nal(arrays, t, c, v) =~= arrays.update(
            i,
            NalArrayView { nal_list: arrays[i].nal_list.push(v), ..arrays[i] },
        ),
    decreases i,
{
    if i == 0 {
    } else {
        lemma_add_nal_found(arrays.drop_first(), t, c, v, i - 1);
    }
}

/// Filing into a seq without the type opens a new array at the end.
pub proof fn lemma_add_nal_missing(arrays: Seq<NalArrayView>, t: u8, c: bool, v: Seq<u8>)
    requires
        forall|j: int| 0 <= j < arrays.len() ==> #[trigger] arrays[j].nal_unit_type != t,
    ensures
        spec_add_nal(arrays, t, c, v) =~= arrays.push(
            NalArrayView { array_completeness: c, nal_unit_type: t, nal_list: seq![v] },
        ),
    decreases arrays.len(),
{
    if arrays.len() > 0 {
        lemma_add_nal_missing(arrays.drop_first(), t, c, v);
    }
}

/// Parses `count` NAL units at byte `p` of `d`, filing each stripped
/// payload under type `t`.
pub open spec fn spec_parse_nalus(
    d: Seq<u8>,
    p: int,
    count: nat,
    t: u8,
    completeness: bool,
    arrays: Seq<NalArrayView>,
) -> Result<(Seq<NalArrayView>, int), HeifError>
    decreases count,
{
    if count == 0 {
        Ok((arrays, p))
    } else if d.len() - p < 2 {
        Err(HeifError::EndOfStream)
    } else if d.len() - (p + 2) < be16(d, p) {
        Err(HeifError::EndOfStream)
    } else {
        spec_parse_nalus(
            d,
            p + 2 + be16(d, p),
            (count - 1) as nat,
            t,
            completeness,
            spec_add_nal(
                arrays,
                t,
                completeness,
                spec_strip_start_code(d.subrange(p + 2, p + 2 + be16(d, p))),
            ),
        )
    }
}

/// Parses `count` NAL arrays at byte `p` of `d`.
pub open spec fn spec_parse_nal_arrays(
    d: Seq<u8>,
    p: int,
    count: nat,
    arrays: Seq<NalArrayView>,
) -> Result<(Seq<NalArrayView>, int), HeifError>
    decreases count,
{
    if count == 0 {
        Ok((arrays, p))
    } else if d.len() - p < 3 {
        Err(HeifError::EndOfStream)
    } else {
        match spec_parse_nalus(
            d,
            p + 3,
            be16(d, p + 1) as nat,
            d[p] & 0x3F,
            d[p] >> 7 != 0,
            arrays,
        ) {
            Ok(pair) => spec_parse_nal_arrays(d, pair.1, (count - 1) as nat, pair.0),
            Err(e) => Err(e),
        }
    }
}

/// The NAL arrays of an `hvcC` record at byte `p` of `d`: the fixed 23-byte
/// scalar prefix, then the arrays.
pub open spec fn spec_parse_hvcc_arrays(d: Seq<u8>, p: int) -> Result<
    (Seq<NalArrayView>, int),
    HeifError,
> {
    if d.len() - p < 23 {
        Err(HeifError::EndOfStream)
    } else {
        spec_parse_nal_arrays(d, p + 23, d[p + 22] as nat, Seq::empty())
    }
}

/// The emitted parameter set for NAL type `t`: for each array of that type
/// with stored units, the four start-code bytes then its first unit.
pub open spec fn spec_param_set(arrays: Seq<NalArrayView>, t: u8) -> Seq<u8>
    decreases arrays.len(),
{
    if arrays.len() == 0 {
        Seq::empty()
    } else {
        (if arrays[0].nal_unit_type == t && arrays[0].nal_list.len() > 0 {
            seq![0u8, 0u8, 0u8, 1u8] + arrays[0].nal_list[0]
        } else {
            Seq::empty()
        }) + spec_param_set(arrays.drop_first(), t)
    }
}

/// The emitted parameter set for a type is nonempty exactly when some array
/// of that type holds at least one NAL unit.
pub proof fn lemma_param_set_present(arrays: Seq<NalArrayView>, t: u8)
    ensures
        spec_param_set(arrays, t).len() > 0 <==> exists|j: int|
            0 <= j < arrays.len() && #[trigger] arrays[j].nal_unit_type == t
                && arrays[j].nal_list.len() > 0,
    decreases arrays.len(),
{
    if arrays.len() > 0 {
        lemma_param_set_present(arrays.drop_first(), t);
        if arrays[0].nal_unit_type == t && arrays[0].nal_list.len() > 0 {
            assert(arrays[0].nal_unit_type == t && arrays[0].nal_list.len() > 0);
        } else if spec_param_set(arrays.drop_first(), t).len() > 0 {
            let j = choose|j: int|
                0 <= j < arrays.drop_first().len() && #[trigger] arrays.drop_first()[j].nal_unit_type
                    == t && arrays.drop_first()[j].nal_list.len() > 0;
            assert(arrays[j + 1].nal_unit_type == t && arrays[j + 1].nal_list.len() > 0);
        } else if exists|j: int|
            0 <= j < arrays.len() && #[trigger] arrays[j].nal_unit_type == t
                && arrays[j].nal_list.len() > 0 {
            let j = choose|j: int|
                0 <= j < arrays.len() && #[trigger] arrays[j].nal_unit_type == t
                    && arrays[j].nal_list.len() > 0;
            if j > 0 {
                assert(arrays.drop_first()[j - 1].nal_unit_type == t && arrays.drop_first()[j
                    - 1].nal_list.len() > 0);
            }
        }
    }
}

/// Extending the prefix considered by one array appends that array's
/// contribution to the emitted parameter set.
pub proof fn lemma_param_set_take(s: Seq<NalArrayView>, t: u8, i: int)
    requires
        0 <= i < s.len(),
    ensures
        spec_param_set(s.take(i + 1), t) =~= spec_param_set(s.take(i), t) + (if s[i].nal_unit_type
            == t && s[i].nal_list.len() > 0 {
            seq![0u8, 0u8, 0u8, 1u8] + s[i].nal_list[0]
        } else {
            Seq::<u8>::empty()
        }),
    decreases i,
{
    if i == 0 {
        assert(s.take(1).drop_first() =~= Seq::<NalArrayView>::empty());
        assert(s.take(0) =~= Seq::<NalArrayView>::empty());
        assert(s.take(1)[0] == s[0]);
    } else {
        lemma_param_set_take(s.drop_first(), t, i - 1);
        assert(s.take(i + 1).drop_first() =~= s.drop_first().take(i));
        assert(s.take(i).drop_first() =~= s.drop_first().take(i - 1));
        assert(s.take(i + 1)[0] == s[0]);
        assert(s.take(i)[0] == s[0]);
        assert(s.drop_first()[i - 1] == s[i]);
    }
}

/// One NAL array of the record.
#[derive(Debug)]
pub struct NalArray {
    pub array_completeness: bool,
    pub nal_unit_type: u8,
    pub nal_list: Vec<Vec<u8>>,
}

impl NalArray {
    /// What this array holds, for the parse specification.
    pub open spec fn view_spec(&self) -> NalArrayView {
        NalArrayView {
            array_completeness: self.array_completeness,
            nal_unit_type: self.nal_unit_type,
            nal_list: self.nal_list@.map_values(|v: Vec<u8>| v@),
        }
    }
}

/// The HEVC decoder configuration record.
#[derive(Debug)]
pub struct HevcDecoderConfigurationRecord {
    pub configuration_version: u8,
    pub general_profile_space: u8,
    pub general_tier_flag: u8,
    pub general_profile_idc: u8,
    pub general_profile_compatibility_flags: u32,
    pub general_constraint_indicator_flags: Vec<u8>,
    pub general_level_idc: u8,
    pub min_spatial_segmentation_idc: u16,
    pub parallelism_type: u8,
    pub chroma_format: u8,
    pub pic_width_in_luma_samples: u16,
    pub pic_height_in_luma_samples: u16,
    pub conf_win_left_offset: u16,
    pub conf_win_right_offset: u16,
    pub conf_win_top_offset: u16,
    pub conf_win_bottom_offset: u16,
    pub bit_depth_luma_minus8: u8,
    pub bit_depth_chroma_minus8: u8,
    pub avg_frame_rate: u16,
    pub constant_frame_rate: u8,
    pub num_temporal_layers: u8,
    pub temporal_id_nested: u8,
    pub length_size_minus1: u8,
    pub nal_array: Vec<NalArray>,
}

impl Default for HevcDecoderConfigurationRecord {
    fn default() -> (r: HevcDecoderConfigurationRecord)
        ensures
            r.configuration_version == 1,
            r.nal_array@.len() == 0,
    {
        HevcDecoderConfigurationRecord {
            configuration_version: 1,
            general_profile_space: 0,
            general_tier_flag: 0,
            general_profile_idc: 0,
            general_profile_compatibility_flags: 0,
            general_constraint_indicator_flags: Vec::new(),
            general_level_idc: 0,
            min_spatial_segmentation_idc: 0,
            parallelism_type: 0,
            chroma_format: 0,
            pic_width_in_luma_samples: 0,
            pic_height_in_luma_samples: 0,
            conf_win_left_offset: 0,
            conf_win_right_offset: 0,
            conf_win_top_offset: 0,
            conf_win_bottom_offset: 0,
            bit_depth_luma_minus8: 0,
            bit_depth_chroma_minus8: 0,
            avg_frame_rate: 0,
            constant_frame_rate: 0,
            num_temporal_layers: 0,
            temporal_id_nested: 0,
            length_size_minus1: 0,
            nal_array: Vec::new(),
        }
    }
}

/// Files one NAL payload, stripped of any start code, under its type in
/// the array list.
fn add_nal_to(arrays: &mut Vec<NalArray>, nal_unit: Vec<u8>, nal_unit_type: u8, completeness: bool)
    ensures
        final(arrays)@.map_values(|a: NalArray| a.view_spec()) == spec_add_nal(
            old(arrays)@.map_values(|a: NalArray| a.view_spec()),
            nal_unit_type,
            completeness,
            spec_strip_start_code(nal_unit@),
        ),
{
    let start_code_len = find_start_code_len(&nal_unit);
    let mut v: Vec<u8> = Vec::new();
    let mut k: usize = start_code_len;
    while k < nal_unit.len()
        invariant
            start_code_len <= k <= nal_unit@.len(),
            v@ == nal_unit@.subrange(start_code_len as int, k as int),
        decreases nal_unit@.len() - k,
    {
        v.push(nal_unit[k]);
        proof {
            assert(v@ =~= nal_unit@.subrange(start_code_len as int, k + 1));
        }
        k = k + 1;
    }
    proof {
        assert(v@ =~= spec_strip_start_code(nal_unit@));
    }
    let n = arrays.len();
    let mut i: usize = 0;
    while i < n
        invariant
            n == arrays@.len(),
            i <= n,
            v@ == spec_strip_start_code(nal_unit@),
            forall|j: int| 0 <= j < i ==> #[trigger] arrays@[j].nal_unit_type != nal_unit_type,
            arrays@ == old(arrays)@,
        decreases n - i,
    {
        if arrays[i].nal_unit_type == nal_unit_type {
            let ghost vec_before = arrays@;
            let ghost before = arrays@.map_values(|a: NalArray| a.view_spec());
            let mut slot = arrays.remove(i);
            slot.nal_list.push(v);
            let ghost slot_after = slot;
            arrays.insert(i, slot);
            proof {
                lemma_add_nal_found(
                    before,
                    nal_unit_type,
                    completeness,
                    spec_strip_start_code(nal_unit@),
                    i as int,
                );
                assert(arrays@ =~= vec_before.update(i as int, slot_after));
                assert(slot_after.view_spec().nal_list =~= before[i as int].nal_list.push(v@));
                assert(slot_after.view_spec() == (NalArrayView {
                    nal_list: before[i as int].nal_list.push(v@),
                    ..before[i as int]
                }));
                assert(arrays@.map_values(|a: NalArray| a.view_spec()) =~~= before.update(
                    i as int,
                    NalArrayView { nal_list: before[i as int].nal_list.push(v@), ..before[i as int] },
                ));
            }
            return ;
        }
        i = i + 1;
    }
    let ghost before = arrays@.map_values(|a: NalArray| a.view_spec());
    let ghost v_view = v@;
    let new_array = NalArray { array_completeness: completeness, nal_unit_type, nal_list: vec![v] };
    proof {
        assert(new_array.view_spec().nal_list =~= seq![v_view]);
    }
    arrays.push(new_array);
    proof {
        lemma_add_nal_missing(before, nal_unit_type, completeness, spec_strip_start_code(nal_unit@));
        assert(arrays@.map_values(|a: NalArray| a.view_spec()) =~~= before.push(
            NalArrayView {
                array_completeness: completeness,
                nal_unit_type,
                nal_list: seq![v_view],
            },
        ));
    }
}

impl HevcDecoderConfigurationRecord {
    /// The NAL arrays this record holds, in order.
    pub open spec fn arrays(&self) -> Seq<NalArrayView> {
        self.nal_array@.map_values(|a: NalArray| a.view_spec())
    }

    /// Reads the record: the fixed bit layout of the scalar fields, then
    /// the NAL arrays, each stored unit with its start code stripped.
    #[verifier::rlimit(100)]
    pub fn from_stream(stream: &mut BitStream) -> (r: Result<
        HevcDecoderConfigurationRecord,
        HeifError,
    >)
        requires
            old(stream).wf(),
            old(stream).bit_offset == 0,
        ensures
            final(stream).inner@ == old(stream).inner@,
            final(stream).wf(),
            ({
                let d = old(stream).inner@;
                let p = old(stream).byte_offset as int;
                match r {
                    Ok(b) => {
                        &&& d.len() - p >= 23
                        &&& b.configuration_version == d[p]
                        &&& b.general_profile_space == bits_val(d, 8 * (p + 1), 2)
                        &&& b.general_tier_flag == bits_val(d, 8 * (p + 1) + 2, 1)
                        &&& b.general_profile_idc == bits_val(d, 8 * (p + 1) + 3, 5)
                        &&& b.general_profile_compatibility_flags == be32(d, p + 2)
                        &&& b.general_constraint_indicator_flags@ == d.subrange(p + 6, p + 12)
                        &&& b.general_level_idc == d[p + 12]
                        &&& b.min_spatial_segmentation_idc == bits_val(d, 8 * (p + 13) + 4, 12)
                        &&& b.parallelism_type == bits_val(d, 8 * (p + 15) + 6, 2)
                        &&& b.chroma_format == bits_val(d, 8 * (p + 16) + 6, 2)
                        &&& b.bit_depth_luma_minus8 == bits_val(d, 8 * (p + 17) + 5, 3)
                        &&& b.bit_depth_chroma_minus8 == bits_val(d, 8 * (p + 18) + 5, 3)
                        &&& b.avg_frame_rate == be16(d, p + 19)
                        &&& b.constant_frame_rate == bits_val(d, 8 * (p + 21), 2)
                        &&& b.num_temporal_layers == bits_val(d, 8 * (p + 21) + 2, 3)
                        &&& b.temporal_id_nested == bits_val(d, 8 * (p + 21) + 5, 1)
                        &&& b.length_size_minus1 == bits_val(d, 8 * (p + 21) + 6, 2)
                        &&& spec_parse_hvcc_arrays(d, p) matches Ok(pair) && b.arrays() == pair.0
                            && final(stream).byte_offset == pair.1
                    },
                    Err(e) => spec_parse_hvcc_arrays(d, p) == Err::<(Seq<NalArrayView>, int), _>(
                        e,
                    ),
                }
            }),
    {
        let ghost d = old(stream).inner@;
        let ghost p = old(stream).byte_offset as int;
        if stream.num_bytes_left() < 23 {
            return Err(HeifError::EndOfStream);
        }
        let configuration_version = stream.read_byte()?;
        let general_profile_space = stream.read_bits(2)? as u8;
        let general_tier_flag = stream.read_bits(1)? as u8;
        let general_profile_idc = stream.read_bits(5)? as u8;
        let general_profile_compatibility_flags = stream.read_4bytes()?.to_u32();
        let general_constraint_indicator_flags = stream.read_bytes(6)?;
        let general_level_idc = stream.read_byte()?;
        stream.read_bits(4)?;
        let min_spatial_segmentation_idc = stream.read_bits(12)? as u16;
        stream.read_bits(6)?;
        let parallelism_type = stream.read_bits(2)? as u8;
        stream.read_bits(6)?;
        let chroma_format = stream.read_bits(2)? as u8;
        stream.read_bits(5)?;
        let bit_depth_luma_minus8 = stream.read_bits(3)? as u8;
        stream.read_bits(5)?;
        let bit_depth_chroma_minus8 = stream.read_bits(3)? as u8;
        let avg_frame_rate = stream.read_2bytes()?.to_u16();
        let constant_frame_rate = stream.read_bits(2)? as u8;
        let num_temporal_layers = stream.read_bits(3)? as u8;
        let temporal_id_nested = stream.read_bits(1)? as u8;
        let length_size_minus1 = stream.read_bits(2)? as u8;
        let num_arrays = stream.read_byte()?;
        let ghost count = num_arrays as nat;
        let ghost astart = stream.byte_offset as int;
        let mut nal_array: Vec<NalArray> = Vec::new();
        proof {
            assert(nal_array@.map_values(|a: NalArray| a.view_spec())
                =~= Seq::<NalArrayView>::empty());
        }
        let mut i: u8 = 0;
        while i < num_arrays
            invariant
                d == old(stream).inner@,
                p == old(stream).byte_offset as int,
                stream.inner@ == d,
                stream.wf(),
                stream.bit_offset == 0,
                i <= num_arrays,
                count == num_arrays as nat,
                d.len() - p >= 23,
                num_arrays == d[p + 22],
                spec_parse_hvcc_arrays(d, p) == spec_parse_nal_arrays(
                    d,
                    p + 23,
                    count,
                    Seq::empty(),
                ),
                spec_parse_nal_arrays(d, p + 23, count, Seq::empty()) == spec_parse_nal_arrays(
                    d,
                    stream.byte_offset as int,
                    (count - i) as nat,
                    nal_array@.map_values(|a: NalArray| a.view_spec()),
                ),
            decreases num_arrays - i,
        {
            let ghost cur = stream.byte_offset as int;
            let ghost outer_arrays = nal_array@.map_values(|a: NalArray| a.view_spec());
            let array_completeness = stream.read_bits(1)? != 0;
            stream.read_bits(1)?;
            let nal_unit_type = stream.read_bits(6)? as u8;
            proof {
                lemma_bits_val_hi_bit(d, cur);
                lemma_bits_val_low6(d, cur);
                let b0 = d[cur];
                assert(((b0 >> 7) & 1 != 0) == (b0 >> 7 != 0)) by (bit_vector);
            }
            let num_nalus = stream.read_2bytes()?.to_u16();
            let ghost ncount = num_nalus as nat;
            let ghost npos = stream.byte_offset as int;
            let mut j: u16 = 0;
            while j < num_nalus
                invariant
                    d == old(stream).inner@,
                    p == old(stream).byte_offset as int,
                    stream.inner@ == d,
                    stream.wf(),
                    stream.bit_offset == 0,
                    j <= num_nalus,
                    ncount == num_nalus as nat,
                    i < count,
                    d.len() - cur >= 3,
                    nal_unit_type == d[cur] & 0x3F,
                    array_completeness == (d[cur] >> 7 != 0),
                    ncount == be16(d, cur + 1),
                    npos == cur + 3,
                    spec_parse_hvcc_arrays(d, p) == spec_parse_nal_arrays(
                        d,
                        cur,
                        (count - i) as nat,
                        outer_arrays,
                    ),
                    spec_parse_nalus(d, npos, ncount, d[cur] & 0x3F, d[cur] >> 7 != 0, outer_arrays)
                        == spec_parse_nalus(
                        d,
                        stream.byte_offset as int,
                        (ncount - j) as nat,
                        d[cur] & 0x3F,
                        d[cur] >> 7 != 0,
                        nal_array@.map_values(|a: NalArray| a.view_spec()),
                    ),
                decreases num_nalus - j,
            {
                let nal_size = stream.read_2bytes()?.to_usize();
                let nal_data = stream.read_bytes(nal_size)?;
                add_nal_to(&mut nal_array, nal_data, nal_unit_type, array_completeness);
                j = j + 1;
            }
            i = i + 1;
        }
        Ok(
            HevcDecoderConfigurationRecord {
                configuration_version,
                general_profile_space,
                general_tier_flag,
                general_profile_idc,
                general_profile_compatibility_flags,
                general_constraint_indicator_flags,
                general_level_idc,
                min_spatial_segmentation_idc,
                parallelism_type,
                chroma_format,
                pic_width_in_luma_samples: 0,
                pic_height_in_luma_samples: 0,
                conf_win_left_offset: 0,
                conf_win_right_offset: 0,
                conf_win_top_offset: 0,
                conf_win_bottom_offset: 0,
                bit_depth_luma_minus8,
                bit_depth_chroma_minus8,
                avg_frame_rate,
                constant_frame_rate,
                num_temporal_layers,
                temporal_id_nested,
                length_size_minus1,
                nal_array,
            },
        )
    }

    /// Files one NAL payload, stripped of any start code, under its type.
    pub fn add_nal_unit(&mut self, nal_unit: Vec<u8>, nal_unit_type: u8, array_completeness: bool)
        ensures
            final(self).nal_array@.map_values(|a: NalArray| a.view_spec()) == spec_add_nal(
                old(self).nal_array@.map_values(|a: NalArray| a.view_spec()),
                nal_unit_type,
                array_completeness,
                spec_strip_start_code(nal_unit@),
            ),
            *final(self) == (HevcDecoderConfigurationRecord {
                nal_array: final(self).nal_array,
                ..*old(self)
            }),
    {
        add_nal_to(&mut self.nal_array, nal_unit, nal_unit_type, array_completeness);
    }

    /// The byte-stream form of the first stored parameter set of this NAL
    /// type: the four start-code bytes then the unit, or nothing when the
    /// record lacks that type.
    pub fn get_one_parameter_set(&self, nal_unit_type: u8) -> (r: Vec<u8>)
        ensures
            r@ == spec_param_set(self.arrays(), nal_unit_type),
    {
        let mut res: Vec<u8> = Vec::new();
        let n = self.nal_array.len();
        let mut i: usize = 0;
        while i < n
            invariant
                n == self.nal_array@.len(),
                i <= n,
                res@ == spec_param_set(self.arrays().take(i as int), nal_unit_type),
            decreases n - i,
        {
            let ghost prefix = spec_param_set(self.arrays().take(i as int), nal_unit_type);
            if self.nal_array[i].nal_unit_type == nal_unit_type && self.nal_array[i].nal_list.len()
                > 0 {
                res.push(0);
                res.push(0);
                res.push(0);
                res.push(1);
                proof {
                    assert(res@ =~= prefix + seq![0u8, 0u8, 0u8, 1u8] + Seq::<u8>::empty());
                }
                let first = &self.nal_array[i].nal_list[0];
                let m = first.len();
                let mut k: usize = 0;
                while k < m
                    invariant
                        m == first@.len(),
                        first == &self.nal_array@[i as int].nal_list@[0],
                        k <= m,
                        prefix == spec_param_set(self.arrays().take(i as int), nal_unit_type),
                        res@ == prefix + seq![0u8, 0u8, 0u8, 1u8] + first@.take(k as int),
                    decreases m - k,
                {
                    res.push(first[k]);
                    proof {
                        assert(first@.take(k + 1) =~= first@.take(k as int).push(first@[k as int]));
                        assert(res@ =~= prefix + seq![0u8, 0u8, 0u8, 1u8] + first@.take(k + 1));
                    }
                    k = k + 1;
                }
                proof {
                    lemma_param_set_take(self.arrays(), nal_unit_type, i as int);
                    assert(self.arrays()[i as int].nal_list[0] == first@);
                    assert(first@.take(m as int) =~= first@);
                    assert(res@ =~= spec_param_set(self.arrays().take(i + 1), nal_unit_type));
                }
            } else {
                proof {
                    lemma_param_set_take(self.arrays(), nal_unit_type, i as int);
                    assert(res@ =~= spec_param_set(self.arrays().take(i + 1), nal_unit_type));
                }
            }
            i = i + 1;
        }
        proof {
            assert(self.arrays().take(n as int) =~= self.arrays());
        }
        res
    }

    /// The parameter sets of the record, keyed by NAL type, in the fixed
    /// order VPS, SPS, PPS.
    pub fn configuration_map(&self) -> (r: Vec<(u8, Vec<u8>)>)
        ensures
            r@.len() == 3,
            r@[0].0 == NAL_VPS && r@[0].1@ == spec_param_set(self.arrays(), NAL_VPS),
            r@[1].0 == NAL_SPS && r@[1].1@ == spec_param_set(self.arrays(), NAL_SPS),
            r@[2].0 == NAL_PPS && r@[2].1@ == spec_param_set(self.arrays(), NAL_PPS),
    {
        let mut r: Vec<(u8, Vec<u8>)> = Vec::new();
        r.push((NAL_VPS, self.get_one_parameter_set(NAL_VPS)));
        r.push((NAL_SPS, self.get_one_parameter_set(NAL_SPS)));
        r.push((NAL_PPS, self.get_one_parameter_set(NAL_PPS)));
        r
    }
}

/// How many leading bytes of the buffer form an Annex-B start code.
pub fn find_start_code_len(data: &Vec<u8>) -> (r: usize)
    ensures
        r == spec_start_code_len(data@),
        r <= data@.len(),
{
    let mut i: usize = 0;
    let size = data.len();
    while size - i > 1 && data[i] == 0
        invariant
            size == data@.len(),
            i <= size,
            spec_zero_run(data@, 0) == spec_zero_run(data@, i as int),
        decreases size - i,
    {
        i = i + 1;
    }
    if i > 1 && i < size && data[i] == 1 {
        i + 1
    } else {
        0
    }
}

/// The `hvcC` property box.
#[derive(Debug)]
pub struct HevcConfigurationBox {
    pub box_header: BoxHeader,
    pub hevc_config: HevcDecoderConfigurationRecord,
}

impl Default for HevcConfigurationBox {
    fn default() -> (r: HevcConfigurationBox)
        ensures
            r.hevc_config.nal_array@.len() == 0,
    {
        HevcConfigurationBox::new(HevcDecoderConfigurationRecord::default())
    }
}

impl HevcConfigurationBox {
    pub fn new(hevc_config: HevcDecoderConfigurationRecord) -> (r: HevcConfigurationBox)
        ensures
            r.hevc_config == hevc_config,
    {
        HevcConfigurationBox { box_header: BoxHeader::new(Byte4(0x68, 0x76, 0x63, 0x43)), hevc_config }
    }

    /// Reads the configuration record that forms the whole box body.
    pub fn from_stream_header(stream: &mut BitStream, box_header: BoxHeader) -> (r: Result<
        HevcConfigurationBox,
        HeifError,
    >)
        requires
            old(stream).wf(),
            old(stream).bit_offset == 0,
        ensures
            final(stream).inner@ == old(stream).inner@,
            final(stream).wf(),
            ({
                let d = old(stream).inner@;
                let p = old(stream).byte_offset as int;
                match r {
                    Ok(b) => {
                        &&& b.box_header == box_header
                        &&& spec_parse_hvcc_arrays(d, p) matches Ok(pair) && b.hevc_config.arrays()
                            == pair.0 && final(stream).byte_offset == pair.1
                    },
                    Err(e) => spec_parse_hvcc_arrays(d, p) == Err::<(Seq<NalArrayView>, int), _>(
                        e,
                    ),
                }
            }),
    {
        let hevc_config = HevcDecoderConfigurationRecord::from_stream(stream)?;
        Ok(HevcConfigurationBox { box_header, hevc_config })
    }

    pub fn config(&self) -> (r: &HevcDecoderConfigurationRecord)
        ensures
            r == self.hevc_config,
    {
        &self.hevc_config
    }
}

} // verus!
