//! The `dinf` box: data information, holding a `dref` box whose children
//! name data locations as `url ` or `urn ` entries.

use crate::bbox::header::{
    spec_box_type, spec_child_body, spec_child_end, spec_child_err, spec_child_ok, spec_full_from,
    BoxHeader, FullBoxHeader,
};
use crate::bit::{ascii_str_of, be24, be32, cstr_after, cstr_bytes, BitStream, Byte4};
use crate::fourcc;
use crate::HeifError;
use vstd::prelude::*;

verus! {

/// What one data entry holds, over its body bytes.
pub struct DataEntryView {
    pub entry_type: Byte4,
    pub version: u8,
    pub flags: int,
    pub location_bytes: Seq<u8>,
    pub name_bytes: Seq<u8>,
}

/// Parses the body of one `url ` entry: version and flags, then a location
/// string only when flag bit 0 is set.
pub open spec fn spec_parse_url(t: Byte4, body: Seq<u8>) -> Result<DataEntryView, HeifError> {
    if body.len() < 4 {
        Err(HeifError::EndOfStream)
    } else {
        Ok(
            DataEntryView {
                entry_type: t,
                version: body[0],
                flags: be24(body, 1),
                location_bytes: if body[3] & 1 == 1 {
                    cstr_bytes(body, 4)
                } else {
                    Seq::empty()
                },
                name_bytes: Seq::empty(),
            },
        )
    }
}

/// Parses the body of one `urn ` entry: version and flags, a name string,
/// then a location string.
pub open spec fn spec_parse_urn(t: Byte4, body: Seq<u8>) -> Result<DataEntryView, HeifError> {
    if body.len() < 4 {
        Err(HeifError::EndOfStream)
    } else {
        Ok(
            DataEntryView {
                entry_type: t,
                version: body[0],
                flags: be24(body, 1),
                name_bytes: cstr_bytes(body, 4),
                location_bytes: cstr_bytes(body, cstr_after(body, 4)),
            },
        )
    }
}

/// Parses `count` `dref` children at byte `p` of `d`; a child that is
/// neither `url ` nor `urn ` is an unknown data entry.
pub open spec fn spec_parse_dref_entries(
    d: Seq<u8>,
    p: int,
    count: nat,
    acc: Seq<DataEntryView>,
) -> Result<(Seq<DataEntryView>, int), HeifError>
    decreases count,
{
    if count == 0 {
        Ok((acc, p))
    } else if !spec_child_ok(d, p) {
        Err(spec_child_err(d, p))
    } else {
        let t = spec_box_type(d, p);
        let body = spec_child_body(d, p);
        let parsed: Result<DataEntryView, HeifError> = if t.value() == fourcc::URN_SP {
            spec_parse_urn(t, body)
        } else if t.value() == fourcc::URL_SP {
            spec_parse_url(t, body)
        } else {
            Err(HeifError::UnknownDataEntry)
        };
        match parsed {
            Ok(v) => spec_parse_dref_entries(d, spec_child_end(d, p), (count - 1) as nat, acc.push(v)),
            Err(e) => Err(e),
        }
    }
}

/// Parses a `dref` body at byte `p` of `d`: version and flags, a 32-bit
/// entry count, then the entries.
pub open spec fn spec_parse_dref(d: Seq<u8>, p: int) -> Result<(Seq<DataEntryView>, int), HeifError> {
    if d.len() - p < 8 {
        Err(HeifError::EndOfStream)
    } else {
        spec_parse_dref_entries(d, p + 8, be32(d, p + 4) as nat, Seq::empty())
    }
}

/// Parses a `dinf` body at byte `p` of `d`: empty, or a child box parsed as
/// `dref`.
pub open spec fn spec_parse_dinf(d: Seq<u8>, p: int) -> Result<Seq<DataEntryView>, HeifError> {
    if p >= d.len() {
        Ok(Seq::empty())
    } else if !spec_child_ok(d, p) {
        Err(spec_child_err(d, p))
    } else {
        match spec_parse_dref(spec_child_body(d, p), 0) {
            Ok(pair) => Ok(pair.0),
            Err(e) => Err(e),
        }
    }
}

/// One data entry: a `url ` or `urn ` box.
#[derive(Debug)]
pub struct DataEntryBox {
    pub full_box_header: FullBoxHeader,
    pub location: String,
    pub name: String,
}

impl DataEntryBox {
    /// How this entry reflects a parsed view.
    pub open spec fn matches(&self, v: DataEntryView) -> bool {
        &&& self.full_box_header.box_type == v.entry_type
        &&& self.full_box_header.version == v.version
        &&& self.full_box_header.flags == v.flags
        &&& ascii_str_of(v.location_bytes, self.location@)
        &&& ascii_str_of(v.name_bytes, self.name@)
    }

    pub fn new(box_type: Byte4, version: u8, flags: u32) -> (r: DataEntryBox)
        ensures
            r.full_box_header.box_type == box_type,
            r.full_box_header.version == version,
            r.full_box_header.flags == flags,
            r.location@ == Seq::<char>::empty(),
            r.name@ == Seq::<char>::empty(),
    {
        DataEntryBox {
            full_box_header: FullBoxHeader::new(box_type, version, flags),
            location: String::new(),
            name: String::new(),
        }
    }

    pub fn new_urn() -> (r: DataEntryBox)
        ensures
            r.full_box_header.box_type.value() == fourcc::URN_SP,
    {
        DataEntryBox::new(Byte4(0x75, 0x72, 0x6E, 0x20), 0, 0)
    }

    pub fn new_url() -> (r: DataEntryBox)
        ensures
            r.full_box_header.box_type.value() == fourcc::URL_SP,
    {
        DataEntryBox::new(Byte4(0x75, 0x72, 0x6C, 0x20), 0, 0)
    }

    /// Reads one `urn ` entry from the start of its extracted body.
    pub fn from_stream_header_urn(stream: &mut BitStream, box_header: BoxHeader) -> (r: Result<
        DataEntryBox,
        HeifError,
    >)
        requires
            old(stream).wf(),
            old(stream).bit_offset == 0,
            old(stream).byte_offset == 0,
        ensures
            final(stream).inner@ == old(stream).inner@,
            final(stream).wf(),
            ({
                let d = old(stream).inner@;
                match r {
                    Ok(b) => spec_parse_urn(box_header.box_type, d) matches Ok(v) && b.matches(v),
                    Err(e) => spec_parse_urn(box_header.box_type, d) == Err::<DataEntryView, _>(e),
                }
            }),
    {
        let full_box_header = FullBoxHeader::from(stream, box_header)?;
        let name = stream.read_zero_term_string();
        let location = stream.read_zero_term_string();
        Ok(DataEntryBox { full_box_header, location, name })
    }

    /// Reads one `url ` entry from the start of its extracted body.
    pub fn from_stream_header_url(stream: &mut BitStream, box_header: BoxHeader) -> (r: Result<
        DataEntryBox,
        HeifError,
    >)
        requires
            old(stream).wf(),
            old(stream).bit_offset == 0,
            old(stream).byte_offset == 0,
        ensures
            final(stream).inner@ == old(stream).inner@,
            final(stream).wf(),
            ({
                let d = old(stream).inner@;
                match r {
                    Ok(b) => spec_parse_url(box_header.box_type, d) matches Ok(v) && b.matches(v),
                    Err(e) => spec_parse_url(box_header.box_type, d) == Err::<DataEntryView, _>(e),
                }
            }),
    {
        let full_box_header = FullBoxHeader::from(stream, box_header)?;
        let mut location = String::new();
        if full_box_header.flags() & 1 != 0 {
            location = stream.read_zero_term_string();
        }
        let b = DataEntryBox { full_box_header, location, name: String::new() };
        proof {
            let d = old(stream).inner@;
            let f = b.full_box_header.flags;
            crate::bbox::iprp::lemma_flag_bit(f, d[1], d[2], d[3]);
            assert((f & 1 != 0) == (f & 1 == 1)) by (bit_vector);
            assert(Seq::<u8>::empty().map_values(|c: u8| c as char) =~= Seq::<char>::empty());
        }
        Ok(b)
    }

    pub fn full_box_header(&self) -> (r: &FullBoxHeader)
        ensures
            r == self.full_box_header,
    {
        &self.full_box_header
    }

    pub fn location(&self) -> (r: &String)
        ensures
            r == self.location,
    {
        &self.location
    }

    pub fn set_location(&mut self, loc: String)
        ensures
            final(self).location == loc,
            final(self).name == old(self).name,
            final(self).full_box_header == old(self).full_box_header,
    {
        self.location = loc;
    }

    pub fn name(&self) -> (r: &String)
        ensures
            r == self.name,
    {
        &self.name
    }

    pub fn set_name(&mut self, name: String)
        ensures
            final(self).name == name,
            final(self).location == old(self).location,
            final(self).full_box_header == old(self).full_box_header,
    {
        self.name = name;
    }
}

/// The data reference box.
#[derive(Debug)]
pub struct DataReferenceBox {
    pub full_box_header: FullBoxHeader,
    pub data_entries: Vec<DataEntryBox>,
}

impl Default for DataReferenceBox {
    fn default() -> (r: DataReferenceBox)
        ensures
            r.data_entries@.len() == 0,
    {
        DataReferenceBox::new()
    }
}

impl DataReferenceBox {
    pub fn new() -> (r: DataReferenceBox)
        ensures
            r.data_entries@.len() == 0,
    {
        DataReferenceBox {
            full_box_header: FullBoxHeader::new(Byte4(0x64, 0x72, 0x65, 0x66), 0, 0),
            data_entries: Vec::new(),
        }
    }

    /// How this box reflects the parsed entry views, pointwise.
    pub open spec fn matches(&self, views: Seq<DataEntryView>) -> bool {
        &&& self.data_entries@.len() == views.len()
        &&& forall|j: int|
            0 <= j < views.len() ==> #[trigger] self.data_entries@[j].matches(views[j])
    }

    /// Reads the box body: version and flags, a 32-bit entry count, then
    /// that many `url ` or `urn ` children; any other child is an unknown
    /// data entry.
    pub fn from_stream_header(stream: &mut BitStream, box_header: BoxHeader) -> (r: Result<
        DataReferenceBox,
        HeifError,
    >)
        requires
            old(stream).wf(),
            old(stream).bit_offset == 0,
        ensures
            final(stream).inner@ == old(stream).inner@,
            final(stream).wf(),
            ({
                let d = old(stream).inner@;
                let p = old(stream).byte_offset as int;
                match r {
                    Ok(b) => {
                        &&& spec_full_from(b.full_box_header, box_header, d, p)
                        &&& spec_parse_dref(d, p) matches Ok(pair) && b.matches(pair.0)
                            && final(stream).byte_offset == pair.1
                    },
                    Err(e) => spec_parse_dref(d, p) == Err::<(Seq<DataEntryView>, int), _>(e),
                }
            }),
    {
        let ghost d = old(stream).inner@;
        let ghost p = old(stream).byte_offset as int;
        let full_box_header = FullBoxHeader::from(stream, box_header)?;
        let entry_count = stream.read_4bytes()?.to_u32();
        let ghost count = entry_count as nat;
        let ghost start = stream.byte_offset as int;
        let mut data_entries: Vec<DataEntryBox> = Vec::new();
        let ghost mut views: Seq<DataEntryView> = Seq::empty();
        let mut i: u32 = 0;
        while i < entry_count
            invariant
                d == old(stream).inner@,
                p == old(stream).byte_offset as int,
                stream.inner@ == d,
                stream.wf(),
                stream.bit_offset == 0,
                i <= entry_count,
                count == entry_count as nat,
                spec_parse_dref(d, p) == spec_parse_dref_entries(d, start, count, Seq::empty()),
                spec_parse_dref_entries(d, start, count, Seq::empty()) == spec_parse_dref_entries(
                    d,
                    stream.byte_offset as int,
                    (count - i) as nat,
                    views,
                ),
                data_entries@.len() == views.len(),
                views.len() == i,
                forall|j: int|
                    0 <= j < views.len() ==> #[trigger] data_entries@[j].matches(views[j]),
            decreases entry_count - i,
        {
            let ghost cur = stream.byte_offset as int;
            let child_box_header = match BoxHeader::from(stream) {
                Ok(h) => h,
                Err(e) => {
                    proof {
                        assert(!spec_child_ok(d, cur));
                        assert(spec_child_err(d, cur) == e);
                    }
                    return Err(e);
                },
            };
            let mut ex = match stream.extract_from(&child_box_header) {
                Ok(x) => x,
                Err(e) => {
                    proof {
                        assert(!spec_child_ok(d, cur));
                        assert(spec_child_err(d, cur) == e);
                    }
                    return Err(e);
                },
            };
            let t = child_box_header.box_type().to_u32();
            let data_entry: DataEntryBox = if t == fourcc::URN_SP {
                DataEntryBox::from_stream_header_urn(&mut ex, child_box_header)?
            } else if t == fourcc::URL_SP {
                DataEntryBox::from_stream_header_url(&mut ex, child_box_header)?
            } else {
                return Err(HeifError::UnknownDataEntry);
            };
            data_entries.push(data_entry);
            proof {
                assert(spec_child_ok(d, cur));
                let t4 = spec_box_type(d, cur);
                let body = spec_child_body(d, cur);
                views = views.push(
                    if t4.value() == fourcc::URN_SP {
                        spec_parse_urn(t4, body)->Ok_0
                    } else {
                        spec_parse_url(t4, body)->Ok_0
                    },
                );
            }
            i = i + 1;
        }
        Ok(DataReferenceBox { full_box_header, data_entries })
    }

    pub fn full_box_header(&self) -> (r: &FullBoxHeader)
        ensures
            r == self.full_box_header,
    {
        &self.full_box_header
    }

    pub fn add_entry(&mut self, entry: DataEntryBox)
        ensures
            final(self).data_entries@ == old(self).data_entries@.push(entry),
            final(self).full_box_header == old(self).full_box_header,
    {
        self.data_entries.push(entry);
    }
}

/// The data information box.
#[derive(Debug)]
pub struct DataInformationBox {
    pub box_header: BoxHeader,
    pub data_reference_box: DataReferenceBox,
}

impl Default for DataInformationBox {
    fn default() -> (r: DataInformationBox)
        ensures
            r.data_reference_box.data_entries@.len() == 0,
    {
        DataInformationBox {
            box_header: BoxHeader::new(Byte4(0x64, 0x69, 0x6E, 0x66)),
            data_reference_box: DataReferenceBox::new(),
        }
    }
}

impl DataInformationBox {
    pub fn new() -> (r: DataInformationBox)
        ensures
            r.data_reference_box.data_entries@.len() == 0,
    {
        DataInformationBox::default()
    }

    /// Reads the box body: nothing, or one child box parsed as `dref`.
    pub fn from_stream_header(stream: &mut BitStream, box_header: BoxHeader) -> (r: Result<
        DataInformationBox,
        HeifError,
    >)
        requires
            old(stream).wf(),
            old(stream).bit_offset == 0,
        ensures
            final(stream).inner@ == old(stream).inner@,
            final(stream).wf(),
            ({
                let d = old(stream).inner@;
                let p = old(stream).byte_offset as int;
                match r {
                    Ok(b) => spec_parse_dinf(d, p) matches Ok(views)
                        && b.data_reference_box.matches(views) && b.box_header == box_header,
                    Err(e) => spec_parse_dinf(d, p) == Err::<Seq<DataEntryView>, _>(e),
                }
            }),
    {
        let ghost d = old(stream).inner@;
        let ghost p = old(stream).byte_offset as int;
        if stream.is_eof() {
            let b = DataInformationBox { box_header, data_reference_box: DataReferenceBox::new() };
            proof {
                assert(b.data_reference_box.matches(Seq::<DataEntryView>::empty()));
            }
            return Ok(b);
        }
        let child_box_header = match BoxHeader::from(stream) {
            Ok(h) => h,
            Err(e) => {
                proof {
                    assert(!spec_child_ok(d, p));
                    assert(spec_child_err(d, p) == e);
                }
                return Err(e);
            },
        };
        let mut ex = match stream.extract_from(&child_box_header) {
            Ok(x) => x,
            Err(e) => {
                proof {
                    assert(!spec_child_ok(d, p));
                    assert(spec_child_err(d, p) == e);
                }
                return Err(e);
            },
        };
        let data_reference_box = DataReferenceBox::from_stream_header(&mut ex, child_box_header)?;
        Ok(DataInformationBox { box_header, data_reference_box })
    }

    pub fn box_header(&self) -> (r: &BoxHeader)
        ensures
            r == self.box_header,
    {
        &self.box_header
    }

    pub fn add_entry(&mut self, entry: DataEntryBox)
        ensures
            final(self).data_reference_box.data_entries@ == old(
                self,
            ).data_reference_box.data_entries@.push(entry),
            final(self).box_header == old(self).box_header,
    {
        self.data_reference_box.add_entry(entry);
    }
}

} // verus!
